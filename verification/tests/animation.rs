//! The animation clock, the base sprite cycle and the overlay state machine.

use rustario::animation::{Animate, FrameType, PlayAnimationBuilder};
use rustario::geom::Vec2i;

#[test]
fn base_cycle_advances_every_five_ticks_at_unit_speed() {
    let mut a = Animate::new(1, 1);
    a.change_animation_sprites(vec![7, 8, 9]);
    assert_eq!(a.time_to_change, 20); // five ticks, in quarter-ticks
    for _ in 0..4 {
        a.update();
        assert_eq!(a.current_frame_index, 0);
    }
    a.update(); // the fifth tick crosses the frame duration
    assert_eq!(a.current_frame_index, 1);
    assert_eq!(a.current_texture_frame(), Some(8));
    for _ in 0..10 {
        a.update();
    }
    assert_eq!(a.current_frame_index, 0); // wrapped around the three frames
}

#[test]
fn changing_to_the_same_frames_is_a_no_op() {
    let mut a = Animate::new(1, 1);
    a.change_animation_sprites(vec![1, 2]);
    for _ in 0..5 {
        a.update();
    }
    assert_eq!(a.current_frame_index, 1);
    a.change_animation_sprites(vec![1, 2]); // same list: cursor survives
    assert_eq!(a.current_frame_index, 1);
    a.change_animation_sprites(vec![3]); // a new list rewinds
    assert_eq!(a.current_frame_index, 0);
    assert_eq!(a.current_texture_frame(), Some(3));
}

#[test]
fn speed_factor_scales_frame_duration() {
    let mut a = Animate::new(1, 1);
    a.scale_animation_speed(2, 1); // double speed: 2.5 ticks per frame
    assert_eq!(a.time_to_change, 10);
    a.scale_animation_speed(4, 5); // factor 0.8: 6.25 ticks per frame
    assert_eq!(a.time_to_change, 25);
    a.scale_animation_speed(1000000, 1); // absurd speed still takes a unit
    assert_eq!(a.time_to_change, 1);
}

#[test]
fn finite_overlay_reverts_after_its_frame_count() {
    // P4, round trip: a finite overlay ticked exactly its frame count
    // reverts to the base cycle with the cursor rewound to 0.
    let mut a = Animate::new(20, 1); // frame duration of one quarter-tick
    a.change_animation_sprites(vec![40]);
    let overlay = PlayAnimationBuilder::new(vec![41])
        .pos_offset_frames(vec![
            Vec2i::new(0, -240),
            Vec2i::new(0, -480),
            Vec2i::new(0, -240),
        ])
        .build();
    a.play_animation(overlay);
    assert!(a.animation.is_some());
    a.update();
    a.update();
    assert!(a.animation.is_some()); // two of three frames played
    a.update(); // the third tick exhausts the overlay
    assert!(a.animation.is_none());
    assert_eq!(a.current_frame_index, 0);
    assert_eq!(a.current_texture_frame(), Some(40)); // back on the base cycle
}

#[test]
fn time_boxed_overlay_expires_by_duration() {
    let mut a = Animate::new(20, 1);
    a.change_animation_sprites(vec![50]);
    let overlay = PlayAnimationBuilder::new(vec![51])
        .loop_for(9) // just over two ticks' worth of quarter-ticks
        .height_frames(vec![16, 32])
        .build();
    a.play_animation(overlay);
    a.update(); // clock 4 < 9: advances and shortens the window
    assert!(a.animation.is_some());
    a.update(); // clock reaches 8 >= remaining 5: expires
    assert!(a.animation.is_none());
    assert_eq!(a.current_frame_index, 0);
}

#[test]
fn builder_keeps_one_keyframe_axis() {
    let pa = PlayAnimationBuilder::new(vec![1])
        .height_frames(vec![16, 32])
        .pos_offset_frames(vec![Vec2i::new(0, -240)])
        .build();
    match pa.frame_type {
        Some(FrameType::PosOffset(ref f)) => assert_eq!(f.len(), 1),
        _ => panic!("the last axis set should win"),
    }
    assert_eq!(pa.frame_index, 0);
    assert!(pa.loop_for.is_none());
}

#[test]
fn next_frame_walks_and_reports_the_end() {
    let mut pa = PlayAnimationBuilder::new(vec![1])
        .height_frames(vec![16, 24, 32])
        .build();
    assert!(pa.next_frame());
    assert!(pa.next_frame());
    assert_eq!(pa.frame_index, 2);
    assert!(!pa.next_frame()); // finite: the last frame ends it
    let mut looped = PlayAnimationBuilder::new(vec![1])
        .loop_for(100)
        .height_frames(vec![16, 32])
        .build();
    assert!(looped.next_frame());
    assert!(looped.next_frame()); // time-boxed: wraps to the start instead
    assert_eq!(looped.frame_index, 0);
}
