//! Sprite animation: a base looping cycle of sprite frames plus an optional
//! transient overlay ([`PlayAnimation`]) driven by height, width or
//! position-offset keyframes, either finite (plays once, then reverts to the
//! base cycle) or time-boxed (loops until its duration runs out).
//!
//! Time is counted in quarter-ticks: every physics tick adds
//! [`TIME_UNITS_PER_TICK`] units, and a frame lasts `time_to_change` units,
//! derived from a rational speed factor as
//! `max(1, ANIM_FRAME_UNITS * den / num)`.
//!
//! Every state is modeled by a view (`AnimateV`, `PlayAnimationV`) over
//! mathematical sequences; the contracts speak of those views.

use vstd::prelude::*;
use crate::config::{TIME_UNITS_PER_TICK, ANIM_FRAME_UNITS, TIME_LIMIT, SPEED_DEN_LIMIT};
use crate::geom::{Vec2i, clamp_int, clamped_add};

verus! {

/// Largest frame list or frame index the animation state machine handles.
pub const FRAMES_LIMIT: usize = 0x1000_0000;

/// The keyframe axis an overlay animation drives.
#[derive(Clone, Debug)]
pub enum FrameType {
    /// Entity heights, in pixels, one per overlay frame.
    Height(Vec<usize>),
    /// Entity widths, in pixels, one per overlay frame.
    Width(Vec<usize>),
    /// Draw offsets, in subpixels, one per overlay frame.
    PosOffset(Vec<Vec2i>),
}

/// The mathematical model of a [`FrameType`].
pub enum FrameTypeV {
    Height(Seq<usize>),
    Width(Seq<usize>),
    PosOffset(Seq<Vec2i>),
}

impl View for FrameType {
    type V = FrameTypeV;

    open spec fn view(&self) -> FrameTypeV {
        match self {
            FrameType::Height(f) => FrameTypeV::Height(f@),
            FrameType::Width(f) => FrameTypeV::Width(f@),
            FrameType::PosOffset(f) => FrameTypeV::PosOffset(f@),
        }
    }
}

/// A transient overlay animation: an optional keyframe axis, the sprite
/// frames to show meanwhile, a cursor, and an optional remaining duration in
/// quarter-ticks (`None` makes the overlay finite: it plays once).
#[derive(Clone, Debug)]
pub struct PlayAnimation {
    pub frame_type: Option<FrameType>,
    pub texture_frames: Vec<u32>,
    pub frame_index: usize,
    pub loop_for: Option<i64>,
}

/// The mathematical model of a [`PlayAnimation`].
#[verifier::ext_equal]
pub struct PlayAnimationV {
    pub frame_type: Option<FrameTypeV>,
    pub texture_frames: Seq<u32>,
    pub frame_index: usize,
    pub loop_for: Option<i64>,
}

impl View for PlayAnimation {
    type V = PlayAnimationV;

    open spec fn view(&self) -> PlayAnimationV {
        PlayAnimationV {
            frame_type: match self.frame_type {
                Some(ft) => Some(ft@),
                None => None,
            },
            texture_frames: self.texture_frames@,
            frame_index: self.frame_index,
            loop_for: self.loop_for,
        }
    }
}

/// How many keyframes the overlay steps through: the length of its keyframe
/// list, or of its sprite list when it has no keyframe axis.
pub open spec fn frame_count(pa: PlayAnimationV) -> nat {
    match pa.frame_type {
        Some(FrameTypeV::Height(f)) => f.len(),
        Some(FrameTypeV::Width(f)) => f.len(),
        Some(FrameTypeV::PosOffset(f)) => f.len(),
        None => pa.texture_frames.len(),
    }
}

/// A well-formed overlay: bounded lists and cursor, and a nonnegative,
/// bounded duration if one is set.
pub open spec fn play_animation_wf(pa: PlayAnimationV) -> bool {
    &&& pa.frame_index <= FRAMES_LIMIT
    &&& pa.texture_frames.len() <= FRAMES_LIMIT
    &&& frame_count(pa) <= FRAMES_LIMIT
    &&& match pa.loop_for {
        Some(lf) => 0 <= lf <= TIME_LIMIT,
        None => true,
    }
}

/// The overlay after one frame advance, and whether it advanced: the cursor
/// moves forward; at the last frame a time-boxed overlay wraps to the first
/// frame and a finite one reports that it is done.
pub open spec fn next_frame_spec(pa: PlayAnimationV) -> (PlayAnimationV, bool) {
    let m = frame_count(pa);
    if pa.frame_index + 1 < m {
        (PlayAnimationV { frame_index: (pa.frame_index + 1) as usize, ..pa }, true)
    } else {
        match pa.loop_for {
            Some(lf) => if lf == 0 {
                (pa, false)
            } else {
                (PlayAnimationV { frame_index: 0, ..pa }, true)
            },
            None => (pa, false),
        }
    }
}

impl PlayAnimation {
    /// An overlay at its first frame.
    pub fn new(frame_type: Option<FrameType>, texture_frames: Vec<u32>, loop_for: Option<i64>) -> (pa: PlayAnimation)
        ensures
            pa@ == (PlayAnimation { frame_type, texture_frames, frame_index: 0, loop_for })@,
            pa.frame_index == 0,
    {
        PlayAnimation { frame_type, texture_frames, frame_index: 0, loop_for }
    }

    /// Advances the cursor by one frame; see [`next_frame_spec`].
    pub fn next_frame(&mut self) -> (advanced: bool)
        requires
            play_animation_wf(old(self)@),
        ensures
            (final(self)@, advanced) == next_frame_spec(old(self)@),
            play_animation_wf(final(self)@),
    {
        let max_index: usize = match &self.frame_type {
            Some(FrameType::Height(frames)) => frames.len(),
            Some(FrameType::Width(frames)) => frames.len(),
            Some(FrameType::PosOffset(frames)) => frames.len(),
            None => self.texture_frames.len(),
        };
        if max_index > 0 && self.frame_index < max_index - 1 {
            self.frame_index = self.frame_index + 1;
            true
        } else {
            match self.loop_for {
                Some(lf) => {
                    if lf == 0 {
                        false
                    } else {
                        self.frame_index = 0;
                        true
                    }
                },
                None => false,
            }
        }
    }
}

/// A builder for [`PlayAnimation`]: at most one keyframe axis; setting one
/// clears the others and rewinds the cursor.
#[derive(Clone, Debug)]
pub struct PlayAnimationBuilder {
    pub loop_for: Option<i64>,
    pub height_frames: Option<Vec<usize>>,
    pub width_frames: Option<Vec<usize>>,
    pub pos_offset_frames: Option<Vec<Vec2i>>,
    pub texture_frames: Vec<u32>,
    pub frame_index: Option<usize>,
}

/// The mathematical model of a [`PlayAnimationBuilder`].
#[verifier::ext_equal]
pub struct PlayAnimationBuilderV {
    pub loop_for: Option<i64>,
    pub height_frames: Option<Seq<usize>>,
    pub width_frames: Option<Seq<usize>>,
    pub pos_offset_frames: Option<Seq<Vec2i>>,
    pub texture_frames: Seq<u32>,
    pub frame_index: Option<usize>,
}

impl View for PlayAnimationBuilder {
    type V = PlayAnimationBuilderV;

    open spec fn view(&self) -> PlayAnimationBuilderV {
        PlayAnimationBuilderV {
            loop_for: self.loop_for,
            height_frames: match self.height_frames {
                Some(ref f) => Some(f@),
                None => None,
            },
            width_frames: match self.width_frames {
                Some(ref f) => Some(f@),
                None => None,
            },
            pos_offset_frames: match self.pos_offset_frames {
                Some(ref f) => Some(f@),
                None => None,
            },
            texture_frames: self.texture_frames@,
            frame_index: self.frame_index,
        }
    }
}

/// The overlay a builder produces: the height axis wins over width, width
/// over position offsets.
pub open spec fn build_spec(b: PlayAnimationBuilderV) -> PlayAnimationV {
    let frame_type = match b.height_frames {
        Some(f) => Some(FrameTypeV::Height(f)),
        None => match b.width_frames {
            Some(f) => Some(FrameTypeV::Width(f)),
            None => match b.pos_offset_frames {
                Some(f) => Some(FrameTypeV::PosOffset(f)),
                None => None,
            },
        },
    };
    PlayAnimationV {
        frame_type,
        texture_frames: b.texture_frames,
        frame_index: match b.frame_index { Some(i) => i, None => 0 },
        loop_for: b.loop_for,
    }
}

impl PlayAnimationBuilder {
    /// A builder with no keyframe axis and no duration.
    pub fn new(texture_frames: Vec<u32>) -> (b: PlayAnimationBuilder)
        ensures
            b@ == (PlayAnimationBuilderV {
                loop_for: None,
                height_frames: None,
                width_frames: None,
                pos_offset_frames: None,
                texture_frames: texture_frames@,
                frame_index: None,
            }),
    {
        let b = PlayAnimationBuilder {
            loop_for: None,
            height_frames: None,
            width_frames: None,
            pos_offset_frames: None,
            texture_frames,
            frame_index: None,
        };
        assert(b@ =~= (PlayAnimationBuilderV {
            loop_for: None,
            height_frames: None,
            width_frames: None,
            pos_offset_frames: None,
            texture_frames: b.texture_frames@,
            frame_index: None,
        }));
        b
    }

    /// Makes the overlay time-boxed: it loops for `loop_for` quarter-ticks.
    pub fn loop_for(self, loop_for: i64) -> (b: Self)
        ensures
            b@ == (PlayAnimationBuilderV { loop_for: Some(loop_for), ..self@ }),
    {
        let b = PlayAnimationBuilder { loop_for: Some(loop_for), ..self };
        assert(b@ =~= (PlayAnimationBuilderV { loop_for: Some(loop_for), ..b@ }));
        b
    }

    /// Drives the overlay by height keyframes.
    pub fn height_frames(self, frames: Vec<usize>) -> (b: Self)
        ensures
            b@ == (PlayAnimationBuilderV {
                height_frames: Some(frames@),
                width_frames: None,
                pos_offset_frames: None,
                frame_index: Some(0),
                ..self@
            }),
    {
        PlayAnimationBuilder {
            height_frames: Some(frames),
            width_frames: None,
            pos_offset_frames: None,
            frame_index: Some(0),
            ..self
        }
    }

    /// Drives the overlay by width keyframes.
    pub fn width_frames(self, frames: Vec<usize>) -> (b: Self)
        ensures
            b@ == (PlayAnimationBuilderV {
                width_frames: Some(frames@),
                height_frames: None,
                pos_offset_frames: None,
                frame_index: Some(0),
                ..self@
            }),
    {
        PlayAnimationBuilder {
            width_frames: Some(frames),
            height_frames: None,
            pos_offset_frames: None,
            frame_index: Some(0),
            ..self
        }
    }

    /// Drives the overlay by draw-offset keyframes.
    pub fn pos_offset_frames(self, frames: Vec<Vec2i>) -> (b: Self)
        ensures
            b@ == (PlayAnimationBuilderV {
                pos_offset_frames: Some(frames@),
                height_frames: None,
                width_frames: None,
                frame_index: Some(0),
                ..self@
            }),
    {
        PlayAnimationBuilder {
            pos_offset_frames: Some(frames),
            height_frames: None,
            width_frames: None,
            frame_index: Some(0),
            ..self
        }
    }

    /// Finishes the overlay; see [`build_spec`].
    pub fn build(self) -> (pa: PlayAnimation)
        ensures
            pa@ == build_spec(self@),
    {
        let frame_type = match self.height_frames {
            Some(frames) => Some(FrameType::Height(frames)),
            None => match self.width_frames {
                Some(frames) => Some(FrameType::Width(frames)),
                None => match self.pos_offset_frames {
                    Some(frames) => Some(FrameType::PosOffset(frames)),
                    None => None,
                },
            },
        };
        PlayAnimation {
            frame_type,
            texture_frames: self.texture_frames,
            frame_index: match self.frame_index { Some(i) => i, None => 0 },
            loop_for: self.loop_for,
        }
    }
}

/// The animation state of one entity: the base looping sprite cycle, an
/// optional overlay, and the frame clock.
#[derive(Clone, Debug)]
pub struct Animate {
    pub frames: Vec<u32>,
    pub animation: Option<PlayAnimation>,
    pub current_frame_index: usize,
    pub speed_num: i64,
    pub speed_den: i64,
    pub time_to_change: i64,
    pub time_elapsed: i64,
}

/// The mathematical model of an [`Animate`] state.
#[verifier::ext_equal]
pub struct AnimateV {
    pub frames: Seq<u32>,
    pub animation: Option<PlayAnimationV>,
    pub current_frame_index: usize,
    pub speed_num: i64,
    pub speed_den: i64,
    pub time_to_change: i64,
    pub time_elapsed: i64,
}

impl View for Animate {
    type V = AnimateV;

    open spec fn view(&self) -> AnimateV {
        AnimateV {
            frames: self.frames@,
            animation: match self.animation {
                Some(ref pa) => Some(pa@),
                None => None,
            },
            current_frame_index: self.current_frame_index,
            speed_num: self.speed_num,
            speed_den: self.speed_den,
            time_to_change: self.time_to_change,
            time_elapsed: self.time_elapsed,
        }
    }
}

/// The frame duration, in quarter-ticks, for speed factor `num / den`.
pub open spec fn ttc_spec(num: int, den: int) -> int {
    let t = ANIM_FRAME_UNITS * den / num;
    if t < 1 { 1 } else { t }
}

/// A well-formed animation state: a positive, bounded speed factor with its
/// derived frame duration, a bounded clock and bounded frame lists.
pub open spec fn animate_wf(a: AnimateV) -> bool {
    &&& 0 < a.speed_num
    &&& 0 < a.speed_den <= SPEED_DEN_LIMIT
    &&& a.time_to_change == ttc_spec(a.speed_num as int, a.speed_den as int)
    &&& -TIME_LIMIT <= a.time_elapsed <= TIME_LIMIT
    &&& a.current_frame_index <= FRAMES_LIMIT
    &&& a.frames.len() <= FRAMES_LIMIT
    &&& match a.animation {
        Some(pa) => play_animation_wf(pa),
        None => true,
    }
}

/// The state after switching the base cycle to `nf`: a genuinely different
/// list rewinds the cursor and the clock, the same list is a no-op.
pub open spec fn change_sprites_spec(a: AnimateV, nf: Seq<u32>) -> AnimateV {
    if nf != a.frames {
        AnimateV { frames: nf, current_frame_index: 0, time_elapsed: 0, ..a }
    } else {
        a
    }
}

/// The state after installing `pa` as the overlay.
pub open spec fn play_animation_spec(a: AnimateV, pa: PlayAnimationV) -> AnimateV {
    AnimateV { animation: Some(pa), current_frame_index: 0, time_elapsed: 0, ..a }
}

/// The state after changing the speed factor to `num / den`: the frame
/// duration is rederived, the clock keeps its elapsed time.
pub open spec fn scale_speed_spec(a: AnimateV, num: i64, den: i64) -> AnimateV {
    AnimateV {
        speed_num: num,
        speed_den: den,
        time_to_change: ttc_spec(num as int, den as int) as i64,
        ..a
    }
}

/// One tick of the animation clock. The clock gains a tick's quarter-ticks;
/// when it reaches the frame duration, a time-boxed overlay either expires
/// (reverting to the base cycle with the cursor rewound) or advances and
/// shortens its remaining duration; a finite overlay advances until its last
/// frame and then reverts; with no overlay the base cycle steps cyclically.
pub open spec fn animate_step(a: AnimateV) -> AnimateV {
    let te1 = clamp_int(a.time_elapsed + TIME_UNITS_PER_TICK, -TIME_LIMIT as int, TIME_LIMIT as int);
    if te1 < a.time_to_change {
        AnimateV { time_elapsed: te1 as i64, ..a }
    } else {
        match a.animation {
            Some(pa) => match pa.loop_for {
                Some(lf) => if te1 >= lf {
                    AnimateV { animation: None, current_frame_index: 0, time_elapsed: 0, ..a }
                } else {
                    let pa2 = next_frame_spec(pa).0;
                    let pa3 = PlayAnimationV { loop_for: Some((lf - te1) as i64), ..pa2 };
                    AnimateV {
                        animation: Some(pa3),
                        time_elapsed: (te1 - a.time_to_change) as i64,
                        ..a
                    }
                },
                None => {
                    let stepped = next_frame_spec(pa);
                    if stepped.1 {
                        AnimateV {
                            animation: Some(stepped.0),
                            time_elapsed: (te1 - a.time_to_change) as i64,
                            ..a
                        }
                    } else {
                        AnimateV {
                            animation: None,
                            current_frame_index: 0,
                            time_elapsed: (0 - a.time_to_change) as i64,
                            ..a
                        }
                    }
                },
            },
            None => {
                let cfi = if a.frames.len() > 1 {
                    ((a.current_frame_index + 1) % (a.frames.len() as int)) as usize
                } else {
                    a.current_frame_index as usize
                };
                AnimateV {
                    current_frame_index: cfi,
                    time_elapsed: (te1 - a.time_to_change) as i64,
                    ..a
                }
            },
        }
    }
}

impl Animate {
    /// An empty animation state at speed factor `speed_num / speed_den`.
    pub fn new(speed_num: i64, speed_den: i64) -> (a: Animate)
        requires
            0 < speed_num,
            0 < speed_den <= SPEED_DEN_LIMIT,
        ensures
            a@ == (AnimateV {
                frames: Seq::<u32>::empty(),
                animation: None,
                current_frame_index: 0,
                speed_num,
                speed_den,
                time_to_change: ttc_spec(speed_num as int, speed_den as int) as i64,
                time_elapsed: 0,
            }),
            animate_wf(a@),
    {
        let t: i64 = ANIM_FRAME_UNITS * speed_den / speed_num;
        let ttc: i64 = if t < 1 { 1 } else { t };
        let a = Animate {
            frames: Vec::new(),
            animation: None,
            current_frame_index: 0,
            speed_num,
            speed_den,
            time_to_change: ttc,
            time_elapsed: 0,
        };
        assert(a@ =~= (AnimateV {
            frames: Seq::<u32>::empty(),
            animation: None,
            current_frame_index: 0,
            speed_num,
            speed_den,
            time_to_change: ttc,
            time_elapsed: 0,
        }));
        a
    }

    /// Switches the base cycle to `new_frames`; see [`change_sprites_spec`].
    pub fn change_animation_sprites(&mut self, new_frames: Vec<u32>)
        requires
            animate_wf(old(self)@),
            new_frames@.len() <= FRAMES_LIMIT,
        ensures
            final(self)@ == change_sprites_spec(old(self)@, new_frames@),
            animate_wf(final(self)@),
    {
        if !frame_lists_equal(&new_frames, &self.frames) {
            self.frames = new_frames;
            self.current_frame_index = 0;
            self.time_elapsed = 0;
            assert(final(self)@ =~= change_sprites_spec(old(self)@, final(self).frames@));
        } else {
            assert(final(self)@ =~= change_sprites_spec(old(self)@, new_frames@));
        }
    }

    /// Installs `animation` as the overlay; see [`play_animation_spec`].
    pub fn play_animation(&mut self, animation: PlayAnimation)
        requires
            animate_wf(old(self)@),
            play_animation_wf(animation@),
        ensures
            final(self)@ == play_animation_spec(old(self)@, animation@),
            animate_wf(final(self)@),
    {
        let ghost pav = animation@;
        self.animation = Some(animation);
        self.current_frame_index = 0;
        self.time_elapsed = 0;
        assert(final(self)@ =~= play_animation_spec(old(self)@, pav));
    }

    /// Changes the speed factor to `num / den`; see [`scale_speed_spec`].
    pub fn scale_animation_speed(&mut self, num: i64, den: i64)
        requires
            animate_wf(old(self)@),
            0 < num,
            0 < den <= SPEED_DEN_LIMIT,
        ensures
            final(self)@ == scale_speed_spec(old(self)@, num, den),
            animate_wf(final(self)@),
    {
        let t: i64 = ANIM_FRAME_UNITS * den / num;
        self.speed_num = num;
        self.speed_den = den;
        self.time_to_change = if t < 1 { 1 } else { t };
        assert(final(self)@ =~= scale_speed_spec(old(self)@, num, den));
    }

    /// Drops the overlay and rewinds the cursor and the clock.
    pub fn reset_animation(&mut self)
        ensures
            final(self)@ == (AnimateV {
                animation: None,
                current_frame_index: 0,
                time_elapsed: 0,
                ..old(self)@
            }),
    {
        self.animation = None;
        self.current_frame_index = 0;
        self.time_elapsed = 0;
        assert(final(self)@ =~= (AnimateV {
            animation: None,
            current_frame_index: 0,
            time_elapsed: 0,
            ..old(self)@
        }));
    }

    /// Advances the animation clock by one physics tick; see [`animate_step`].
    pub fn update(&mut self)
        requires
            animate_wf(old(self)@),
        ensures
            final(self)@ == animate_step(old(self)@),
            animate_wf(final(self)@),
    {
        self.time_elapsed = clamped_add(self.time_elapsed, TIME_UNITS_PER_TICK, TIME_LIMIT);
        if self.time_elapsed < self.time_to_change {
            assert(final(self)@ =~= animate_step(old(self)@));
            return;
        }
        let te: i64 = self.time_elapsed;
        let ttc: i64 = self.time_to_change;
        let mut reset = false;
        let mut subtract = true;
        match &mut self.animation {
            Some(pa) => {
                match pa.loop_for {
                    Some(lf) => {
                        if te >= lf {
                            reset = true;
                            subtract = false;
                        } else {
                            pa.next_frame();
                            pa.loop_for = Some(lf - te);
                        }
                    },
                    None => {
                        if !pa.next_frame() {
                            reset = true;
                        }
                    },
                }
            },
            None => {
                if self.frames.len() > 1 {
                    self.current_frame_index = (self.current_frame_index + 1) % self.frames.len();
                }
            },
        }
        if reset {
            self.animation = None;
            self.current_frame_index = 0;
            self.time_elapsed = 0;
        }
        if subtract {
            self.time_elapsed = self.time_elapsed - ttc;
        }
        assert(final(self)@ =~~= animate_step(old(self)@));
    }

    /// The sprite to draw now: the overlay's frame list indexed by the
    /// cursor while an overlay is installed, else the base cycle's.
    pub fn current_texture_frame(&self) -> (r: Option<u32>)
        ensures
            r == current_frame_spec(self@),
    {
        match &self.animation {
            Some(animation) => {
                if self.current_frame_index < animation.texture_frames.len() {
                    Some(animation.texture_frames[self.current_frame_index])
                } else {
                    None
                }
            },
            None => {
                if self.current_frame_index < self.frames.len() {
                    Some(self.frames[self.current_frame_index])
                } else {
                    None
                }
            },
        }
    }
}

/// The sprite an animation state shows; see
/// [`Animate::current_texture_frame`].
pub open spec fn current_frame_spec(a: AnimateV) -> Option<u32> {
    match a.animation {
        Some(pa) => if a.current_frame_index < pa.texture_frames.len() {
            Some(pa.texture_frames[a.current_frame_index as int])
        } else {
            None
        },
        None => if a.current_frame_index < a.frames.len() {
            Some(a.frames[a.current_frame_index as int])
        } else {
            None
        },
    }
}

/// Whether two sprite lists hold the same frames in the same order.
pub fn frame_lists_equal(a: &Vec<u32>, b: &Vec<u32>) -> (r: bool)
    ensures
        r == (a@ == b@),
{
    if a.len() != b.len() {
        assert(a@ != b@);
        return false;
    }
    let n: usize = a.len();
    let mut i: usize = 0;
    while i < n
        invariant
            i <= n,
            n == a@.len() == b@.len(),
            forall|j: int| 0 <= j < i ==> a@[j] == b@[j],
        decreases n - i,
    {
        if a[i] != b[i] {
            assert(a@ != b@);
            return false;
        }
        i = i + 1;
    }
    assert(a@ =~= b@);
    true
}

/// A copy of a sprite list.
pub fn copied_frames(v: &Vec<u32>) -> (r: Vec<u32>)
    ensures
        r@ == v@,
{
    let mut r: Vec<u32> = Vec::new();
    let n: usize = v.len();
    let mut i: usize = 0;
    while i < n
        invariant
            i <= n,
            n == v@.len(),
            r@ == v@.take(i as int),
        decreases n - i,
    {
        r.push(v[i]);
        proof {
            assert(r@ =~= v@.take(i + 1));
        }
        i = i + 1;
    }
    proof {
        assert(v@.take(n as int) =~= v@);
    }
    r
}

/// The animation state after `n` ticks of the clock.
pub open spec fn animate_iter(a: AnimateV, n: nat) -> AnimateV
    decreases n,
{
    if n == 0 {
        a
    } else {
        animate_step(animate_iter(a, (n - 1) as nat))
    }
}

/// While a freshly installed finite overlay of `m` frames runs, and the frame
/// duration is at most one tick so that every tick advances it: after `j < m`
/// ticks the overlay is still installed, its cursor stands at frame `j`, and
/// the clock holds the accumulated remainder.
proof fn lemma_finite_overlay_progress(a: AnimateV, pa: PlayAnimationV, j: nat)
    requires
        animate_wf(a),
        a.time_elapsed == 0,
        1 <= a.time_to_change <= TIME_UNITS_PER_TICK,
        a.animation == Some(pa),
        pa.loop_for is None,
        pa.frame_index == 0,
        frame_count(pa) >= 1,
        j < frame_count(pa),
    ensures
        animate_iter(a, j) == (AnimateV {
            animation: Some(PlayAnimationV { frame_index: j as usize, ..pa }),
            time_elapsed: (j * (TIME_UNITS_PER_TICK - a.time_to_change)) as i64,
            ..a
        }),
    decreases j,
{
    if j == 0 {
        assert(animate_iter(a, 0) == a);
        assert(a =~= (AnimateV {
            animation: Some(PlayAnimationV { frame_index: 0 as usize, ..pa }),
            time_elapsed: (0 * (TIME_UNITS_PER_TICK - a.time_to_change)) as i64,
            ..a
        }));
    } else {
        lemma_finite_overlay_progress(a, pa, (j - 1) as nat);
        let prev = animate_iter(a, (j - 1) as nat);
        let gap = TIME_UNITS_PER_TICK - a.time_to_change;
        assert((j - 1) * gap + gap == j * gap) by (nonlinear_arith);
        assert(0 <= (j - 1) * gap <= 3 * (j - 1)) by (nonlinear_arith)
            requires
                0 <= gap <= 3,
                j >= 1,
        ;
        assert(0 <= j * gap <= 3 * j) by (nonlinear_arith)
            requires
                0 <= gap <= 3,
                j >= 0,
        ;
        assert(animate_iter(a, j) == animate_step(prev));
        assert(animate_iter(a, j) =~= (AnimateV {
            animation: Some(PlayAnimationV { frame_index: j as usize, ..pa }),
            time_elapsed: (j * gap) as i64,
            ..a
        }));
    }
}

/// Round trip of a finite overlay: install it fresh, tick the clock exactly
/// its frame count (with a frame duration of at most one tick, so every tick
/// advances a frame), and the entity is back on its base cycle with the
/// cursor rewound to 0.
pub proof fn lemma_finite_overlay_round_trip(a: AnimateV, pa: PlayAnimationV, n: nat)
    requires
        animate_wf(a),
        a.time_elapsed == 0,
        1 <= a.time_to_change <= TIME_UNITS_PER_TICK,
        a.animation == Some(pa),
        pa.loop_for is None,
        pa.frame_index == 0,
        n == frame_count(pa),
        n >= 1,
    ensures
        animate_iter(a, n).animation is None,
        animate_iter(a, n).current_frame_index == 0,
{
    lemma_finite_overlay_progress(a, pa, (n - 1) as nat);
    let prev = animate_iter(a, (n - 1) as nat);
    assert(0 <= (n - 1) * (TIME_UNITS_PER_TICK - a.time_to_change) <= 3 * (n - 1)) by (nonlinear_arith)
        requires
            0 <= TIME_UNITS_PER_TICK - a.time_to_change <= 3,
            n >= 1,
    ;
    assert(animate_iter(a, n) == animate_step(prev));
}

} // verus!
