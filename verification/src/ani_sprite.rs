//! The animation core: a timed frame-index generator and the sprite that
//! drives a playlist of such generators.
//!
//! Time is counted in integer microseconds and playback rates in thousandths
//! of frames per second. The frame offset reached after `elapsed_us`
//! microseconds at `fps_milli` thousandths of a frame per second is exactly
//! `floor(elapsed_us * fps_milli / 1_000_000_000)`, so every transition is a
//! pure function of the accumulated time.

use vstd::arithmetic::div_mod::{
    lemma_div_is_ordered, lemma_fundamental_div_mod, lemma_mod_division_less_than_divisor,
    lemma_multiply_divide_lt,
};
use vstd::arithmetic::mul::{
    lemma_mul_by_zero_is_zero, lemma_mul_inequality, lemma_mul_upper_bound,
};
use vstd::prelude::*;

use crate::SpriteError;

verus! {

/// Microseconds per second times thousandths per unit: the divisor that turns
/// `elapsed_us * fps_milli` into a whole number of frames.
pub const OFFSET_DIVISOR: u64 = 1_000_000_000;

/// The number of whole frames passed after `elapsed_us` microseconds at a rate
/// of `fps_milli` thousandths of frames per second.
pub open spec fn frame_offset_of(elapsed_us: u64, fps_milli: u32) -> int {
    (elapsed_us as int * fps_milli as int) / (OFFSET_DIVISOR as int)
}

/// `a + b`, stopping at the largest representable value.
pub open spec fn sat_add_u64(a: u64, b: u64) -> u64 {
    if a + b > u64::MAX {
        u64::MAX
    } else {
        (a + b) as u64
    }
}

/// Contains the necessary information to semi-automatically animate the
/// AniSprite.
#[derive(Clone, Copy, Debug, PartialEq, Eq, Structural)]
pub struct Animation {
    /// Suspends time accumulation and frame advancement.
    pub paused: bool,
    /// Wrap around at the end instead of clamping there.
    pub looping: bool,
    /// The frame this animation starts with.
    pub from: u32,
    /// The last frame of the animation, or the frame it wraps around again in
    /// case of looping. `to < from` plays the animation backward.
    pub to: u32,
    /// Playback rate in thousandths of frames per second.
    pub fps_milli: u32,
    /// The last computed absolute frame index.
    pub cur_frame: u32,
    /// Accumulated play time in microseconds.
    pub elapsed_us: u64,
}

impl Animation {
    /// The lower of the two frame bounds.
    pub open spec fn lo(self) -> u32 {
        if self.from <= self.to {
            self.from
        } else {
            self.to
        }
    }

    /// The higher of the two frame bounds.
    pub open spec fn hi(self) -> u32 {
        if self.from <= self.to {
            self.to
        } else {
            self.from
        }
    }

    /// The number of frames in the animation, both bounds included.
    pub open spec fn span(self) -> int {
        self.hi() - self.lo() + 1
    }

    /// The whole-frame offset reached by the accumulated time.
    pub open spec fn frame_offset(self) -> int {
        frame_offset_of(self.elapsed_us, self.fps_milli)
    }

    /// The terminal frame has been reached. Always false when looping.
    pub open spec fn finished_spec(self) -> bool {
        !self.looping && self.cur_frame == self.to
    }

    /// The terminal frame has been reached and displayed for its whole
    /// duration. Always false when looping.
    pub open spec fn finished_with_last_spec(self) -> bool {
        !self.looping && self.frame_offset() >= self.span()
    }

    /// The absolute frame that a non-negative whole-frame offset maps to:
    /// wrapped into the frame range when looping, clamped at the terminal
    /// frame otherwise, moving from `from` toward `to`.
    pub open spec fn target_frame(self, offset: int) -> u32 {
        if self.looping {
            let ranged = offset % self.span();
            if self.to >= self.from {
                (self.from + ranged) as u32
            } else {
                (self.from - ranged) as u32
            }
        } else {
            if offset >= self.span() - 1 {
                self.to
            } else {
                if self.to >= self.from {
                    (self.from + offset) as u32
                } else {
                    (self.from - offset) as u32
                }
            }
        }
    }

    /// Validity: a positive playback rate, the current frame within the frame
    /// range, and a fully-displayed terminal state only with the current frame
    /// pinned at the terminal frame.
    pub open spec fn wf(self) -> bool {
        &&& self.fps_milli >= 1
        &&& self.lo() <= self.cur_frame <= self.hi()
        &&& (self.finished_with_last_spec() ==> self.cur_frame == self.to)
    }

    /// The state after an update by `dt_us` microseconds: unchanged when
    /// paused or already fully displayed, otherwise the time accumulates and
    /// the current frame follows the new offset.
    pub open spec fn step_spec(self, dt_us: u64) -> Animation {
        if self.paused || self.finished_with_last_spec() {
            self
        } else {
            let stepped = Animation { elapsed_us: sat_add_u64(self.elapsed_us, dt_us), ..self };
            Animation { cur_frame: stepped.target_frame(stepped.frame_offset()), ..stepped }
        }
    }

    /// The state after a reset: time zeroed and the current frame back at
    /// `from`.
    pub open spec fn reset_spec(self) -> Animation {
        Animation { elapsed_us: 0, cur_frame: self.from, ..self }
    }

    /// The whole-frame offset reached by the accumulated time, computed
    /// exactly in 128-bit arithmetic.
    fn compute_offset(&self) -> (r: u128)
        ensures
            r == self.frame_offset(),
    {
        proof {
            lemma_mul_upper_bound(
                self.elapsed_us as int,
                u64::MAX as int,
                self.fps_milli as int,
                u32::MAX as int,
            );
        }
        (self.elapsed_us as u128) * (self.fps_milli as u128) / (OFFSET_DIVISOR as u128)
    }

    /// Create a new animation that starts running as soon as it is assigned to
    /// an AniSprite. A playback rate of zero is an invalid configuration.
    pub fn new_immediate(from: u32, to: u32, fps_milli: u32, looping: bool) -> (r: Result<
        Animation,
        SpriteError,
    >)
        ensures
            fps_milli == 0 <==> r == Err::<Animation, SpriteError>(
                SpriteError::InvalidConfiguration,
            ),
            fps_milli >= 1 ==> r == Ok::<Animation, SpriteError>(
                Animation {
                    paused: false,
                    looping,
                    from,
                    to,
                    fps_milli,
                    cur_frame: from,
                    elapsed_us: 0,
                },
            ),
            r matches Ok(a) ==> a.wf(),
    {
        if fps_milli == 0 {
            return Err(SpriteError::InvalidConfiguration);
        }
        Ok(
            Animation {
                paused: false,
                looping,
                from,
                to,
                fps_milli,
                cur_frame: from,
                elapsed_us: 0,
            },
        )
    }

    /// Create a new animation that is not supposed to automatically start
    /// running, but is used to be preemptively assigned to an AniSprite. A
    /// playback rate of zero is an invalid configuration.
    pub fn new_dormant(from: u32, to: u32, fps_milli: u32, looping: bool) -> (r: Result<
        Animation,
        SpriteError,
    >)
        ensures
            fps_milli == 0 <==> r == Err::<Animation, SpriteError>(
                SpriteError::InvalidConfiguration,
            ),
            fps_milli >= 1 ==> r == Ok::<Animation, SpriteError>(
                Animation {
                    paused: true,
                    looping,
                    from,
                    to,
                    fps_milli,
                    cur_frame: from,
                    elapsed_us: 0,
                },
            ),
            r matches Ok(a) ==> a.wf(),
    {
        if fps_milli == 0 {
            return Err(SpriteError::InvalidConfiguration);
        }
        Ok(
            Animation {
                paused: true,
                looping,
                from,
                to,
                fps_milli,
                cur_frame: from,
                elapsed_us: 0,
            },
        )
    }

    /// Reset the Animation to its starting point.
    pub fn reset(&mut self)
        ensures
            *final(self) == old(self).reset_spec(),
            old(self).fps_milli >= 1 ==> final(self).wf(),
    {
        self.elapsed_us = 0;
        self.cur_frame = self.from;
    }

    /// Returns true if the animation is finished. The last frame must have
    /// been reached, but need not have been shown in its full duration for the
    /// function to return true.
    pub fn finished(&self) -> (r: bool)
        ensures
            r == self.finished_spec(),
    {
        if self.looping {
            false
        } else {
            self.cur_frame == self.to
        }
    }

    /// Like finished, but the last frame must have been shown for the complete
    /// duration it was assigned to.
    pub fn finished_with_last(&self) -> (r: bool)
        ensures
            r == self.finished_with_last_spec(),
    {
        if self.looping {
            false
        } else {
            let offset: u128 = self.compute_offset();
            let span: u64 = if self.to >= self.from {
                (self.to - self.from) as u64 + 1
            } else {
                (self.from - self.to) as u64 + 1
            };
            offset >= span as u128
        }
    }

    /// Update the animation by the given time in microseconds. If the frame
    /// changes, it is returned. If the frame stays the same, None is returned.
    pub fn update(&mut self, dt_us: u64) -> (r: Option<u32>)
        requires
            old(self).wf(),
        ensures
            *final(self) == old(self).step_spec(dt_us),
            final(self).wf(),
            r == (if final(self).cur_frame != old(self).cur_frame {
                Some(final(self).cur_frame)
            } else {
                None::<u32>
            }),
    {
        proof {
            lemma_step_spec_wf(*old(self), dt_us);
        }
        if self.paused || self.finished_with_last() {
            return None;
        }

        self.elapsed_us = if dt_us > u64::MAX - self.elapsed_us {
            u64::MAX
        } else {
            self.elapsed_us + dt_us
        };

        // The number of the frame that is reached. This must be adjusted by
        // taking the from and to frame into account.
        let offset: u128 = self.compute_offset();
        let span: u64 = if self.to >= self.from {
            (self.to - self.from) as u64 + 1
        } else {
            (self.from - self.to) as u64 + 1
        };

        let new_frame: u32;
        if self.looping {
            // The frame offset, wrapped into the loop instance that is
            // currently running.
            let ranged: u128 = offset % (span as u128);
            proof {
                lemma_mod_division_less_than_divisor(offset as int, span as int);
            }
            let ranged32: u32 = ranged as u32;

            // Add or subtract the wrapped offset, depending on the animation
            // direction.
            new_frame = if self.to >= self.from {
                self.from + ranged32
            } else {
                self.from - ranged32
            };
        } else {
            if offset >= (span - 1) as u128 {
                // Since we are not looping, stay pinned at the terminal frame.
                new_frame = self.to;
            } else {
                let offset32: u32 = offset as u32;
                new_frame = if self.to >= self.from {
                    self.from + offset32
                } else {
                    self.from - offset32
                };
            }
        }

        // Report the frame only when it changed.
        if new_frame != self.cur_frame {
            self.cur_frame = new_frame;
            Some(new_frame)
        } else {
            None
        }
    }
}

/// A fully-displayed terminal state is in particular a reached terminal
/// state: on a valid animation, `finished_with_last` implies `finished`.
pub proof fn lemma_finished_with_last_implies_finished(a: Animation)
    requires
        a.wf(),
        a.finished_with_last_spec(),
    ensures
        a.finished_spec(),
{
}

/// A looping animation never reports either form of completion, whatever its
/// accumulated time and current frame are; and since updates keep it looping,
/// this holds under any sequence of updates.
pub proof fn lemma_looping_never_finishes(a: Animation, dt_us: u64)
    requires
        a.looping,
    ensures
        !a.finished_spec(),
        !a.finished_with_last_spec(),
        a.step_spec(dt_us).looping,
{
}

/// Resetting twice in a row is equivalent to resetting once.
pub proof fn lemma_reset_idempotent(a: Animation)
    ensures
        a.reset_spec().reset_spec() == a.reset_spec(),
{
}

/// Growing the accumulated time never lowers the whole-frame offset.
proof fn lemma_offset_monotonic(e1: u64, e2: u64, fps_milli: u32)
    requires
        e1 <= e2,
    ensures
        frame_offset_of(e1, fps_milli) <= frame_offset_of(e2, fps_milli),
{
    lemma_mul_inequality(e1 as int, e2 as int, fps_milli as int);
    lemma_div_is_ordered(
        e1 as int * fps_milli as int,
        e2 as int * fps_milli as int,
        OFFSET_DIVISOR as int,
    );
}

/// Time accumulation is associative: for a non-paused animation, two updates
/// by `dt1_us` and then `dt2_us` land on the same current frame as one update
/// by their sum.
pub proof fn lemma_update_additive(a: Animation, dt1_us: u64, dt2_us: u64)
    requires
        a.wf(),
        !a.paused,
        dt1_us + dt2_us <= u64::MAX,
    ensures
        a.step_spec(dt1_us).step_spec(dt2_us).cur_frame == a.step_spec(
            (dt1_us + dt2_us) as u64,
        ).cur_frame,
{
    let both = (dt1_us + dt2_us) as u64;
    let a1 = a.step_spec(dt1_us);
    lemma_step_spec_wf(a, dt1_us);
    if a.finished_with_last_spec() {
        // Both sides are no-ops.
        assert(a1 == a);
    } else {
        let e1 = sat_add_u64(a.elapsed_us, dt1_us);
        let e12 = sat_add_u64(e1, dt2_us);
        assert(e12 == sat_add_u64(a.elapsed_us, both));
        assert(a1.elapsed_us == e1 && a1.fps_milli == a.fps_milli && a1.looping == a.looping
            && a1.from == a.from && a1.to == a.to && a1.paused == a.paused);
        if a1.finished_with_last_spec() {
            // The second update is a no-op with the frame already pinned at
            // the terminal frame, where the single update also lands.
            lemma_offset_monotonic(e1, e12, a.fps_milli);
            assert(a1.cur_frame == a.to);
            assert(a.step_spec(both).cur_frame == a.to);
        } else {
            // Both updates are effective, so both sides see the same final
            // accumulated time and map it through the same target function.
            let a2 = a1.step_spec(dt2_us);
            assert(a2.elapsed_us == e12);
            assert(a.step_spec(both).elapsed_us == e12);
        }
    }
}

/// The current source sub-rectangle into the backing texture, in texture
/// pixel units.
#[derive(Clone, Copy, Debug, PartialEq, Eq, Structural)]
pub struct FrameRect {
    /// Left edge, in pixels.
    pub x: u32,
    /// Top edge, in pixels.
    pub y: u32,
    /// Width of one frame cell, in pixels.
    pub w: u32,
    /// Height of one frame cell, in pixels.
    pub h: u32,
}

/// Represents a sprite that is animated using frame strips in the texture.
/// The backing texture itself lives with the renderer; the sprite only needs
/// its pixel dimensions to address frame cells.
pub struct AniSprite {
    /// Width of the backing texture, in pixels.
    pub tex_w: u32,
    /// Height of the backing texture, in pixels.
    pub tex_h: u32,
    /// The current source sub-rectangle; its width and height are the fixed
    /// per-sprite frame cell size.
    pub frame: FrameRect,
    /// The active playlist.
    pub animations: Vec<Animation>,
    /// Whether the whole playlist restarts after the last animation finishes.
    pub looping: bool,
    /// Index of the active animation in the playlist.
    pub cur_anim: usize,
}

impl AniSprite {
    /// The number of frame columns: texture width over frame cell width.
    pub open spec fn num_cols_spec(self) -> int {
        self.tex_w as int / self.frame.w as int
    }

    /// The number of frame rows: texture height over frame cell height.
    pub open spec fn num_rows_spec(self) -> int {
        self.tex_h as int / self.frame.h as int
    }

    /// The total number of frames, numbered row-major from zero.
    pub open spec fn num_frames_spec(self) -> int {
        self.num_rows_spec() * self.num_cols_spec()
    }

    /// The animation the playlist index points at.
    pub open spec fn active(self) -> Animation {
        self.animations[self.cur_anim as int]
    }

    /// The source sub-rectangle of the frame cell with the given row-major
    /// index.
    pub open spec fn frame_rect_for(self, num: int) -> FrameRect {
        FrameRect {
            x: ((num % self.num_cols_spec()) * self.frame.w as int) as u32,
            y: ((num / self.num_cols_spec()) * self.frame.h as int) as u32,
            w: self.frame.w,
            h: self.frame.h,
        }
    }

    /// Validity: positive frame cell sizes that divide the texture evenly, a
    /// representable frame count, a playlist index inside the playlist
    /// whenever it is non-empty, and every queued animation valid with its
    /// frame range inside the sprite sheet.
    pub open spec fn wf(self) -> bool {
        &&& self.frame.w >= 1
        &&& self.frame.h >= 1
        &&& self.tex_w as int % self.frame.w as int == 0
        &&& self.tex_h as int % self.frame.h as int == 0
        &&& self.num_frames_spec() <= u32::MAX
        &&& (self.animations.len() == 0 ==> self.cur_anim == 0)
        &&& (self.animations.len() > 0 ==> self.cur_anim < self.animations.len())
        &&& forall|i: int|
            0 <= i < self.animations.len() ==> (#[trigger] self.animations[i]).wf()
                && self.animations[i].hi() < self.num_frames_spec()
    }

    /// How one tick changes the sprite: nothing on an empty playlist;
    /// otherwise the active animation steps, and then exactly one of three
    /// things happens. If the step changed the visible frame, the source
    /// rectangle follows it. Otherwise, if the active animation has fully
    /// displayed its last frame, the playlist advances: to the next entry, or
    /// around to the first on a looping playlist, and the newly activated
    /// animation is reset with its starting frame applied; a non-looping
    /// playlist whose last entry finished stays pinned there with nothing
    /// applied. Otherwise only the active animation's accumulated time moved.
    pub open spec fn step_ok(pre: AniSprite, post: AniSprite, dt_us: u64) -> bool {
        if pre.animations.len() == 0 {
            post == pre
        } else {
            let cur = pre.cur_anim as int;
            let a2 = pre.active().step_spec(dt_us);
            let after = pre.animations@.update(cur, a2);
            &&& post.tex_w == pre.tex_w
            &&& post.tex_h == pre.tex_h
            &&& post.looping == pre.looping
            &&& if a2.cur_frame != pre.active().cur_frame {
                &&& post.animations@ == after
                &&& post.cur_anim == pre.cur_anim
                &&& post.frame == pre.frame_rect_for(a2.cur_frame as int)
            } else if a2.finished_with_last_spec() {
                if cur + 1 == pre.animations.len() && !pre.looping {
                    &&& post.animations@ == after
                    &&& post.cur_anim == pre.cur_anim
                    &&& post.frame == pre.frame
                } else {
                    let next = if cur + 1 == pre.animations.len() {
                        0
                    } else {
                        cur + 1
                    };
                    &&& post.animations@ == after.update(next, after[next].reset_spec())
                    &&& post.cur_anim == next
                    &&& post.frame == pre.frame_rect_for(after[next].from as int)
                }
            } else {
                &&& post.animations@ == after
                &&& post.cur_anim == pre.cur_anim
                &&& post.frame == pre.frame
            }
        }
    }

    /// Create a new animated sprite over a backing texture of the given pixel
    /// size, with the given fixed frame cell size. The texture size must be
    /// divisible by the frame size; anything else is an invalid
    /// configuration.
    pub fn new(tex_w: u32, tex_h: u32, frame_w: u32, frame_h: u32) -> (r: Result<
        AniSprite,
        SpriteError,
    >)
        requires
            frame_w >= 1,
            frame_h >= 1,
            (tex_h as int / frame_h as int) * (tex_w as int / frame_w as int) <= u32::MAX,
        ensures
            r is Ok <==> (tex_w as int % frame_w as int == 0 && tex_h as int % frame_h as int
                == 0),
            r is Err ==> r == Err::<AniSprite, SpriteError>(SpriteError::InvalidConfiguration),
            r matches Ok(s) ==> {
                &&& s.tex_w == tex_w
                &&& s.tex_h == tex_h
                &&& s.frame == (FrameRect { x: 0, y: 0, w: frame_w, h: frame_h })
                &&& s.animations@ == Seq::<Animation>::empty()
                &&& s.looping == false
                &&& s.cur_anim == 0
                &&& s.wf()
            },
    {
        // Assure that the texture has a size that can be split using the
        // frame width and height that were provided.
        if tex_w % frame_w != 0 || tex_h % frame_h != 0 {
            return Err(SpriteError::InvalidConfiguration);
        }
        let s = AniSprite {
            tex_w,
            tex_h,
            frame: FrameRect { x: 0, y: 0, w: frame_w, h: frame_h },
            animations: Vec::new(),
            looping: false,
            cur_anim: 0,
        };
        Ok(s)
    }

    /// The number of frame rows calculated through height of the texture and
    /// the frame height.
    pub fn num_rows(&self) -> (r: u32)
        requires
            self.wf(),
        ensures
            r == self.num_rows_spec(),
    {
        self.tex_h / self.frame.h
    }

    /// The number of frame columns calculated through width of the texture
    /// and the frame width.
    pub fn num_cols(&self) -> (r: u32)
        requires
            self.wf(),
        ensures
            r == self.num_cols_spec(),
    {
        self.tex_w / self.frame.w
    }

    /// The total amount of frames this AniSprite has.
    pub fn num_frames(&self) -> (r: u32)
        requires
            self.wf(),
        ensures
            r == self.num_frames_spec(),
    {
        self.num_rows() * self.num_cols()
    }

    /// Get the frame height.
    pub fn frame_height(&self) -> (r: u32)
        ensures
            r == self.frame.h,
    {
        self.frame.h
    }

    /// Get the frame width.
    pub fn frame_width(&self) -> (r: u32)
        ensures
            r == self.frame.w,
    {
        self.frame.w
    }

    /// Get the current source sub-rectangle.
    pub fn frame_rect(&self) -> (r: FrameRect)
        ensures
            r == self.frame,
    {
        self.frame
    }

    /// Get the index of the active animation in the playlist.
    pub fn active_index(&self) -> (r: usize)
        ensures
            r == self.cur_anim,
    {
        self.cur_anim
    }

    /// Manually set the current frame. The frames are numbered left to right
    /// and top to bottom like
    /// 0 1 2
    /// 3 4 5
    /// for an imaginary set consisting of six frames.
    pub fn set_frame(&mut self, num: u32)
        requires
            old(self).wf(),
            num < old(self).num_frames_spec(),
        ensures
            final(self).wf(),
            final(self).frame == old(self).frame_rect_for(num as int),
            final(self).frame.x + final(self).frame.w <= final(self).tex_w,
            final(self).frame.y + final(self).frame.h <= final(self).tex_h,
            final(self).animations == old(self).animations,
            final(self).cur_anim == old(self).cur_anim,
            final(self).looping == old(self).looping,
            final(self).tex_w == old(self).tex_w,
            final(self).tex_h == old(self).tex_h,
    {
        let r = self.rect_for_frame(num);
        self.frame = r;
    }

    /// The source sub-rectangle of the frame cell with the given row-major
    /// index, without touching the sprite's state.
    pub fn rect_for_frame(&self, num: u32) -> (r: FrameRect)
        requires
            self.wf(),
            num < self.num_frames_spec(),
        ensures
            r == self.frame_rect_for(num as int),
            r.x + r.w <= self.tex_w,
            r.y + r.h <= self.tex_h,
    {
        proof {
            lemma_set_frame_bounds(*self, num);
        }
        let num_cols = self.tex_w / self.frame.w;
        let fx = (num % num_cols) * self.frame.w;
        let fy = (num / num_cols) * self.frame.h;
        FrameRect { x: fx, y: fy, w: self.frame.w, h: self.frame.h }
    }

    /// Update the current animation of the sprite. Switches animations when
    /// an animation is finished or does nothing in case there is no animation
    /// left to run. At most one visible frame change happens per tick: a tick
    /// either progresses the current animation or performs one
    /// animation-boundary transition.
    pub fn update(&mut self, dt_us: u64)
        requires
            old(self).wf(),
        ensures
            final(self).wf(),
            AniSprite::step_ok(*old(self), *final(self), dt_us),
    {
        if self.animations.len() == 0 {
            return ;
        }
        let cur = self.cur_anim;
        let mut a = self.animations[cur];
        let r = a.update(dt_us);
        self.animations.set(cur, a);
        proof {
            lemma_playlist_update_wf(*old(self), *self, cur as int, a);
        }
        let ghost mid = *self;

        if let Some(f) = r {
            self.set_frame(f);
            return ;
        }

        // Check if we should play the next animation.
        if a.finished_with_last() {
            let next = cur + 1;
            if next == self.animations.len() {
                if self.looping {
                    // Restart the whole playlist.
                    self.cur_anim = 0;
                    let mut b = self.animations[0];
                    b.reset();
                    self.animations.set(0, b);
                    proof {
                        lemma_playlist_update_wf(mid, *self, 0, b);
                    }
                    let start = b.from;
                    self.set_frame(start);
                }
                // Otherwise stay pinned at the last animation: there is
                // nothing left to auto-advance to.
            } else {
                self.cur_anim = next;
                let mut b = self.animations[next];
                b.reset();
                self.animations.set(next, b);
                proof {
                    lemma_playlist_update_wf(mid, *self, next as int, b);
                }
                let start = b.from;
                self.set_frame(start);
            }
        }
    }

    /// Give this AniSprite a new set of animations. If an animation is
    /// currently playing, it is immediately stopped. Every queued animation
    /// must be valid and fit inside this sprite's sheet.
    pub fn animate_fresh(&mut self, animations: Vec<Animation>, looping: bool)
        requires
            old(self).wf(),
            forall|i: int|
                0 <= i < animations.len() ==> (#[trigger] animations[i]).wf()
                    && animations[i].hi() < old(self).num_frames_spec(),
        ensures
            final(self).wf(),
            final(self).animations == animations,
            final(self).looping == looping,
            final(self).cur_anim == 0,
            final(self).frame == old(self).frame,
            final(self).tex_w == old(self).tex_w,
            final(self).tex_h == old(self).tex_h,
    {
        self.animations = animations;
        self.looping = looping;
        self.cur_anim = 0;
    }

    /// Get the animation currently being executed on this AniSprite (if
    /// any).
    pub fn current_animation(&self) -> (r: Option<&Animation>)
        requires
            self.wf(),
        ensures
            r is Some <==> self.animations.len() > 0,
            r matches Some(a) ==> *a == self.active(),
    {
        if self.animations.len() == 0 {
            None
        } else {
            Some(&self.animations[self.cur_anim])
        }
    }

    /// Resume the current animation if it was paused. Returns true if there
    /// is an animation to run, false otherwise.
    pub fn resume(&mut self) -> (r: bool)
        requires
            old(self).wf(),
        ensures
            final(self).wf(),
            r == (old(self).animations.len() > 0),
            old(self).animations.len() == 0 ==> *final(self) == *old(self),
            old(self).animations.len() > 0 ==> final(self).animations@ == old(
                self,
            ).animations@.update(
                old(self).cur_anim as int,
                Animation { paused: false, ..old(self).active() },
            ),
            final(self).cur_anim == old(self).cur_anim,
            final(self).frame == old(self).frame,
            final(self).looping == old(self).looping,
            final(self).tex_w == old(self).tex_w,
            final(self).tex_h == old(self).tex_h,
    {
        if self.animations.len() == 0 {
            return false;
        }
        let cur = self.cur_anim;
        let mut a = self.animations[cur];
        a.paused = false;
        self.animations.set(cur, a);
        proof {
            lemma_playlist_update_wf(*old(self), *self, cur as int, a);
        }
        true
    }

    /// Pause the animation that is currently running. Returns true if there
    /// is an animation available. The animation does not have to be running
    /// for it to return true.
    pub fn pause(&mut self) -> (r: bool)
        requires
            old(self).wf(),
        ensures
            final(self).wf(),
            r == (old(self).animations.len() > 0),
            old(self).animations.len() == 0 ==> *final(self) == *old(self),
            old(self).animations.len() > 0 ==> final(self).animations@ == old(
                self,
            ).animations@.update(
                old(self).cur_anim as int,
                Animation { paused: true, ..old(self).active() },
            ),
            final(self).cur_anim == old(self).cur_anim,
            final(self).frame == old(self).frame,
            final(self).looping == old(self).looping,
            final(self).tex_w == old(self).tex_w,
            final(self).tex_h == old(self).tex_h,
    {
        if self.animations.len() == 0 {
            return false;
        }
        let cur = self.cur_anim;
        let mut a = self.animations[cur];
        a.paused = true;
        self.animations.set(cur, a);
        proof {
            lemma_playlist_update_wf(*old(self), *self, cur as int, a);
        }
        true
    }
}

/// Replacing one playlist entry by a valid animation with the same frame
/// range keeps the sprite valid.
proof fn lemma_playlist_update_wf(pre: AniSprite, post: AniSprite, at: int, b: Animation)
    requires
        pre.wf(),
        0 <= at < pre.animations.len(),
        post.animations@ == pre.animations@.update(at, b),
        b.wf(),
        b.hi() == pre.animations[at].hi(),
        post.tex_w == pre.tex_w,
        post.tex_h == pre.tex_h,
        post.frame.w == pre.frame.w,
        post.frame.h == pre.frame.h,
        post.animations.len() > 0 ==> post.cur_anim < post.animations.len(),
    ensures
        post.wf(),
{
    assert forall|i: int| 0 <= i < post.animations.len() implies (#[trigger] post.animations[i]).wf()
        && post.animations[i].hi() < post.num_frames_spec() by {
        if i != at {
            assert(post.animations[i] == pre.animations[i]);
        }
    }
}

/// On a valid sprite, the source rectangle of any in-range frame index lies
/// inside the texture.
proof fn lemma_set_frame_bounds(s: AniSprite, num: u32)
    requires
        s.wf(),
        num < s.num_frames_spec(),
    ensures
        s.num_cols_spec() >= 1,
        s.num_rows_spec() >= 1,
        (num as int % s.num_cols_spec()) * s.frame.w as int + s.frame.w <= s.tex_w,
        (num as int / s.num_cols_spec()) * s.frame.h as int + s.frame.h <= s.tex_h,
{
    let c = s.num_cols_spec();
    let rows = s.num_rows_spec();
    let w = s.frame.w as int;
    let h = s.frame.h as int;
    if c <= 0 {
        lemma_mul_by_zero_is_zero(rows);
        assert(rows * c <= 0) by (nonlinear_arith)
            requires
                rows >= 0,
                c <= 0,
        ;
    }
    if rows <= 0 {
        assert(rows * c <= 0) by (nonlinear_arith)
            requires
                rows <= 0,
                c >= 0,
        ;
    }
    lemma_fundamental_div_mod(s.tex_w as int, w);
    lemma_fundamental_div_mod(s.tex_h as int, h);
    assert(s.tex_w as int == w * c);
    assert(s.tex_h as int == h * rows);
    lemma_mod_division_less_than_divisor(num as int, c);
    let m = num as int % c;
    assert(m * w + w <= c * w) by (nonlinear_arith)
        requires
            m < c,
            w >= 1,
    ;
    assert(c * w == w * c) by (nonlinear_arith);
    lemma_multiply_divide_lt(num as int, c, rows);
    let q = num as int / c;
    assert(q * h + h <= rows * h) by (nonlinear_arith)
        requires
            q < rows,
            h >= 1,
    ;
    assert(rows * h == h * rows) by (nonlinear_arith);
}

/// An update of a valid animation yields a valid animation; in particular the
/// current frame never leaves the frame range.
pub proof fn lemma_step_spec_wf(a: Animation, dt_us: u64)
    requires
        a.wf(),
    ensures
        a.step_spec(dt_us).wf(),
        a.step_spec(dt_us).lo() == a.lo(),
        a.step_spec(dt_us).hi() == a.hi(),
        a.lo() <= a.step_spec(dt_us).cur_frame <= a.hi(),
{
    if !(a.paused || a.finished_with_last_spec()) {
        let stepped = Animation { elapsed_us: sat_add_u64(a.elapsed_us, dt_us), ..a };
        let offset = stepped.frame_offset();
        assert(offset >= 0) by {
            vstd::arithmetic::div_mod::lemma_div_pos_is_pos(
                stepped.elapsed_us as int * stepped.fps_milli as int,
                OFFSET_DIVISOR as int,
            );
        }
        if a.looping {
            lemma_mod_division_less_than_divisor(offset, a.span());
        }
    }
}

} // verus!
