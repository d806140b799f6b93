//! Trimmed sprite-sheet atlases.
//!
//! A texture is a backing image handle plus an ordered list of frame
//! descriptors. Sprite packers remove transparent padding from frames;
//! a trimmed frame must still render at the caller-requested logical
//! size, with the visible content offset and scaled proportionally
//! inside that logical box. `draw_idx` performs exactly that
//! resolution: independent horizontal and vertical ratios, rounded to
//! the nearest integer per axis, applied to the trim offset rectangle.

use vstd::prelude::*;

use vstd::arithmetic::div_mod::{
    lemma_div_is_ordered, lemma_div_pos_is_pos, lemma_fundamental_div_mod_converse,
};
use vstd::arithmetic::mul::{lemma_mul_inequality, lemma_mul_nonnegative};

use crate::error::Error;
use crate::render::{Color, DrawCommand};
use crate::types::{fits_i32, Rect, Size};

verus! {

/// `n / d` rounded to the nearest integer, halves rounding up.
/// Meaningful for `n >= 0` and `d > 0`.
pub open spec fn round_div(n: int, d: int) -> int {
    (2 * n + d) / (2 * d)
}

/// Rounding never exceeds the scaled bound: for `0 <= t <= d` and
/// `n >= 0`, the rounded product `t * n / d` stays within `[0, n]`.
proof fn lemma_round_div_bounds(t: int, n: int, d: int)
    requires
        0 <= t <= d,
        n >= 0,
        d > 0,
    ensures
        0 <= round_div(t * n, d) <= n,
{
    let num = 2 * (t * n) + d;
    lemma_mul_nonnegative(t, n);
    lemma_div_pos_is_pos(num, 2 * d);
    lemma_mul_inequality(t, d, n);
    assert(num <= 2 * (d * n) + 2 * d - 1);
    assert(2 * (d * n) + 2 * d - 1 == n * (2 * d) + (2 * d - 1)) by (nonlinear_arith);
    lemma_div_is_ordered(num, n * (2 * d) + (2 * d - 1), 2 * d);
    lemma_fundamental_div_mod_converse(n * (2 * d) + (2 * d - 1), 2 * d, n, 2 * d - 1);
}

/// Scaling by a ratio of one is exact: for `t >= 0` and `d > 0`,
/// `round_div(t * d, d) == t`.
proof fn lemma_round_div_exact(t: int, d: int)
    requires
        t >= 0,
        d > 0,
    ensures
        round_div(t * d, d) == t,
{
    assert(2 * (t * d) + d == t * (2 * d) + d) by (nonlinear_arith);
    lemma_fundamental_div_mod_converse(t * (2 * d) + d, 2 * d, t, d);
}

/// One atlas entry: where the trimmed pixels live in the backing image,
/// where they sit within the untrimmed logical sprite, and the full
/// logical sprite size before trimming.
#[derive(Clone, Copy, Debug, PartialEq, Eq)]
pub struct FrameDescriptor {
    /// Region of the backing image holding the trimmed pixels.
    pub source_rect: Rect,
    /// Position and size of the trimmed content within the untrimmed
    /// logical sprite.
    pub trim_offset: Rect,
    /// The full logical sprite dimensions before trimming.
    pub untrimmed_size: Size,
}

impl FrameDescriptor {
    /// The frame invariant: the trim rectangle is fully contained in a
    /// rectangle of the untrimmed size, which is itself positive.
    pub open spec fn wf(self) -> bool {
        &&& self.source_rect.wf()
        &&& self.untrimmed_size.w > 0
        &&& self.untrimmed_size.h > 0
        &&& self.trim_offset.x >= 0
        &&& self.trim_offset.y >= 0
        &&& self.trim_offset.w >= 0
        &&& self.trim_offset.h >= 0
        &&& self.trim_offset.x + self.trim_offset.w <= self.untrimmed_size.w
        &&& self.trim_offset.y + self.trim_offset.h <= self.untrimmed_size.h
    }

    /// Runtime check of the frame invariant.
    pub fn check_wf(&self) -> (b: bool)
        ensures
            b == self.wf(),
    {
        self.source_rect.w >= 0 && self.source_rect.h >= 0 && self.untrimmed_size.w > 0
            && self.untrimmed_size.h > 0 && self.trim_offset.x >= 0 && self.trim_offset.y >= 0
            && self.trim_offset.w >= 0 && self.trim_offset.h >= 0
            && (self.trim_offset.x as i64) + (self.trim_offset.w as i64)
                <= self.untrimmed_size.w as i64
            && (self.trim_offset.y as i64) + (self.trim_offset.h as i64)
                <= self.untrimmed_size.h as i64
    }
}

/// The blit target for drawing frame `f` into the logical box `dst`:
/// the trim offset scaled by the per-axis ratio of destination size to
/// untrimmed size, rounded to the nearest integer per axis.
/// Exact (no truncation in the casts) whenever `f.wf()`, `dst.wf()` and
/// the corner sums of `dst` fit in `i32`.
pub open spec fn spec_blit_rect(f: FrameDescriptor, dst: Rect) -> Rect {
    Rect {
        x: (dst.x + round_div(f.trim_offset.x * dst.w, f.untrimmed_size.w as int)) as i32,
        y: (dst.y + round_div(f.trim_offset.y * dst.h, f.untrimmed_size.h as int)) as i32,
        w: round_div(f.trim_offset.w * dst.w, f.untrimmed_size.w as int) as i32,
        h: round_div(f.trim_offset.h * dst.h, f.untrimmed_size.h as int) as i32,
    }
}

/// Under the frame and rectangle invariants the blit target is given by
/// the exact integer equations, lies inside the logical box on each
/// axis, and is well-formed.
pub proof fn lemma_blit_rect_exact(f: FrameDescriptor, dst: Rect)
    requires
        f.wf(),
        dst.wf(),
        fits_i32(dst.x + dst.w),
        fits_i32(dst.y + dst.h),
    ensures
        spec_blit_rect(f, dst).x == dst.x + round_div(
            f.trim_offset.x * dst.w,
            f.untrimmed_size.w as int,
        ),
        spec_blit_rect(f, dst).y == dst.y + round_div(
            f.trim_offset.y * dst.h,
            f.untrimmed_size.h as int,
        ),
        spec_blit_rect(f, dst).w == round_div(f.trim_offset.w * dst.w, f.untrimmed_size.w as int),
        spec_blit_rect(f, dst).h == round_div(f.trim_offset.h * dst.h, f.untrimmed_size.h as int),
        spec_blit_rect(f, dst).wf(),
        dst.x <= spec_blit_rect(f, dst).x <= dst.x + dst.w,
        dst.y <= spec_blit_rect(f, dst).y <= dst.y + dst.h,
        spec_blit_rect(f, dst).w <= dst.w,
        spec_blit_rect(f, dst).h <= dst.h,
{
    lemma_round_div_bounds(f.trim_offset.x as int, dst.w as int, f.untrimmed_size.w as int);
    lemma_round_div_bounds(f.trim_offset.y as int, dst.h as int, f.untrimmed_size.h as int);
    lemma_round_div_bounds(f.trim_offset.w as int, dst.w as int, f.untrimmed_size.w as int);
    lemma_round_div_bounds(f.trim_offset.h as int, dst.h as int, f.untrimmed_size.h as int);
}

/// Trim scaling identity: when the destination box already has the
/// untrimmed size, the ratio is one on both axes and the trim offset
/// rectangle is used unscaled.
pub proof fn lemma_trim_unscaled(f: FrameDescriptor, dst: Rect)
    requires
        f.wf(),
        dst.w == f.untrimmed_size.w,
        dst.h == f.untrimmed_size.h,
        fits_i32(dst.x + dst.w),
        fits_i32(dst.y + dst.h),
    ensures
        spec_blit_rect(f, dst).x == dst.x + f.trim_offset.x,
        spec_blit_rect(f, dst).y == dst.y + f.trim_offset.y,
        spec_blit_rect(f, dst).w == f.trim_offset.w,
        spec_blit_rect(f, dst).h == f.trim_offset.h,
{
    lemma_round_div_exact(f.trim_offset.x as int, f.untrimmed_size.w as int);
    lemma_round_div_exact(f.trim_offset.y as int, f.untrimmed_size.h as int);
    lemma_round_div_exact(f.trim_offset.w as int, f.untrimmed_size.w as int);
    lemma_round_div_exact(f.trim_offset.h as int, f.untrimmed_size.h as int);
    lemma_blit_rect_exact(f, dst);
}

/// `round_div(t * n, d)` computed without overflow; all inputs
/// non-negative with `t <= d`.
fn mul_div_round(t: i32, n: i32, d: i32) -> (r: i32)
    requires
        0 <= t <= d,
        n >= 0,
        d > 0,
    ensures
        r == round_div(t * n, d as int),
        0 <= r <= n,
{
    proof {
        lemma_round_div_bounds(t as int, n as int, d as int);
        vstd::arithmetic::mul::lemma_mul_upper_bound(t as int, 0x7fff_ffff, n as int, 0x7fff_ffff);
    }
    let tn: u64 = (t as u64) * (n as u64);
    let num: u64 = 2 * tn + (d as u64);
    let den: u64 = 2 * (d as u64);
    let q: u64 = num / den;
    q as i32
}

/// A texture: the handle of a backing image plus the ordered frame
/// list. Loaded once and immutable thereafter; entities using the same
/// sprite sheet share it by value.
pub type Texture = TextureInner;

/// Backing image handle and its subtexture positions.
#[derive(Debug)]
pub struct TextureInner {
    /// Identifies the backing image to the rendering backend.
    pub image: u64,
    /// The frame descriptors, in sprite-sheet order.
    pub frames: Vec<FrameDescriptor>,
}

impl Clone for TextureInner {
    /// Cloning shares the image handle and copies the frame list.
    fn clone(&self) -> (r: Self)
        ensures
            r.image == self.image,
            r.frames@ == self.frames@,
    {
        let mut frames: Vec<FrameDescriptor> = Vec::new();
        let mut i: usize = 0;
        while i < self.frames.len()
            invariant
                i <= self.frames@.len(),
                frames@ == self.frames@.take(i as int),
            decreases self.frames@.len() - i,
        {
            frames.push(self.frames[i]);
            proof {
                assert(frames@ =~= self.frames@.take(i as int + 1));
            }
            i += 1;
        }
        proof {
            assert(self.frames@.take(self.frames@.len() as int) =~= self.frames@);
        }
        TextureInner { image: self.image, frames }
    }
}

impl TextureInner {
    /// Every frame satisfies the frame invariant.
    pub open spec fn wf(self) -> bool {
        forall|i: int| 0 <= i < self.frames@.len() ==> self.frames@[i].wf()
    }

    /// Builds a texture from parsed frame descriptors, validating the
    /// frame invariant; a malformed descriptor means the structured
    /// description was corrupt.
    pub fn from_frames(image: u64, frames: Vec<FrameDescriptor>) -> (r: Result<TextureInner, Error>)
        ensures
            r is Ok <==> (forall|i: int| 0 <= i < frames@.len() ==> frames@[i].wf()),
            r matches Ok(t) ==> t.image == image && t.frames@ == frames@ && t.wf(),
            r is Err ==> r == Err::<TextureInner, Error>(Error::JSONParseFailure),
    {
        let mut i: usize = 0;
        while i < frames.len()
            invariant
                i <= frames@.len(),
                forall|j: int| 0 <= j < i ==> frames@[j].wf(),
            decreases frames@.len() - i,
        {
            if !frames[i].check_wf() {
                return Err(Error::JSONParseFailure);
            }
            i += 1;
        }
        Ok(TextureInner { image, frames })
    }

    /// The single-frame fallback for a bare image with no description:
    /// one synthetic frame covering the whole image with zero trim.
    pub fn full_image(image: u64, width: i32, height: i32) -> (t: TextureInner)
        requires
            width > 0,
            height > 0,
        ensures
            t.wf(),
            t.image == image,
            t.frames@.len() == 1,
            t.frames@[0].source_rect == (Rect { x: 0, y: 0, w: width, h: height }),
            t.frames@[0].trim_offset == (Rect { x: 0, y: 0, w: width, h: height }),
            t.frames@[0].untrimmed_size == (Size { w: width, h: height }),
    {
        let full = Rect { x: 0, y: 0, w: width, h: height };
        let mut frames: Vec<FrameDescriptor> = Vec::new();
        frames.push(FrameDescriptor {
            source_rect: full,
            trim_offset: full,
            untrimmed_size: Size { w: width, h: height },
        });
        TextureInner { image, frames }
    }

    /// Number of frames in the atlas.
    pub fn len(&self) -> (n: usize)
        ensures
            n == self.frames@.len(),
    {
        self.frames.len()
    }

    /// The commands that drawing the whole backing image into `rect`
    /// issues.
    pub open spec fn spec_draw_cmds(self, rect: Rect) -> Seq<DrawCommand> {
        seq![DrawCommand::CopyRegion { image: self.image, src: None, dst: rect }]
    }

    /// Draw the whole texture into `rect`, ignoring the frame list.
    pub fn draw(&self, rect: Rect) -> (cmds: Vec<DrawCommand>)
        ensures
            cmds@ == self.spec_draw_cmds(rect),
    {
        let mut cmds: Vec<DrawCommand> = Vec::new();
        cmds.push(DrawCommand::CopyRegion { image: self.image, src: None, dst: rect });
        proof {
            assert(cmds@ =~= self.spec_draw_cmds(rect));
        }
        cmds
    }

    /// The commands that drawing frame `idx` into `rect` issues: the
    /// debug outline of the blit target, then the copy of the frame's
    /// source region into it. An empty frame list falls back to a copy
    /// of the whole image.
    pub open spec fn spec_draw_idx_cmds(self, rect: Rect, idx: int) -> Seq<DrawCommand> {
        if self.frames@.len() == 0 {
            self.spec_draw_cmds(rect)
        } else {
            let f = self.frames@[idx];
            let to = spec_blit_rect(f, rect);
            seq![
                DrawCommand::SetDrawColor(Color { r: 0, g: 0, b: 255 }),
                DrawCommand::DrawRect(to),
                DrawCommand::CopyRegion { image: self.image, src: Some(f.source_rect), dst: to },
            ]
        }
    }

    /// Draw frame `idx` of the texture into the logical box `rect`,
    /// automatically trimmed and stretched.
    ///
    /// An index at or past the frame count signals a corrupt atlas or a
    /// caller bug and is reported as `None`; no commands are produced
    /// for it.
    pub fn draw_idx(&self, rect: Rect, idx: usize) -> (r: Option<Vec<DrawCommand>>)
        requires
            self.wf(),
            rect.wf(),
            fits_i32(rect.x + rect.w),
            fits_i32(rect.y + rect.h),
        ensures
            r is Some <==> (self.frames@.len() == 0 || (idx as int) < self.frames@.len()),
            r matches Some(cmds) ==> cmds@ == self.spec_draw_idx_cmds(rect, idx as int),
    {
        if self.frames.len() == 0 {
            Some(self.draw(rect))
        } else if idx < self.frames.len() {
            let f = self.frames[idx];
            let to = Rect {
                x: rect.x + mul_div_round(f.trim_offset.x, rect.w, f.untrimmed_size.w),
                y: rect.y + mul_div_round(f.trim_offset.y, rect.h, f.untrimmed_size.h),
                w: mul_div_round(f.trim_offset.w, rect.w, f.untrimmed_size.w),
                h: mul_div_round(f.trim_offset.h, rect.h, f.untrimmed_size.h),
            };
            proof {
                lemma_blit_rect_exact(f, rect);
            }
            let mut cmds: Vec<DrawCommand> = Vec::new();
            cmds.push(DrawCommand::SetDrawColor(Color { r: 0, g: 0, b: 255 }));
            cmds.push(DrawCommand::DrawRect(to));
            cmds.push(DrawCommand::CopyRegion {
                image: self.image,
                src: Some(f.source_rect),
                dst: to,
            });
            proof {
                assert(cmds@ =~= self.spec_draw_idx_cmds(rect, idx as int));
            }
            Some(cmds)
        } else {
            None
        }
    }
}

} // verus!
