//! Single-textured fonts.
//!
//! A font is an atlas whose frames are glyphs, together with a map
//! string: the glyph for a character is the frame at the character's
//! first position in the map, and a character outside the map selects
//! the frame one past the last mapped glyph. Text is laid out left to
//! right, one glyph box per character, with a newline returning to the
//! start column one row down.

use vstd::prelude::*;

use crate::error::Error;
use crate::render::DrawCommand;
use crate::texture::Texture;
use crate::types::{fits_i32, Rect, Vec2};

verus! {

/// Index of the first occurrence of `c` in `map`, or `map.len()` when
/// `c` does not occur.
pub open spec fn spec_find_char(map: Seq<char>, c: char) -> int
    decreases map.len(),
{
    if map.len() == 0 {
        0
    } else if map[0] == c {
        0
    } else {
        1 + spec_find_char(map.skip(1), c)
    }
}

/// `spec_find_char` is the first occurrence: an index below which `c`
/// does not occur, and at which it occurs unless everything was
/// scanned, is the result.
proof fn lemma_find_char_at(map: Seq<char>, c: char, i: int)
    requires
        0 <= i <= map.len(),
        forall|j: int| 0 <= j < i ==> map[j] != c,
        i < map.len() ==> map[i] == c,
    ensures
        spec_find_char(map, c) == i,
    decreases i,
{
    if map.len() == 0 {
    } else if i == 0 {
    } else {
        assert(map[0] != c);
        lemma_find_char_at(map.skip(1), c, i - 1);
    }
}

/// `spec_find_char` never exceeds the map length.
proof fn lemma_find_char_le_len(map: Seq<char>, c: char)
    ensures
        0 <= spec_find_char(map, c) <= map.len(),
    decreases map.len(),
{
    if map.len() == 0 {
    } else if map[0] == c {
    } else {
        lemma_find_char_le_len(map.skip(1), c);
    }
}

/// Linear scan for the first occurrence of `c`, by character position.
fn find_char(map: &str, c: char) -> (idx: usize)
    ensures
        idx == spec_find_char(map@, c),
        idx <= map@.len(),
{
    let n = map.unicode_len();
    let mut i: usize = 0;
    while i < n
        invariant
            i <= n,
            n == map@.len(),
            forall|j: int| 0 <= j < i ==> map@[j] != c,
        decreases n - i,
    {
        if map.get_char(i) == c {
            proof {
                lemma_find_char_at(map@, c, i as int);
            }
            return i;
        }
        i += 1;
    }
    proof {
        lemma_find_char_at(map@, c, n as int);
    }
    n
}

/// A single-textured font: one glyph atlas plus the map string.
pub type Font = FontInner;

/// Glyph atlas and character map.
#[derive(Debug)]
pub struct FontInner {
    /// The atlas whose frames are the glyphs, in map order.
    pub texture: Texture,
    /// The characters the font can draw, in frame order.
    pub map: String,
}

impl Clone for FontInner {
    /// Cloning shares the glyph atlas image and copies the map.
    fn clone(&self) -> (r: Self)
        ensures
            r.texture.image == self.texture.image,
            r.texture.frames@ == self.texture.frames@,
            r.map@ == self.map@,
    {
        FontInner { texture: self.texture.clone(), map: self.map.clone() }
    }
}

/// Wrap a glyph atlas and its map as a font.
pub fn load_font(texture: Texture, map: String) -> (r: Result<Font, Error>)
    ensures
        r matches Ok(f) && f.texture == texture && f.map == map,
{
    Ok(FontInner { texture, map })
}

/// The no-overflow conditions for laying `text` out from pen position
/// `(x, y)` with start column `x0` and glyph box `scale`.
pub open spec fn spec_layout_fits(text: Seq<char>, x0: int, x: int, y: int, scale: Vec2) -> bool
    decreases text.len(),
{
    if text.len() == 0 {
        true
    } else if text[0] == '\n' {
        fits_i32(y + scale.y) && spec_layout_fits(text.skip(1), x0, x0, y + scale.y, scale)
    } else {
        fits_i32(x + scale.x) && fits_i32(y + scale.y) && spec_layout_fits(
            text.skip(1),
            x0,
            x + scale.x,
            y,
            scale,
        )
    }
}

impl FontInner {
    /// The font invariant: a well-formed atlas with a frame for every
    /// map character plus the frame for unmapped characters, and a
    /// non-negative glyph box. (An atlas with no frames at all degrades
    /// to whole-image copies.)
    pub open spec fn wf(self) -> bool {
        &&& self.texture.wf()
        &&& (self.texture.frames@.len() == 0 || self.map@.len() < self.texture.frames@.len())
    }

    /// The commands drawing `text` emits, starting from pen position
    /// `(x, y)` with start column `x0`: one glyph box per character,
    /// advancing one box width per glyph, one box height per newline.
    pub open spec fn spec_draw_cmds(self, text: Seq<char>, x0: int, x: int, y: int, scale: Vec2) -> Seq<
        DrawCommand,
    >
        decreases text.len(),
    {
        if text.len() == 0 {
            Seq::empty()
        } else if text[0] == '\n' {
            self.spec_draw_cmds(text.skip(1), x0, x0, y + scale.y, scale)
        } else {
            self.texture.spec_draw_idx_cmds(
                Rect { x: x as i32, y: y as i32, w: scale.x, h: scale.y },
                spec_find_char(self.map@, text[0]),
            ) + self.spec_draw_cmds(text.skip(1), x0, x + scale.x, y, scale)
        }
    }

    /// Draw `string` starting at `position`, each glyph in a box of
    /// size `scale`.
    pub fn draw(&self, string: &str, position: Vec2, scale: Vec2) -> (cmds: Vec<DrawCommand>)
        requires
            self.wf(),
            scale.x >= 0,
            scale.y >= 0,
            spec_layout_fits(string@, position.x as int, position.x as int, position.y as int, scale),
        ensures
            cmds@ == self.spec_draw_cmds(
                string@,
                position.x as int,
                position.x as int,
                position.y as int,
                scale,
            ),
    {
        let n = string.unicode_len();
        let mut cmds: Vec<DrawCommand> = Vec::new();
        let mut x = position.x;
        let mut y = position.y;
        let mut i: usize = 0;
        proof {
            assert(string@.skip(0) =~= string@);
            assert(cmds@ + self.spec_draw_cmds(
                string@,
                position.x as int,
                position.x as int,
                position.y as int,
                scale,
            ) =~= self.spec_draw_cmds(
                string@,
                position.x as int,
                position.x as int,
                position.y as int,
                scale,
            ));
        }
        while i < n
            invariant
                i <= n,
                n == string@.len(),
                self.wf(),
                scale.x >= 0,
                scale.y >= 0,
                spec_layout_fits(string@.skip(i as int), position.x as int, x as int, y as int, scale),
                cmds@ + self.spec_draw_cmds(
                    string@.skip(i as int),
                    position.x as int,
                    x as int,
                    y as int,
                    scale,
                ) == self.spec_draw_cmds(
                    string@,
                    position.x as int,
                    position.x as int,
                    position.y as int,
                    scale,
                ),
            decreases n - i,
        {
            let ch = string.get_char(i);
            proof {
                assert(string@.skip(i as int)[0] == string@[i as int]);
                assert(string@.skip(i as int).skip(1) =~= string@.skip(i as int + 1));
            }
            if ch == '\n' {
                x = position.x;
                y = y + scale.y;
            } else {
                let idx = find_char(self.map.as_str(), ch);
                proof {
                    lemma_find_char_le_len(self.map@, ch);
                }
                let mut glyph = self.texture.draw_idx(
                    Rect { x, y, w: scale.x, h: scale.y },
                    idx,
                ).unwrap();
                cmds.append(&mut glyph);
                x = x + scale.x;
            }
            i += 1;
        }
        proof {
            assert(string@.skip(n as int) =~= Seq::<char>::empty());
            assert(cmds@ + Seq::<DrawCommand>::empty() =~= cmds@);
        }
        cmds
    }
}

} // verus!
