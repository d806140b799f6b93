//! Overlay user-interface elements.
//!
//! UI elements draw in explicit screen-space coordinates, bypassing the
//! camera transform entirely, and are rendered after all entities,
//! unconditionally on top. The concrete kinds form a closed set of
//! variants; text labels are the only kind the engine ships.

use vstd::prelude::*;

use crate::font::Font;
use crate::render::DrawCommand;
use crate::types::Vec2;

verus! {

/// A text label drawn with a font at a fixed screen position.
pub struct TextElement {
    /// The font the label is drawn with.
    pub font: Font,
    /// The text to show.
    pub text: String,
    /// Screen position of the first glyph box.
    pub pos: Vec2,
    /// Size of each glyph box.
    pub scale: Vec2,
}

impl TextElement {
    /// A well-formed font, a non-negative glyph box, and a layout whose
    /// pen positions stay within coordinate range.
    pub open spec fn wf(self) -> bool {
        &&& self.font.wf()
        &&& self.scale.x >= 0
        &&& self.scale.y >= 0
        &&& crate::font::spec_layout_fits(
            self.text@,
            self.pos.x as int,
            self.pos.x as int,
            self.pos.y as int,
            self.scale,
        )
    }

    /// A placeholder label at the origin.
    pub fn new(font: Font) -> (t: Self)
        ensures
            t.font == font,
            t.text@ == "Hello world!"@,
            t.pos == (Vec2 { x: 0, y: 0 }),
            t.scale == (Vec2 { x: 100, y: 100 }),
    {
        TextElement {
            font,
            text: String::from_str("Hello world!"),
            pos: Vec2 { x: 0, y: 0 },
            scale: Vec2 { x: 100, y: 100 },
        }
    }

    /// The commands drawing this label emits.
    pub open spec fn spec_draw_cmds(self) -> Seq<DrawCommand> {
        self.font.spec_draw_cmds(
            self.text@,
            self.pos.x as int,
            self.pos.x as int,
            self.pos.y as int,
            self.scale,
        )
    }

    /// Draw the label at its screen position.
    pub fn draw(&self) -> (cmds: Vec<DrawCommand>)
        requires
            self.wf(),
        ensures
            cmds@ == self.spec_draw_cmds(),
    {
        self.font.draw(self.text.as_str(), self.pos, self.scale)
    }
}

/// One overlay element; a closed set of variants.
pub enum UIElement {
    Text(TextElement),
}

impl UIElement {
    /// The element invariant, by variant.
    pub open spec fn wf(self) -> bool {
        match self {
            UIElement::Text(t) => t.wf(),
        }
    }

    /// The commands drawing this element emits.
    pub open spec fn spec_draw_cmds(self) -> Seq<DrawCommand> {
        match self {
            UIElement::Text(t) => t.spec_draw_cmds(),
        }
    }

    /// Draw the element in screen space.
    pub fn draw(&self) -> (cmds: Vec<DrawCommand>)
        requires
            self.wf(),
        ensures
            cmds@ == self.spec_draw_cmds(),
    {
        match self {
            UIElement::Text(t) => t.draw(),
        }
    }
}

} // verus!
