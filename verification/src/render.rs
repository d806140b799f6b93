//! View-to-screen conversion and the draw-command vocabulary.
//!
//! The engine never talks to a concrete graphics backend. Everything it
//! wants drawn is expressed as a `DrawCommand`; an outer layer replays
//! the commands against the real backend, which is expected to clip at
//! the pixel level. This module also holds `clip`, which converts a
//! view-space rectangle into screen space and decides draw versus skip.

use vstd::prelude::*;

use crate::font::Font;
use crate::manager::TextureManager;
use crate::scene::Scene;
use crate::types::{fits_i32, half, Point, Rect, Vec2};

verus! {

/// An RGB color.
#[derive(Clone, Copy, Debug, PartialEq, Eq)]
pub struct Color {
    pub r: u8,
    pub g: u8,
    pub b: u8,
}

/// One call into the rendering backend.
///
/// `CopyRegion` with `src == None` copies the whole backing image,
/// identified by its handle, into `dst`.
#[derive(Clone, Copy, Debug, PartialEq, Eq)]
pub enum DrawCommand {
    SetDrawColor(Color),
    Clear,
    CopyRegion { image: u64, src: Option<Rect>, dst: Rect },
    DrawLine { p0: Point, p1: Point },
    DrawRect(Rect),
    Present,
}

/// Information for every render process.
pub struct RenderInfo {
    /// Current screen size in pixels; updated from outside on resize.
    pub screen_size: Vec2,
    /// Number of frames rendered so far.
    pub frame: usize,
}

/// Abscissa of a view rectangle after the origin moves from
/// screen-center to the top-left-relative position.
pub open spec fn clip_shift_x(view: Rect, screen: Vec2) -> int {
    view.x + screen.x / 2
}

/// Ordinate after the origin shift followed by the vertical flip from
/// y-up view space to y-down screen space.
pub open spec fn clip_shift_y(view: Rect, screen: Vec2) -> int {
    screen.y - (view.y + screen.y / 2) - view.h
}

/// Whether the shifted and flipped rectangle overlaps the screen
/// rectangle `{0, 0, screen.x, screen.y}`.
pub open spec fn clip_visible(view: Rect, screen: Vec2) -> bool {
    &&& clip_shift_x(view, screen) < screen.x
    &&& clip_shift_x(view, screen) + view.w > 0
    &&& clip_shift_y(view, screen) < screen.y
    &&& clip_shift_y(view, screen) + view.h > 0
}

/// The no-overflow conditions for `clip` on a given view rectangle and
/// screen size.
pub open spec fn clip_fits(view: Rect, screen: Vec2) -> bool {
    &&& screen.x >= 0
    &&& screen.y >= 0
    &&& fits_i32(view.x + screen.x / 2)
    &&& fits_i32(view.y + screen.y / 2)
    &&& fits_i32(screen.y - (view.y + screen.y / 2))
    &&& fits_i32(clip_shift_y(view, screen))
    &&& fits_i32(clip_shift_x(view, screen) + view.w)
    &&& fits_i32(clip_shift_y(view, screen) + view.h)
}

/// Transforms rect from view space to screen space.
/// Returns `Some` if the rect is visible, `None` if the rect is outside
/// of the screen. A partially visible rectangle is returned whole, at
/// full size and position; pixel-level clipping is the backend's job.
pub fn clip(view_rect: Rect, screen_size: Vec2) -> (r: Option<Rect>)
    requires
        clip_fits(view_rect, screen_size),
    ensures
        r is Some <==> clip_visible(view_rect, screen_size),
        r matches Some(out) ==> {
            &&& out.x == clip_shift_x(view_rect, screen_size)
            &&& out.y == clip_shift_y(view_rect, screen_size)
            &&& out.w == view_rect.w
            &&& out.h == view_rect.h
        },
{
    let mut transformed_rect = view_rect.transform(
        Vec2 { x: half(screen_size.x), y: half(screen_size.y) },
    );

    // flip vertically to change y-axis direction
    transformed_rect.y = screen_size.y - transformed_rect.y - transformed_rect.h;

    if transformed_rect.collides(&Rect::from_start_size(Vec2::default(), screen_size)) {
        Some(transformed_rect)
    } else {
        None
    }
}

/// The per-frame driver: owns the texture registry, the ambient render
/// information and the loaded fonts, and turns a scene into the full
/// command list of one frame.
pub struct Renderer {
    /// The registry of loaded textures.
    pub texture_manager: TextureManager,
    /// Screen size and frame counter.
    pub render_info: RenderInfo,
    /// The fonts loaded at startup.
    pub fonts: Vec<Font>,
}

impl Renderer {
    /// A renderer for a screen of the given size, starting at frame
    /// zero.
    pub fn new(screen_size: Vec2, texture_manager: TextureManager, fonts: Vec<Font>) -> (r:
        Renderer)
        ensures
            r.render_info.screen_size == screen_size,
            r.render_info.frame == 0,
            r.texture_manager == texture_manager,
            r.fonts == fonts,
    {
        Renderer { texture_manager, render_info: RenderInfo { screen_size, frame: 0 }, fonts }
    }

    /// The commands of one whole frame: clear to the background color,
    /// the scene's commands, then the presentation of the frame.
    pub open spec fn spec_frame_cmds(self, scene: Scene) -> Seq<DrawCommand> {
        seq![DrawCommand::SetDrawColor(Color { r: 200, g: 150, b: 250 }), DrawCommand::Clear]
            + scene.spec_render_cmds(self.render_info.screen_size) + seq![DrawCommand::Present]
    }

    /// Render one frame of `scene` and count it.
    pub fn render(&mut self, scene: &Scene) -> (cmds: Vec<DrawCommand>)
        requires
            scene.wf(),
            scene.spec_render_fits(old(self).render_info.screen_size),
            old(self).render_info.frame < usize::MAX,
        ensures
            cmds@ == old(self).spec_frame_cmds(*scene),
            final(self).render_info.frame == old(self).render_info.frame + 1,
            final(self).render_info.screen_size == old(self).render_info.screen_size,
            final(self).texture_manager == old(self).texture_manager,
            final(self).fonts == old(self).fonts,
    {
        let mut cmds: Vec<DrawCommand> = Vec::new();
        // clear canvas
        cmds.push(DrawCommand::SetDrawColor(Color { r: 200, g: 150, b: 250 }));
        cmds.push(DrawCommand::Clear);

        let mut scene_cmds = scene.render(&self.render_info);
        cmds.append(&mut scene_cmds);

        // show rendered screen
        cmds.push(DrawCommand::Present);
        self.render_info.frame = self.render_info.frame + 1;
        proof {
            assert(cmds@ =~= old(self).spec_frame_cmds(*scene));
        }
        cmds
    }

    /// Record a new screen size, signalled from outside on resize.
    pub fn set_screen_size(&mut self, size: Vec2)
        ensures
            final(self).render_info.screen_size == size,
            final(self).render_info.frame == old(self).render_info.frame,
            final(self).texture_manager == old(self).texture_manager,
            final(self).fonts == old(self).fonts,
    {
        self.render_info.screen_size = size;
    }
}

} // verus!
