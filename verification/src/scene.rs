//! The camera and the scene.
//!
//! A camera is a world-space viewpoint: a center position — explicit,
//! or read live from an attached entity — and a zoom factor. Zoom is
//! held in fixed-point thousandths so a factor of one is `ZOOM_SCALE`;
//! it moves in geometric steps and is clamped into
//! `[ZOOM_MIN, ZOOM_MAX]` at every step. The camera transform is a pure
//! uniform scale about the camera position, expressed by recomputing
//! the target rectangle from its own center and size so that
//! center-based semantics are preserved exactly.

use vstd::prelude::*;

use vstd::arithmetic::div_mod::{
    lemma_div_is_ordered, lemma_div_multiples_vanish, lemma_div_pos_is_pos,
};
use vstd::arithmetic::mul::lemma_mul_inequality;

use crate::entity::{CharacterEntity, DISPLAY_SIZE};
use crate::render::{
    clip, clip_fits, clip_shift_x, clip_shift_y, clip_visible, Color, DrawCommand, RenderInfo,
};
use crate::types::{abs_int, div_trunc, fits_i32, half, Point, Rect, Vec2};
use crate::ui::UIElement;

verus! {

/// Fixed-point scale of the zoom: this value is a factor of one.
pub const ZOOM_SCALE: u32 = 1000;

/// Smallest zoom, a factor of one tenth.
pub const ZOOM_MIN: u32 = 100;

/// Largest zoom, a factor of one.
pub const ZOOM_MAX: u32 = 1000;

/// The zoom a fresh camera starts with, a factor of one half.
pub const ZOOM_DEFAULT: u32 = 500;

/// One zoom step scales the zoom by `ZOOM_STEP_NUM / ZOOM_STEP_DEN`
/// (up) or its reciprocal (down), so equal opposite steps are inverses
/// up to integer rounding.
pub const ZOOM_STEP_NUM: u32 = 105;

/// Denominator of the zoom step ratio.
pub const ZOOM_STEP_DEN: u32 = 100;

/// A coordinate scaled by a fixed-point zoom, truncating toward zero.
pub open spec fn spec_zoom_coord(v: int, zoom: int) -> int {
    div_trunc(v * zoom, ZOOM_SCALE as int)
}

/// Scale `v` by `zoom / ZOOM_SCALE`, truncating toward zero. The
/// result never grows in magnitude, so it always fits.
fn scale_coord(v: i32, zoom: u32) -> (r: i32)
    requires
        zoom <= ZOOM_SCALE,
    ensures
        r == spec_zoom_coord(v as int, zoom as int),
        v >= 0 ==> 0 <= r <= v,
        v < 0 ==> v <= r <= 0,
{
    if v >= 0 {
        proof {
            lemma_mul_inequality(zoom as int, ZOOM_SCALE as int, v as int);
            lemma_div_is_ordered(v * zoom, v * (ZOOM_SCALE as int), ZOOM_SCALE as int);
            lemma_div_multiples_vanish(v as int, ZOOM_SCALE as int);
            lemma_div_pos_is_pos(v * zoom, ZOOM_SCALE as int);
        }
        let q: u64 = ((v as u64) * (zoom as u64)) / (ZOOM_SCALE as u64);
        q as i32
    } else {
        let m: u64 = (-(v as i64)) as u64;
        proof {
            lemma_mul_inequality(zoom as int, ZOOM_SCALE as int, m as int);
            lemma_div_is_ordered(m * zoom, m * (ZOOM_SCALE as int), ZOOM_SCALE as int);
            lemma_div_multiples_vanish(m as int, ZOOM_SCALE as int);
            lemma_div_pos_is_pos(m * zoom, ZOOM_SCALE as int);
        }
        let q: u64 = (m * (zoom as u64)) / (ZOOM_SCALE as u64);
        proof {
            assert(m as int == -(v as int));
            assert((m as int) * (zoom as int) == -((v as int) * (zoom as int)))
                by (nonlinear_arith)
                requires m as int == -(v as int);
            assert(abs_int((v as int) * (zoom as int)) == (m as int) * (zoom as int));
            assert(q as int == ((m as int) * (zoom as int)) / (ZOOM_SCALE as int));
        }
        (-(q as i64)) as i32
    }
}

/// Scene information used to determine what to draw.
pub struct SceneInfo {
    pub camera: Camera,
}

/// The world-space viewpoint.
///
/// `world : view = 1 : zoom / ZOOM_SCALE`, so one unit in world space
/// becomes `zoom / ZOOM_SCALE` pixels on screen.
pub struct Camera {
    /// World-space coordinate of the camera, used while detached and
    /// inert — but kept — while attached.
    pub center: Vec2,
    /// Index of the followed entity in the scene's entity list, if any.
    /// An index, not a copy: the transform reads the entity's current
    /// position at transform time.
    pub attachment: Option<usize>,
    /// Fixed-point zoom in thousandths, within `[ZOOM_MIN, ZOOM_MAX]`.
    pub zoom: u32,
}

/// The view-space rectangle of a world rectangle seen from center
/// `eff` at zoom `zoom`: the rectangle centered at the zoomed offset
/// of the world center from `eff`, with the zoomed size.
pub open spec fn spec_view_rect(eff: Vec2, zoom: int, rect: Rect) -> Rect {
    let cx = rect.x + rect.w / 2;
    let cy = rect.y + rect.h / 2;
    let tcx = spec_zoom_coord(cx - eff.x, zoom);
    let tcy = spec_zoom_coord(cy - eff.y, zoom);
    let tw = spec_zoom_coord(rect.w as int, zoom);
    let th = spec_zoom_coord(rect.h as int, zoom);
    Rect { x: (tcx - tw / 2) as i32, y: (tcy - th / 2) as i32, w: tw as i32, h: th as i32 }
}

/// The no-overflow conditions of the camera transform for a world
/// rectangle seen from center `eff`.
pub open spec fn transform_fits(eff: Vec2, zoom: int, rect: Rect) -> bool {
    &&& rect.wf()
    &&& fits_i32(rect.x + rect.w / 2)
    &&& fits_i32(rect.y + rect.h / 2)
    &&& fits_i32(rect.x + rect.w / 2 - eff.x)
    &&& fits_i32(rect.y + rect.h / 2 - eff.y)
    &&& fits_i32(
        spec_zoom_coord(rect.x + rect.w / 2 - eff.x, zoom) - spec_zoom_coord(rect.w as int, zoom)
            / 2,
    )
    &&& fits_i32(
        spec_zoom_coord(rect.y + rect.h / 2 - eff.y, zoom) - spec_zoom_coord(rect.h as int, zoom)
            / 2,
    )
}

/// One upward zoom step: scale by the step ratio, clamped to the
/// maximum.
pub open spec fn zoom_step_up(z: int) -> int {
    let stepped = z * (ZOOM_STEP_NUM as int) / (ZOOM_STEP_DEN as int);
    if stepped > ZOOM_MAX {
        ZOOM_MAX as int
    } else {
        stepped
    }
}

/// One downward zoom step: scale by the reciprocal of the step ratio,
/// clamped to the minimum.
pub open spec fn zoom_step_down(z: int) -> int {
    let stepped = z * (ZOOM_STEP_DEN as int) / (ZOOM_STEP_NUM as int);
    if stepped < ZOOM_MIN {
        ZOOM_MIN as int
    } else {
        stepped
    }
}

/// The zoom after `delta` whole steps: `delta` upward steps when
/// positive, `-delta` downward steps when negative.
pub open spec fn spec_zoom_after(z: int, delta: int) -> int
    decreases abs_int(delta),
{
    if delta > 0 {
        spec_zoom_after(zoom_step_up(z), delta - 1)
    } else if delta < 0 {
        spec_zoom_after(zoom_step_down(z), delta + 1)
    } else {
        z
    }
}

/// An upward step stays within the zoom bounds.
proof fn lemma_zoom_step_up_bounds(z: int)
    requires
        ZOOM_MIN <= z <= ZOOM_MAX,
    ensures
        ZOOM_MIN <= zoom_step_up(z) <= ZOOM_MAX,
{
    lemma_div_is_ordered(z * (ZOOM_STEP_DEN as int), z * (ZOOM_STEP_NUM as int), ZOOM_STEP_DEN as int);
    lemma_div_multiples_vanish(z, ZOOM_STEP_DEN as int);
}

/// A downward step stays within the zoom bounds.
proof fn lemma_zoom_step_down_bounds(z: int)
    requires
        ZOOM_MIN <= z <= ZOOM_MAX,
    ensures
        ZOOM_MIN <= zoom_step_down(z) <= ZOOM_MAX,
{
    lemma_div_is_ordered(z * (ZOOM_STEP_DEN as int), z * (ZOOM_STEP_NUM as int), ZOOM_STEP_NUM as int);
    lemma_div_multiples_vanish(z, ZOOM_STEP_NUM as int);
}

/// Zoom bound law: starting within `[ZOOM_MIN, ZOOM_MAX]`, the zoom is
/// still within the bounds after any number of steps in either
/// direction — hence after every call of a zoom change.
pub proof fn lemma_zoom_after_bounded(z: int, delta: int)
    requires
        ZOOM_MIN <= z <= ZOOM_MAX,
    ensures
        ZOOM_MIN <= spec_zoom_after(z, delta) <= ZOOM_MAX,
    decreases abs_int(delta),
{
    if delta > 0 {
        lemma_zoom_step_up_bounds(z);
        lemma_zoom_after_bounded(zoom_step_up(z), delta - 1);
    } else if delta < 0 {
        lemma_zoom_step_down_bounds(z);
        lemma_zoom_after_bounded(zoom_step_down(z), delta + 1);
    }
}

impl Camera {
    /// The camera invariant: the zoom is within its bounds.
    pub open spec fn wf(self) -> bool {
        ZOOM_MIN <= self.zoom <= ZOOM_MAX
    }

    /// The attachment, when present, points into the entity list.
    pub open spec fn attachment_valid(self, entities: Seq<CharacterEntity>) -> bool {
        self.attachment matches Some(i) ==> (i as int) < entities.len()
    }

    /// The effective center: the attached entity's current position if
    /// present, else the explicit center.
    pub open spec fn spec_effective_center(self, entities: Seq<CharacterEntity>) -> Vec2 {
        match self.attachment {
            Some(i) => entities[i as int].position,
            None => self.center,
        }
    }

    /// Transforms `rect` to the view coordinate: a uniform scale about
    /// the camera's effective center.
    pub fn transform(&self, rect: Rect, entities: &Vec<CharacterEntity>) -> (r: Rect)
        requires
            self.wf(),
            self.attachment_valid(entities@),
            transform_fits(self.spec_effective_center(entities@), self.zoom as int, rect),
        ensures
            r == spec_view_rect(self.spec_effective_center(entities@), self.zoom as int, rect),
            r.wf(),
    {
        let camera_pos: Vec2 = match self.attachment {
            Some(i) => entities[i].position,
            None => self.center,
        };

        let object_center = rect.point_center();
        let d = object_center.sub(camera_pos);
        let transformed_center = Vec2 {
            x: scale_coord(d.x, self.zoom),
            y: scale_coord(d.y, self.zoom),
        };
        let transformed_size = Vec2 {
            x: scale_coord(rect.w, self.zoom),
            y: scale_coord(rect.h, self.zoom),
        };
        Rect::from_center_size(transformed_center, transformed_size)
    }

    /// Follow an entity, by its index in the scene's entity list. The
    /// explicit center is kept but becomes inert.
    pub fn attach(&mut self, target: usize)
        ensures
            final(self).attachment == Some(target),
            final(self).center == old(self).center,
            final(self).zoom == old(self).zoom,
    {
        self.attachment = Some(target);
    }

    /// Stop following; the transform reverts to the explicit center
    /// last set before or during the attachment.
    pub fn detach(&mut self)
        ensures
            final(self).attachment is None,
            final(self).center == old(self).center,
            final(self).zoom == old(self).zoom,
    {
        self.attachment = None;
    }

    /// Change the zoom by `delta` whole geometric steps, clamping into
    /// the zoom bounds at every step.
    pub fn add_zoom(&mut self, delta: i32)
        requires
            old(self).wf(),
        ensures
            final(self).zoom as int == spec_zoom_after(old(self).zoom as int, delta as int),
            final(self).center == old(self).center,
            final(self).attachment == old(self).attachment,
            final(self).wf(),
    {
        let ghost z0 = self.zoom as int;
        if delta >= 0 {
            let mut k: i32 = delta;
            while k > 0
                invariant
                    0 <= k,
                    self.wf(),
                    self.center == old(self).center,
                    self.attachment == old(self).attachment,
                    spec_zoom_after(z0, delta as int) == spec_zoom_after(self.zoom as int, k as int),
                decreases k,
            {
                proof {
                    lemma_zoom_step_up_bounds(self.zoom as int);
                }
                let mut z = self.zoom * ZOOM_STEP_NUM / ZOOM_STEP_DEN;
                if z > ZOOM_MAX {
                    z = ZOOM_MAX;
                }
                self.zoom = z;
                k -= 1;
            }
        } else {
            let mut k: i32 = delta;
            while k < 0
                invariant
                    k <= 0,
                    self.wf(),
                    self.center == old(self).center,
                    self.attachment == old(self).attachment,
                    spec_zoom_after(z0, delta as int) == spec_zoom_after(self.zoom as int, k as int),
                decreases 0 - k,
            {
                proof {
                    lemma_zoom_step_down_bounds(self.zoom as int);
                }
                let mut z = self.zoom * ZOOM_STEP_DEN / ZOOM_STEP_NUM;
                if z < ZOOM_MIN {
                    z = ZOOM_MIN;
                }
                self.zoom = z;
                k += 1;
            }
        }
    }
}

impl Default for Camera {
    /// A free camera at the origin with the default zoom.
    fn default() -> (c: Self)
        ensures
            c.center == (Vec2 { x: 0, y: 0 }),
            c.attachment is None,
            c.zoom == ZOOM_DEFAULT,
            c.wf(),
    {
        Camera { center: Vec2 { x: 0, y: 0 }, attachment: None, zoom: ZOOM_DEFAULT }
    }
}

/// Identity law: a free camera at the origin with a zoom factor of one
/// maps every well-formed rectangle to itself.
pub proof fn lemma_transform_identity(cam: Camera, entities: Seq<CharacterEntity>, rect: Rect)
    requires
        cam.attachment is None,
        cam.center == (Vec2 { x: 0, y: 0 }),
        cam.zoom == ZOOM_SCALE,
        rect.wf(),
        fits_i32(rect.spec_center_x()),
        fits_i32(rect.spec_center_y()),
    ensures
        spec_view_rect(cam.spec_effective_center(entities), cam.zoom as int, rect) == rect,
{
    lemma_zoom_coord_identity(rect.x + rect.w / 2);
    lemma_zoom_coord_identity(rect.y + rect.h / 2);
    lemma_zoom_coord_identity(rect.w as int);
    lemma_zoom_coord_identity(rect.h as int);
}

/// Scaling a coordinate by a zoom factor of one returns it unchanged.
proof fn lemma_zoom_coord_identity(v: int)
    ensures
        spec_zoom_coord(v, ZOOM_SCALE as int) == v,
{
    if v >= 0 {
        lemma_div_multiples_vanish(v, ZOOM_SCALE as int);
    } else {
        assert(abs_int(v * (ZOOM_SCALE as int)) == (ZOOM_SCALE as int) * (-v));
        lemma_div_multiples_vanish(-v, ZOOM_SCALE as int);
    }
}

/// Attachment is observational: while attached, the transform reads
/// the entity's current position, and the stored center is inert — a
/// camera differing only in its stored center transforms identically.
/// (Moving the attached entity therefore moves the view with it, with
/// no explicit camera update; detaching reverts to the stored center,
/// which `attach`, `detach` and `add_zoom` never modify.)
pub proof fn lemma_attachment_observational(
    cam: Camera,
    entities: Seq<CharacterEntity>,
    i: usize,
    rect: Rect,
)
    requires
        cam.attachment == Some(i),
        (i as int) < entities.len(),
    ensures
        spec_view_rect(cam.spec_effective_center(entities), cam.zoom as int, rect)
            == spec_view_rect(entities[i as int].position, cam.zoom as int, rect),
        forall|c: Vec2|
            spec_view_rect(
                (Camera { center: c, ..cam }).spec_effective_center(entities),
                cam.zoom as int,
                rect,
            ) == spec_view_rect(entities[i as int].position, cam.zoom as int, rect),
{
}

/// The world rectangle a sprite entity occupies: a box of the fixed
/// display size centered at its position.
pub open spec fn spec_entity_world_rect(e: CharacterEntity) -> Rect {
    Rect {
        x: (e.position.x - DISPLAY_SIZE / 2) as i32,
        y: (e.position.y - DISPLAY_SIZE / 2) as i32,
        w: DISPLAY_SIZE,
        h: DISPLAY_SIZE,
    }
}

/// The no-overflow conditions for rendering one entity seen from
/// center `eff` at zoom `zoom` on a screen of size `screen`.
pub open spec fn entity_render_fits(e: CharacterEntity, eff: Vec2, zoom: int, screen: Vec2) -> bool {
    &&& fits_i32(e.position.x - DISPLAY_SIZE / 2)
    &&& fits_i32(e.position.y - DISPLAY_SIZE / 2)
    &&& transform_fits(eff, zoom, spec_entity_world_rect(e))
    &&& clip_fits(spec_view_rect(eff, zoom, spec_entity_world_rect(e)), screen)
}

/// The commands rendering one entity issues: its world rectangle goes
/// through the camera transform and the clipper, and when visible the
/// current animation frame is drawn into the screen rectangle; a culled
/// entity issues nothing.
pub open spec fn spec_entity_cmds(e: CharacterEntity, eff: Vec2, zoom: int, screen: Vec2) -> Seq<
    DrawCommand,
> {
    let view = spec_view_rect(eff, zoom, spec_entity_world_rect(e));
    if clip_visible(view, screen) {
        let screen_rect = Rect {
            x: clip_shift_x(view, screen) as i32,
            y: clip_shift_y(view, screen) as i32,
            w: view.w,
            h: view.h,
        };
        e.texture.spec_draw_idx_cmds(screen_rect, e.anim_idx as int)
    } else {
        Seq::empty()
    }
}

/// The order entities are culled and drawn in. Later-drawn sprites
/// appear on top where they overlap, so the order is an explicit,
/// documented choice rather than an accident of iteration.
#[derive(Clone, Copy, Debug, PartialEq, Eq)]
pub enum DrawOrder {
    /// List order: the last entity added is drawn last, on top.
    Forward,
    /// Reversed list order: the first entity added is drawn last, on
    /// top.
    Reverse,
}

/// Scene contains entities, an overlay UI and the camera.
/// There can be only one active scene at a time.
pub struct Scene {
    /// The camera, wrapped as the information every draw consults.
    pub scene_info: SceneInfo,
    /// Overlay elements, drawn after all entities, in list order.
    pub ui: Vec<UIElement>,
    /// The world's entities. Never removed or reordered; the camera may
    /// hold an index into this list.
    pub entity_list: Vec<CharacterEntity>,
    /// The entity draw order.
    pub draw_order: DrawOrder,
}

/// The commands of the entities from index `i` on, in forward list
/// order.
pub open spec fn spec_entities_cmds_fwd(s: Scene, screen: Vec2, i: int) -> Seq<DrawCommand>
    decreases s.entity_list@.len() - i,
{
    if i < 0 || i >= s.entity_list@.len() {
        Seq::empty()
    } else {
        spec_entity_cmds(s.entity_list@[i], s.spec_eff_center(), s.spec_zoom(), screen)
            + spec_entities_cmds_fwd(s, screen, i + 1)
    }
}

/// The commands of the entities with indices below `i`, in reverse
/// list order.
pub open spec fn spec_entities_cmds_rev(s: Scene, screen: Vec2, i: int) -> Seq<DrawCommand>
    decreases i,
{
    if i <= 0 || i > s.entity_list@.len() {
        Seq::empty()
    } else {
        spec_entity_cmds(s.entity_list@[i - 1], s.spec_eff_center(), s.spec_zoom(), screen)
            + spec_entities_cmds_rev(s, screen, i - 1)
    }
}

/// The commands of the overlay elements from index `i` on, in list
/// order.
pub open spec fn spec_ui_cmds(ui: Seq<UIElement>, i: int) -> Seq<DrawCommand>
    decreases ui.len() - i,
{
    if i < 0 || i >= ui.len() {
        Seq::empty()
    } else {
        ui[i].spec_draw_cmds() + spec_ui_cmds(ui, i + 1)
    }
}

/// The debug crosshair at the screen center: two short lines through
/// the midpoint, drawn last.
pub open spec fn spec_crosshair_cmds(screen: Vec2) -> Seq<DrawCommand> {
    let cx = screen.x / 2;
    let cy = screen.y / 2;
    seq![
        DrawCommand::SetDrawColor(Color { r: 255, g: 0, b: 255 }),
        DrawCommand::DrawLine {
            p0: Point { x: (cx - 10) as i32, y: cy as i32 },
            p1: Point { x: (cx + 10) as i32, y: cy as i32 },
        },
        DrawCommand::DrawLine {
            p0: Point { x: cx as i32, y: (cy - 10) as i32 },
            p1: Point { x: cx as i32, y: (cy + 10) as i32 },
        },
    ]
}

/// How one update pass changes a scene: every entity advances by one
/// animation step, each from its own previous state alone, and nothing
/// else moves.
pub open spec fn spec_scene_updated(pre: Scene, post: Scene) -> bool {
    &&& post.entity_list@.len() == pre.entity_list@.len()
    &&& forall|i: int|
        0 <= i < pre.entity_list@.len() ==> CharacterEntity::spec_updated(
            pre.entity_list@[i],
            post.entity_list@[i],
        )
    &&& post.scene_info == pre.scene_info
    &&& post.ui == pre.ui
    &&& post.draw_order == pre.draw_order
}

impl Scene {
    /// The scene invariant: a well-formed camera whose attachment, if
    /// any, points into the entity list, and well-formed entities and
    /// overlay elements.
    pub open spec fn wf(self) -> bool {
        &&& self.scene_info.camera.wf()
        &&& self.scene_info.camera.attachment_valid(self.entity_list@)
        &&& forall|i: int| 0 <= i < self.entity_list@.len() ==> self.entity_list@[i].wf()
        &&& forall|i: int| 0 <= i < self.ui@.len() ==> self.ui@[i].wf()
    }

    /// The camera's effective center within this scene.
    pub open spec fn spec_eff_center(self) -> Vec2 {
        self.scene_info.camera.spec_effective_center(self.entity_list@)
    }

    /// The camera's zoom.
    pub open spec fn spec_zoom(self) -> int {
        self.scene_info.camera.zoom as int
    }

    /// An empty scene with a default camera, drawing entities in
    /// reverse list order.
    pub fn new() -> (s: Self)
        ensures
            s.entity_list@.len() == 0,
            s.ui@.len() == 0,
            s.scene_info.camera.center == (Vec2 { x: 0, y: 0 }),
            s.scene_info.camera.attachment is None,
            s.scene_info.camera.zoom == ZOOM_DEFAULT,
            s.draw_order == DrawOrder::Reverse,
            s.wf(),
    {
        Scene {
            scene_info: SceneInfo { camera: Camera::default() },
            ui: Vec::new(),
            entity_list: Vec::new(),
            draw_order: DrawOrder::Reverse,
        }
    }

    /// Append an entity to the world.
    pub fn add_entity(&mut self, entity: CharacterEntity)
        requires
            entity.wf(),
        ensures
            final(self).entity_list@ == old(self).entity_list@.push(entity),
            final(self).scene_info == old(self).scene_info,
            final(self).ui == old(self).ui,
            final(self).draw_order == old(self).draw_order,
            old(self).wf() ==> final(self).wf(),
    {
        self.entity_list.push(entity);
    }

    /// Append an overlay element.
    pub fn add_ui(&mut self, ui: UIElement)
        requires
            ui.wf(),
        ensures
            final(self).ui@ == old(self).ui@.push(ui),
            final(self).scene_info == old(self).scene_info,
            final(self).entity_list == old(self).entity_list,
            final(self).draw_order == old(self).draw_order,
            old(self).wf() ==> final(self).wf(),
    {
        self.ui.push(ui);
    }

    /// Sequentially updates every entity in list order. Each entity's
    /// update reads only its own state, so the updates are independent
    /// even though evaluated in order.
    pub fn update(&mut self)
        requires
            old(self).wf(),
        ensures
            final(self).wf(),
            spec_scene_updated(*old(self), *final(self)),
    {
        let n = self.entity_list.len();
        let mut i: usize = 0;
        while i < n
            invariant
                i <= n,
                n == self.entity_list@.len(),
                n == old(self).entity_list@.len(),
                forall|j: int|
                    0 <= j < i ==> CharacterEntity::spec_updated(
                        old(self).entity_list@[j],
                        self.entity_list@[j],
                    ),
                forall|j: int|
                    0 <= j < i ==> #[trigger] self.entity_list@[j].wf(),
                forall|j: int| i <= j < n ==> self.entity_list@[j] == old(self).entity_list@[j],
                forall|j: int| i <= j < n ==> #[trigger] self.entity_list@[j].wf(),
                self.scene_info == old(self).scene_info,
                self.ui == old(self).ui,
                self.draw_order == old(self).draw_order,
            decreases n - i,
        {
            self.entity_list[i].update();
            i += 1;
        }
    }

    /// The commands one whole render pass issues: the entities in the
    /// configured draw order, then the overlay elements in list order,
    /// unconditionally on top, then the debug crosshair.
    pub open spec fn spec_render_cmds(self, screen: Vec2) -> Seq<DrawCommand> {
        let entity_cmds = match self.draw_order {
            DrawOrder::Forward => spec_entities_cmds_fwd(self, screen, 0),
            DrawOrder::Reverse => spec_entities_cmds_rev(self, screen, self.entity_list@.len() as int),
        };
        entity_cmds + spec_ui_cmds(self.ui@, 0) + spec_crosshair_cmds(screen)
    }

    /// The no-overflow conditions for one whole render pass.
    pub open spec fn spec_render_fits(self, screen: Vec2) -> bool {
        &&& screen.x >= 0
        &&& screen.y >= 0
        &&& forall|i: int|
            0 <= i < self.entity_list@.len() ==> entity_render_fits(
                #[trigger] self.entity_list@[i],
                self.spec_eff_center(),
                self.spec_zoom(),
                screen,
            )
    }

    /// Render the scene: cull and draw every entity, then the overlay.
    pub fn render(&self, render_info: &RenderInfo) -> (cmds: Vec<DrawCommand>)
        requires
            self.wf(),
            self.spec_render_fits(render_info.screen_size),
        ensures
            cmds@ == self.spec_render_cmds(render_info.screen_size),
    {
        let screen = render_info.screen_size;
        let ghost n_ghost = self.entity_list@.len() as int;
        let mut cmds: Vec<DrawCommand> = Vec::new();

        match self.draw_order {
            DrawOrder::Reverse => {
                let mut i = self.entity_list.len();
                while i > 0
                    invariant
                        i <= self.entity_list@.len(),
                        self.wf(),
                        self.spec_render_fits(screen),
                        cmds@ + spec_entities_cmds_rev(*self, screen, i as int)
                            == spec_entities_cmds_rev(*self, screen, self.entity_list@.len() as int),
                    decreases i,
                {
                    i -= 1;
                    self.render_one_entity(i, screen, &mut cmds);
                    proof {
                        assert(cmds@ + spec_entities_cmds_rev(*self, screen, i as int)
                            =~= spec_entities_cmds_rev(
                            *self,
                            screen,
                            self.entity_list@.len() as int,
                        ));
                    }
                }
            },
            DrawOrder::Forward => {
                let n = self.entity_list.len();
                let mut i: usize = 0;
                proof {
                    assert(cmds@ + spec_entities_cmds_fwd(*self, screen, 0)
                        =~= spec_entities_cmds_fwd(*self, screen, 0));
                }
                while i < n
                    invariant
                        i <= n,
                        n == self.entity_list@.len(),
                        self.wf(),
                        self.spec_render_fits(screen),
                        cmds@ + spec_entities_cmds_fwd(*self, screen, i as int)
                            == spec_entities_cmds_fwd(*self, screen, 0),
                    decreases n - i,
                {
                    self.render_one_entity(i, screen, &mut cmds);
                    proof {
                        assert(cmds@ + spec_entities_cmds_fwd(*self, screen, i as int + 1)
                            =~= spec_entities_cmds_fwd(*self, screen, 0));
                    }
                    i += 1;
                }
            },
        }
        let ghost entity_cmds = cmds@;
        proof {
            assert(entity_cmds =~= match self.draw_order {
                DrawOrder::Forward => spec_entities_cmds_fwd(*self, screen, 0),
                DrawOrder::Reverse => spec_entities_cmds_rev(*self, screen, n_ghost),
            });
        }

        let ui_count = self.ui.len();
        let mut j: usize = 0;
        while j < ui_count
            invariant
                j <= ui_count,
                ui_count == self.ui@.len(),
                self.wf(),
                cmds@ + spec_ui_cmds(self.ui@, j as int) == entity_cmds + spec_ui_cmds(self.ui@, 0),
            decreases ui_count - j,
        {
            let mut element_cmds = self.ui[j].draw();
            cmds.append(&mut element_cmds);
            proof {
                assert(cmds@ + spec_ui_cmds(self.ui@, j as int + 1) =~= entity_cmds + spec_ui_cmds(
                    self.ui@,
                    0,
                ));
            }
            j += 1;
        }

        // Debug: crosshair at the center
        let cx = half(screen.x);
        let cy = half(screen.y);
        cmds.push(DrawCommand::SetDrawColor(Color { r: 255, g: 0, b: 255 }));
        cmds.push(DrawCommand::DrawLine {
            p0: Point { x: cx - 10, y: cy },
            p1: Point { x: cx + 10, y: cy },
        });
        cmds.push(DrawCommand::DrawLine {
            p0: Point { x: cx, y: cy - 10 },
            p1: Point { x: cx, y: cy + 10 },
        });
        proof {
            assert(cmds@ =~= self.spec_render_cmds(screen));
        }
        cmds
    }

    /// Position of the first entity, the one the camera can follow.
    pub fn get_position(&self) -> (p: Vec2)
        requires
            self.entity_list@.len() > 0,
        ensures
            p == self.entity_list@[0].position,
    {
        self.entity_list[0].pos()
    }

    /// Move the first entity; its animation state is untouched.
    pub fn set_position(&mut self, pos: Vec2)
        requires
            old(self).entity_list@.len() > 0,
        ensures
            final(self).entity_list@.len() == old(self).entity_list@.len(),
            final(self).entity_list@[0].position == pos,
            final(self).entity_list@[0].texture == old(self).entity_list@[0].texture,
            final(self).entity_list@[0].anim_idx == old(self).entity_list@[0].anim_idx,
            final(self).entity_list@[0].anim_delay == old(self).entity_list@[0].anim_delay,
            forall|i: int|
                1 <= i < old(self).entity_list@.len()
                    ==> final(self).entity_list@[i] == old(self).entity_list@[i],
            final(self).scene_info == old(self).scene_info,
            final(self).ui == old(self).ui,
            final(self).draw_order == old(self).draw_order,
            old(self).wf() ==> final(self).wf(),
    {
        self.entity_list[0].set_pos(pos);
    }

    /// Flip the camera between free and locked to the first entity.
    /// Idempotent in effect: toggling twice restores the attachment
    /// state, and nothing but the attachment changes.
    pub fn toggle_camera_attachment(&mut self)
        requires
            old(self).entity_list@.len() > 0,
        ensures
            old(self).scene_info.camera.attachment is Some
                ==> final(self).scene_info.camera.attachment is None,
            old(self).scene_info.camera.attachment is None
                ==> final(self).scene_info.camera.attachment == Some(0usize),
            final(self).scene_info.camera.center == old(self).scene_info.camera.center,
            final(self).scene_info.camera.zoom == old(self).scene_info.camera.zoom,
            final(self).entity_list == old(self).entity_list,
            final(self).ui == old(self).ui,
            final(self).draw_order == old(self).draw_order,
            old(self).wf() ==> final(self).wf(),
    {
        if self.scene_info.camera.attachment.is_some() {
            self.scene_info.camera.detach();
        } else {
            self.scene_info.camera.attach(0);
        }
    }

    /// Change the camera zoom by `delta` whole geometric steps.
    pub fn add_zoom(&mut self, delta: i32)
        requires
            old(self).scene_info.camera.wf(),
        ensures
            final(self).scene_info.camera.zoom as int == spec_zoom_after(
                old(self).scene_info.camera.zoom as int,
                delta as int,
            ),
            final(self).scene_info.camera.center == old(self).scene_info.camera.center,
            final(self).scene_info.camera.attachment == old(self).scene_info.camera.attachment,
            final(self).entity_list == old(self).entity_list,
            final(self).ui == old(self).ui,
            final(self).draw_order == old(self).draw_order,
            old(self).wf() ==> final(self).wf(),
    {
        self.scene_info.camera.add_zoom(delta);
    }

    /// Cull and draw the entity at `index`, appending its commands.
    fn render_one_entity(&self, index: usize, screen: Vec2, cmds: &mut Vec<DrawCommand>)
        requires
            self.wf(),
            self.spec_render_fits(screen),
            index < self.entity_list@.len(),
        ensures
            final(cmds)@ == old(cmds)@ + spec_entity_cmds(
                self.entity_list@[index as int],
                self.spec_eff_center(),
                self.spec_zoom(),
                screen,
            ),
    {
        let e = &self.entity_list[index];
        proof {
            assert(entity_render_fits(
                self.entity_list@[index as int],
                self.spec_eff_center(),
                self.spec_zoom(),
                screen,
            ));
        }
        let world_rect = Rect::from_center_size(
            e.position,
            Vec2 { x: DISPLAY_SIZE, y: DISPLAY_SIZE },
        );
        proof {
            assert(world_rect == spec_entity_world_rect(self.entity_list@[index as int]));
        }
        let view_rect = self.scene_info.camera.transform(world_rect, &self.entity_list);

        match clip(view_rect, screen) {
            Some(screen_rect) => {
                let mut frame_cmds = e.texture.draw_idx(screen_rect, e.anim_idx).unwrap();
                cmds.append(&mut frame_cmds);
            },
            None => {
                proof {
                    assert(cmds@ + Seq::<DrawCommand>::empty() =~= cmds@);
                }
            },
        }
    }
}

} // verus!
