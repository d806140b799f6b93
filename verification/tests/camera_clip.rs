use sprite_engine::entity::CharacterEntity;
use sprite_engine::render::clip;
use sprite_engine::scene::{Camera, ZOOM_MAX, ZOOM_MIN};
use sprite_engine::texture::TextureInner;
use sprite_engine::types::{Rect, Vec2};

fn no_entities() -> Vec<CharacterEntity> {
    Vec::new()
}

fn free_camera(center: Vec2, zoom: u32) -> Camera {
    Camera { center, attachment: None, zoom }
}

#[test]
fn transform_identity_at_zoom_one() {
    // center (0,0), zoom factor one: every rectangle maps to itself.
    let cam = free_camera(Vec2 { x: 0, y: 0 }, 1000);
    let entities = no_entities();
    let r = Rect { x: -37, y: 12, w: 81, h: 33 };
    assert_eq!(cam.transform(r, &entities), r);
}

#[test]
fn transform_scale_example() {
    // center (0,0), zoom one half, world rect centered at (100,100)
    // with size (200,200) -> centered at (50,50) with size (100,100).
    let cam = free_camera(Vec2 { x: 0, y: 0 }, 500);
    let entities = no_entities();
    let world = Rect::from_center_size(Vec2 { x: 100, y: 100 }, Vec2 { x: 200, y: 200 });
    let view = cam.transform(world, &entities);
    assert_eq!(view.point_center(), Vec2 { x: 50, y: 50 });
    assert_eq!(view.size(), Vec2 { x: 100, y: 100 });
    assert_eq!(view, Rect { x: 0, y: 0, w: 100, h: 100 });
}

#[test]
fn transform_follows_attached_entity() {
    // While attached, the transform reads the entity's live position;
    // moving the entity changes the result with no camera call in
    // between, and detaching reverts to the stored center.
    let atlas = TextureInner::full_image(1, 16, 16);
    let mut entities = vec![CharacterEntity::new(atlas, Vec2 { x: 0, y: 0 })];
    let mut cam = free_camera(Vec2 { x: 1000, y: 1000 }, 1000);
    let world = Rect { x: 0, y: 0, w: 10, h: 10 };

    cam.attach(0);
    let before = cam.transform(world, &entities);
    entities[0].set_pos(Vec2 { x: 50, y: 0 });
    let after = cam.transform(world, &entities);
    assert_eq!(before, Rect { x: 0, y: 0, w: 10, h: 10 });
    assert_eq!(after, Rect { x: -50, y: 0, w: 10, h: 10 });

    cam.detach();
    let detached = cam.transform(world, &entities);
    assert_eq!(detached, Rect { x: -1000, y: -1000, w: 10, h: 10 });
}

#[test]
fn add_zoom_steps_geometrically() {
    let mut cam = free_camera(Vec2 { x: 0, y: 0 }, 500);
    cam.add_zoom(1);
    assert_eq!(cam.zoom, 525); // 500 * 105 / 100
    cam.add_zoom(-1);
    assert_eq!(cam.zoom, 500); // 525 * 100 / 105
}

#[test]
fn add_zoom_clamps_at_bounds() {
    let mut cam = free_camera(Vec2 { x: 0, y: 0 }, 990);
    cam.add_zoom(3);
    assert_eq!(cam.zoom, ZOOM_MAX);
    let mut cam2 = free_camera(Vec2 { x: 0, y: 0 }, 105);
    cam2.add_zoom(-4);
    assert_eq!(cam2.zoom, ZOOM_MIN);
}

#[test]
fn zoom_stays_bounded_over_any_sequence() {
    let mut cam = free_camera(Vec2 { x: 0, y: 0 }, 500);
    let deltas: [i32; 12] = [3, -7, 20, -1, -50, 4, 9, -2, 100, -100, 1, 0];
    for d in deltas {
        cam.add_zoom(d);
        assert!(ZOOM_MIN <= cam.zoom && cam.zoom <= ZOOM_MAX);
    }
}

#[test]
fn clip_numeric_example() {
    // view_rect centered at (50,50), size (100,100) on an 800x600
    // screen: shifted to {400,300}, flipped to y = 600-300-100 = 200.
    let view = Rect::from_center_size(Vec2 { x: 50, y: 50 }, Vec2 { x: 100, y: 100 });
    assert_eq!(view, Rect { x: 0, y: 0, w: 100, h: 100 });
    let out = clip(view, Vec2 { x: 800, y: 600 });
    assert_eq!(out, Some(Rect { x: 400, y: 200, w: 100, h: 100 }));
}

#[test]
fn clip_culls_fully_offscreen() {
    // This view rect shifts and flips to {-50,-50,10,10}, fully off the
    // top-left corner: culled.
    let view = Rect { x: -450, y: 340, w: 10, h: 10 };
    assert_eq!(clip(view, Vec2 { x: 800, y: 600 }), None);
}

#[test]
fn clip_keeps_size_of_visible_rect() {
    let view = Rect { x: -100, y: -100, w: 37, h: 53 };
    let out = clip(view, Vec2 { x: 800, y: 600 }).unwrap();
    assert_eq!(out.w, 37);
    assert_eq!(out.h, 53);
}

#[test]
fn clip_returns_partial_overlap_unclamped() {
    // A rectangle straddling the screen edge comes back whole, at full
    // size and position; pixel-level clipping is the backend's job.
    let view = Rect { x: -420, y: 0, w: 100, h: 100 };
    let out = clip(view, Vec2 { x: 800, y: 600 }).unwrap();
    assert_eq!(out, Rect { x: -20, y: 200, w: 100, h: 100 });
}
