use sprite_engine::engine::Engine;
use sprite_engine::entity::{CharacterEntity, HOLD_DURATION};
use sprite_engine::error::Error;
use sprite_engine::font::load_font;
use sprite_engine::manager::TextureManager;
use sprite_engine::render::{clip, DrawCommand, RenderInfo, Renderer};
use sprite_engine::scene::{DrawOrder, Scene};
use sprite_engine::texture::{FrameDescriptor, TextureInner};
use sprite_engine::types::{Rect, Size, Vec2};
use sprite_engine::ui::{TextElement, UIElement};

fn untrimmed_atlas(image: u64, frame_count: usize) -> TextureInner {
    let full = Rect { x: 0, y: 0, w: 16, h: 16 };
    let mut frames = Vec::new();
    for i in 0..frame_count {
        frames.push(FrameDescriptor {
            source_rect: Rect { x: 16 * i as i32, y: 0, w: 16, h: 16 },
            trim_offset: full,
            untrimmed_size: Size { w: 16, h: 16 },
        });
    }
    TextureInner::from_frames(image, frames).unwrap()
}

#[test]
fn animation_advances_on_hold_expiry() {
    let mut e = CharacterEntity::new(untrimmed_atlas(1, 3), Vec2 { x: 0, y: 0 });
    assert_eq!(e.get_draw_info().texture_idx, 0);
    for _ in 0..HOLD_DURATION {
        e.update();
    }
    assert_eq!(e.get_draw_info().texture_idx, 1);
    for _ in 0..HOLD_DURATION {
        e.update();
    }
    assert_eq!(e.get_draw_info().texture_idx, 2);
}

#[test]
fn animation_wraps_to_zero_never_past_the_end() {
    // A 3-frame atlas at frame 2 advances to 0 on the next expiry.
    let mut e = CharacterEntity::new(untrimmed_atlas(1, 3), Vec2 { x: 0, y: 0 });
    for step in 0..3 * HOLD_DURATION {
        e.update();
        let idx = e.get_draw_info().texture_idx;
        assert!(idx < 3, "frame index escaped the atlas at step {step}");
    }
    assert_eq!(e.get_draw_info().texture_idx, 0);
}

#[test]
fn entity_draw_info_is_centered_box() {
    let e = CharacterEntity::new(untrimmed_atlas(1, 1), Vec2 { x: 30, y: -40 });
    let info = e.get_draw_info();
    assert_eq!(info.world_rect, Rect { x: -70, y: -140, w: 200, h: 200 });
    assert_eq!(info.texture_idx, 0);
}

#[test]
fn scene_update_updates_every_entity() {
    let mut scene = Scene::new();
    scene.add_entity(CharacterEntity::new(untrimmed_atlas(1, 2), Vec2 { x: 0, y: 0 }));
    scene.add_entity(CharacterEntity::new(untrimmed_atlas(2, 4), Vec2 { x: 9, y: 9 }));
    for _ in 0..HOLD_DURATION {
        scene.update();
    }
    let a = &scene.entity_list[0];
    let b = &scene.entity_list[1];
    assert_eq!(a.anim_idx, 1);
    assert_eq!(b.anim_idx, 1);
    assert_eq!(a.anim_delay, HOLD_DURATION);
    assert_eq!(a.position, Vec2 { x: 0, y: 0 });
    assert_eq!(b.position, Vec2 { x: 9, y: 9 });
}

#[test]
fn toggle_attachment_flips_and_keeps_center() {
    let mut scene = Scene::new();
    scene.add_entity(CharacterEntity::new(untrimmed_atlas(1, 1), Vec2 { x: 5, y: 5 }));
    assert!(scene.scene_info.camera.attachment.is_none());
    scene.toggle_camera_attachment();
    assert_eq!(scene.scene_info.camera.attachment, Some(0));
    scene.toggle_camera_attachment();
    assert!(scene.scene_info.camera.attachment.is_none());
    assert_eq!(scene.scene_info.camera.center, Vec2 { x: 0, y: 0 });
}

#[test]
fn scene_positions_first_entity() {
    let mut scene = Scene::new();
    scene.add_entity(CharacterEntity::new(untrimmed_atlas(1, 1), Vec2 { x: 5, y: 5 }));
    assert_eq!(scene.get_position(), Vec2 { x: 5, y: 5 });
    scene.set_position(Vec2 { x: -8, y: 3 });
    assert_eq!(scene.get_position(), Vec2 { x: -8, y: 3 });
}

fn render_commands(scene: &Scene) -> Vec<DrawCommand> {
    let info = RenderInfo { screen_size: Vec2 { x: 800, y: 600 }, frame: 0 };
    scene.render(&info)
}

#[test]
fn render_empty_scene_is_only_crosshair() {
    let scene = Scene::new();
    let cmds = render_commands(&scene);
    assert_eq!(cmds.len(), 3);
    assert!(matches!(cmds[0], DrawCommand::SetDrawColor(_)));
    assert!(matches!(cmds[1], DrawCommand::DrawLine { .. }));
    assert!(matches!(cmds[2], DrawCommand::DrawLine { .. }));
}

#[test]
fn render_draws_visible_entity() {
    let mut scene = Scene::new();
    scene.add_entity(CharacterEntity::new(untrimmed_atlas(7, 1), Vec2 { x: 0, y: 0 }));
    let cmds = render_commands(&scene);
    // glyph box: world {-100,-100,200,200}, zoom 1/2 -> view {-50,-50,100,100},
    // shifted to {350,250}, flipped to y = 600-250-100 = 250.
    assert_eq!(cmds.len(), 6);
    match cmds[2] {
        DrawCommand::CopyRegion { image, src, dst } => {
            assert_eq!(image, 7);
            assert_eq!(src, Some(Rect { x: 0, y: 0, w: 16, h: 16 }));
            assert_eq!(dst, Rect { x: 350, y: 250, w: 100, h: 100 });
        }
        _ => panic!("expected the frame copy"),
    }
}

#[test]
fn render_culls_offscreen_entity() {
    let mut scene = Scene::new();
    // Far away: view rect lands completely outside an 800x600 screen.
    scene.add_entity(CharacterEntity::new(untrimmed_atlas(7, 1), Vec2 { x: 100_000, y: 0 }));
    let cmds = render_commands(&scene);
    assert_eq!(cmds.len(), 3); // crosshair only
}

#[test]
fn render_order_is_the_configured_one() {
    let mut scene = Scene::new();
    scene.add_entity(CharacterEntity::new(untrimmed_atlas(1, 1), Vec2 { x: 0, y: 0 }));
    scene.add_entity(CharacterEntity::new(untrimmed_atlas(2, 1), Vec2 { x: 10, y: 10 }));

    let images_of = |cmds: &Vec<DrawCommand>| -> Vec<u64> {
        let mut images = Vec::new();
        for c in cmds {
            if let DrawCommand::CopyRegion { image, .. } = c {
                images.push(*image);
            }
        }
        images
    };

    // Default: reverse list order, so entity 1 is culled/drawn first.
    assert_eq!(scene.draw_order, DrawOrder::Reverse);
    assert_eq!(images_of(&render_commands(&scene)), vec![2, 1]);

    let mut forward = scene;
    forward.draw_order = DrawOrder::Forward;
    assert_eq!(images_of(&render_commands(&forward)), vec![1, 2]);
}

#[test]
fn render_draws_ui_after_entities() {
    let mut scene = Scene::new();
    scene.add_entity(CharacterEntity::new(untrimmed_atlas(3, 1), Vec2 { x: 0, y: 0 }));
    let font = load_font(untrimmed_atlas(8, 3), String::from("ab")).unwrap();
    let mut label = TextElement::new(font);
    label.text = String::from("a");
    label.pos = Vec2 { x: 10, y: 20 };
    label.scale = Vec2 { x: 30, y: 40 };
    scene.add_ui(UIElement::Text(label));
    let cmds = render_commands(&scene);
    // entity: 3 commands; glyph: 3 commands; crosshair: 3 commands.
    assert_eq!(cmds.len(), 9);
    match cmds[5] {
        DrawCommand::CopyRegion { image, dst, .. } => {
            assert_eq!(image, 8);
            assert_eq!(dst, Rect { x: 10, y: 20, w: 30, h: 40 });
        }
        _ => panic!("expected the glyph copy"),
    }
}

#[test]
fn renderer_wraps_frame_and_counts() {
    let mut renderer = Renderer::new(Vec2 { x: 800, y: 600 }, TextureManager::new(), Vec::new());
    let scene = Scene::new();
    let cmds = renderer.render(&scene);
    assert_eq!(renderer.render_info.frame, 1);
    assert!(matches!(cmds[0], DrawCommand::SetDrawColor(_)));
    assert!(matches!(cmds[1], DrawCommand::Clear));
    assert!(matches!(cmds[cmds.len() - 1], DrawCommand::Present));
    renderer.set_screen_size(Vec2 { x: 100, y: 100 });
    assert_eq!(renderer.render_info.screen_size, Vec2 { x: 100, y: 100 });
}

#[test]
fn engine_runs_the_current_scene() {
    let renderer = Renderer::new(Vec2 { x: 800, y: 600 }, TextureManager::new(), Vec::new());
    let mut engine = Engine::new(renderer);
    let mut scene = Scene::new();
    scene.add_entity(CharacterEntity::new(untrimmed_atlas(1, 2), Vec2 { x: 0, y: 0 }));
    engine.add_scene(scene);

    engine.update();
    assert_eq!(engine.scenes[0].entity_list[0].anim_delay, HOLD_DURATION - 1);

    let cmds = engine.render();
    assert_eq!(engine.renderer.render_info.frame, 1);
    assert!(matches!(cmds[1], DrawCommand::Clear));
    assert!(matches!(cmds[cmds.len() - 1], DrawCommand::Present));
}

#[test]
fn engine_texture_registry_with_fallback() {
    let renderer = Renderer::new(Vec2 { x: 800, y: 600 }, TextureManager::new(), Vec::new());
    let mut engine = Engine::new(renderer);
    engine.load_texture(String::from("no_texture"), untrimmed_atlas(5, 1));
    engine.load_texture(String::from("hero"), untrimmed_atlas(6, 1));
    assert!(engine.renderer.texture_manager.contains("hero"));
    assert!(!engine.renderer.texture_manager.contains("villain"));
    assert_eq!(engine.get_texture("hero").image, 6);
    assert_eq!(engine.get_texture("villain").image, 5);
}

#[test]
fn manager_registers_and_refuses_duplicates() {
    let mut manager = TextureManager::new();
    assert!(manager.load(String::from("hero"), untrimmed_atlas(1, 1)).is_ok());
    let again = manager.load(String::from("hero"), untrimmed_atlas(2, 1));
    assert!(matches!(again, Err(Error::AlreadyExists)));
    assert_eq!(manager.get("hero").image, 1);
}

#[test]
fn manager_falls_back_to_sentinel() {
    let mut manager = TextureManager::new();
    manager.load(String::from("no_texture"), untrimmed_atlas(99, 1)).unwrap();
    manager.load(String::from("hero"), untrimmed_atlas(1, 1)).unwrap();
    assert_eq!(manager.get("hero").image, 1);
    // Unknown names silently substitute the sentinel.
    assert_eq!(manager.get("missing").image, 99);
}

#[test]
fn font_lays_out_glyphs_and_newlines() {
    let font = load_font(untrimmed_atlas(8, 3), String::from("ab")).unwrap();
    let cmds = font.draw("ba\nc", Vec2 { x: 0, y: 0 }, Vec2 { x: 10, y: 20 });
    let mut boxes = Vec::new();
    let mut sources = Vec::new();
    for c in &cmds {
        if let DrawCommand::CopyRegion { src, dst, .. } = c {
            boxes.push(*dst);
            sources.push(src.unwrap().x);
        }
    }
    // 'b' is glyph 1, 'a' is glyph 0, unknown 'c' is glyph 2 (one past
    // the map).
    assert_eq!(sources, vec![16, 0, 32]);
    // 'b' at the pen, 'a' advanced one box, 'c' on the next row at the
    // start column.
    assert_eq!(boxes[0], Rect { x: 0, y: 0, w: 10, h: 20 });
    assert_eq!(boxes[1], Rect { x: 10, y: 0, w: 10, h: 20 });
    assert_eq!(boxes[2], Rect { x: 0, y: 20, w: 10, h: 20 });
}

#[test]
fn clip_and_transform_compose_per_spec_pipeline() {
    // One entity at the origin seen by the default camera: the same
    // numbers as render_draws_visible_entity but assembled by hand.
    let mut scene = Scene::new();
    scene.add_entity(CharacterEntity::new(untrimmed_atlas(7, 1), Vec2 { x: 0, y: 0 }));
    let info = scene.entity_list[0].get_draw_info();
    let view = scene.scene_info.camera.transform(info.world_rect, &scene.entity_list);
    assert_eq!(view, Rect { x: -50, y: -50, w: 100, h: 100 });
    let screen_rect = clip(view, Vec2 { x: 800, y: 600 }).unwrap();
    assert_eq!(screen_rect, Rect { x: 350, y: 250, w: 100, h: 100 });
}
