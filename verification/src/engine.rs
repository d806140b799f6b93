//! The engine root: the renderer state and the scenes.
//!
//! One scene at a time is current; each frame updates it and then
//! renders it. Window construction, event polling and timing are the
//! outer layer's business — the engine core only decides what each
//! frame does, as draw commands.

use vstd::prelude::*;

use crate::manager::spec_lookup;
use crate::render::{DrawCommand, Renderer};
use crate::scene::{spec_scene_updated, Scene};
use crate::texture::Texture;

verus! {

/// Game engine.
pub struct Engine {
    /// The per-frame driver: textures, fonts and render information.
    pub renderer: Renderer,
    /// Index of the scene the frame loop runs.
    pub current_scene: usize,
    /// All scenes the engine knows.
    pub scenes: Vec<Scene>,
}

impl Engine {
    /// Every scene is well-formed.
    pub open spec fn wf(self) -> bool {
        forall|i: int| 0 <= i < self.scenes@.len() ==> self.scenes@[i].wf()
    }

    /// The scene the frame loop runs.
    pub open spec fn spec_current(self) -> Scene {
        self.scenes@[self.current_scene as int]
    }

    /// An engine with no scenes yet; the first scene added becomes the
    /// current one.
    pub fn new(renderer: Renderer) -> (e: Engine)
        ensures
            e.renderer == renderer,
            e.scenes@.len() == 0,
            e.current_scene == 0,
            e.wf(),
    {
        Engine { renderer, current_scene: 0, scenes: Vec::new() }
    }

    /// Add a scene to the engine.
    pub fn add_scene(&mut self, scene: Scene)
        requires
            scene.wf(),
        ensures
            final(self).scenes@ == old(self).scenes@.push(scene),
            final(self).renderer == old(self).renderer,
            final(self).current_scene == old(self).current_scene,
            old(self).wf() ==> final(self).wf(),
    {
        self.scenes.push(scene)
    }

    /// Update the current scene. Running without one is a caller bug.
    pub fn update(&mut self)
        requires
            old(self).wf(),
            old(self).current_scene < old(self).scenes@.len(),
        ensures
            final(self).wf(),
            final(self).scenes@.len() == old(self).scenes@.len(),
            spec_scene_updated(old(self).spec_current(), final(self).spec_current()),
            forall|j: int|
                0 <= j < old(self).scenes@.len() && j != old(self).current_scene
                    ==> final(self).scenes@[j] == old(self).scenes@[j],
            final(self).renderer == old(self).renderer,
            final(self).current_scene == old(self).current_scene,
    {
        let idx = self.current_scene;
        self.scenes[idx].update();
    }

    /// Render the current scene into one frame's draw commands.
    pub fn render(&mut self) -> (cmds: Vec<DrawCommand>)
        requires
            old(self).wf(),
            old(self).current_scene < old(self).scenes@.len(),
            old(self).spec_current().spec_render_fits(old(self).renderer.render_info.screen_size),
            old(self).renderer.render_info.frame < usize::MAX,
        ensures
            cmds@ == old(self).renderer.spec_frame_cmds(old(self).spec_current()),
            final(self).scenes == old(self).scenes,
            final(self).current_scene == old(self).current_scene,
            final(self).renderer.render_info.frame == old(self).renderer.render_info.frame + 1,
            final(self).renderer.render_info.screen_size == old(
                self,
            ).renderer.render_info.screen_size,
            final(self).renderer.texture_manager == old(self).renderer.texture_manager,
            final(self).renderer.fonts == old(self).renderer.fonts,
            final(self).wf(),
    {
        let idx = self.current_scene;
        self.renderer.render(&self.scenes[idx])
    }

    /// Register a loaded texture under `name`. Loading the same name
    /// twice is a startup bug, so the caller keeps names fresh.
    pub fn load_texture(&mut self, name: String, texture: Texture)
        requires
            !old(self).renderer.texture_manager.spec_has(name@),
        ensures
            final(self).renderer.texture_manager.textures@ == old(
                self,
            ).renderer.texture_manager.textures@.push((name, texture)),
            old(self).renderer.texture_manager.wf() ==> final(self).renderer.texture_manager.wf(),
            final(self).renderer.render_info == old(self).renderer.render_info,
            final(self).renderer.fonts == old(self).renderer.fonts,
            final(self).scenes == old(self).scenes,
            final(self).current_scene == old(self).current_scene,
            old(self).wf() ==> final(self).wf(),
    {
        let registered = self.renderer.texture_manager.load(name, texture);
        // A fresh name is always accepted.
        let _ = registered;
    }

    /// Get a texture by name. The texture, or the fallback sentinel,
    /// should have been loaded.
    pub fn get_texture(&mut self, name: &str) -> (t: Texture)
        requires
            old(self).renderer.texture_manager.spec_has(name@) || old(
                self,
            ).renderer.texture_manager.spec_has("no_texture"@),
        ensures
            *final(self) == *old(self),
            old(self).renderer.texture_manager.spec_has(name@) ==> {
                let found = spec_lookup(old(self).renderer.texture_manager.textures@, name@).unwrap();
                t.image == found.image && t.frames@ == found.frames@
            },
            !old(self).renderer.texture_manager.spec_has(name@) ==> {
                let found = spec_lookup(
                    old(self).renderer.texture_manager.textures@,
                    "no_texture"@,
                ).unwrap();
                t.image == found.image && t.frames@ == found.frames@
            },
    {
        self.renderer.texture_manager.get(name)
    }
}

} // verus!
