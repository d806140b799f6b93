//! The registry of loaded textures, indexed by name.
//!
//! Loading and decoding files is the outer layer's job; the manager
//! owns the name-to-atlas mapping and its rules: a name may be
//! registered once, and a lookup of an unknown name silently
//! substitutes the `"no_texture"` sentinel when one is registered — a
//! deliberate developer convenience, not an error path. An unknown name
//! with no sentinel present signals a corrupt setup and is excluded
//! outright.

use vstd::prelude::*;

use crate::error::Error;
use crate::texture::Texture;

verus! {

/// First texture registered under `name`, if any.
pub open spec fn spec_lookup(entries: Seq<(String, Texture)>, name: Seq<char>) -> Option<Texture>
    decreases entries.len(),
{
    if entries.len() == 0 {
        None
    } else if entries[0].0@ == name {
        Some(entries[0].1)
    } else {
        spec_lookup(entries.skip(1), name)
    }
}

/// A found entry witnesses the lookup: if no entry before `i` has the
/// name and entry `i` does, the lookup returns entry `i`'s texture.
proof fn lemma_lookup_at(entries: Seq<(String, Texture)>, name: Seq<char>, i: int)
    requires
        0 <= i <= entries.len(),
        forall|j: int| 0 <= j < i ==> entries[j].0@ != name,
        i < entries.len() ==> entries[i].0@ == name,
    ensures
        i < entries.len() ==> spec_lookup(entries, name) == Some(entries[i].1),
        i == entries.len() ==> spec_lookup(entries, name) is None,
    decreases i,
{
    if entries.len() == 0 {
    } else if i == 0 {
    } else {
        lemma_lookup_at(entries.skip(1), name, i - 1);
    }
}

/// Registered textures, indexed by name.
pub struct TextureManager {
    /// The registered textures, in registration order; names unique.
    pub textures: Vec<(String, Texture)>,
}

impl TextureManager {
    /// Registered names are unique.
    pub open spec fn wf(self) -> bool {
        forall|i: int, j: int|
            0 <= i < j < self.textures@.len() ==> self.textures@[i].0@ != self.textures@[j].0@
    }

    /// Whether a texture is registered under `name`.
    pub open spec fn spec_has(self, name: Seq<char>) -> bool {
        spec_lookup(self.textures@, name) is Some
    }

    /// An empty registry.
    pub fn new() -> (m: TextureManager)
        ensures
            m.textures@.len() == 0,
            m.wf(),
    {
        TextureManager { textures: Vec::new() }
    }

    /// Position of the entry registered under `name`, if any.
    fn find(&self, name: &str) -> (r: Option<usize>)
        ensures
            r matches Some(i) ==> i < self.textures@.len() && self.textures@[i as int].0@ == name@
                && spec_lookup(self.textures@, name@) == Some(self.textures@[i as int].1),
            r is None ==> spec_lookup(self.textures@, name@) is None,
    {
        let key: String = name.to_owned();
        let n = self.textures.len();
        let mut i: usize = 0;
        while i < n
            invariant
                i <= n,
                n == self.textures@.len(),
                key@ == name@,
                forall|j: int| 0 <= j < i ==> self.textures@[j].0@ != name@,
            decreases n - i,
        {
            if self.textures[i].0 == key {
                proof {
                    lemma_lookup_at(self.textures@, name@, i as int);
                }
                return Some(i);
            }
            i += 1;
        }
        proof {
            lemma_lookup_at(self.textures@, name@, n as int);
        }
        None
    }

    /// Whether a texture is registered under `name`.
    pub fn contains(&self, name: &str) -> (r: bool)
        ensures
            r == self.spec_has(name@),
    {
        self.find(name).is_some()
    }

    /// Register `texture` under `name`. Registering a name twice is
    /// refused and leaves the registry unchanged.
    pub fn load(&mut self, name: String, texture: Texture) -> (r: Result<(), Error>)
        ensures
            old(self).spec_has(name@) ==> r == Err::<(), Error>(Error::AlreadyExists)
                && *final(self) == *old(self),
            !old(self).spec_has(name@) ==> r == Ok::<(), Error>(()) && final(self).textures@ == old(
                self,
            ).textures@.push((name, texture)),
            old(self).wf() ==> final(self).wf(),
    {
        if self.find(name.as_str()).is_some() {
            Err(Error::AlreadyExists)
        } else {
            proof {
                assert(forall|j: int|
                    0 <= j < self.textures@.len() ==> self.textures@[j].0@ != name@) by {
                    if exists|j: int|
                        0 <= j < self.textures@.len() && self.textures@[j].0@ == name@ {
                        let j = choose|j: int|
                            0 <= j < self.textures@.len() && self.textures@[j].0@ == name@;
                        lemma_lookup_some_of_witness(self.textures@, name@, j);
                    }
                }
            }
            self.textures.push((name, texture));
            Ok(())
        }
    }

    /// Get a texture by name. An unknown name falls back to the
    /// `"no_texture"` sentinel; at least one of the two must be
    /// registered.
    pub fn get(&self, name: &str) -> (t: Texture)
        requires
            self.spec_has(name@) || self.spec_has("no_texture"@),
        ensures
            self.spec_has(name@) ==> {
                let found = spec_lookup(self.textures@, name@).unwrap();
                t.image == found.image && t.frames@ == found.frames@
            },
            !self.spec_has(name@) ==> {
                let found = spec_lookup(self.textures@, "no_texture"@).unwrap();
                t.image == found.image && t.frames@ == found.frames@
            },
    {
        match self.find(name) {
            Some(i) => self.textures[i].1.clone(),
            None => {
                let fallback = self.find("no_texture");
                let i = fallback.unwrap();
                self.textures[i].1.clone()
            },
        }
    }
}

/// If some entry carries `name`, the lookup finds one.
proof fn lemma_lookup_some_of_witness(entries: Seq<(String, Texture)>, name: Seq<char>, j: int)
    requires
        0 <= j < entries.len(),
        entries[j].0@ == name,
    ensures
        spec_lookup(entries, name) is Some,
    decreases j,
{
    if entries[0].0@ == name {
    } else {
        lemma_lookup_some_of_witness(entries.skip(1), name, j - 1);
    }
}

} // verus!
