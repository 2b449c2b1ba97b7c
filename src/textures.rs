//! The user texture table: image handles to small texture ids, with freed
//! ids reused before new ones are taken.
use vstd::prelude::*;

use crate::platform_map::IdMap;

verus! {

/// A texture id as a UI context knows it.
#[derive(Clone, Copy, Debug, PartialEq, Eq, Structural)]
pub enum TextureId {
    /// A texture that the UI allocated itself.
    Managed(u64),
    /// A texture registered by the user.
    User(u64),
}

/// The table after adding handle `h` to `(textures, free)`, and the id `h`
/// has: a handle already there keeps its id and nothing changes; a new one
/// takes the id on top of the free list, and where that empties the list,
/// the next id goes on it.
pub open spec fn added(textures: Map<u64, u64>, free: Seq<u64>, h: u64) -> (Map<u64, u64>, Seq<u64>, u64) {
    if textures.contains_key(h) {
        (textures, free, textures[h])
    } else {
        let id = free.last();
        let rest = free.drop_last();
        (textures.insert(h, id), if rest.len() == 0 { seq![(id + 1) as u64] } else { rest }, id)
    }
}

/// The table after removing handle `h`: its id goes back on the free list.
pub open spec fn removed(textures: Map<u64, u64>, free: Seq<u64>, h: u64) -> (Map<u64, u64>, Seq<u64>) {
    if textures.contains_key(h) {
        (textures.remove(h), free.push(textures[h]))
    } else {
        (textures, free)
    }
}

/// The table of user textures.
pub struct EguiUserTextures {
    textures: IdMap,
    free_list: Vec<u64>,
}

impl EguiUserTextures {
    /// The handles and their ids.
    pub closed spec fn textures(&self) -> Map<u64, u64> {
        self.textures@
    }

    /// The ids to take next, the last one first.
    pub closed spec fn free_list(&self) -> Seq<u64> {
        self.free_list@
    }

    /// The free list is never empty; its first id is above every other id,
    /// live or free; no id is live twice, or both live and free, or free
    /// twice.
    pub open spec fn wf(&self) -> bool {
        let t = self.textures();
        let f = self.free_list();
        &&& f.len() >= 1
        &&& forall|k: int| 1 <= k < f.len() ==> #[trigger] f[k] < f[0]
        &&& forall|h: u64| #[trigger] t.contains_key(h) ==> t[h] < f[0]
        &&& f.no_duplicates()
        &&& forall|h1: u64, h2: u64|
            #[trigger] t.contains_key(h1) && #[trigger] t.contains_key(h2) && t[h1] == t[h2] ==> h1 == h2
        &&& forall|h: u64| #[trigger] t.contains_key(h) ==> !f.contains(t[h])
    }

    /// Whether adding `h` would need an id past the largest one.
    pub open spec fn exhausted_by(&self, h: u64) -> bool {
        !self.textures().contains_key(h) && self.free_list().len() == 1 && self.free_list()[0] == u64::MAX
    }

    /// An empty table whose first id is 0.
    pub fn new() -> (r: EguiUserTextures)
        ensures
            r.wf(),
            r.textures() == Map::<u64, u64>::empty(),
            r.free_list() == seq![0u64],
    {
        let r = EguiUserTextures { textures: IdMap::new(), free_list: vec![0] };
        proof {
            assert(r.free_list@ =~= seq![0u64]);
        }
        r
    }

    /// Registers an image handle and returns its texture id; a handle
    /// already registered keeps its id.
    pub fn add_image(&mut self, image: u64) -> (r: TextureId)
        requires
            old(self).wf(),
            !old(self).exhausted_by(image),
        ensures
            final(self).wf(),
            (final(self).textures(), final(self).free_list(), r->User_0) == added(
                old(self).textures(),
                old(self).free_list(),
                image,
            ),
            r is User,
    {
        if let Some(id) = self.textures.get(image) {
            return TextureId::User(id);
        }
        let ghost f0 = self.free_list();
        let ghost t0 = self.textures();
        let id = self.free_list.pop().unwrap();
        if self.free_list.len() == 0 {
            self.free_list.push(id + 1);
        }
        self.textures.insert(image, id);
        proof {
            let t = self.textures();
            let f = self.free_list();
            assert(id == f0[f0.len() - 1]);
            assert(t[image] == id);
            assert(f0.drop_last() == f0.subrange(0, f0.len() - 1));
            if f0.len() == 1 {
                assert(f =~= seq![(id + 1) as u64]);
                assert(id == f0[0]);
                assert forall|h: u64| #[trigger] t.contains_key(h) implies t[h] < f[0] by {
                    if h != image {
                        assert(t0.contains_key(h));
                        assert(t0[h] < f0[0]);
                        assert(t[h] == t0[h]);
                    }
                }
                assert forall|h: u64| #[trigger] t.contains_key(h) implies !f.contains(t[h]) by {
                    if f.contains(t[h]) {
                        assert(f[0] == t[h]);
                    }
                }
            } else {
                assert(f =~= f0.drop_last());
                assert(f[0] == f0[0]);
                assert forall|k: int| 1 <= k < f.len() implies #[trigger] f[k] < f[0] by {
                    assert(f[k] == f0[k]);
                }
                assert forall|h: u64| #[trigger] t.contains_key(h) implies t[h] < f[0] by {
                    if h != image {
                        assert(t0.contains_key(h));
                        assert(t[h] == t0[h]);
                    } else {
                        assert(f0[f0.len() - 1] < f0[0]);
                    }
                }
                assert forall|h: u64| #[trigger] t.contains_key(h) implies !f.contains(t[h]) by {
                    if f.contains(t[h]) {
                        let k = choose|k: int| 0 <= k < f.len() && f[k] == t[h];
                        assert(f0[k] == f[k]);
                        if h == image {
                            assert(f0[k] == f0[f0.len() - 1]);
                        } else {
                            assert(t0.contains_key(h));
                            assert(t[h] == t0[h]);
                            assert(f0.contains(t0[h]));
                        }
                    }
                }
            }
            assert forall|h1: u64, h2: u64|
                #[trigger] t.contains_key(h1) && #[trigger] t.contains_key(h2) && t[h1] == t[h2] implies h1 == h2 by {
                if h1 != image && h2 != image {
                    assert(t0.contains_key(h1) && t0.contains_key(h2));
                } else if h1 == image && h2 != image {
                    assert(t0.contains_key(h2));
                    assert(f0.contains(id));
                } else if h2 == image && h1 != image {
                    assert(t0.contains_key(h1));
                    assert(f0.contains(id));
                }
            }
        }
        TextureId::User(id)
    }

    /// Removes an image handle; its id goes back on the free list and is
    /// returned.
    pub fn remove_image(&mut self, image: u64) -> (r: Option<TextureId>)
        requires
            old(self).wf(),
        ensures
            final(self).wf(),
            (final(self).textures(), final(self).free_list()) == removed(
                old(self).textures(),
                old(self).free_list(),
                image,
            ),
            r == (if old(self).textures().contains_key(image) {
                Some(TextureId::User(old(self).textures()[image]))
            } else {
                None
            }),
    {
        let ghost f0 = self.free_list();
        let ghost t0 = self.textures();
        let id = self.textures.remove(image);
        match id {
            Some(id) => {
                self.free_list.push(id);
                proof {
                    let t = self.textures();
                    let f = self.free_list();
                    assert(f[0] == f0[0]);
                    assert(t0.contains_key(image));
                    assert(id == t0[image]);
                    assert(t0[image] < f0[0]);
                    assert forall|k: int| 1 <= k < f.len() implies #[trigger] f[k] < f[0] by {
                        if k < f0.len() {
                            assert(f[k] == f0[k]);
                        } else {
                            assert(f[k] == id);
                        }
                    }
                    assert forall|h: u64| #[trigger] t.contains_key(h) implies t[h] < f[0] by {
                        assert(t0.contains_key(h));
                        assert(t[h] == t0[h]);
                    }
                    assert forall|h1: u64, h2: u64|
                        #[trigger] t.contains_key(h1) && #[trigger] t.contains_key(h2) && t[h1] == t[h2] implies h1 == h2 by {
                        assert(t0.contains_key(h1) && t0.contains_key(h2));
                    }
                    assert forall|a: int, b: int| 0 <= a < b < f.len() implies f[a] != f[b] by {
                        if b == f.len() - 1 {
                            assert(f[a] == f0[a]);
                            assert(!f0.contains(t0[image]));
                        }
                    }
                    assert forall|h: u64| #[trigger] t.contains_key(h) implies !f.contains(t[h]) by {
                        assert(t0.contains_key(h));
                        assert(t[h] == t0[h]);
                        if f.contains(t[h]) {
                            let k = choose|k: int| 0 <= k < f.len() && f[k] == t[h];
                            if k < f0.len() {
                                assert(f0[k] == f[k]);
                                assert(f0.contains(t0[h]));
                            } else {
                                assert(t0[h] == t0[image]);
                            }
                        }
                    }
                }
                Some(TextureId::User(id))
            },
            None => {
                proof {
                    assert(self.textures() =~= t0);
                }
                None
            },
        }
    }

    /// The texture id of an image handle.
    pub fn image_id(&self, image: u64) -> (r: Option<TextureId>)
        ensures
            r == (if self.textures().contains_key(image) {
                Some(TextureId::User(self.textures()[image]))
            } else {
                None
            }),
    {
        match self.textures.get(image) {
            Some(id) => Some(TextureId::User(id)),
            None => None,
        }
    }
}

/// Adding a handle that is already there returns its id and changes
/// nothing, however often it is repeated.
pub proof fn adding_again_is_idempotent(textures: Map<u64, u64>, free: Seq<u64>, h: u64)
    requires
        free.len() >= 1,
    ensures
        ({
            let (t1, f1, id1) = added(textures, free, h);
            let (t2, f2, id2) = added(t1, f1, h);
            t2 == t1 && f2 == f1 && id2 == id1
        }),
{
}

/// A removed handle's id is the one the next new handle takes.
pub proof fn freed_id_is_reused(textures: Map<u64, u64>, free: Seq<u64>, h: u64, other: u64)
    requires
        textures.contains_key(h),
        !textures.contains_key(other) || other == h,
    ensures
        ({
            let (t1, f1) = removed(textures, free, h);
            added(t1, f1, other).2 == textures[h]
        }),
{
    let (t1, f1) = removed(textures, free, h);
    assert(!t1.contains_key(other));
    assert(f1.last() == textures[h]);
}

} // verus!
