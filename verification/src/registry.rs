//! The texture registry: who owns which GPU texture handle.
//!
//! The registry is the bookkeeping half of texture ownership. It hands
//! out unique keys, remembers each texture's size, label and bind-group
//! assignment, and releases entries when a render target is replaced.
//! The GPU objects themselves live with the host, filed under the same
//! keys; what is verified here is the lifecycle: keys are never reused,
//! and a released key is no longer held.

use vstd::prelude::*;
use crate::geom::Extent2;

verus! {

/// A handle into the texture registry.
#[derive(Clone, Copy, PartialEq, Eq, Structural, Debug, Hash)]
pub struct RegistryKey(pub u64);

impl RegistryKey {
    /// Wraps a raw id.
    pub fn new(id: u64) -> (r: RegistryKey)
        ensures
            r.0 == id,
    {
        RegistryKey(id)
    }

    /// Recovers a key from the id the GUI uses for the same texture.
    pub fn from_imgui(id: usize) -> (r: RegistryKey)
        ensures
            r.0 == id as u64,
    {
        RegistryKey(id as u64)
    }

    /// The raw id, also the id the GUI displays the texture under.
    pub fn id(&self) -> (r: u64)
        ensures
            r == self.0,
    {
        self.0
    }
}

/// The set of texture maps one sprite is drawn from, by registry key.
#[derive(Clone, Debug)]
pub struct TextureMapSet {
    /// The maps' common size in pixels.
    pub size: Extent2,
    pub albedo: RegistryKey,
    pub ao: RegistryKey,
    pub normal: RegistryKey,
    pub specular: RegistryKey,
    pub height: RegistryKey,
    pub extras: Vec<RegistryKey>,
    /// The bind group the maps are bound under for the sprite pass.
    pub bind_group_idx: usize,
}

/// What the registry remembers about one texture.
#[derive(Clone, Debug)]
pub struct TextureInfo {
    pub key: RegistryKey,
    pub label: String,
    pub bind_group: Option<usize>,
    pub size: Extent2,
}

impl TextureInfo {
    /// Assigns the bind group this texture is bound under.
    pub fn replace_bind_group_idx(&mut self, bind_group_idx: usize)
        ensures
            *final(self) == (TextureInfo { bind_group: Some(bind_group_idx), ..*old(self) }),
    {
        self.bind_group = Some(bind_group_idx);
    }

    /// The key this entry is filed under.
    pub fn key(&self) -> (r: RegistryKey)
        ensures
            r == self.key,
    {
        self.key
    }

    /// The texture's size in pixels.
    pub fn size(&self) -> (r: Extent2)
        ensures
            r == self.size,
    {
        self.size
    }

    /// The entry's label.
    pub fn label(&self) -> (r: String)
        ensures
            r@ == self.label@,
    {
        self.label.clone()
    }

    /// The bind group this texture is bound under, if any.
    pub fn bind_group(&self) -> (r: Option<usize>)
        ensures
            r == self.bind_group,
    {
        self.bind_group
    }
}

/// The registry of live textures and bind groups.
#[derive(Debug)]
pub struct TextureRegistry {
    pub entries: Vec<TextureInfo>,
    pub bind_group_keys: Vec<usize>,
    pub next_key: u64,
    pub next_bg_key: usize,
}

impl TextureRegistry {
    /// Every entry's key is unique and below the key counter, and the
    /// same for bind groups; keys are therefore never reused.
    pub open spec fn wf(self) -> bool {
        &&& forall|i: int|
            0 <= i < self.entries@.len() ==> (#[trigger] self.entries@[i]).key.0 < self.next_key
        &&& forall|i: int, j: int|
            0 <= i < j < self.entries@.len() ==> (#[trigger] self.entries@[i]).key.0 != (
            #[trigger] self.entries@[j]).key.0
        &&& forall|i: int|
            0 <= i < self.bind_group_keys@.len() ==> #[trigger] self.bind_group_keys@[i]
                < self.next_bg_key
        &&& forall|i: int, j: int|
            0 <= i < j < self.bind_group_keys@.len() ==> (#[trigger] self.bind_group_keys@[i]) != (
            #[trigger] self.bind_group_keys@[j])
    }

    /// The entries currently held.
    pub open spec fn entries_spec(self) -> Seq<TextureInfo> {
        self.entries@
    }

    /// The next key that will be handed out.
    pub open spec fn next_key_spec(self) -> u64 {
        self.next_key
    }

    /// The next bind-group key that will be handed out.
    pub open spec fn next_bg_key_spec(self) -> usize {
        self.next_bg_key
    }

    /// Whether a texture is filed under `k`.
    pub open spec fn contains_key(self, k: RegistryKey) -> bool {
        exists|i: int| 0 <= i < self.entries@.len() && (#[trigger] self.entries@[i]).key.0 == k.0
    }

    /// Whether every texture filed under `k` has the given size; with
    /// unique keys, the size filed under a held key.
    pub open spec fn key_has_size(self, k: RegistryKey, size: Extent2) -> bool {
        forall|i: int|
            0 <= i < self.entries@.len() ==> ((#[trigger] self.entries@[i]).key.0 == k.0
                ==> self.entries@[i].size == size)
    }

    /// Whether a bind group is filed under `bg`.
    pub open spec fn contains_bind_group(self, bg: usize) -> bool {
        exists|i: int|
            0 <= i < self.bind_group_keys@.len() && #[trigger] self.bind_group_keys@[i] == bg
    }

    /// Registries with the same bind-group table file the same groups.
    proof fn lemma_same_bgs(a: Self, b: Self)
        requires
            a.bind_group_keys@ == b.bind_group_keys@,
        ensures
            forall|bg: usize| a.contains_bind_group(bg) <==> b.contains_bind_group(bg),
    {
        assert forall|bg: usize| a.contains_bind_group(bg) implies b.contains_bind_group(bg) by {
            let i = choose|i: int|
                0 <= i < a.bind_group_keys@.len() && #[trigger] a.bind_group_keys@[i] == bg;
            assert(b.bind_group_keys@[i] == bg);
        }
        assert forall|bg: usize| b.contains_bind_group(bg) implies a.contains_bind_group(bg) by {
            let i = choose|i: int|
                0 <= i < b.bind_group_keys@.len() && #[trigger] b.bind_group_keys@[i] == bg;
            assert(a.bind_group_keys@[i] == bg);
        }
    }

    /// Registries whose entries carry the same keys file the same keys.
    proof fn lemma_push_contains(pre: Self, post: Self, info: TextureInfo)
        requires
            post.entries@ == pre.entries@.push(info),
        ensures
            forall|k: RegistryKey|
                post.contains_key(k) <==> (pre.contains_key(k) || info.key.0 == k.0),
    {
        assert forall|k: RegistryKey|
            post.contains_key(k) implies (pre.contains_key(k) || info.key.0 == k.0) by {
            let i = choose|i: int|
                0 <= i < post.entries@.len() && (#[trigger] post.entries@[i]).key.0 == k.0;
            if i < pre.entries@.len() {
                assert(pre.entries@[i].key.0 == k.0);
            }
        }
        assert forall|k: RegistryKey|
            (pre.contains_key(k) || info.key.0 == k.0) implies post.contains_key(k) by {
            if pre.contains_key(k) {
                let i = choose|i: int|
                    0 <= i < pre.entries@.len() && (#[trigger] pre.entries@[i]).key.0 == k.0;
                assert(post.entries@[i].key.0 == k.0);
            } else {
                assert(post.entries@[post.entries@.len() - 1].key.0 == k.0);
            }
        }
    }

    /// An empty registry. Key zero is left free for the font atlas.
    pub fn new() -> (r: TextureRegistry)
        ensures
            r.wf(),
            r.entries_spec().len() == 0,
            r.next_key_spec() == 1,
            forall|k: RegistryKey| !r.contains_key(k),
            forall|bg: usize| !r.contains_bind_group(bg),
    {
        TextureRegistry {
            entries: Vec::new(),
            bind_group_keys: Vec::new(),
            next_key: 1,
            next_bg_key: 0,
        }
    }

    /// Files a new texture of the given size and hands back its fresh
    /// key; no existing entry is touched.
    pub fn create_texture(&mut self, size: Extent2, label: String) -> (key: RegistryKey)
        requires
            old(self).wf(),
            old(self).next_key_spec() < 0xffff_ffff_ffff_ffff,
        ensures
            final(self).wf(),
            key.0 == old(self).next_key_spec(),
            !old(self).contains_key(key),
            final(self).contains_key(key),
            final(self).next_key_spec() == old(self).next_key_spec() + 1,
            final(self).entries_spec().len() == old(self).entries_spec().len() + 1,
            final(self).entries_spec() == old(self).entries_spec().push(
                final(self).entries_spec().last(),
            ),
            final(self).entries_spec().last().key == key,
            final(self).entries_spec().last().size == size,
            final(self).entries_spec().last().label@ == label@,
            final(self).entries_spec().last().bind_group is None,
            forall|k: RegistryKey|
                k.0 != key.0 ==> (final(self).contains_key(k) <==> old(self).contains_key(k)),
            final(self).next_bg_key_spec() == old(self).next_bg_key_spec(),
            forall|bg: usize|
                final(self).contains_bind_group(bg) <==> old(self).contains_bind_group(bg),
    {
        let key = RegistryKey(self.next_key);
        let info = TextureInfo { key, label, bind_group: None, size };
        self.entries.push(info);
        self.next_key = self.next_key + 1;
        proof {
            Self::lemma_push_contains(*old(self), *self, info);
            Self::lemma_same_bgs(*old(self), *self);
            assert(self.entries@[self.entries@.len() - 1].key.0 == key.0);
            if old(self).contains_key(key) {
                let i = choose|i: int|
                    0 <= i < old(self).entries@.len() && (#[trigger] old(self).entries@[i]).key.0
                        == key.0;
            }
        }
        key
    }

    /// Files the font atlas under the reserved key zero.
    pub fn create_font_atlas(&mut self, size: Extent2, label: String) -> (key: RegistryKey)
        requires
            old(self).wf(),
            !old(self).contains_key(RegistryKey(0)),
            old(self).next_key_spec() >= 1,
        ensures
            final(self).wf(),
            key.0 == 0,
            final(self).contains_key(key),
            final(self).next_key_spec() == old(self).next_key_spec(),
            forall|k: RegistryKey|
                k.0 != 0 ==> (final(self).contains_key(k) <==> old(self).contains_key(k)),
            forall|bg: usize|
                final(self).contains_bind_group(bg) <==> old(self).contains_bind_group(bg),
    {
        let key = RegistryKey(0);
        let info = TextureInfo { key, label, bind_group: None, size };
        self.entries.push(info);
        proof {
            Self::lemma_push_contains(*old(self), *self, info);
            Self::lemma_same_bgs(*old(self), *self);
            assert(self.entries@[self.entries@.len() - 1].key.0 == 0);
            assert forall|i: int, j: int|
                0 <= i < j < self.entries@.len() implies (#[trigger] self.entries@[i]).key.0 != (
            #[trigger] self.entries@[j]).key.0 by {
                let pre = old(self).entries@;
                if j == pre.len() {
                    if pre[i].key.0 == 0 {
                        assert(old(self).contains_key(RegistryKey(0)));
                    }
                }
            }
        }
        key
    }

    /// Looks a texture up by key.
    pub fn find(&self, key: RegistryKey) -> (r: Option<&TextureInfo>)
        ensures
            r is Some <==> self.contains_key(key),
            r matches Some(t) ==> t.key.0 == key.0 && exists|i: int|
                0 <= i < self.entries@.len() && (#[trigger] self.entries@[i]) == *t,
    {
        let n: usize = self.entries.len();
        let mut i: usize = 0;
        while i < n
            invariant
                n == self.entries@.len(),
                0 <= i <= n,
                forall|j: int| 0 <= j < i ==> (#[trigger] self.entries@[j]).key.0 != key.0,
            decreases n - i,
        {
            if self.entries[i].key.0 == key.0 {
                proof {
                    assert(self.entries@[i as int].key.0 == key.0);
                    assert(self.entries@[i as int] == self.entries@[i as int]);
                }
                return Some(&self.entries[i]);
            }
            i = i + 1;
        }
        None
    }

    /// Releases the entry filed under `key`, handing it back if it was
    /// there; every other entry stays.
    pub fn remove(&mut self, key: RegistryKey) -> (r: Option<TextureInfo>)
        requires
            old(self).wf(),
        ensures
            final(self).wf(),
            !final(self).contains_key(key),
            r is Some <==> old(self).contains_key(key),
            !old(self).contains_key(key) ==> *final(self) == *old(self),
            r matches Some(t) ==> t.key.0 == key.0 && exists|i: int|
                0 <= i < old(self).entries@.len() && (#[trigger] old(self).entries@[i]) == t
                    && final(self).entries_spec() == old(self).entries_spec().remove(i),
            final(self).bind_group_keys@ == old(self).bind_group_keys@,
            forall|k: RegistryKey|
                k.0 != key.0 ==> (final(self).contains_key(k) <==> old(self).contains_key(k)),
            final(self).next_key_spec() == old(self).next_key_spec(),
            final(self).next_bg_key_spec() == old(self).next_bg_key_spec(),
            forall|bg: usize|
                final(self).contains_bind_group(bg) <==> old(self).contains_bind_group(bg),
    {
        let n: usize = self.entries.len();
        let mut i: usize = 0;
        while i < n
            invariant
                old(self).wf(),
                *self == *old(self),
                n == self.entries@.len(),
                0 <= i <= n,
                forall|j: int| 0 <= j < i ==> (#[trigger] self.entries@[j]).key.0 != key.0,
            decreases n - i,
        {
            if self.entries[i].key.0 == key.0 {
                let info = self.entries.remove(i);
                proof {
                    let pre = old(self).entries@;
                    let post = self.entries@;
                    assert(post == pre.remove(i as int));
                    pre.remove_ensures(i as int);
                    let ii = i as int;
                    assert(0 <= ii < pre.len() && pre[ii] == info && post == pre.remove(ii));
                    assert(old(self).contains_key(key)) by {
                        assert(pre[i as int].key.0 == key.0);
                    }
                    assert forall|k: RegistryKey|
                        k.0 != key.0 && old(self).contains_key(k) implies self.contains_key(
                        k,
                    ) by {
                        let j = choose|j: int|
                            0 <= j < pre.len() && (#[trigger] pre[j]).key.0 == k.0;
                        if j < i {
                            assert(post[j] == pre[j]);
                        } else {
                            assert(post[j - 1] == pre[j]);
                        }
                    }
                    assert forall|k: RegistryKey| self.contains_key(k) implies k.0 == key.0 || old(
                        self,
                    ).contains_key(k) by {
                        let j = choose|j: int|
                            0 <= j < post.len() && (#[trigger] post[j]).key.0 == k.0;
                        if j < i {
                            assert(pre[j] == post[j]);
                        } else {
                            assert(pre[j + 1] == post[j]);
                        }
                    }
                    assert(!self.contains_key(key)) by {
                        if self.contains_key(key) {
                            let j = choose|j: int|
                                0 <= j < post.len() && (#[trigger] post[j]).key.0 == key.0;
                            if j < i {
                                assert(pre[j].key.0 == key.0);
                                assert(pre[i as int].key.0 == key.0);
                            } else {
                                assert(pre[j + 1].key.0 == key.0);
                                assert(pre[i as int].key.0 == key.0);
                            }
                        }
                    }
                    assert forall|a: int, b: int|
                        0 <= a < b < post.len() implies (#[trigger] post[a]).key.0 != (
                    #[trigger] post[b]).key.0 by {
                        let a0 = if a < i {
                            a
                        } else {
                            a + 1
                        };
                        let b0 = if b < i {
                            b
                        } else {
                            b + 1
                        };
                        assert(post[a] == pre[a0]);
                        assert(post[b] == pre[b0]);
                    }
                    assert forall|a: int| 0 <= a < post.len() implies (#[trigger] post[a]).key.0
                        < self.next_key by {
                        let a0 = if a < i {
                            a
                        } else {
                            a + 1
                        };
                        assert(post[a] == pre[a0]);
                    }
                    Self::lemma_same_bgs(*old(self), *self);
                }
                return Some(info);
            }
            i = i + 1;
        }
        proof {
            Self::lemma_same_bgs(*old(self), *self);
        }
        None
    }

    /// Assigns a bind group to the texture filed under `key`; reports
    /// whether such a texture was there.
    pub fn assign_bind_group(&mut self, key: RegistryKey, bind_group_idx: usize) -> (found: bool)
        requires
            old(self).wf(),
        ensures
            final(self).wf(),
            found <==> old(self).contains_key(key),
            !found ==> *final(self) == *old(self),
            found ==> exists|i: int|
                0 <= i < old(self).entries@.len() && (#[trigger] old(self).entries@[i]).key.0
                    == key.0 && final(self).entries@ == old(self).entries@.update(
                    i,
                    TextureInfo { bind_group: Some(bind_group_idx), ..old(self).entries@[i] },
                ),
            final(self).bind_group_keys@ == old(self).bind_group_keys@,
            forall|k: RegistryKey| final(self).contains_key(k) <==> old(self).contains_key(k),
            final(self).next_key_spec() == old(self).next_key_spec(),
            final(self).next_bg_key_spec() == old(self).next_bg_key_spec(),
            forall|bg: usize|
                final(self).contains_bind_group(bg) <==> old(self).contains_bind_group(bg),
    {
        let n: usize = self.entries.len();
        let mut i: usize = 0;
        while i < n
            invariant
                old(self).wf(),
                *self == *old(self),
                n == self.entries@.len(),
                0 <= i <= n,
                forall|j: int| 0 <= j < i ==> (#[trigger] self.entries@[j]).key.0 != key.0,
            decreases n - i,
        {
            if self.entries[i].key.0 == key.0 {
                let ghost pre = self.entries@;
                let entry = &mut self.entries[i];
                entry.replace_bind_group_idx(bind_group_idx);
                proof {
                    assert(old(self).contains_key(key)) by {
                        assert(pre[i as int].key.0 == key.0);
                    }
                    assert(self.entries@ == pre.update(
                        i as int,
                        TextureInfo { bind_group: Some(bind_group_idx), ..pre[i as int] },
                    ));
                    assert forall|k: RegistryKey|
                        old(self).contains_key(k) implies self.contains_key(k) by {
                        let j = choose|j: int|
                            0 <= j < pre.len() && (#[trigger] pre[j]).key.0 == k.0;
                        assert(self.entries@[j].key.0 == k.0);
                    }
                    assert forall|k: RegistryKey|
                        self.contains_key(k) implies old(self).contains_key(k) by {
                        let j = choose|j: int|
                            0 <= j < self.entries@.len() && (#[trigger] self.entries@[j]).key.0
                                == k.0;
                        assert(pre[j].key.0 == k.0);
                    }
                    Self::lemma_same_bgs(*old(self), *self);
                    let ii = i as int;
                    assert(0 <= ii < old(self).entries@.len()
                        && (#[trigger] old(self).entries@[ii]).key.0 == key.0
                        && self.entries@ == old(self).entries@.update(
                        ii,
                        TextureInfo {
                            bind_group: Some(bind_group_idx),
                            ..old(self).entries@[ii]
                        },
                    ));
                }
                return true;
            }
            i = i + 1;
        }
        proof {
            Self::lemma_same_bgs(*old(self), *self);
        }
        false
    }

    /// Registers a new bind group and hands back its fresh key.
    pub fn add_bind_group(&mut self) -> (bg: usize)
        requires
            old(self).wf(),
            old(self).next_bg_key_spec() < usize::MAX,
        ensures
            final(self).wf(),
            bg == old(self).next_bg_key_spec(),
            final(self).contains_bind_group(bg),
            forall|b: usize|
                b != bg ==> (final(self).contains_bind_group(b) <==> old(self).contains_bind_group(
                    b,
                )),
            forall|k: RegistryKey| final(self).contains_key(k) <==> old(self).contains_key(k),
            final(self).entries_spec() == old(self).entries_spec(),
            final(self).next_key_spec() == old(self).next_key_spec(),
            final(self).next_bg_key_spec() == old(self).next_bg_key_spec() + 1,
    {
        let bg = self.next_bg_key;
        self.bind_group_keys.push(bg);
        self.next_bg_key = self.next_bg_key + 1;
        proof {
            assert(self.bind_group_keys@[self.bind_group_keys@.len() - 1] == bg);
            assert forall|b: usize|
                b != bg && old(self).contains_bind_group(b) implies self.contains_bind_group(
                b,
            ) by {
                let i = choose|i: int|
                    0 <= i < old(self).bind_group_keys@.len() && #[trigger] old(
                        self,
                    ).bind_group_keys@[i] == b;
                assert(self.bind_group_keys@[i] == b);
            }
            assert forall|b: usize|
                b != bg && self.contains_bind_group(b) implies old(self).contains_bind_group(
                b,
            ) by {
                let i = choose|i: int|
                    0 <= i < self.bind_group_keys@.len() && #[trigger] self.bind_group_keys@[i]
                        == b;
                assert(old(self).bind_group_keys@[i] == b);
            }
            assert forall|k: RegistryKey|
                old(self).contains_key(k) implies self.contains_key(k) by {
                let i = choose|i: int|
                    0 <= i < old(self).entries@.len() && (#[trigger] old(self).entries@[i]).key.0
                        == k.0;
                assert(self.entries@[i].key.0 == k.0);
            }
            assert forall|k: RegistryKey|
                self.contains_key(k) implies old(self).contains_key(k) by {
                let i = choose|i: int|
                    0 <= i < self.entries@.len() && (#[trigger] self.entries@[i]).key.0 == k.0;
                assert(old(self).entries@[i].key.0 == k.0);
            }
        }
        bg
    }

    /// The bind group the texture under `key` is bound with: nothing
    /// when no such texture is filed or it has none assigned.
    pub fn texture_bind_group(&self, key: RegistryKey) -> (r: Option<usize>)
        requires
            self.wf(),
        ensures
            r matches Some(bg) ==> exists|i: int|
                0 <= i < self.entries@.len() && (#[trigger] self.entries@[i]).key.0 == key.0
                    && self.entries@[i].bind_group == Some(bg),
            r is None ==> forall|i: int|
                0 <= i < self.entries@.len() ==> ((#[trigger] self.entries@[i]).key.0 == key.0
                    ==> self.entries@[i].bind_group is None),
    {
        match self.find(key) {
            Some(info) => {
                let r: Option<usize> = info.bind_group();
                proof {
                    let t = choose|j: int|
                        0 <= j < self.entries@.len() && (#[trigger] self.entries@[j]) == *info;
                    if r is None {
                        assert forall|i: int|
                            0 <= i < self.entries@.len() && (#[trigger] self.entries@[i]).key.0
                                == key.0 implies self.entries@[i].bind_group is None by {
                            if i < t {
                                assert(self.entries@[i].key.0 != self.entries@[t].key.0);
                            } else if i > t {
                                assert(self.entries@[t].key.0 != self.entries@[i].key.0);
                            }
                        }
                    } else {
                        assert(self.entries@[t].key.0 == key.0 && self.entries@[t].bind_group
                            == r);
                    }
                }
                r
            },
            None => None,
        }
    }

    /// Whether a bind group is registered under `bg`.
    pub fn find_bind_group(&self, bg: usize) -> (found: bool)
        ensures
            found == self.contains_bind_group(bg),
    {
        let n: usize = self.bind_group_keys.len();
        let mut i: usize = 0;
        while i < n
            invariant
                n == self.bind_group_keys@.len(),
                0 <= i <= n,
                forall|j: int| 0 <= j < i ==> #[trigger] self.bind_group_keys@[j] != bg,
            decreases n - i,
        {
            if self.bind_group_keys[i] == bg {
                proof {
                    assert(self.bind_group_keys@[i as int] == bg);
                }
                return true;
            }
            i = i + 1;
        }
        false
    }

    /// How many textures are filed.
    pub fn len(&self) -> (r: usize)
        ensures
            r == self.entries_spec().len(),
    {
        self.entries.len()
    }
}

} // verus!
