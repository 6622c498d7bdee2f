pub mod texture;

use vstd::prelude::*;
use vstd::string::StringExecFns;
use std::sync::Arc;
use crate::gl::GraphicsContext;

verus! {

/// What went wrong with an asset load.
#[derive(Clone, Copy, PartialEq, Eq, Structural, Debug)]
pub enum AssetErrorKind {
    /// The byte source could not be read.
    Io,
    /// The bytes were read but the decoder rejected them.
    Decode,
}

/// A failed asset load, identifying the kind of failure, the path asked
/// for and the asset type it was decoded as.
#[derive(Clone, Debug)]
pub struct AssetError {
    pub kind: AssetErrorKind,
    pub path: String,
    pub asset_type: String,
}

impl AssetError {
    /// An unreadable-source error for the given path.
    pub fn io(path: &str, asset_type: &str) -> (r: Self)
        ensures
            r.kind == AssetErrorKind::Io,
            r.path@ == path@,
            r.asset_type@ == asset_type@,
    {
        AssetError {
            kind: AssetErrorKind::Io,
            path: String::from_str(path),
            asset_type: String::from_str(asset_type),
        }
    }

    /// A rejected-bytes error for the given path.
    pub fn decode(path: &str, asset_type: &str) -> (r: Self)
        ensures
            r.kind == AssetErrorKind::Decode,
            r.path@ == path@,
            r.asset_type@ == asset_type@,
    {
        AssetError {
            kind: AssetErrorKind::Decode,
            path: String::from_str(path),
            asset_type: String::from_str(asset_type),
        }
    }
}

/// An asset type that decodes itself from raw bytes.
pub trait Asset: Sized {
    /// Whether the type decodes from the given bytes. Decoding is a
    /// function of the bytes alone.
    spec fn decodes(data: Seq<u8>) -> bool;

    /// Whether `v` is the value that decoding the given bytes yields.
    spec fn decoded_as(data: Seq<u8>, v: Self) -> bool;

    /// The name under which this type reports load failures.
    spec fn label() -> Seq<char>;

    /// Decode a value from raw bytes. Succeeds exactly on the bytes the
    /// type decodes.
    fn load(data: &Vec<u8>, path: &str) -> (r: Result<Self, AssetError>)
        ensures
            match r {
                Ok(a) => Self::decodes(data@) && Self::decoded_as(data@, a),
                Err(e) => {
                    &&& !Self::decodes(data@)
                    &&& e.kind == AssetErrorKind::Decode
                    &&& e.path@ == path@
                    &&& e.asset_type@ == Self::label()
                },
            },
    ;
}

/// An asset type whose decoding additionally needs the render context,
/// for example to upload pixel data.
pub trait GlAsset: Sized {
    /// Whether the type decodes from the given bytes. Success is a
    /// function of the bytes alone, though the decoded value may hold
    /// handles the render context allocates.
    spec fn decodes(data: Seq<u8>) -> bool;

    /// Whether `v` is the value that decoding the given bytes yields,
    /// with the two render-context states bracketing exactly the device
    /// work its decoding performs.
    spec fn decoded_as(
        data: Seq<u8>,
        v: Self,
        old_gl: GraphicsContext,
        new_gl: GraphicsContext,
    ) -> bool;

    /// The name under which this type reports load failures.
    spec fn label() -> Seq<char>;

    /// Decode a value from raw bytes, with exclusive access to the render
    /// context. Succeeds exactly on the bytes the type decodes; the render
    /// context's recorded operations may only grow, and its window, frame
    /// bracket and viewport cache stay as they were.
    fn load(data: &Vec<u8>, path: &str, gl: &mut GraphicsContext) -> (r: Result<Self, AssetError>)
        requires
            old(gl).wf(),
        ensures
            final(gl).wf(),
            old(gl).log().is_prefix_of(final(gl).log()),
            final(gl).window_size == old(gl).window_size,
            final(gl).viewport_size == old(gl).viewport_size,
            final(gl).viewport == old(gl).viewport,
            final(gl).in_frame == old(gl).in_frame,
            final(gl).next_buffer == old(gl).next_buffer,
            final(gl).next_shader == old(gl).next_shader,
            final(gl).default_shader == old(gl).default_shader,
            final(gl).indices_square == old(gl).indices_square,
            match r {
                Ok(t) => Self::decodes(data@) && Self::decoded_as(
                    data@,
                    t,
                    *old(gl),
                    *final(gl),
                ),
                Err(e) => {
                    &&& !Self::decodes(data@)
                    &&& e.kind == AssetErrorKind::Decode
                    &&& e.path@ == path@
                    &&& e.asset_type@ == Self::label()
                    &&& *final(gl) == *old(gl)
                },
            },
    ;
}

/// One memoized entry: a path and the shared asset decoded from it.
pub struct AssetEntry<L> {
    pub path: String,
    pub asset: Arc<L>,
}

/// A path-keyed memoization table for one asset type. Within one cache a
/// path maps to exactly one shared instance for the cache's lifetime:
/// loads are idempotent, and nothing is ever re-decoded.
pub struct AssetCache<L> {
    pub entries: Vec<AssetEntry<L>>,
}

impl<L> AssetCache<L> {
    /// The paths stored, in insertion order.
    pub open spec fn paths(self) -> Seq<Seq<char>> {
        self.entries@.map_values(|e: AssetEntry<L>| e.path@)
    }

    /// The values stored, in insertion order.
    pub open spec fn stored(self) -> Seq<Arc<L>> {
        self.entries@.map_values(|e: AssetEntry<L>| e.asset)
    }

    /// Whether some entry holds the given path.
    pub open spec fn has_path(self, path: Seq<char>) -> bool {
        exists|i: int| 0 <= i < self.paths().len() && self.paths()[i] == path
    }

    /// The index of the entry holding the given path.
    pub open spec fn index_of(self, path: Seq<char>) -> int {
        choose|i: int| 0 <= i < self.paths().len() && self.paths()[i] == path
    }

    /// No path occurs twice.
    pub open spec fn wf(self) -> bool {
        forall|i: int, j: int|
            0 <= i < j < self.paths().len() ==> self.paths()[i] != self.paths()[j]
    }

    /// The empty cache.
    pub fn new() -> (r: Self)
        ensures
            r.wf(),
            r.paths() =~= Seq::<Seq<char>>::empty(),
    {
        AssetCache { entries: Vec::new() }
    }

    /// The memoized instance for a path, if the path has been loaded.
    pub fn get(&self, path: &str) -> (r: Option<Arc<L>>)
        requires
            self.wf(),
        ensures
            match r {
                Some(a) => self.has_path(path@) && a == self.stored()[self.index_of(path@)],
                None => !self.has_path(path@),
            },
    {
        let key: String = String::from_str(path);
        let mut i: usize = 0;
        while i < self.entries.len()
            invariant
                self.wf(),
                key@ == path@,
                i <= self.entries@.len(),
                forall|j: int| 0 <= j < i ==> self.paths()[j] != path@,
            decreases self.entries@.len() - i,
        {
            if self.entries[i].path == key {
                let a = arc_share(&self.entries[i].asset);
                proof {
                    assert(self.paths()[i as int] == path@);
                    assert(self.index_of(path@) == i);
                }
                return Some(a);
            }
            proof {
                assert(self.paths()[i as int] == self.entries@[i as int].path@);
            }
            i = i + 1;
        }
        None
    }

    /// Store the decoded instance for a new path and hand back a share
    /// of it.
    pub fn insert(&mut self, path: &str, asset: L) -> (r: Arc<L>)
        requires
            old(self).wf(),
            !old(self).has_path(path@),
        ensures
            final(self).wf(),
            final(self).paths() =~= old(self).paths().push(path@),
            final(self).stored() =~= old(self).stored().push(r),
            r == asset,
    {
        let a = Arc::new(asset);
        let r = arc_share(&a);
        self.entries.push(AssetEntry { path: String::from_str(path), asset: a });
        proof {
            assert(self.paths() =~= old(self).paths().push(path@));
            assert(self.stored() =~= old(self).stored().push(r));
            assert forall|i: int, j: int|
                0 <= i < j < self.paths().len() implies self.paths()[i] != self.paths()[j] by {
                if j < old(self).paths().len() {
                    assert(old(self).paths()[i] != old(self).paths()[j]);
                } else {
                    assert(self.paths()[j] == path@);
                    if old(self).has_path(path@) {
                    } else {
                        assert(self.paths()[i] == old(self).paths()[i]);
                        if self.paths()[i] == path@ {
                            assert(exists|k: int|
                                0 <= k < old(self).paths().len()
                                    && old(self).paths()[k] == path@);
                            assert(false);
                        }
                    }
                }
            }
        }
        r
    }
}

/// Cache idempotence: once a load has stored an instance for a path —
/// the cache's paths and values grew by that path and that instance —
/// the path is present and the instance stored for it is that one. By
/// the contract of [`AssetCache::load`], every later load of the same
/// path in the grown cache therefore returns exactly that instance,
/// leaves the cache untouched and decodes nothing, whatever bytes it is
/// handed.
pub proof fn lemma_cache_idempotent<L>(
    c: AssetCache<L>,
    d: AssetCache<L>,
    path: Seq<char>,
    a: Arc<L>,
)
    requires
        c.wf(),
        !c.has_path(path),
        d.paths() == c.paths().push(path),
        d.stored() == c.stored().push(a),
    ensures
        d.wf(),
        d.has_path(path),
        d.stored()[d.index_of(path)] == a,
{
    let n = c.paths().len() as int;
    assert(d.paths()[n] == path);
    assert(d.has_path(path));
    assert forall|i: int, j: int|
        0 <= i < j < d.paths().len() implies d.paths()[i] != d.paths()[j] by {
        if j < n {
            assert(c.paths()[i] != c.paths()[j]);
        } else {
            assert(d.paths()[j] == path);
            if i < n && d.paths()[i] == path {
                assert(c.paths()[i] == path);
                assert(false);
            }
        }
    }
    let k = d.index_of(path);
    assert(0 <= k < d.paths().len() && d.paths()[k] == path);
    if k != n {
        if k < n {
            assert(d.paths()[k] != d.paths()[n]);
        } else {
            assert(d.paths()[n] != d.paths()[k]);
        }
        assert(false);
    }
    assert(d.stored()[k] == a);
}

/// Relies on `alloc::sync::Arc::clone`: the clone is a second handle to
/// the same allocation, so it carries the same value.
#[verifier::external_body]
fn arc_share<T>(a: &Arc<T>) -> (r: Arc<T>)
    ensures
        r == *a,
{
    Arc::clone(a)
}

/// The asset store: one memoization table per asset type. Keying first by
/// type and then by path keeps the types' entries independent: a load into
/// one table never touches another, and the same path may be stored under
/// two types at once.
pub struct Assets {
    pub images: AssetCache<crate::game::assets::texture::Image>,
    pub textures: AssetCache<crate::game::assets::texture::Texture>,
}

impl Assets {
    /// Both tables are well formed.
    pub open spec fn wf(self) -> bool {
        self.images.wf() && self.textures.wf()
    }

    /// An empty store.
    pub fn new() -> (r: Self)
        ensures
            r.wf(),
            r.images.paths() =~= Seq::<Seq<char>>::empty(),
            r.textures.paths() =~= Seq::<Seq<char>>::empty(),
    {
        Assets { images: AssetCache::new(), textures: AssetCache::new() }
    }
}

impl<L: Asset> AssetCache<L> {
    /// The memoized decoded asset for a path. On the first request for a
    /// path the given bytes are decoded and the result stored; any later
    /// request for the same path returns the stored instance untouched,
    /// whatever bytes are supplied, and decodes nothing.
    pub fn load(&mut self, path: &str, data: &Vec<u8>) -> (r: Result<Arc<L>, AssetError>)
        requires
            old(self).wf(),
        ensures
            final(self).wf(),
            old(self).has_path(path@) ==> {
                &&& *final(self) == *old(self)
                &&& r matches Ok(a) && a == old(self).stored()[old(self).index_of(path@)]
            },
            !old(self).has_path(path@) ==> {
                if L::decodes(data@) {
                    &&& r matches Ok(a) && L::decoded_as(data@, *a)
                        && final(self).stored() =~= old(self).stored().push(a)
                    &&& final(self).paths() =~= old(self).paths().push(path@)
                } else {
                    &&& *final(self) == *old(self)
                    &&& r matches Err(e) && e.kind == AssetErrorKind::Decode
                        && e.path@ == path@ && e.asset_type@ == L::label()
                }
            },
    {
        if let Some(a) = self.get(path) {
            return Ok(a);
        }
        match L::load(data, path) {
            Ok(asset) => {
                let a = self.insert(path, asset);
                Ok(a)
            },
            Err(e) => Err(e),
        }
    }
}

impl<L: GlAsset> AssetCache<L> {
    /// The memoized decoded asset for a path, where decoding may call into
    /// the render context. The memoization contract is the same as for
    /// [`AssetCache::load`]: a path already stored is returned untouched
    /// and nothing is decoded or uploaded again.
    pub fn load_gl(&mut self, path: &str, data: &Vec<u8>, gl: &mut GraphicsContext) -> (r:
        Result<Arc<L>, AssetError>)
        requires
            old(self).wf(),
            old(gl).wf(),
        ensures
            final(self).wf(),
            final(gl).wf(),
            old(gl).log().is_prefix_of(final(gl).log()),
            final(gl).window_size == old(gl).window_size,
            final(gl).viewport_size == old(gl).viewport_size,
            final(gl).viewport == old(gl).viewport,
            final(gl).in_frame == old(gl).in_frame,
            final(gl).next_buffer == old(gl).next_buffer,
            final(gl).next_shader == old(gl).next_shader,
            final(gl).default_shader == old(gl).default_shader,
            final(gl).indices_square == old(gl).indices_square,
            old(self).has_path(path@) ==> {
                &&& *final(self) == *old(self)
                &&& *final(gl) == *old(gl)
                &&& r matches Ok(a) && a == old(self).stored()[old(self).index_of(path@)]
            },
            !old(self).has_path(path@) ==> {
                if L::decodes(data@) {
                    &&& r matches Ok(a) && L::decoded_as(data@, *a, *old(gl), *final(gl))
                        && final(self).stored() =~= old(self).stored().push(a)
                    &&& final(self).paths() =~= old(self).paths().push(path@)
                } else {
                    &&& *final(self) == *old(self)
                    &&& *final(gl) == *old(gl)
                    &&& r matches Err(e) && e.kind == AssetErrorKind::Decode
                        && e.path@ == path@ && e.asset_type@ == L::label()
                }
            },
    {
        if let Some(a) = self.get(path) {
            return Ok(a);
        }
        match L::load(data, path, gl) {
            Ok(asset) => {
                let a = self.insert(path, asset);
                Ok(a)
            },
            Err(e) => Err(e),
        }
    }
}

} // verus!
