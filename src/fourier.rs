use std::sync::Arc;
use vstd::prelude::*;

verus! {

/// Which quantity a path carries: radiance from lights or importance from the camera.
#[derive(Clone, Copy, Debug, PartialEq, Eq, Structural)]
pub enum TransportMode {
    Radiance,
    Importance,
}

/// The single lobe of a measured material: the shared coefficient table and
/// the transport mode it is evaluated in.
pub struct FourierBsdf<T> {
    pub bsdf_table: Arc<T>,
    pub mode: TransportMode,
}

/// A reflectance model built at one intersection.
pub struct Bsdf<T> {
    pub bxdfs: Vec<FourierBsdf<T>>,
}

/// Tables already loaded, keyed by the path they were read from.
pub struct BsdfTableCache<T> {
    pub entries: Vec<(String, Arc<T>)>,
}

impl<T> BsdfTableCache<T> {
    /// No path is registered twice.
    pub open spec fn wf(&self) -> bool {
        forall|i: int, j: int|
            0 <= i < self.entries@.len() && 0 <= j < self.entries@.len() && i != j
                ==> #[trigger] self.entries@[i].0@ != #[trigger] self.entries@[j].0@
    }

    /// The cache as a map from path to table.
    pub open spec fn view(&self) -> Map<Seq<char>, Arc<T>> {
        Map::new(
            |p: Seq<char>| exists|i: int| 0 <= i < self.entries@.len() && #[trigger] self.entries@[i].0@ == p,
            |p: Seq<char>|
                self.entries@[choose|i: int| 0 <= i < self.entries@.len() && #[trigger] self.entries@[i].0@ == p].1,
        )
    }

    pub fn new() -> (r: Self)
        ensures
            r.wf(),
            r@ == Map::<Seq<char>, Arc<T>>::empty(),
    {
        let r = BsdfTableCache { entries: Vec::new() };
        assert(r@ =~= Map::<Seq<char>, Arc<T>>::empty());
        r
    }

    /// The table registered under `path`, if any.
    pub fn get(&self, path: &String) -> (r: Option<Arc<T>>)
        requires
            self.wf(),
        ensures
            r is Some <==> self@.contains_key(path@),
            r matches Some(t) ==> t == self@[path@],
    {
        let mut i: usize = 0;
        while i < self.entries.len()
            invariant
                self.wf(),
                i <= self.entries@.len(),
                forall|k: int| 0 <= k < i ==> #[trigger] self.entries@[k].0@ != path@,
            decreases self.entries@.len() - i,
        {
            if self.entries[i].0 == *path {
                let t = Arc::clone(&self.entries[i].1);
                proof {
                    let j = choose|j: int| 0 <= j < self.entries@.len() && #[trigger] self.entries@[j].0@ == path@;
                    assert(j == i as int);
                }
                return Some(t);
            }
            i = i + 1;
        }
        None
    }

    /// Registers `table` under `path` unless a table is registered there
    /// already, and returns the table that `path` then names.
    pub fn register(&mut self, path: String, table: Arc<T>) -> (r: Arc<T>)
        requires
            old(self).wf(),
        ensures
            final(self).wf(),
            final(self)@ == registered(old(self)@, path@, table),
            r == final(self)@[path@],
    {
        match self.get(&path) {
            Some(t) => {
                assert(registered(self@, path@, table) == self@);
                t
            },
            None => {
                let ghost old_entries = self.entries@;
                let ghost old_view = self@;
                let t = Arc::clone(&table);
                self.entries.push((path, table));
                proof {
                    let n = old_entries.len() as int;
                    assert(self.entries@[n].0@ == path@);
                    assert forall|i: int, j: int|
                        0 <= i < self.entries@.len() && 0 <= j < self.entries@.len() && i != j
                            implies #[trigger] self.entries@[i].0@ != #[trigger] self.entries@[j].0@ by {
                        if i < n && j < n {
                            assert(old_entries[i] == self.entries@[i]);
                            assert(old_entries[j] == self.entries@[j]);
                        } else if i == n {
                            assert(old_entries[j] == self.entries@[j]);
                            assert(!old_view.contains_key(path@));
                        } else {
                            assert(old_entries[i] == self.entries@[i]);
                            assert(!old_view.contains_key(path@));
                        }
                    }
                    let target = old_view.insert(path@, table);
                    assert forall|p: Seq<char>| #[trigger] self@.contains_key(p) <==> target.contains_key(p) by {
                        if target.contains_key(p) && p != path@ {
                            let k = choose|k: int| 0 <= k < old_entries.len() && #[trigger] old_entries[k].0@ == p;
                            assert(self.entries@[k] == old_entries[k]);
                        }
                        if self@.contains_key(p) && p != path@ {
                            let k = choose|k: int| 0 <= k < self.entries@.len() && #[trigger] self.entries@[k].0@ == p;
                            assert(k != n);
                            assert(self.entries@[k] == old_entries[k]);
                        }
                    }
                    assert forall|p: Seq<char>| #[trigger] self@.contains_key(p) implies self@[p] == target[p] by {
                        let k = choose|k: int| 0 <= k < self.entries@.len() && #[trigger] self.entries@[k].0@ == p;
                        if p == path@ {
                            assert(k == n);
                        } else {
                            let k0 = choose|k0: int| 0 <= k0 < old_entries.len() && #[trigger] old_entries[k0].0@ == p;
                            assert(self.entries@[k0] == old_entries[k0]);
                            assert(k == k0);
                        }
                    }
                    assert(self@ =~= target);
                }
                t
            },
        }
    }
}

/// The cache after registering `t` under `p`: a path already present keeps
/// its table.
pub open spec fn registered<T>(m: Map<Seq<char>, Arc<T>>, p: Seq<char>, t: Arc<T>) -> Map<
    Seq<char>,
    Arc<T>,
> {
    if m.contains_key(p) {
        m
    } else {
        m.insert(p, t)
    }
}

/// A material whose reflectance is a measured table of Fourier coefficients,
/// with an optional bump map that perturbs the shading frame.
pub struct FourierMaterial<T, B> {
    pub bsdf_table: Arc<T>,
    pub bump_map: Option<Arc<B>>,
}

impl<T, B> FourierMaterial<T, B> {
    pub fn new(bsdf_table: Arc<T>, bump_map: Option<Arc<B>>) -> (r: Self)
        ensures
            r.bsdf_table == bsdf_table,
            r.bump_map == bump_map,
    {
        FourierMaterial { bump_map, bsdf_table }
    }

    /// A material over the table already loaded from `path`, if there is one.
    pub fn from_cache(cache: &BsdfTableCache<T>, path: &String, bump_map: Option<Arc<B>>) -> (r:
        Option<Self>)
        requires
            cache.wf(),
        ensures
            r is Some <==> cache@.contains_key(path@),
            r matches Some(m) ==> m.bsdf_table == cache@[path@] && m.bump_map == bump_map,
    {
        match cache.get(path) {
            Some(t) => Some(FourierMaterial::new(t, bump_map)),
            None => None,
        }
    }

    /// A material over the table of `path`: the cached one where `path` was
    /// loaded before, else `table`, which is then registered for later uses.
    pub fn create(cache: &mut BsdfTableCache<T>, path: String, table: T, bump_map: Option<Arc<B>>) -> (r:
        Self)
        requires
            old(cache).wf(),
        ensures
            final(cache).wf(),
            final(cache)@ == registered(old(cache)@, path@, Arc::new(table)),
            r.bsdf_table == final(cache)@[path@],
            r.bump_map == bump_map,
    {
        let t = cache.register(path, Arc::new(table));
        FourierMaterial::new(t, bump_map)
    }

    /// The reflectance model at an intersection: exactly one measured lobe
    /// over the shared table, in the given transport mode. A bump map, when
    /// present, is applied to the intersection by the caller beforehand.
    pub fn bsdf(&self, mode: TransportMode) -> (r: Bsdf<T>)
        ensures
            r.bxdfs@.len() == 1,
            r.bxdfs@[0].bsdf_table == self.bsdf_table,
            r.bxdfs@[0].mode == mode,
    {
        let mut bxdfs: Vec<FourierBsdf<T>> = Vec::new();
        bxdfs.push(FourierBsdf { bsdf_table: Arc::clone(&self.bsdf_table), mode });
        Bsdf { bxdfs }
    }
}

/// Two materials built from one path share one table: once a path is
/// registered, registering it again, with any table, changes nothing, so
/// both materials read the entry of the first load.
pub proof fn same_path_shares_table<T>(
    cache: Map<Seq<char>, Arc<T>>,
    path: Seq<char>,
    first: Arc<T>,
    second: Arc<T>,
)
    ensures
        registered(registered(cache, path, first), path, second) == registered(cache, path, first),
        registered(registered(cache, path, first), path, second)[path] == registered(
            cache,
            path,
            first,
        )[path],
{
}

} // verus!
