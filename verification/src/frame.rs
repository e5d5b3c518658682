//! Frame data: the read-only storages and resources the pass reads while
//! drawing one frame, modelled as plain values keyed by entity identifier.
//!
//! GPU- or engine-owned values (a transform matrix, a camera projection,
//! texture pixel data) appear as the handles under which the host stores
//! them; the pass never reads inside them, it only routes them.
use vstd::prelude::*;

verus! {

/// One sprite to draw: the sheet it comes from and the index into it.
#[derive(Clone, Copy, PartialEq, Eq, Debug)]
pub struct SpriteRender {
    pub sprite_sheet: u64,
    pub sprite_number: usize,
}

/// An entity's world transform, named by the handle under which the host
/// stores the matrix.
#[derive(Clone, Copy, PartialEq, Eq, Debug)]
pub struct GlobalTransform {
    pub matrix: u64,
}

/// A camera, named by the handle under which the host stores its
/// projection.
#[derive(Clone, Copy, PartialEq, Eq, Debug)]
pub struct Camera {
    pub projection: u64,
}

/// A sprite sheet: the texture slot its sprites sample from.
#[derive(Clone, Copy, PartialEq, Eq, Debug)]
pub struct SpriteSheet {
    pub texture_id: u64,
}

/// Loaded texture pixel data, named by handle.
#[derive(Clone, Copy, PartialEq, Eq, Debug)]
pub struct Texture {
    pub data: u64,
}

/// The first value stored under key `k`, scanning front to back.
pub open spec fn seq_lookup<T>(s: Seq<(u64, T)>, k: u64) -> Option<T>
    decreases s.len(),
{
    if s.len() == 0 {
        None
    } else if s[0].0 == k {
        Some(s[0].1)
    } else {
        seq_lookup(s.drop_first(), k)
    }
}

/// No two pairs share a key.
pub open spec fn keys_distinct<T>(s: Seq<(u64, T)>) -> bool {
    forall|i: int, j: int| 0 <= i < j < s.len() ==> s[i].0 != s[j].0
}

/// A key is found exactly when some pair holds it.
pub proof fn lemma_lookup_some_index<T>(s: Seq<(u64, T)>, k: u64)
    ensures
        (seq_lookup(s, k) is Some) <==> exists|i: int| 0 <= i < s.len() && s[i].0 == k,
    decreases s.len(),
{
    if s.len() == 0 {
    } else if s[0].0 == k {
        assert(0 <= 0 < s.len() && s[0].0 == k);
    } else {
        lemma_lookup_some_index(s.drop_first(), k);
        if seq_lookup(s, k) is Some {
            let i = choose|i: int| 0 <= i < s.drop_first().len() && s.drop_first()[i].0 == k;
            assert(s[i + 1].0 == k);
        }
        if exists|i: int| 0 <= i < s.len() && s[i].0 == k {
            let i = choose|i: int| 0 <= i < s.len() && s[i].0 == k;
            assert(i != 0);
            assert(s.drop_first()[i - 1].0 == k);
        }
    }
}

/// Looking up a key that the last pair does not hold ignores that pair.
pub proof fn lemma_lookup_drop_last<T>(s: Seq<(u64, T)>, k: u64)
    requires
        s.len() > 0,
        s.last().0 != k,
    ensures
        seq_lookup(s, k) == seq_lookup(s.drop_last(), k),
    decreases s.len(),
{
    reveal_with_fuel(seq_lookup, 3);
    if s.len() == 1 {
        assert(s.drop_last() =~= Seq::<(u64, T)>::empty());
    } else if s[0].0 == k {
        assert(s.drop_last().len() > 0);
        assert(s.drop_last()[0] == s[0]);
        assert(seq_lookup(s.drop_last(), k) == Some(s.drop_last()[0].1));
        assert(seq_lookup(s, k) == Some(s[0].1));
    } else {
        assert(s.drop_first().last() == s.last());
        lemma_lookup_drop_last(s.drop_first(), k);
        assert(s.drop_first().drop_last() =~= s.drop_last().drop_first());
        assert(s.drop_last()[0] == s[0]);
        assert(s.drop_last().len() > 0);
    }
}

/// A component storage: entity/value pairs, iterated in insertion order.
pub struct Components<T> {
    pub entries: Vec<(u64, T)>,
}

impl<T> Components<T> {
    /// Well-formed: entities are pairwise distinct.
    pub open spec fn wf(&self) -> bool {
        keys_distinct(self.entries@)
    }

    /// The component stored for entity `e`, if any.
    pub open spec fn spec_get(&self, e: u64) -> Option<T> {
        seq_lookup(self.entries@, e)
    }
}

impl<T: Copy> Components<T> {
    /// An empty storage.
    pub fn new() -> (r: Self)
        ensures
            r.entries@ == Seq::<(u64, T)>::empty(),
            r.wf(),
    {
        let r = Components { entries: Vec::new() };
        proof {
            assert(r.entries@ =~= Seq::<(u64, T)>::empty());
        }
        r
    }

    /// Stores `value` for entity `e`; `e` must not be stored yet.
    pub fn insert(&mut self, e: u64, value: T)
        requires
            old(self).spec_get(e) is None,
        ensures
            final(self).entries@ == old(self).entries@.push((e, value)),
            old(self).wf() ==> final(self).wf(),
    {
        proof {
            lemma_lookup_some_index(self.entries@, e);
        }
        self.entries.push((e, value));
        proof {
            if keys_distinct(old(self).entries@) {
                assert forall|i: int, j: int|
                    0 <= i < j < self.entries@.len() implies self.entries@[i].0
                    != self.entries@[j].0 by {
                    if j == self.entries@.len() - 1 {
                        assert(self.entries@[i] == old(self).entries@[i]);
                    }
                }
            }
        }
    }

    /// Looks up the component of entity `e`.
    pub fn get(&self, e: u64) -> (r: Option<T>)
        ensures
            r == self.spec_get(e),
    {
        let n = self.entries.len();
        let mut i: usize = 0;
        proof {
            assert(self.entries@.skip(0) =~= self.entries@);
        }
        while i < n
            invariant
                i <= n,
                n == self.entries@.len(),
                seq_lookup(self.entries@, e) == seq_lookup(self.entries@.skip(i as int), e),
            decreases n - i,
        {
            let ghost rest = self.entries@.skip(i as int);
            proof {
                assert(rest[0] == self.entries@[i as int]);
            }
            if self.entries[i].0 == e {
                return Some(self.entries[i].1);
            }
            proof {
                assert(rest.drop_first() =~= self.entries@.skip(i as int + 1));
            }
            i = i + 1;
        }
        proof {
            assert(self.entries@.skip(n as int) =~= Seq::<(u64, T)>::empty());
        }
        None
    }

    /// Whether entity `e` has this component.
    pub fn contains(&self, e: u64) -> (r: bool)
        ensures
            r == (self.spec_get(e) is Some),
    {
        self.get(e).is_some()
    }
}

/// No value occurs twice.
pub open spec fn distinct(s: Seq<u64>) -> bool {
    forall|i: int, j: int| 0 <= i < j < s.len() ==> s[i] != s[j]
}

/// This frame's visible entities, as an upstream culling step determined
/// them: an order-independent batch and a list that must be drawn in its
/// exact (back-to-front) order.
pub struct SpriteVisibility {
    pub visible_unordered: Vec<u64>,
    pub visible_ordered: Vec<u64>,
}

impl SpriteVisibility {
    /// Well-formed: no entity is repeated within either view.  (The two
    /// views being disjoint is an upstream invariant the pass does not
    /// assume: an overlapping entity is drawn in both batches.)
    pub open spec fn wf(&self) -> bool {
        distinct(self.visible_unordered@) && distinct(self.visible_ordered@)
    }
}

/// Whether `v` holds `e`.
pub fn contains_entity(v: &Vec<u64>, e: u64) -> (r: bool)
    ensures
        r == v@.contains(e),
{
    let n = v.len();
    let mut i: usize = 0;
    while i < n
        invariant
            i <= n,
            n == v@.len(),
            forall|k: int| 0 <= k < i ==> v@[k] != e,
        decreases n - i,
    {
        if v[i] == e {
            assert(v@[i as int] == e);
            return true;
        }
        i = i + 1;
    }
    assert(!v@.contains(e));
    false
}

/// Everything the pass reads while drawing one frame.
pub struct FrameData {
    /// The active-camera singleton: the entity whose camera renders, if set.
    pub active_camera: Option<u64>,
    /// Camera components.
    pub cameras: Components<Camera>,
    /// Loaded sprite-sheet assets, keyed by handle.
    pub sprite_sheets: Components<SpriteSheet>,
    /// Loaded texture assets, keyed by handle.
    pub textures: Components<Texture>,
    /// The material registry: texture slot to texture handle.
    pub material_textures: Components<u64>,
    /// The visibility resource, when an upstream culling step ran.
    pub visibility: Option<SpriteVisibility>,
    /// Sprite-render components.
    pub sprite_renders: Components<SpriteRender>,
    /// Global-transform components.
    pub transforms: Components<GlobalTransform>,
}

} // verus!
