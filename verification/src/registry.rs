//! The object registry: drawable objects keyed by a caller-assigned id.
//!
//! Entries are kept sorted by id, so the draw order of a frame is the id
//! order — an explicit choice where the driver-facing collaborator makes no
//! promise. The registry's contract is stated over a map view: creating an
//! object inserts under its id (replacing a previous object with the same
//! id), deleting removes, and deleting an absent id changes nothing.

use vstd::prelude::*;

use crate::transform::Transform;
use crate::vertex::Vertex;

verus! {

/// A drawable object: its vertices (the GPU buffer contents, one draw's
/// worth of triangles) and its world transform.
#[derive(Clone, Debug)]
pub struct VulkanObject {
    pub vertices: Vec<Vertex>,
    pub transform: Transform,
}

impl VulkanObject {
    pub fn new(vertices: Vec<Vertex>, object_transform: Transform) -> (r: VulkanObject)
        ensures
            r.vertices == vertices,
            r.transform == object_transform,
    {
        VulkanObject { vertices, transform: object_transform }
    }

    pub fn get_transform(&self) -> (r: &Transform)
        ensures
            r == self.transform,
    {
        &self.transform
    }

    /// How many vertices one draw of this object consumes.
    pub fn vertex_count(&self) -> (r: usize)
        ensures
            r == self.vertices@.len(),
    {
        self.vertices.len()
    }
}

/// One registry slot: the id and the object stored under it.
#[derive(Clone, Debug)]
pub struct RegistryEntry {
    pub id: usize,
    pub object: VulkanObject,
}

/// Ids strictly increase along the sequence (so each id occurs once).
pub open spec fn sorted_strict(s: Seq<RegistryEntry>) -> bool {
    forall|i: int, j: int| 0 <= i < j < s.len() ==> #[trigger] s[i].id < #[trigger] s[j].id
}

/// Whether some entry of `s` carries `id`.
pub open spec fn contains_id(s: Seq<RegistryEntry>, id: usize) -> bool {
    exists|i: int| 0 <= i < s.len() && (#[trigger] s[i]).id == id
}

/// The map that a sequence of entries denotes; later entries win.
pub open spec fn entries_map(s: Seq<RegistryEntry>) -> Map<usize, VulkanObject>
    decreases s.len(),
{
    if s.len() == 0 {
        Map::empty()
    } else {
        entries_map(s.drop_last()).insert(s.last().id, s.last().object)
    }
}

pub proof fn lemma_entries_map_contains(s: Seq<RegistryEntry>)
    ensures
        forall|id: usize| #[trigger] entries_map(s).contains_key(id) <==> contains_id(s, id),
    decreases s.len(),
{
    if s.len() > 0 {
        lemma_entries_map_contains(s.drop_last());
        assert forall|id: usize| #[trigger] entries_map(s).contains_key(id) <==> contains_id(
            s,
            id,
        ) by {
            if entries_map(s).contains_key(id) {
                if id == s.last().id {
                    assert(s[s.len() - 1].id == id);
                } else {
                    assert(entries_map(s.drop_last()).contains_key(id));
                    assert(contains_id(s.drop_last(), id));
                    let i: int = choose|i: int|
                        0 <= i < s.drop_last().len() && (#[trigger] s.drop_last()[i]).id == id;
                    assert(s.drop_last()[i] == s[i]);
                    assert(s[i].id == id);
                }
            }
            if contains_id(s, id) {
                let i: int = choose|i: int| 0 <= i < s.len() && (#[trigger] s[i]).id == id;
                if i < s.len() - 1 {
                    assert(s.drop_last()[i] == s[i]);
                    assert(contains_id(s.drop_last(), id));
                    assert(entries_map(s.drop_last()).contains_key(id));
                }
            }
        }
    }
}

pub proof fn lemma_entries_map_index(s: Seq<RegistryEntry>, i: int)
    requires
        sorted_strict(s),
        0 <= i < s.len(),
    ensures
        entries_map(s).contains_key(s[i].id),
        entries_map(s)[s[i].id] == s[i].object,
    decreases s.len(),
{
    if i < s.len() - 1 {
        assert(sorted_strict(s.drop_last()));
        assert(s.drop_last()[i] == s[i]);
        lemma_entries_map_index(s.drop_last(), i);
        assert(s[i].id < s.last().id);
    }
}

proof fn lemma_splice_insert(s: Seq<RegistryEntry>, pos: int, e: RegistryEntry)
    requires
        sorted_strict(s),
        0 <= pos <= s.len(),
        forall|j: int| 0 <= j < pos ==> (#[trigger] s[j]).id < e.id,
        forall|j: int| pos <= j < s.len() ==> (#[trigger] s[j]).id > e.id,
    ensures
        sorted_strict(s.insert(pos, e)),
        entries_map(s.insert(pos, e)) == entries_map(s).insert(e.id, e.object),
    decreases s.len() - pos,
{
    let t = s.insert(pos, e);
    assert forall|i: int, j: int| 0 <= i < j < t.len() implies #[trigger] t[i].id
        < #[trigger] t[j].id by {
        assert(t[i] == if i < pos { s[i] } else if i == pos { e } else { s[i - 1] });
        assert(t[j] == if j < pos { s[j] } else if j == pos { e } else { s[j - 1] });
    }
    if pos == s.len() {
        assert(t.drop_last() =~= s);
        assert(t.last() == e);
    } else {
        assert(t.drop_last() =~= s.drop_last().insert(pos, e));
        assert(t.last() == s.last());
        assert(sorted_strict(s.drop_last()));
        lemma_splice_insert(s.drop_last(), pos, e);
        assert(s.last().id != e.id);
        assert(entries_map(t) == entries_map(s.drop_last()).insert(e.id, e.object).insert(
            s.last().id,
            s.last().object,
        ));
        assert(entries_map(s.drop_last()).insert(e.id, e.object).insert(
            s.last().id,
            s.last().object,
        ) =~= entries_map(s.drop_last()).insert(s.last().id, s.last().object).insert(
            e.id,
            e.object,
        ));
    }
}

proof fn lemma_splice_remove(s: Seq<RegistryEntry>, pos: int)
    requires
        sorted_strict(s),
        0 <= pos < s.len(),
    ensures
        sorted_strict(s.remove(pos)),
        entries_map(s.remove(pos)) == entries_map(s).remove(s[pos].id),
    decreases s.len() - pos,
{
    let t = s.remove(pos);
    assert forall|i: int, j: int| 0 <= i < j < t.len() implies #[trigger] t[i].id
        < #[trigger] t[j].id by {
        assert(t[i] == if i < pos { s[i] } else { s[i + 1] });
        assert(t[j] == if j < pos { s[j] } else { s[j + 1] });
    }
    if pos == s.len() - 1 {
        assert(t =~= s.drop_last());
        lemma_entries_map_contains(s.drop_last());
        assert(!contains_id(s.drop_last(), s[pos].id)) by {
            assert forall|i: int| 0 <= i < s.drop_last().len() implies (#[trigger] s.drop_last()[i]).id
                != s[pos].id by {
                assert(s.drop_last()[i] == s[i]);
                assert(s[i].id < s[pos].id);
            }
        }
        assert(entries_map(s.drop_last()).insert(s.last().id, s.last().object).remove(s[pos].id)
            =~= entries_map(s.drop_last()));
    } else {
        assert(t.drop_last() =~= s.drop_last().remove(pos));
        assert(t.last() == s.last());
        assert(sorted_strict(s.drop_last()));
        assert(s.drop_last()[pos] == s[pos]);
        lemma_splice_remove(s.drop_last(), pos);
        assert(s.last().id != s[pos].id);
        assert(entries_map(t) == entries_map(s.drop_last()).remove(s[pos].id).insert(
            s.last().id,
            s.last().object,
        ));
        assert(entries_map(s.drop_last()).remove(s[pos].id).insert(s.last().id, s.last().object)
            =~= entries_map(s.drop_last()).insert(s.last().id, s.last().object).remove(s[pos].id));
    }
}

/// Law: creating an object under `id` and then deleting `id` leaves the
/// registry exactly as if `id` had only ever been deleted — the entry and
/// the buffer it owns are gone, and nothing else changed. In particular a
/// create/delete cycle on an id that was absent before restores the
/// registry exactly.
pub proof fn lemma_create_then_delete(m: Map<usize, VulkanObject>, id: usize, object: VulkanObject)
    ensures
        !m.insert(id, object).remove(id).contains_key(id),
        m.insert(id, object).remove(id) == m.remove(id),
        !m.contains_key(id) ==> m.insert(id, object).remove(id) == m,
{
    assert(m.insert(id, object).remove(id) =~= m.remove(id));
    if !m.contains_key(id) {
        assert(m.remove(id) =~= m);
    }
}

/// Drawable objects keyed by caller-assigned id, iterated in id order.
#[derive(Clone, Debug)]
pub struct ObjectRegistry {
    entries: Vec<RegistryEntry>,
}

impl ObjectRegistry {
    /// The entries, in draw order (strictly increasing ids).
    pub closed spec fn entries_seq(self) -> Seq<RegistryEntry> {
        self.entries@
    }

    /// Well-formed: ids strictly increase along the entry order.
    pub open spec fn wf(self) -> bool {
        sorted_strict(self.entries_seq())
    }

    /// The registry as a map from id to stored object.
    pub open spec fn as_map(self) -> Map<usize, VulkanObject> {
        entries_map(self.entries_seq())
    }

    pub fn new() -> (r: ObjectRegistry)
        ensures
            r.wf(),
            r.entries_seq() == Seq::<RegistryEntry>::empty(),
            r.as_map() == Map::<usize, VulkanObject>::empty(),
    {
        ObjectRegistry { entries: Vec::new() }
    }

    pub fn len(&self) -> (r: usize)
        ensures
            r == self.entries_seq().len(),
    {
        self.entries.len()
    }

    /// The entry at draw position `i`.
    pub fn entry_at(&self, i: usize) -> (r: &RegistryEntry)
        requires
            i < self.entries_seq().len(),
        ensures
            *r == self.entries_seq()[i as int],
    {
        &self.entries[i]
    }

    /// Stores `object` under `id`, replacing what a previous create with
    /// the same id stored; the map view gains exactly this binding, and the
    /// length grows only when the id was absent.
    pub fn insert(&mut self, id: usize, object: VulkanObject)
        requires
            old(self).wf(),
        ensures
            final(self).wf(),
            final(self).as_map() == old(self).as_map().insert(id, object),
            contains_id(old(self).entries_seq(), id) ==> final(self).entries_seq().len() == old(
                self,
            ).entries_seq().len(),
            !contains_id(old(self).entries_seq(), id) ==> final(self).entries_seq().len() == old(
                self,
            ).entries_seq().len() + 1,
    {
        let n: usize = self.entries.len();
        let mut pos: usize = 0;
        while pos < n && self.entries[pos].id < id
            invariant
                pos <= n,
                n == self.entries.len(),
                *self == *old(self),
                forall|j: int| 0 <= j < pos ==> (#[trigger] self.entries@[j]).id < id,
            decreases n - pos,
        {
            pos = pos + 1;
        }
        let ghost s = self.entries@;
        let entry = RegistryEntry { id, object };
        if pos < n && self.entries[pos].id == id {
            proof {
                lemma_splice_remove(s, pos as int);
                assert forall|j: int| pos as int <= j < s.remove(pos as int).len() implies (
                #[trigger] s.remove(pos as int)[j]).id > id by {
                    assert(s.remove(pos as int)[j] == s[j + 1]);
                    assert(s[pos as int].id < s[j + 1].id);
                }
                lemma_splice_insert(s.remove(pos as int), pos as int, entry);
                assert(entries_map(s).remove(id).insert(id, entry.object) =~= entries_map(
                    s,
                ).insert(id, entry.object));
                assert(s[pos as int].id == id);
            }
            self.entries.remove(pos);
            self.entries.insert(pos, entry);
        } else {
            proof {
                assert forall|j: int| pos as int <= j < s.len() implies (#[trigger] s[j]).id
                    > id by {
                    if j > pos as int {
                        assert(s[pos as int].id < s[j].id);
                    }
                }
                lemma_splice_insert(s, pos as int, entry);
                assert(!contains_id(s, id));
            }
            self.entries.insert(pos, entry);
        }
    }

    /// Removes the object stored under `id` and releases its slot; on an id
    /// that is not present the registry is left exactly unchanged.
    pub fn remove(&mut self, id: usize)
        requires
            old(self).wf(),
        ensures
            final(self).wf(),
            final(self).as_map() == old(self).as_map().remove(id),
            !contains_id(old(self).entries_seq(), id) ==> *final(self) == *old(self),
            contains_id(old(self).entries_seq(), id) ==> final(self).entries_seq().len() + 1 == old(
                self,
            ).entries_seq().len(),
    {
        let n: usize = self.entries.len();
        let mut pos: usize = 0;
        while pos < n && self.entries[pos].id < id
            invariant
                pos <= n,
                n == self.entries.len(),
                *self == *old(self),
                forall|j: int| 0 <= j < pos ==> (#[trigger] self.entries@[j]).id < id,
            decreases n - pos,
        {
            pos = pos + 1;
        }
        let ghost s = self.entries@;
        if pos < n && self.entries[pos].id == id {
            proof {
                lemma_splice_remove(s, pos as int);
            }
            self.entries.remove(pos);
        } else {
            proof {
                assert(!contains_id(s, id)) by {
                    assert forall|i: int| 0 <= i < s.len() implies (#[trigger] s[i]).id != id by {
                        if i > pos as int {
                            assert(s[pos as int].id < s[i].id);
                        }
                    }
                }
                lemma_entries_map_contains(s);
                assert(entries_map(s).remove(id) =~= entries_map(s));
            }
        }
    }

    /// Looks up the object stored under `id`.
    pub fn get(&self, id: usize) -> (r: Option<&VulkanObject>)
        requires
            self.wf(),
        ensures
            match r {
                Some(o) => self.as_map().contains_key(id) && *o == self.as_map()[id],
                None => !self.as_map().contains_key(id),
            },
    {
        let n: usize = self.entries.len();
        let mut pos: usize = 0;
        while pos < n && self.entries[pos].id < id
            invariant
                pos <= n,
                n == self.entries.len(),
                forall|j: int| 0 <= j < pos ==> (#[trigger] self.entries@[j]).id < id,
            decreases n - pos,
        {
            pos = pos + 1;
        }
        proof {
            lemma_entries_map_contains(self.entries@);
        }
        if pos < n && self.entries[pos].id == id {
            proof {
                lemma_entries_map_index(self.entries@, pos as int);
            }
            Some(&self.entries[pos].object)
        } else {
            proof {
                assert(!contains_id(self.entries@, id)) by {
                    let s = self.entries@;
                    assert forall|i: int| 0 <= i < s.len() implies (#[trigger] s[i]).id != id by {
                        if i > pos as int {
                            assert(s[pos as int].id < s[i].id);
                        }
                    }
                }
            }
            None
        }
    }
}

} // verus!
