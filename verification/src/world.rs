//! The world store: a typed entity-component database. Entities are kept in
//! insertion order, which makes query traversal stable across repeated
//! queries of an unmodified store — the property the first-match policies
//! and the submission order of the extraction pass rely on.

use vstd::prelude::*;
use vstd::assert_seqs_equal;
use crate::component::{
    DirectionalLightComponent, MeshComponent, MeshComponentV, PointLightComponent,
    SkyLightComponent, TagComponent, TransformComponent,
};

verus! {

/// One live entity: its identity, the two mandatory components, and the
/// optional ones.
#[derive(Clone, Debug)]
pub struct Entry {
    pub ID: u64,
    pub Tag: TagComponent,
    pub Transform: TransformComponent,
    pub Mesh: Option<MeshComponent>,
    pub SkyLight: Option<SkyLightComponent>,
    pub DirectionalLight: Option<DirectionalLightComponent>,
    pub PointLight: Option<PointLightComponent>,
}

/// The mathematical value of an entry.
pub struct EntryV {
    pub ID: u64,
    pub Tag: Seq<char>,
    pub Transform: TransformComponent,
    pub Mesh: Option<MeshComponentV>,
    pub SkyLight: Option<SkyLightComponent>,
    pub DirectionalLight: Option<DirectionalLightComponent>,
    pub PointLight: Option<PointLightComponent>,
}

impl View for Entry {
    type V = EntryV;

    open spec fn view(&self) -> EntryV {
        EntryV {
            ID: self.ID,
            Tag: self.Tag.Tag@,
            Transform: self.Transform,
            Mesh: match self.Mesh {
                Some(m) => Some(m@),
                None => None,
            },
            SkyLight: self.SkyLight,
            DirectionalLight: self.DirectionalLight,
            PointLight: self.PointLight,
        }
    }
}

/// No two entries share an identity.
pub open spec fn ids_unique(w: Seq<EntryV>) -> bool {
    forall|i: int, j: int| 0 <= i < j < w.len() ==> w[i].ID != w[j].ID
}

/// Every stored transform is in fixed-point range.
pub open spec fn transforms_in_range(w: Seq<EntryV>) -> bool {
    forall|i: int| 0 <= i < w.len() ==> (#[trigger] w[i].Transform).in_range()
}

/// Well-formedness of a store's contents.
pub open spec fn view_wf(w: Seq<EntryV>) -> bool {
    ids_unique(w) && transforms_in_range(w)
}

/// The first entry carrying the given identity, scanning front to back.
pub open spec fn lookup_spec(w: Seq<EntryV>, id: u64) -> Option<EntryV>
    decreases w.len(),
{
    if w.len() == 0 {
        None
    } else if w[0].ID == id {
        Some(w[0])
    } else {
        lookup_spec(w.drop_first(), id)
    }
}

/// Whether some entry carries the given identity.
pub open spec fn contains_id(w: Seq<EntryV>, id: u64) -> bool {
    lookup_spec(w, id) is Some
}

/// The first entry whose tag equals `name`, scanning front to back.
pub open spec fn find_by_tag_spec(w: Seq<EntryV>, name: Seq<char>) -> Option<EntryV>
    decreases w.len(),
{
    if w.len() == 0 {
        None
    } else if w[0].Tag == name {
        Some(w[0])
    } else {
        find_by_tag_spec(w.drop_first(), name)
    }
}

/// If `i` is the first index carrying `id`, the lookup returns that entry.
pub proof fn lemma_lookup_some(w: Seq<EntryV>, id: u64, i: int)
    requires
        0 <= i < w.len(),
        w[i].ID == id,
        forall|j: int| 0 <= j < i ==> w[j].ID != id,
    ensures
        lookup_spec(w, id) == Some(w[i]),
    decreases i,
{
    if i > 0 {
        assert forall|j: int| 0 <= j < i - 1 implies w.drop_first()[j].ID != id by {
            assert(w.drop_first()[j] == w[j + 1]);
        }
        assert(w.drop_first()[i - 1] == w[i]);
        lemma_lookup_some(w.drop_first(), id, i - 1);
    }
}

/// If no entry carries `id`, the lookup misses.
pub proof fn lemma_lookup_none(w: Seq<EntryV>, id: u64)
    requires
        forall|j: int| 0 <= j < w.len() ==> w[j].ID != id,
    ensures
        lookup_spec(w, id) is None,
    decreases w.len(),
{
    if w.len() > 0 {
        assert forall|j: int| 0 <= j < w.drop_first().len() implies w.drop_first()[j].ID != id by {
            assert(w.drop_first()[j] == w[j + 1]);
        }
        lemma_lookup_none(w.drop_first(), id);
    }
}

/// If `i` is the first index whose tag equals `name`, the search returns
/// that entry.
pub proof fn lemma_find_by_tag_some(w: Seq<EntryV>, name: Seq<char>, i: int)
    requires
        0 <= i < w.len(),
        w[i].Tag == name,
        forall|j: int| 0 <= j < i ==> w[j].Tag != name,
    ensures
        find_by_tag_spec(w, name) == Some(w[i]),
    decreases i,
{
    if i > 0 {
        assert forall|j: int| 0 <= j < i - 1 implies w.drop_first()[j].Tag != name by {
            assert(w.drop_first()[j] == w[j + 1]);
        }
        assert(w.drop_first()[i - 1] == w[i]);
        lemma_find_by_tag_some(w.drop_first(), name, i - 1);
    }
}

/// If no tag equals `name`, the search misses.
pub proof fn lemma_find_by_tag_none(w: Seq<EntryV>, name: Seq<char>)
    requires
        forall|j: int| 0 <= j < w.len() ==> w[j].Tag != name,
    ensures
        find_by_tag_spec(w, name) is None,
    decreases w.len(),
{
    if w.len() > 0 {
        assert forall|j: int| 0 <= j < w.drop_first().len() implies w.drop_first()[j].Tag != name by {
            assert(w.drop_first()[j] == w[j + 1]);
        }
        lemma_find_by_tag_none(w.drop_first(), name);
    }
}

/// A search over an empty store misses, whatever the name.
pub proof fn lemma_find_empty_misses(name: Seq<char>)
    ensures
        find_by_tag_spec(Seq::<EntryV>::empty(), name) is None,
{
}

/// Deleting an entity whose tag no other live entity carries makes a
/// subsequent search for that former tag miss.
pub proof fn lemma_delete_then_find_misses(w: Seq<EntryV>, i: int, name: Seq<char>)
    requires
        0 <= i < w.len(),
        w[i].Tag == name,
        forall|j: int| 0 <= j < w.len() && j != i ==> w[j].Tag != name,
    ensures
        find_by_tag_spec(w.remove(i), name) is None,
{
    let r = w.remove(i);
    assert forall|j: int| 0 <= j < r.len() implies r[j].Tag != name by {
        if j < i {
            assert(r[j] == w[j]);
        } else {
            assert(r[j] == w[j + 1]);
        }
    }
    lemma_find_by_tag_none(r, name);
}

/// With several entities sharing a tag, the search returns the earliest in
/// traversal order — and therefore the same one on every repetition over an
/// unmodified store.
pub proof fn lemma_find_first_of_shared_tag(w: Seq<EntryV>, name: Seq<char>, i: int, j: int)
    requires
        0 <= i < j < w.len(),
        w[i].Tag == name,
        w[j].Tag == name,
        forall|k: int| 0 <= k < i ==> w[k].Tag != name,
    ensures
        find_by_tag_spec(w, name) == Some(w[i]),
{
    lemma_find_by_tag_some(w, name, i);
}

/// A set of component kinds an entity must carry to match a query. The
/// mandatory tag and transform are always present, so only the optional
/// kinds appear.
#[derive(Clone, Copy, Debug, PartialEq, Eq, Structural)]
pub struct Signature {
    pub NeedsMesh: bool,
    pub NeedsSkyLight: bool,
    pub NeedsDirectionalLight: bool,
    pub NeedsPointLight: bool,
}

/// Whether an entry carries every component kind the signature asks for.
pub open spec fn matches_signature(e: EntryV, s: Signature) -> bool {
    &&& s.NeedsMesh ==> e.Mesh is Some
    &&& s.NeedsSkyLight ==> e.SkyLight is Some
    &&& s.NeedsDirectionalLight ==> e.DirectionalLight is Some
    &&& s.NeedsPointLight ==> e.PointLight is Some
}

/// The identities of the entries matching a signature, in traversal order.
pub open spec fn query_spec(w: Seq<EntryV>, s: Signature) -> Seq<u64>
    decreases w.len(),
{
    if w.len() == 0 {
        Seq::<u64>::empty()
    } else {
        let rest = query_spec(w.drop_last(), s);
        if matches_signature(w.last(), s) {
            rest.push(w.last().ID)
        } else {
            rest
        }
    }
}

/// A typed entity-component store. Entities are traversed in insertion
/// order; an entity's identity is never reused after its removal.
#[derive(Debug)]
pub struct World {
    entries: Vec<Entry>,
    nextID: u64,
}

impl View for World {
    type V = Seq<EntryV>;

    closed spec fn view(&self) -> Seq<EntryV> {
        self.entries@.map_values(|e: Entry| e@)
    }
}

impl World {
    /// The store invariant: contents well-formed, and every stored identity
    /// below the allocation counter.
    pub closed spec fn wf(&self) -> bool {
        &&& view_wf(self@)
        &&& forall|i: int| 0 <= i < self@.len() ==> (#[trigger] self@[i].ID) < self.nextID
    }

    /// Room for one more identity.
    pub closed spec fn can_allocate(&self) -> bool {
        self.nextID < u64::MAX
    }

    /// Well-formedness seen at the contents level.
    pub proof fn lemma_wf_view(&self)
        requires
            self.wf(),
        ensures
            view_wf(self@),
    {
    }

    /// A new, empty store.
    pub fn Create() -> (r: World)
        ensures
            r@ == Seq::<EntryV>::empty(),
            r.wf(),
            r.can_allocate(),
    {
        let r = World { entries: Vec::new(), nextID: 0 };
        proof {
            assert_seqs_equal!(r@ == Seq::<EntryV>::empty());
        }
        r
    }

    /// Number of live entities.
    pub fn Len(&self) -> (n: usize)
        ensures
            n == self@.len(),
    {
        self.entries.len()
    }

    /// The entry at a traversal position.
    pub fn EntryAt(&self, i: usize) -> (e: &Entry)
        requires
            i < self@.len(),
        ensures
            e@ == self@[i as int],
    {
        &self.entries[i]
    }

    /// Creates an entity with the given mandatory components and returns its
    /// fresh identity.
    pub fn Push(&mut self, tag: TagComponent, transform: TransformComponent) -> (id: u64)
        requires
            old(self).wf(),
            old(self).can_allocate(),
            transform.in_range(),
        ensures
            final(self).wf(),
            final(self)@ == old(self)@.push(EntryV {
                ID: id,
                Tag: tag.Tag@,
                Transform: transform,
                Mesh: None,
                SkyLight: None,
                DirectionalLight: None,
                PointLight: None,
            }),
            !contains_id(old(self)@, id),
    {
        let id = self.nextID;
        self.nextID = self.nextID + 1;
        let e = Entry {
            ID: id,
            Tag: tag,
            Transform: transform,
            Mesh: None,
            SkyLight: None,
            DirectionalLight: None,
            PointLight: None,
        };
        let ghost oldview = self@;
        self.entries.push(e);
        proof {
            assert_seqs_equal!(self@ == oldview.push(e@));
            lemma_lookup_none(oldview, id);
        }
        id
    }

    /// Position of the entity carrying `id`, if it is live.
    fn IndexOfID(&self, id: u64) -> (r: Option<usize>)
        ensures
            match r {
                Some(i) => {
                    &&& i < self@.len()
                    &&& self@[i as int].ID == id
                    &&& forall|j: int| 0 <= j < i ==> self@[j].ID != id
                    &&& lookup_spec(self@, id) == Some(self@[i as int])
                },
                None => lookup_spec(self@, id) is None,
            },
    {
        let n = self.entries.len();
        let mut i: usize = 0;
        while i < n
            invariant
                n == self@.len(),
                i <= n,
                forall|j: int| 0 <= j < i ==> self@[j].ID != id,
            decreases n - i,
        {
            if self.entries[i].ID == id {
                proof {
                    lemma_lookup_some(self@, id, i as int);
                }
                return Some(i);
            }
            i = i + 1;
        }
        proof {
            lemma_lookup_none(self@, id);
        }
        None
    }

    /// Whether the entity carrying `id` is live in this store.
    pub fn Contains(&self, id: u64) -> (r: bool)
        ensures
            r == contains_id(self@, id),
    {
        match self.IndexOfID(id) {
            Some(_) => true,
            None => false,
        }
    }

    /// Removes the entity carrying `id` and all its components. The identity
    /// must be live; traversal order of the remaining entities is kept.
    pub fn Remove(&mut self, id: u64)
        requires
            old(self).wf(),
            contains_id(old(self)@, id),
        ensures
            final(self).wf(),
            final(self).can_allocate() == old(self).can_allocate(),
            exists|i: int| {
                &&& 0 <= i < old(self)@.len()
                &&& old(self)@[i].ID == id
                &&& final(self)@ == old(self)@.remove(i)
            },
    {
        match self.IndexOfID(id) {
            Some(i) => {
                let ghost oldview = self@;
                self.entries.remove(i);
                proof {
                    assert_seqs_equal!(self@ == oldview.remove(i as int));
                    assert(0 <= i < oldview.len() && oldview[i as int].ID == id
                        && self@ == oldview.remove(i as int));
                }
            },
            None => {
                proof {
                    assert(false);
                }
            },
        }
    }

    /// The tag of a live entity.
    pub fn GetTag(&self, id: u64) -> (r: Option<&TagComponent>)
        ensures
            match r {
                Some(t) => {
                    &&& lookup_spec(self@, id) is Some
                    &&& t.Tag@ == lookup_spec(self@, id)->Some_0.Tag
                },
                None => lookup_spec(self@, id) is None,
            },
    {
        match self.IndexOfID(id) {
            Some(i) => Some(&self.entries[i].Tag),
            None => None,
        }
    }

    /// Replaces the tag of a live entity.
    pub fn SetTag(&mut self, id: u64, tag: TagComponent)
        requires
            old(self).wf(),
            contains_id(old(self)@, id),
        ensures
            final(self).wf(),
            final(self).can_allocate() == old(self).can_allocate(),
            exists|i: int| {
                &&& 0 <= i < old(self)@.len()
                &&& old(self)@[i].ID == id
                &&& final(self)@ == old(self)@.update(i, EntryV { Tag: tag.Tag@, ..old(self)@[i] })
            },
    {
        match self.IndexOfID(id) {
            Some(i) => {
                let ghost oldview = self@;
                self.entries[i].Tag = tag;
                proof {
                    assert_seqs_equal!(self@ == oldview.update(i as int, EntryV { Tag: tag.Tag@, ..oldview[i as int] }));
                    assert(0 <= i < oldview.len() && oldview[i as int].ID == id);
                }
            },
            None => {
                proof {
                    assert(false);
                }
            },
        }
    }

    /// The transform of a live entity.
    pub fn GetTransform(&self, id: u64) -> (r: Option<TransformComponent>)
        ensures
            match r {
                Some(t) => {
                    &&& lookup_spec(self@, id) is Some
                    &&& t == lookup_spec(self@, id)->Some_0.Transform
                },
                None => lookup_spec(self@, id) is None,
            },
    {
        match self.IndexOfID(id) {
            Some(i) => Some(self.entries[i].Transform),
            None => None,
        }
    }

    /// Replaces the transform of a live entity.
    pub fn SetTransform(&mut self, id: u64, t: TransformComponent)
        requires
            old(self).wf(),
            contains_id(old(self)@, id),
            t.in_range(),
        ensures
            final(self).wf(),
            final(self).can_allocate() == old(self).can_allocate(),
            exists|i: int| {
                &&& 0 <= i < old(self)@.len()
                &&& old(self)@[i].ID == id
                &&& final(self)@ == old(self)@.update(i, EntryV { Transform: t, ..old(self)@[i] })
            },
    {
        match self.IndexOfID(id) {
            Some(i) => {
                let ghost oldview = self@;
                self.entries[i].Transform = t;
                proof {
                    assert_seqs_equal!(self@ == oldview.update(i as int, EntryV { Transform: t, ..oldview[i as int] }));
                    assert(0 <= i < oldview.len() && oldview[i as int].ID == id);
                }
            },
            None => {
                proof {
                    assert(false);
                }
            },
        }
    }

    /// Attaches (or replaces) the mesh component of a live entity.
    pub fn AttachMesh(&mut self, id: u64, c: MeshComponent)
        requires
            old(self).wf(),
            contains_id(old(self)@, id),
        ensures
            final(self).wf(),
            final(self).can_allocate() == old(self).can_allocate(),
            exists|i: int| {
                &&& 0 <= i < old(self)@.len()
                &&& old(self)@[i].ID == id
                &&& final(self)@ == old(self)@.update(i, EntryV { Mesh: Some(c@), ..old(self)@[i] })
            },
    {
        match self.IndexOfID(id) {
            Some(i) => {
                let ghost oldview = self@;
                let ghost cv = c@;
                self.entries[i].Mesh = Some(c);
                proof {
                    assert_seqs_equal!(self@ == oldview.update(i as int, EntryV { Mesh: Some(cv), ..oldview[i as int] }));
                    assert(0 <= i < oldview.len() && oldview[i as int].ID == id);
                }
            },
            None => {
                proof {
                    assert(false);
                }
            },
        }
    }

    /// Detaches the mesh component of a live entity, if any.
    pub fn DetachMesh(&mut self, id: u64)
        requires
            old(self).wf(),
            contains_id(old(self)@, id),
        ensures
            final(self).wf(),
            final(self).can_allocate() == old(self).can_allocate(),
            exists|i: int| {
                &&& 0 <= i < old(self)@.len()
                &&& old(self)@[i].ID == id
                &&& final(self)@ == old(self)@.update(i, EntryV { Mesh: None, ..old(self)@[i] })
            },
    {
        match self.IndexOfID(id) {
            Some(i) => {
                let ghost oldview = self@;
                self.entries[i].Mesh = None;
                proof {
                    assert_seqs_equal!(self@ == oldview.update(i as int, EntryV { Mesh: None, ..oldview[i as int] }));
                    assert(0 <= i < oldview.len() && oldview[i as int].ID == id);
                }
            },
            None => {
                proof {
                    assert(false);
                }
            },
        }
    }

    /// The mesh component of a live entity, if attached.
    pub fn GetMesh(&self, id: u64) -> (r: Option<&MeshComponent>)
        ensures
            match lookup_spec(self@, id) {
                Some(e) => match r {
                    Some(m) => e.Mesh is Some && m@ == e.Mesh->Some_0,
                    None => e.Mesh is None,
                },
                None => r is None,
            },
    {
        match self.IndexOfID(id) {
            Some(i) => match &self.entries[i].Mesh {
                Some(m) => Some(m),
                None => None,
            },
            None => None,
        }
    }

    /// The sky-light component of a live entity, if attached.
    pub fn GetSkyLight(&self, id: u64) -> (r: Option<SkyLightComponent>)
        ensures
            match lookup_spec(self@, id) {
                Some(e) => r == e.SkyLight,
                None => r is None,
            },
    {
        match self.IndexOfID(id) {
            Some(i) => self.entries[i].SkyLight,
            None => None,
        }
    }

    /// Attaches (or replaces) the sky-light component of a live entity.
    pub fn AttachSkyLight(&mut self, id: u64, c: SkyLightComponent)
        requires
            old(self).wf(),
            contains_id(old(self)@, id),
        ensures
            final(self).wf(),
            final(self).can_allocate() == old(self).can_allocate(),
            exists|i: int| {
                &&& 0 <= i < old(self)@.len()
                &&& old(self)@[i].ID == id
                &&& final(self)@ == old(self)@.update(i, EntryV { SkyLight: Some(c), ..old(self)@[i] })
            },
    {
        match self.IndexOfID(id) {
            Some(i) => {
                let ghost oldview = self@;
                self.entries[i].SkyLight = Some(c);
                proof {
                    assert_seqs_equal!(self@ == oldview.update(i as int, EntryV { SkyLight: Some(c), ..oldview[i as int] }));
                    assert(0 <= i < oldview.len() && oldview[i as int].ID == id);
                }
            },
            None => {
                proof {
                    assert(false);
                }
            },
        }
    }

    /// Detaches the sky-light component of a live entity, if any.
    pub fn DetachSkyLight(&mut self, id: u64)
        requires
            old(self).wf(),
            contains_id(old(self)@, id),
        ensures
            final(self).wf(),
            final(self).can_allocate() == old(self).can_allocate(),
            exists|i: int| {
                &&& 0 <= i < old(self)@.len()
                &&& old(self)@[i].ID == id
                &&& final(self)@ == old(self)@.update(i, EntryV { SkyLight: None, ..old(self)@[i] })
            },
    {
        match self.IndexOfID(id) {
            Some(i) => {
                let ghost oldview = self@;
                self.entries[i].SkyLight = None;
                proof {
                    assert_seqs_equal!(self@ == oldview.update(i as int, EntryV { SkyLight: None, ..oldview[i as int] }));
                    assert(0 <= i < oldview.len() && oldview[i as int].ID == id);
                }
            },
            None => {
                proof {
                    assert(false);
                }
            },
        }
    }

    /// The directional-light component of a live entity, if attached.
    pub fn GetDirectionalLight(&self, id: u64) -> (r: Option<DirectionalLightComponent>)
        ensures
            match lookup_spec(self@, id) {
                Some(e) => r == e.DirectionalLight,
                None => r is None,
            },
    {
        match self.IndexOfID(id) {
            Some(i) => self.entries[i].DirectionalLight,
            None => None,
        }
    }

    /// Detaches the directional-light component of a live entity, if any.
    pub fn DetachDirectionalLight(&mut self, id: u64)
        requires
            old(self).wf(),
            contains_id(old(self)@, id),
        ensures
            final(self).wf(),
            final(self).can_allocate() == old(self).can_allocate(),
            exists|i: int| {
                &&& 0 <= i < old(self)@.len()
                &&& old(self)@[i].ID == id
                &&& final(self)@ == old(self)@.update(i, EntryV { DirectionalLight: None, ..old(self)@[i] })
            },
    {
        match self.IndexOfID(id) {
            Some(i) => {
                let ghost oldview = self@;
                self.entries[i].DirectionalLight = None;
                proof {
                    assert_seqs_equal!(self@ == oldview.update(i as int, EntryV { DirectionalLight: None, ..oldview[i as int] }));
                    assert(0 <= i < oldview.len() && oldview[i as int].ID == id);
                }
            },
            None => {
                proof {
                    assert(false);
                }
            },
        }
    }

    /// The point-light component of a live entity, if attached.
    pub fn GetPointLight(&self, id: u64) -> (r: Option<PointLightComponent>)
        ensures
            match lookup_spec(self@, id) {
                Some(e) => r == e.PointLight,
                None => r is None,
            },
    {
        match self.IndexOfID(id) {
            Some(i) => self.entries[i].PointLight,
            None => None,
        }
    }

    /// Detaches the point-light component of a live entity, if any.
    pub fn DetachPointLight(&mut self, id: u64)
        requires
            old(self).wf(),
            contains_id(old(self)@, id),
        ensures
            final(self).wf(),
            final(self).can_allocate() == old(self).can_allocate(),
            exists|i: int| {
                &&& 0 <= i < old(self)@.len()
                &&& old(self)@[i].ID == id
                &&& final(self)@ == old(self)@.update(i, EntryV { PointLight: None, ..old(self)@[i] })
            },
    {
        match self.IndexOfID(id) {
            Some(i) => {
                let ghost oldview = self@;
                self.entries[i].PointLight = None;
                proof {
                    assert_seqs_equal!(self@ == oldview.update(i as int, EntryV { PointLight: None, ..oldview[i as int] }));
                    assert(0 <= i < oldview.len() && oldview[i as int].ID == id);
                }
            },
            None => {
                proof {
                    assert(false);
                }
            },
        }
    }

    /// Attaches (or replaces) the directional-light component of a live
    /// entity.
    pub fn AttachDirectionalLight(&mut self, id: u64, c: DirectionalLightComponent)
        requires
            old(self).wf(),
            contains_id(old(self)@, id),
        ensures
            final(self).wf(),
            final(self).can_allocate() == old(self).can_allocate(),
            exists|i: int| {
                &&& 0 <= i < old(self)@.len()
                &&& old(self)@[i].ID == id
                &&& final(self)@ == old(self)@.update(i, EntryV { DirectionalLight: Some(c), ..old(self)@[i] })
            },
    {
        match self.IndexOfID(id) {
            Some(i) => {
                let ghost oldview = self@;
                self.entries[i].DirectionalLight = Some(c);
                proof {
                    assert_seqs_equal!(self@ == oldview.update(i as int, EntryV { DirectionalLight: Some(c), ..oldview[i as int] }));
                    assert(0 <= i < oldview.len() && oldview[i as int].ID == id);
                }
            },
            None => {
                proof {
                    assert(false);
                }
            },
        }
    }

    /// Attaches (or replaces) the point-light component of a live entity.
    pub fn AttachPointLight(&mut self, id: u64, c: PointLightComponent)
        requires
            old(self).wf(),
            contains_id(old(self)@, id),
        ensures
            final(self).wf(),
            final(self).can_allocate() == old(self).can_allocate(),
            exists|i: int| {
                &&& 0 <= i < old(self)@.len()
                &&& old(self)@[i].ID == id
                &&& final(self)@ == old(self)@.update(i, EntryV { PointLight: Some(c), ..old(self)@[i] })
            },
    {
        match self.IndexOfID(id) {
            Some(i) => {
                let ghost oldview = self@;
                self.entries[i].PointLight = Some(c);
                proof {
                    assert_seqs_equal!(self@ == oldview.update(i as int, EntryV { PointLight: Some(c), ..oldview[i as int] }));
                    assert(0 <= i < oldview.len() && oldview[i as int].ID == id);
                }
            },
            None => {
                proof {
                    assert(false);
                }
            },
        }
    }

    /// The identities of the entities carrying every kind the signature asks
    /// for, in traversal order.
    pub fn Query(&self, s: Signature) -> (r: Vec<u64>)
        ensures
            r@ == query_spec(self@, s),
    {
        let n = self.entries.len();
        let mut r: Vec<u64> = Vec::new();
        let mut i: usize = 0;
        proof {
            assert_seqs_equal!(r@ == query_spec(self@.take(0), s));
        }
        while i < n
            invariant
                n == self@.len(),
                i <= n,
                r@ == query_spec(self@.take(i as int), s),
            decreases n - i,
        {
            let e = &self.entries[i];
            let matched = (e.Mesh.is_some() || !s.NeedsMesh)
                && (e.SkyLight.is_some() || !s.NeedsSkyLight)
                && (e.DirectionalLight.is_some() || !s.NeedsDirectionalLight)
                && (e.PointLight.is_some() || !s.NeedsPointLight);
            proof {
                assert(self@.take(i as int + 1).drop_last() == self@.take(i as int));
                assert(self@.take(i as int + 1).last() == self@[i as int]);
            }
            if matched {
                r.push(e.ID);
            }
            i = i + 1;
        }
        proof {
            assert(self@.take(n as int) == self@);
        }
        r
    }
}

} // verus!
