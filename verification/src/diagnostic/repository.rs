use dashmap::DashMap;
use tokio::sync::broadcast::{Receiver, Sender};
use vstd::prelude::*;

use crate::diagnostic::entities::{Entity, EntityInfo, EntityView};

verus! {

// ----------------------------------------------------------------------------
// The outside collection and channel the repository is built on
// ----------------------------------------------------------------------------

/// The concurrent map of the `dashmap` crate.
#[verifier::external_type_specification]
#[verifier::external_body]
#[verifier::reject_recursive_types(K)]
#[verifier::reject_recursive_types(V)]
#[verifier::reject_recursive_types(S)]
pub struct ExDashMap<K, V, S>(DashMap<K, V, S>);

/// The sending half of a `tokio` broadcast channel.
#[verifier::external_type_specification]
#[verifier::external_body]
#[verifier::reject_recursive_types(T)]
pub struct ExSender<T>(Sender<T>);

/// The receiving half of a `tokio` broadcast channel.
#[verifier::external_type_specification]
#[verifier::external_body]
#[verifier::reject_recursive_types(T)]
pub struct ExReceiver<T>(Receiver<T>);

/// What an entity table holds: the entity snapshot under each identifier.
pub uninterp spec fn entity_table(m: DashMap<String, EntityInfo>) -> Map<Seq<char>, EntityInfo>;

/// The empty entity table.
pub open spec fn no_entities() -> Map<Seq<char>, EntityInfo> {
    Map::empty()
}

/// `DashMap::new`: the new map is empty.
#[verifier::external_body]
fn table_new() -> (r: DashMap<String, EntityInfo>)
    ensures
        entity_table(r) == no_entities(),
{
    DashMap::new()
}

/// `DashMap::insert`: afterwards the key maps to the value, and the value it
/// mapped to before, if any, is returned.
#[verifier::external_body]
fn table_insert(m: &mut DashMap<String, EntityInfo>, key: String, value: EntityInfo) -> (r: Option<EntityInfo>)
    ensures
        entity_table(*final(m)) == entity_table(*old(m)).insert(key@, value),
        entity_table(*old(m)).contains_key(key@) ==> r == Some(entity_table(*old(m))[key@]),
        !entity_table(*old(m)).contains_key(key@) ==> r is None,
{
    m.insert(key, value)
}

/// `DashMap::remove`: afterwards the key is absent, and the entry it had, if
/// any, is returned.
#[verifier::external_body]
fn table_remove(m: &mut DashMap<String, EntityInfo>, key: &str) -> (r: Option<(String, EntityInfo)>)
    ensures
        entity_table(*final(m)) == entity_table(*old(m)).remove(key@),
        match r {
            Some((k, v)) => entity_table(*old(m)).contains_key(key@) && k@ == key@
                && v == entity_table(*old(m))[key@],
            None => !entity_table(*old(m)).contains_key(key@),
        },
{
    m.remove(key)
}

/// `DashMap::get`, the entry copied out.
#[verifier::external_body]
fn table_get(m: &DashMap<String, EntityInfo>, key: &str) -> (r: Option<EntityInfo>)
    ensures
        entity_table(*m).contains_key(key@) ==> r == Some(entity_table(*m)[key@]),
        !entity_table(*m).contains_key(key@) ==> r is None,
{
    m.get(key).map(|entry| entry.value().clone())
}

/// `DashMap::contains_key`.
#[verifier::external_body]
fn table_contains(m: &DashMap<String, EntityInfo>, key: &str) -> (r: bool)
    ensures
        r == entity_table(*m).contains_key(key@),
{
    m.contains_key(key)
}

/// `DashMap::len`: the number of entries.
#[verifier::external_body]
fn table_len(m: &DashMap<String, EntityInfo>) -> (r: usize)
    ensures
        r == entity_table(*m).len(),
{
    m.len()
}

/// `DashMap::iter`, each entry copied out as a pair. The map's walk order is
/// not stated: every key comes exactly once, with its value.
#[verifier::external_body]
fn table_entries(m: &DashMap<String, EntityInfo>) -> (r: Vec<(String, EntityInfo)>)
    ensures
        r@.len() == entity_table(*m).len(),
        forall|i: int| 0 <= i < r@.len() ==> entity_table(*m).contains_key((#[trigger] r@[i]).0@)
            && entity_table(*m)[r@[i].0@] == r@[i].1,
        forall|k: Seq<char>| #[trigger] entity_table(*m).contains_key(k)
            ==> exists|i: int| 0 <= i < r@.len() && (#[trigger] r@[i]).0@ == k,
        forall|i: int, j: int| 0 <= i < r@.len() && 0 <= j < r@.len() && i != j
            ==> (#[trigger] r@[i]).0@ != (#[trigger] r@[j]).0@,
{
    m.iter().map(|entry| (entry.key().clone(), entry.value().clone())).collect()
}

/// The events handed to `send` through a sender, in order, each by its view.
/// Whether an event reached a receiver is not part of it: tokio passes an event
/// on only to the receivers subscribed when it is sent, and drops it where
/// there is none.
pub uninterp spec fn offered_events(tx: Sender<EntityEvent>) -> Seq<EntityEventView>;

/// `tokio::sync::broadcast::channel`, keeping the sending half: nothing has been
/// sent through it yet. It panics on a capacity of 0 or above `usize::MAX / 2`,
/// which `requires` leaves out.
#[verifier::external_body]
fn event_channel(capacity: usize) -> (r: Sender<EntityEvent>)
    requires
        0 < capacity <= usize::MAX / 2,
    ensures
        offered_events(r) == Seq::<EntityEventView>::empty(),
{
    tokio::sync::broadcast::channel(capacity).0
}

/// `Sender::send`: hands the event to the receivers subscribed now. The
/// contract says that this one event was handed on after the earlier ones;
/// whether any receiver was there to take it is not stated, and the outcome is
/// dropped.
#[verifier::external_body]
fn event_send(tx: &mut Sender<EntityEvent>, event: EntityEvent)
    ensures
        offered_events(*final(tx)) == offered_events(*old(tx)).push(event@),
{
    let _ = tx.send(event);
}

/// `Sender::subscribe`: a receiver of the events sent from now on. Nothing is
/// stated of the receiver.
#[verifier::external_body]
fn event_subscribe(tx: &Sender<EntityEvent>) -> Receiver<EntityEvent> {
    tx.subscribe()
}

// ----------------------------------------------------------------------------
// The repository
// ----------------------------------------------------------------------------

/// A change to the set of entities.
#[derive(Debug, Clone)]
pub enum EntityEvent {
    Added { entity_id: String, entity: EntityInfo },
    Removed { entity_id: String, entity: EntityInfo },
}

/// The mathematical value of an [`EntityEvent`].
pub enum EntityEventView {
    Added { entity_id: Seq<char>, entity: EntityView },
    Removed { entity_id: Seq<char>, entity: EntityView },
}

impl View for EntityEvent {
    type V = EntityEventView;

    open spec fn view(&self) -> EntityEventView {
        match self {
            EntityEvent::Added { entity_id, entity } => EntityEventView::Added { entity_id: entity_id@, entity: entity@ },
            EntityEvent::Removed { entity_id, entity } => EntityEventView::Removed {
                entity_id: entity_id@,
                entity: entity@,
            },
        }
    }
}

/// The number of events a subscriber may lag behind before it loses some.
pub const EVENT_CAPACITY: usize = 100;

/// The entities of a diagnostic system, keyed by identifier. Each addition and
/// removal is announced to the subscribers.
pub struct EntityRepository {
    entities: DashMap<String, EntityInfo>,
    event_tx: Sender<EntityEvent>,
}

impl View for EntityRepository {
    type V = Map<Seq<char>, EntityInfo>;

    closed spec fn view(&self) -> Map<Seq<char>, EntityInfo> {
        entity_table(self.entities)
    }
}

impl EntityRepository {
    /// The repository is well formed: finitely many entities, each kept under
    /// its own identifier.
    pub closed spec fn wf(&self) -> bool {
        &&& self@.dom().finite()
        &&& forall|k: Seq<char>| #[trigger] self@.contains_key(k) ==> self@[k]@.id == k
    }

    /// The changes announced so far, in order.
    pub closed spec fn events(&self) -> Seq<EntityEventView> {
        offered_events(self.event_tx)
    }

    /// A well-formed repository holds finitely many entities.
    pub proof fn lemma_finite(&self)
        requires
            self.wf(),
        ensures
            self@.dom().finite(),
    {
    }

    /// An empty repository, which has announced nothing.
    pub fn new() -> (r: Self)
        ensures
            r@ == Map::<Seq<char>, EntityInfo>::empty(),
            r.wf(),
            r.events() == Seq::<EntityEventView>::empty(),
    {
        EntityRepository { entities: table_new(), event_tx: event_channel(EVENT_CAPACITY) }
    }

    /// Adds an entity under its identifier, replacing any entity with that
    /// identifier, and announces it with one `Added` event.
    pub fn add_entity<E: Entity>(&mut self, entity: &E)
        requires
            old(self).wf(),
        ensures
            final(self).wf(),
            final(self)@ == old(self)@.insert(entity.entity_view().id, final(self)@[entity.entity_view().id]),
            final(self)@[entity.entity_view().id]@ == entity.entity_view(),
            final(self)@.len() == old(self)@.len() + if old(self)@.contains_key(entity.entity_view().id) {
                0int
            } else {
                1int
            },
            final(self).events() == old(self).events().push(
                EntityEventView::Added { entity_id: entity.entity_view().id, entity: entity.entity_view() },
            ),
    {
        let ghost before = self@;
        let info = EntityInfo::of(entity);
        let entity_id = info.id.clone();
        let announced = info.copy();
        let _ = table_insert(&mut self.entities, entity_id, info);
        let announced_id = announced.id.clone();
        event_send(&mut self.event_tx, EntityEvent::Added { entity_id: announced_id, entity: announced });
        proof {
            let k = entity.entity_view().id;
            if before.contains_key(k) {
                assert(before.dom().insert(k) =~= before.dom());
            }
        }
    }

    /// Whether an entity with the identifier is there.
    pub fn entity_exists(&self, entity_id: &str) -> (r: bool)
        ensures
            r == self@.contains_key(entity_id@),
    {
        table_contains(&self.entities, entity_id)
    }

    /// The entity with the identifier, if there is one.
    pub fn get_entity(&self, id: &str) -> (r: Option<EntityInfo>)
        ensures
            self@.contains_key(id@) ==> r == Some(self@[id@]),
            !self@.contains_key(id@) ==> r is None,
    {
        table_get(&self.entities, id)
    }

    /// All entities, each once, in no stated order.
    pub fn list_entities(&self) -> (r: Vec<EntityInfo>)
        requires
            self.wf(),
        ensures
            r@.len() == self@.len(),
            forall|i: int| 0 <= i < r@.len() ==> self@.contains_key((#[trigger] r@[i])@.id)
                && self@[r@[i]@.id]@ == r@[i]@,
            forall|k: Seq<char>| #[trigger] self@.contains_key(k)
                ==> exists|i: int| 0 <= i < r@.len() && (#[trigger] r@[i])@.id == k,
            forall|i: int, j: int| 0 <= i < r@.len() && 0 <= j < r@.len() && i != j
                ==> (#[trigger] r@[i])@.id != (#[trigger] r@[j])@.id,
    {
        let entries = table_entries(&self.entities);
        let mut r: Vec<EntityInfo> = Vec::new();
        let mut i: usize = 0;
        while i < entries.len()
            invariant
                self.wf(),
                i <= entries@.len(),
                r@.len() == i,
                entries@.len() == self@.len(),
                forall|j: int| 0 <= j < entries@.len() ==> self@.contains_key((#[trigger] entries@[j]).0@)
                    && self@[entries@[j].0@] == entries@[j].1,
                forall|j: int| 0 <= j < i ==> (#[trigger] r@[j])@ == entries@[j].1@,
            decreases entries@.len() - i,
        {
            r.push(entries[i].1.copy());
            i = i + 1;
        }
        assert forall|j: int| 0 <= j < r@.len() implies (#[trigger] r@[j])@.id == entries@[j].0@ by {
            assert(self@.contains_key(entries@[j].0@));
        }
        assert forall|k: Seq<char>| #[trigger] self@.contains_key(k)
            implies exists|i: int| 0 <= i < r@.len() && (#[trigger] r@[i])@.id == k by {
            let i = choose|i: int| 0 <= i < entries@.len() && (#[trigger] entries@[i]).0@ == k;
            assert(r@[i]@.id == k);
        }
        r
    }

    /// The entities other than the server root (those with a non-empty
    /// identifier), each once, in no stated order.
    pub fn list_components(&self) -> (r: Vec<EntityInfo>)
        requires
            self.wf(),
        ensures
            forall|i: int| 0 <= i < r@.len() ==> (#[trigger] r@[i])@.id.len() > 0
                && self@.contains_key(r@[i]@.id) && self@[r@[i]@.id]@ == r@[i]@,
            forall|k: Seq<char>| #[trigger] self@.contains_key(k) && k.len() > 0
                ==> exists|i: int| 0 <= i < r@.len() && (#[trigger] r@[i])@.id == k,
            forall|i: int, j: int| 0 <= i < r@.len() && 0 <= j < r@.len() && i != j
                ==> (#[trigger] r@[i])@.id != (#[trigger] r@[j])@.id,
            r@.len() + (if self@.contains_key(Seq::empty()) { 1int } else { 0int }) == self@.len(),
    {
        let all = self.list_entities();
        let ghost mut skipped: int = 0;
        let mut r: Vec<EntityInfo> = Vec::new();
        let ghost mut picked: Seq<int> = Seq::empty();
        let mut i: usize = 0;
        while i < all.len()
            invariant
                self.wf(),
                i <= all@.len(),
                picked.len() == r@.len(),
                forall|j: int| 0 <= j < all@.len() ==> self@.contains_key((#[trigger] all@[j])@.id)
                    && self@[all@[j]@.id]@ == all@[j]@,
                forall|k: Seq<char>| #[trigger] self@.contains_key(k)
                    ==> exists|j: int| 0 <= j < all@.len() && (#[trigger] all@[j])@.id == k,
                forall|a: int, b: int| 0 <= a < all@.len() && 0 <= b < all@.len() && a != b
                    ==> (#[trigger] all@[a])@.id != (#[trigger] all@[b])@.id,
                forall|j: int| 0 <= j < r@.len() ==> 0 <= #[trigger] picked[j] < i
                    && r@[j]@ == all@[picked[j]]@ && all@[picked[j]]@.id.len() > 0,
                forall|a: int, b: int| 0 <= a < b < r@.len() ==> #[trigger] picked[a] < #[trigger] picked[b],
                forall|j: int| 0 <= j < i && (#[trigger] all@[j])@.id.len() > 0
                    ==> exists|p: int| 0 <= p < r@.len() && picked[p] == j,
            all@.len() == self@.len(),
            r@.len() + skipped == i,
            skipped == (if exists|j: int| 0 <= j < i && (#[trigger] all@[j])@.id.len() == 0 { 1int } else { 0int }),
            decreases all@.len() - i,
        {
            let ghost old_picked = picked;
            let ghost old_len = r@.len();
            if !all[i].id.as_str().is_empty() {
                proof {
                    picked = picked.push(i as int);
                }
                r.push(all[i].copy());
                assert(picked[old_len as int] == i);
            } else {
                proof {
                    if exists|j: int| 0 <= j < i && (#[trigger] all@[j])@.id.len() == 0 {
                        let j = choose|j: int| 0 <= j < i && (#[trigger] all@[j])@.id.len() == 0;
                        assert(all@[j]@.id =~= all@[i as int]@.id);
                        assert(false);
                    }
                    skipped = 1;
                    assert(all@[i as int]@.id.len() == 0);
                }
            }
            assert forall|j: int| 0 <= j < i + 1 && (#[trigger] all@[j])@.id.len() > 0
                implies exists|p: int| 0 <= p < r@.len() && picked[p] == j by {
                if j < i {
                    let p = choose|p: int| 0 <= p < old_len && old_picked[p] == j;
                    assert(picked[p] == j);
                } else {
                    assert(picked[old_len as int] == j);
                }
            }
            i = i + 1;
        }
        assert forall|q: int| 0 <= q < r@.len() implies (#[trigger] r@[q])@.id.len() > 0
            && self@.contains_key(r@[q]@.id) && self@[r@[q]@.id]@ == r@[q]@ by {
            assert(0 <= picked[q] < all@.len());
            assert(r@[q]@ == all@[picked[q]]@);
        }
        assert forall|a: int, b: int| 0 <= a < r@.len() && 0 <= b < r@.len() && a != b
            implies (#[trigger] r@[a])@.id != (#[trigger] r@[b])@.id by {
            assert(r@[a]@ == all@[picked[a]]@);
            assert(r@[b]@ == all@[picked[b]]@);
            if a < b {
                assert(picked[a] < picked[b]);
            } else {
                assert(picked[b] < picked[a]);
            }
        }
        proof {
            if self@.contains_key(Seq::empty()) {
                let j = choose|j: int| 0 <= j < all@.len() && (#[trigger] all@[j])@.id == Seq::<char>::empty();
                assert(all@[j]@.id.len() == 0);
            }
            if exists|j: int| 0 <= j < all@.len() && (#[trigger] all@[j])@.id.len() == 0 {
                let j = choose|j: int| 0 <= j < all@.len() && (#[trigger] all@[j])@.id.len() == 0;
                assert(all@[j]@.id =~= Seq::<char>::empty());
            }
        }
        assert forall|k: Seq<char>| #[trigger] self@.contains_key(k) && k.len() > 0
            implies exists|q: int| 0 <= q < r@.len() && (#[trigger] r@[q])@.id == k by {
            let j = choose|j: int| 0 <= j < all@.len() && (#[trigger] all@[j])@.id == k;
            let p = choose|p: int| 0 <= p < r@.len() && picked[p] == j;
            assert(r@[p]@.id == k);
        }
        r
    }

    /// The number of entities.
    pub fn entity_count(&self) -> (r: usize)
        ensures
            r == self@.len(),
    {
        table_len(&self.entities)
    }

    /// Removes the entity with the identifier, announces its removal and returns
    /// it; `None` where there was none.
    pub fn remove_entity(&mut self, entity_id: &str) -> (r: Option<EntityInfo>)
        requires
            old(self).wf(),
        ensures
            final(self).wf(),
            final(self)@ == old(self)@.remove(entity_id@),
            old(self)@.contains_key(entity_id@) ==> r == Some(old(self)@[entity_id@]),
            !old(self)@.contains_key(entity_id@) ==> r is None,
            old(self)@.contains_key(entity_id@) ==> final(self)@.len() + 1 == old(self)@.len(),
            old(self)@.contains_key(entity_id@) ==> final(self).events() == old(self).events().push(
                EntityEventView::Removed { entity_id: entity_id@, entity: old(self)@[entity_id@]@ },
            ),
            !old(self)@.contains_key(entity_id@) ==> final(self).events() == old(self).events(),
    {
        let ghost before = self@;
        match table_remove(&mut self.entities, entity_id) {
            Some((id, entity)) => {
                let announced = entity.copy();
                event_send(&mut self.event_tx, EntityEvent::Removed { entity_id: id, entity: announced });
                proof {
                    before.lemma_remove_key_len(entity_id@);
                }
                Some(entity)
            },
            None => None,
        }
    }

    /// A receiver of the events announced from now on.
    ///
    /// Nothing is stated of what the receiver is later handed: that would tie
    /// two values to the one channel they share, and a value here carries no
    /// model of that sharing. What each change announces is stated over
    /// [`EntityRepository::events`], the events handed to the channel.
    pub fn subscribe(&self) -> Receiver<EntityEvent> {
        event_subscribe(&self.event_tx)
    }
}


impl Default for EntityRepository {
    /// An empty repository.
    fn default() -> (r: Self)
        ensures
            r@ == Map::<Seq<char>, EntityInfo>::empty(),
            r.wf(),
    {
        Self::new()
    }
}

// ----------------------------------------------------------------------------
// Laws of the repository
// ----------------------------------------------------------------------------

/// An added entity is found under its identifier with what it reported of
/// itself, and the other entities stay as they were.
pub proof fn lemma_add_then_get(before: EntityRepository, after: EntityRepository, entity: EntityView, other: Seq<char>)
    requires
        after@ == before@.insert(entity.id, after@[entity.id]),
        after@[entity.id]@ == entity,
    ensures
        after@.contains_key(entity.id),
        after@[entity.id]@ == entity,
        other != entity.id ==> (after@.contains_key(other) == before@.contains_key(other)),
        other != entity.id && before@.contains_key(other) ==> after@[other] == before@[other],
{
}

/// Removing an entity that was just added under a new identifier gives back
/// the entities there were before.
pub proof fn lemma_remove_undoes_add(
    before: EntityRepository,
    added: EntityRepository,
    removed: EntityRepository,
    entity: EntityView,
)
    requires
        !before@.contains_key(entity.id),
        added@ == before@.insert(entity.id, added@[entity.id]),
        removed@ == added@.remove(entity.id),
    ensures
        removed@ == before@,
{
    assert(removed@ =~= before@);
}

} // verus!
