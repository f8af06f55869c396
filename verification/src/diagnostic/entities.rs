use vstd::prelude::*;

use crate::text::{clone_opt_string, clone_strings};

verus! {

/// The mathematical value of an entity: what the library reads of it.
pub struct EntityView {
    pub id: Seq<char>,
    pub name: Seq<char>,
    pub tags: Seq<Seq<char>>,
    pub translation_id: Option<Seq<char>>,
}

/// Base trait of all SOVD entities.
pub trait Entity {
    /// What the entity reports of itself.
    spec fn entity_view(&self) -> EntityView;

    fn id(&self) -> (r: &str)
        ensures
            r@ == self.entity_view().id,
    ;

    fn name(&self) -> (r: &str)
        ensures
            r@ == self.entity_view().name,
    ;

    fn tags(&self) -> (r: &[String])
        ensures
            r.deep_view() == self.entity_view().tags,
    ;

    fn translation_id(&self) -> (r: Option<&str>)
        ensures
            match r {
                Some(s) => self.entity_view().translation_id == Some(s@),
                None => self.entity_view().translation_id is None,
            },
    ;
}

/// A snapshot of an entity, as the repository keeps it.
#[derive(Debug, Clone, PartialEq)]
pub struct EntityInfo {
    pub id: String,
    pub name: String,
    pub tags: Vec<String>,
    pub translation_id: Option<String>,
}

impl View for EntityInfo {
    type V = EntityView;

    open spec fn view(&self) -> EntityView {
        EntityView {
            id: self.id@,
            name: self.name@,
            tags: self.tags.deep_view(),
            translation_id: self.translation_id.deep_view(),
        }
    }
}

impl EntityInfo {
    /// Takes a snapshot of what an entity reports of itself.
    pub fn of<E: Entity>(entity: &E) -> (r: EntityInfo)
        ensures
            r@ == entity.entity_view(),
    {
        let tags_slice = entity.tags();
        let mut tags: Vec<String> = Vec::new();
        let mut i: usize = 0;
        while i < tags_slice.len()
            invariant
                i <= tags_slice@.len(),
                tags@.len() == i,
                forall|j: int| 0 <= j < i ==> (#[trigger] tags@[j])@ == tags_slice@[j]@,
            decreases tags_slice@.len() - i,
        {
            tags.push(tags_slice[i].clone());
            i = i + 1;
        }
        assert(tags.deep_view() =~= tags_slice.deep_view());
        let translation_id = match entity.translation_id() {
            Some(s) => Some(String::from_str(s)),
            None => None,
        };
        EntityInfo {
            id: String::from_str(entity.id()),
            name: String::from_str(entity.name()),
            tags,
            translation_id,
        }
    }

    /// Copies the snapshot.
    pub fn copy(&self) -> (r: EntityInfo)
        ensures
            r@ == self@,
    {
        EntityInfo {
            id: self.id.clone(),
            name: self.name.clone(),
            tags: clone_strings(&self.tags),
            translation_id: clone_opt_string(&self.translation_id),
        }
    }
}

impl Entity for EntityInfo {
    open spec fn entity_view(&self) -> EntityView {
        self@
    }

    fn id(&self) -> (r: &str) {
        self.id.as_str()
    }

    fn name(&self) -> (r: &str) {
        self.name.as_str()
    }

    fn tags(&self) -> (r: &[String]) {
        self.tags.as_slice()
    }

    fn translation_id(&self) -> (r: Option<&str>) {
        match &self.translation_id {
            Some(s) => Some(s.as_str()),
            None => None,
        }
    }
}

/// The entity that stands for the SOVD server itself, the root of the entity
/// tree. Its identifier is empty (ISO 17978-3).
pub struct SovdServer {
    name: String,
}

impl SovdServer {
    pub fn new(name: String) -> (r: Self)
        ensures
            r.entity_view() == (EntityView { id: Seq::empty(), name: name@, tags: Seq::empty(), translation_id: None }),
    {
        SovdServer { name }
    }
}

impl Entity for SovdServer {
    closed spec fn entity_view(&self) -> EntityView {
        EntityView { id: Seq::empty(), name: self.name@, tags: Seq::empty(), translation_id: None }
    }

    fn id(&self) -> (r: &str) {
        let r = "";
        proof {
            reveal_strlit("");
        }
        r
    }

    fn name(&self) -> (r: &str) {
        self.name.as_str()
    }

    fn tags(&self) -> (r: &[String]) {
        let r: &[String] = &[];
        assert(r.deep_view() =~= Seq::<Seq<char>>::empty());
        r
    }

    fn translation_id(&self) -> (r: Option<&str>) {
        None
    }
}

} // verus!
