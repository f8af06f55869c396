use std::sync::Arc;
use vstd::prelude::*;

use crate::diagnostic::entities::{Entity, EntityView, SovdServer};
use crate::diagnostic::repository::EntityRepository;
use crate::table::StringTable;

verus! {

/// Error of building a diagnostic system.
#[derive(Debug, Clone, PartialEq)]
pub enum BuilderError {
    /// An entity with this identifier already exists.
    DuplicateEntity(String),
}

/// Error of a service lookup.
#[derive(Debug, Clone, PartialEq)]
pub enum ServiceError {
    /// There is no entity with this identifier.
    EntityNotFound { entity_id: String },
    /// The entity has no service of the type asked for.
    ServiceNotFound { entity_id: String, service_type: String },
}

/// A service type, with the name under which lookups report it.
pub trait ServiceType {
    /// The name of the service type.
    spec fn type_name_view() -> Seq<char>;

    fn service_type_name() -> (r: String)
        ensures
            r@ == Self::type_name_view(),
    ;
}

/// The services of the entities: at most one service of type `S` per entity.
///
/// The registry is generic over its service type, so its contents cannot be
/// read through a name for a concurrent map's contents (such a name takes no
/// type parameter); they are kept in a [`StringTable`], whose contract is
/// proved. A registry holds services of the one type `S`.
pub struct ServiceRegistry<S> {
    services: StringTable<S>,
}

impl<S> View for ServiceRegistry<S> {
    type V = Map<Seq<char>, S>;

    closed spec fn view(&self) -> Map<Seq<char>, S> {
        self.services.map()
    }
}

impl<S> ServiceRegistry<S> {
    /// Each entity has at most one entry.
    pub closed spec fn wf(&self) -> bool {
        self.services.wf()
    }

    /// An empty registry.
    pub fn new() -> (r: Self)
        ensures
            r.wf(),
            r@ == Map::<Seq<char>, S>::empty(),
    {
        let r = ServiceRegistry { services: StringTable::new() };
        assert(r@ =~= Map::<Seq<char>, S>::empty());
        r
    }

    /// Registers the service of an entity, replacing any it had.
    pub fn register(&mut self, entity_id: &str, service: S)
        requires
            old(self).wf(),
        ensures
            final(self).wf(),
            final(self)@ == old(self)@.insert(entity_id@, service),
    {
        self.services.insert(entity_id, service);
    }
}

impl<S: ServiceType> ServiceRegistry<S> {
    /// The service of an entity, to be changed; `ServiceNotFound` where it has none.
    pub fn get_mut(&mut self, entity_id: &str) -> (r: Result<&mut S, ServiceError>)
        requires
            old(self).wf(),
        ensures
            match r {
                Ok(s) => old(self)@.contains_key(entity_id@) && *s == old(self)@[entity_id@]
                    && final(self).wf() && final(self)@ == old(self)@.insert(entity_id@, *final(s)),
                Err(ServiceError::ServiceNotFound { entity_id: e, service_type: t }) => !old(self)@.contains_key(entity_id@)
                    && e@ == entity_id@ && t@ == S::type_name_view() && *final(self) == *old(self),
                Err(_) => false,
            },
    {
        match self.services.find(entity_id) {
            Some(i) => Ok(self.services.value_at_mut(i)),
            None => Err(ServiceError::ServiceNotFound {
                entity_id: String::from_str(entity_id),
                service_type: S::service_type_name(),
            }),
        }
    }

    /// The service of an entity; `ServiceNotFound` where it has none.
    pub fn get(&self, entity_id: &str) -> (r: Result<&S, ServiceError>)
        requires
            self.wf(),
        ensures
            match r {
                Ok(s) => self@.contains_key(entity_id@) && *s == self@[entity_id@],
                Err(ServiceError::ServiceNotFound { entity_id: e, service_type: t }) => !self@.contains_key(entity_id@)
                    && e@ == entity_id@ && t@ == S::type_name_view(),
                Err(_) => false,
            },
    {
        match self.services.get(entity_id) {
            Some(s) => Ok(s),
            None => Err(ServiceError::ServiceNotFound {
                entity_id: String::from_str(entity_id),
                service_type: S::service_type_name(),
            }),
        }
    }
}

/// The services an entity is configured with, in the order given.
pub struct EntityContext<S> {
    services: Vec<S>,
}

impl<S> View for EntityContext<S> {
    type V = Seq<S>;

    closed spec fn view(&self) -> Seq<S> {
        self.services@
    }
}

impl<S> EntityContext<S> {
    /// A context without services.
    pub fn new() -> (r: Self)
        ensures
            r@ == Seq::<S>::empty(),
    {
        EntityContext { services: Vec::new() }
    }

    /// Adds a service to the context.
    pub fn with_service(self, service: S) -> (r: Self)
        ensures
            r@ == self@.push(service),
    {
        let mut ctx = self;
        ctx.services.push(service);
        ctx
    }
}

/// The services of `ctx` registered for the entity, in order: the last one stays.
pub open spec fn register_all<S>(m: Map<Seq<char>, S>, entity_id: Seq<char>, ctx: Seq<S>) -> Map<Seq<char>, S> {
    if ctx.len() == 0 {
        m
    } else {
        m.insert(entity_id, ctx.last())
    }
}

/// Builds a diagnostic system: the entities and their services.
pub struct DiagnosticBuilder<S> {
    repository: EntityRepository,
    services: ServiceRegistry<S>,
}

impl<S> DiagnosticBuilder<S> {
    /// The builder is well formed.
    pub closed spec fn wf(&self) -> bool {
        self.repository.wf() && self.services.wf()
    }

    /// The entities added so far.
    pub closed spec fn entities_view(&self) -> Map<Seq<char>, EntityView> {
        self.repository@.map_values(|e: crate::diagnostic::entities::EntityInfo| e@)
    }

    /// The services registered so far.
    pub closed spec fn services_view(&self) -> Map<Seq<char>, S> {
        self.services@
    }

    /// A builder holding the SOVD server root entity (empty identifier, named
    /// "SOVD Server") and no services.
    pub fn new() -> (r: Self)
        ensures
            r.wf(),
            r.entities_view() == Map::<Seq<char>, EntityView>::empty().insert(
                Seq::empty(),
                EntityView { id: Seq::empty(), name: "SOVD Server"@, tags: Seq::empty(), translation_id: None },
            ),
            r.services_view() == Map::<Seq<char>, S>::empty(),
    {
        let mut repository = EntityRepository::new();
        let sovd_server = SovdServer::new(String::from_str("SOVD Server"));
        repository.add_entity(&sovd_server);
        let r = DiagnosticBuilder { repository, services: ServiceRegistry::new() };
        assert(r.entities_view() =~= Map::<Seq<char>, EntityView>::empty().insert(
            Seq::empty(),
            EntityView { id: Seq::empty(), name: "SOVD Server"@, tags: Seq::empty(), translation_id: None },
        ));
        r
    }

    /// Adds an entity without services.
    pub fn add_entity<E: Entity>(self, entity: Arc<E>) -> (r: Self)
        requires
            self.wf(),
        ensures
            r.wf(),
            r.entities_view() == self.entities_view().insert(entity.entity_view().id, entity.entity_view()),
            r.services_view() == self.services_view(),
    {
        let mut b = self;
        b.repository.add_entity(&*entity);
        assert(b.entities_view() =~= self.entities_view().insert(entity.entity_view().id, entity.entity_view()));
        b
    }

    /// Adds an entity and registers the services that `configure` puts into an
    /// empty context.
    pub fn with_entity<E: Entity, F: FnOnce(EntityContext<S>) -> EntityContext<S>>(self, entity: Arc<E>, configure: F) -> (r: Self)
        requires
            self.wf(),
            forall|c: EntityContext<S>| c@.len() == 0 ==> call_requires(configure, (c,)),
        ensures
            r.wf(),
            r.entities_view() == self.entities_view().insert(entity.entity_view().id, entity.entity_view()),
            exists|c0: EntityContext<S>, c1: EntityContext<S>|
                c0@.len() == 0 && call_ensures(configure, (c0,), c1)
                && r.services_view() == register_all(self.services_view(), entity.entity_view().id, c1@),
    {
        let mut b = self;
        let entity_id = String::from_str(entity.id());
        b.repository.add_entity(&*entity);
        let c0 = EntityContext::new();
        let ghost g0 = c0;
        let ctx = configure(c0);
        let ghost g1 = ctx;
        let mut services = ctx.services;
        let last = services.pop();
        match last {
            Some(s) => {
                b.services.register(entity_id.as_str(), s);
            },
            None => {},
        }
        assert(b.entities_view() =~= self.entities_view().insert(entity.entity_view().id, entity.entity_view()));
        assert(call_ensures(configure, (g0,), g1));
        b
    }

    /// The diagnostic system with the entities and services added.
    pub fn build(self) -> (r: Result<Diagnostic<S>, BuilderError>)
        requires
            self.wf(),
        ensures
            match r {
                Ok(d) => d.wf() && d.entities_view() == self.entities_view()
                    && d.services_view() == self.services_view(),
                Err(_) => false,
            },
    {
        Ok(Diagnostic::new(self.repository, self.services))
    }
}

/// A diagnostic system: its entities and their services, shared with the server.
pub struct Diagnostic<S> {
    pub entities: EntityRepository,
    services: ServiceRegistry<S>,
}

impl<S> Diagnostic<S> {
    /// The system is well formed.
    pub closed spec fn wf(&self) -> bool {
        self.entities.wf() && self.services.wf()
    }

    /// The entity repository of the system.
    pub closed spec fn repository(&self) -> EntityRepository {
        self.entities
    }

    /// The entities of the system.
    pub closed spec fn entities_view(&self) -> Map<Seq<char>, EntityView> {
        self.entities@.map_values(|e: crate::diagnostic::entities::EntityInfo| e@)
    }

    /// The services of the system.
    pub closed spec fn services_view(&self) -> Map<Seq<char>, S> {
        self.services@
    }

    /// The entities are those of the repository, each taken by its view; the
    /// system is well formed only if its repository is.
    pub proof fn lemma_entities_view(&self)
        ensures
            self.entities_view() == self.repository()@.map_values(|e: crate::diagnostic::entities::EntityInfo| e@),
            self.wf() ==> self.repository().wf(),
    {
    }

    pub fn new(entities: EntityRepository, services: ServiceRegistry<S>) -> (r: Self)
        requires
            entities.wf(),
            services.wf(),
        ensures
            r.wf(),
            r.entities_view() == entities@.map_values(|e: crate::diagnostic::entities::EntityInfo| e@),
            r.services_view() == services@,
            r.repository() == entities,
    {
        Diagnostic { entities, services }
    }

    /// A system without entities or services.
    pub fn empty() -> (r: Self)
        ensures
            r.wf(),
            r.entities_view() == Map::<Seq<char>, EntityView>::empty(),
            r.services_view() == Map::<Seq<char>, S>::empty(),
    {
        let r = Self::new(EntityRepository::new(), ServiceRegistry::new());
        assert(r.entities_view() =~= Map::<Seq<char>, EntityView>::empty());
        r
    }

    /// A builder for a system.
    pub fn builder() -> (r: DiagnosticBuilder<S>)
        ensures
            r.wf(),
            r.entities_view() == Map::<Seq<char>, EntityView>::empty().insert(
                Seq::empty(),
                EntityView { id: Seq::empty(), name: "SOVD Server"@, tags: Seq::empty(), translation_id: None },
            ),
            r.services_view() == Map::<Seq<char>, S>::empty(),
    {
        DiagnosticBuilder::new()
    }

    /// The entity repository of the system.
    pub fn entities(&self) -> (r: &EntityRepository)
        ensures
            *r == self.repository(),
    {
        &self.entities
    }
}

impl<S: ServiceType> Diagnostic<S> {
    /// The service of an entity: `EntityNotFound` where there is no such
    /// entity, `ServiceNotFound` where the entity has no service.
    pub fn get_service(&self, entity_id: &str) -> (r: Result<&S, ServiceError>)
        requires
            self.wf(),
        ensures
            match r {
                Ok(s) => self.entities_view().contains_key(entity_id@)
                    && self.services_view().contains_key(entity_id@) && *s == self.services_view()[entity_id@],
                Err(ServiceError::EntityNotFound { entity_id: e }) => !self.entities_view().contains_key(entity_id@)
                    && e@ == entity_id@,
                Err(ServiceError::ServiceNotFound { entity_id: e, service_type: t }) => self.entities_view().contains_key(entity_id@)
                    && !self.services_view().contains_key(entity_id@) && e@ == entity_id@
                    && t@ == S::type_name_view(),
            },
    {
        if !self.entities.entity_exists(entity_id) {
            return Err(ServiceError::EntityNotFound { entity_id: String::from_str(entity_id) });
        }
        self.services.get(entity_id)
    }

    /// The service of an entity, to be changed: `EntityNotFound` where there is
    /// no such entity, `ServiceNotFound` where the entity has no service.
    pub fn get_service_mut(&mut self, entity_id: &str) -> (r: Result<&mut S, ServiceError>)
        requires
            old(self).wf(),
        ensures
            final(self).entities_view() == old(self).entities_view(),
            match r {
                Ok(s) => old(self).entities_view().contains_key(entity_id@)
                    && old(self).services_view().contains_key(entity_id@)
                    && *s == old(self).services_view()[entity_id@]
                    && final(self).wf()
                    && final(self).services_view() == old(self).services_view().insert(entity_id@, *final(s)),
                Err(ServiceError::EntityNotFound { entity_id: e }) => !old(self).entities_view().contains_key(entity_id@)
                    && e@ == entity_id@ && *final(self) == *old(self),
                Err(ServiceError::ServiceNotFound { entity_id: e, service_type: t }) => old(self).entities_view().contains_key(entity_id@)
                    && !old(self).services_view().contains_key(entity_id@) && e@ == entity_id@
                    && t@ == S::type_name_view()
                    && *final(self) == *old(self),
            },
    {
        if !self.entities.entity_exists(entity_id) {
            return Err(ServiceError::EntityNotFound { entity_id: String::from_str(entity_id) });
        }
        self.services.get_mut(entity_id)
    }

    /// Whether the entity has a service.
    pub fn has_service(&self, entity_id: &str) -> (r: bool)
        requires
            self.wf(),
        ensures
            r == self.services_view().contains_key(entity_id@),
    {
        self.services.get(entity_id).is_ok()
    }
}


impl<S> Default for ServiceRegistry<S> {
    /// An empty registry.
    fn default() -> (r: Self)
        ensures
            r.wf(),
            r@ == Map::<Seq<char>, S>::empty(),
    {
        Self::new()
    }
}

impl<S> Default for EntityContext<S> {
    /// A context without services.
    fn default() -> (r: Self)
        ensures
            r@ == Seq::<S>::empty(),
    {
        Self::new()
    }
}

impl<S> Default for DiagnosticBuilder<S> {
    /// A builder holding the server root entity and no services.
    fn default() -> (r: Self)
        ensures
            r.wf(),
            r.entities_view() == Map::<Seq<char>, EntityView>::empty().insert(
                Seq::empty(),
                EntityView { id: Seq::empty(), name: "SOVD Server"@, tags: Seq::empty(), translation_id: None },
            ),
            r.services_view() == Map::<Seq<char>, S>::empty(),
    {
        Self::new()
    }
}

} // verus!
