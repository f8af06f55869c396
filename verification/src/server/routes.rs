use vstd::prelude::*;

use crate::diagnostic::diagnostic::Diagnostic;
use crate::diagnostic::entities::{EntityInfo, EntityView};
use crate::models::entity::{
    EntityCapabilitiesResponse, EntityId, EntityQuery, EntityReference, EntityRelationships, EntityResponse, Resources,
};
use crate::models::version::{Info, VersionResponse};
use crate::server::response::{error_spec, ApiError, VendorError};
use crate::models::error::ErrorCode;
use crate::text::{clone_opt_string, clone_strings, strings_contain};

verus! {

// ----------------------------------------------------------------------------
// Base URIs
// ----------------------------------------------------------------------------

/// The path `http::Uri` finds in a text, or none where the text is no URI: a
/// function of the text alone.
pub uninterp spec fn uri_path(text: Seq<char>) -> Option<Seq<char>>;

/// The path of a URI.
///
/// Trusted: parses the text with `http::Uri`'s `FromStr` and takes `Uri::path`;
/// the contract names the result `uri_path` of the text.
#[verifier::external_body]
fn parse_uri_path(text: &str) -> (r: Option<String>)
    ensures
        r.deep_view() == uri_path(text@),
{
    match text.parse::<http::Uri>() {
        Ok(u) => Some(u.path().to_string()),
        Err(_) => None,
    }
}

/// The base URI the server is configured with.
#[derive(Debug, Clone)]
pub struct BaseUri(pub String);

/// The absolute base URI of a request: scheme, `://`, host and the path of the
/// configured base URI (`/` where it has none).
pub open spec fn resolved_uri(base: Seq<char>, scheme: Seq<char>, host: Seq<char>) -> Seq<char> {
    scheme + "://"@ + host + match uri_path(base) {
        Some(p) => p,
        None => "/"@,
    }
}

impl BaseUri {
    /// The absolute base URI for a request with the given scheme and host.
    pub fn resolve_uri(&self, scheme: &str, host: &str) -> (r: String)
        ensures
            r@ == resolved_uri(self.0@, scheme@, host@),
    {
        let path = match parse_uri_path(self.0.as_str()) {
            Some(p) => p,
            None => String::from_str("/"),
        };
        let r = String::from_str(scheme);
        let r = r.concat("://");
        let r = r.concat(host);
        r.concat(path.as_str())
    }
}

/// `s` without the slashes at its end.
pub open spec fn trim_slashes(s: Seq<char>) -> Seq<char>
    decreases s.len(),
{
    if s.len() > 0 && s.last() == '/' {
        trim_slashes(s.drop_last())
    } else {
        s
    }
}

/// `s` without the slashes at its end.
pub fn trim_end_slashes(s: &str) -> (r: String)
    ensures
        r@ == trim_slashes(s@),
{
    let mut n = s.unicode_len();
    assert(s@.subrange(0, n as int) =~= s@);
    while n > 0 && s.get_char(n - 1) == '/'
        invariant
            n <= s@.len(),
            trim_slashes(s@.subrange(0, n as int)) == trim_slashes(s@),
        decreases n,
    {
        assert(s@.subrange(0, n - 1) =~= s@.subrange(0, n as int).drop_last());
        n = n - 1;
    }
    assert(s@.subrange(0, 0) =~= Seq::<char>::empty());
    String::from_str(s.substring_char(0, n))
}

// ----------------------------------------------------------------------------
// Version information
// ----------------------------------------------------------------------------

/// The version information of the server: ISO version 1.1, served under `v1`.
pub fn version_response<T>(resolved_base: &str, vendor_info: Option<T>) -> (r: VersionResponse<T>)
    ensures
        r.sovd_info@.len() == 1,
        r.sovd_info@[0].version@ == "1.1"@,
        r.sovd_info@[0].base_uri@ == trim_slashes(resolved_base@) + "/v1"@,
        r.sovd_info@[0].vendor_info == vendor_info,
{
    let base_uri = trim_end_slashes(resolved_base).concat("/v1");
    let mut sovd_info: Vec<Info<T>> = Vec::new();
    sovd_info.push(Info { version: String::from_str("1.1"), base_uri, vendor_info });
    VersionResponse { sovd_info }
}

// ----------------------------------------------------------------------------
// Entities
// ----------------------------------------------------------------------------

/// The message for a component that is not there.
pub open spec fn component_not_found_message(id: Seq<char>) -> Seq<char> {
    "Component '"@ + id + "' not found"@
}

fn component_not_found(id: &str) -> (r: ApiError)
    ensures
        r@ == error_spec(ErrorCode::VendorSpecific, component_not_found_message(id@), Some(VendorError::NotFound)),
{
    let m = String::from_str("Component '").concat(id).concat("' not found");
    ApiError::not_found(m)
}

/// The relationships give the component collection `components` and nothing else.
pub open spec fn only_components(r: EntityRelationships, components: Option<Seq<char>>) -> bool {
    &&& r.components.deep_view() == components
    &&& r.areas is None && r.apps is None && r.functions is None && r.subareas is None
    &&& r.subcomponents is None && r.contains is None && r.hosts is None && r.belongs_to is None
    &&& r.depends_on is None && r.is_located_on is None
}

/// The resources give the data collection `data` and nothing else.
pub open spec fn only_data(r: Resources, data: Option<Seq<char>>) -> bool {
    &&& r.data.deep_view() == data
    &&& r.configurations is None && r.data_list is None && r.faults is None && r.operations is None
    &&& r.updates is None && r.modes is None && r.locks is None && r.logs is None
    &&& r.communication_logs is None && r.cyclic_subscriptions is None && r.scripts is None
    &&& r.triggers is None
}

/// Relationships with none given.
fn no_relationships() -> (r: EntityRelationships)
    ensures
        r.areas is None && r.components is None && r.apps is None && r.functions is None && r.subareas is None
            && r.subcomponents is None && r.contains is None && r.hosts is None && r.belongs_to is None
            && r.depends_on is None && r.is_located_on is None,
{
    EntityRelationships {
        areas: None,
        components: None,
        apps: None,
        functions: None,
        subareas: None,
        subcomponents: None,
        contains: None,
        hosts: None,
        belongs_to: None,
        depends_on: None,
        is_located_on: None,
    }
}

/// Resources with none given.
fn no_resources() -> (r: Resources)
    ensures
        r.configurations is None && r.data is None && r.data_list is None && r.faults is None && r.operations is None
            && r.updates is None && r.modes is None && r.locks is None && r.logs is None
            && r.communication_logs is None && r.cyclic_subscriptions is None && r.scripts is None
            && r.triggers is None,
{
    Resources {
        configurations: None,
        data: None,
        data_list: None,
        faults: None,
        operations: None,
        updates: None,
        modes: None,
        locks: None,
        logs: None,
        communication_logs: None,
        cyclic_subscriptions: None,
        scripts: None,
        triggers: None,
    }
}

/// The identification of an entity.
fn entity_id_of(e: &EntityInfo) -> (r: EntityId)
    ensures
        r.id@ == e@.id,
        r.name@ == e@.name,
        r.translation_id.deep_view() == e@.translation_id,
{
    EntityId { id: e.id.clone(), name: e.name.clone(), translation_id: clone_opt_string(&e.translation_id) }
}

/// The capabilities of the server root (the entity with the empty identifier):
/// its identification and the URI of its component collection.
pub fn root_capabilities<S>(diagnostic: &Diagnostic<S>, resolved_base: &str) -> (r: Result<
    EntityCapabilitiesResponse,
    ApiError,
>)
    requires
        diagnostic.wf(),
    ensures
        match r {
            Ok(c) => {
                &&& diagnostic.entities_view().contains_key(Seq::empty())
                &&& c.entity.id@ == diagnostic.entities_view()[Seq::empty()].id
                &&& c.entity.name@ == diagnostic.entities_view()[Seq::empty()].name
                &&& c.entity.translation_id.deep_view() == diagnostic.entities_view()[Seq::empty()].translation_id
                &&& c.variant is None
                &&& only_components(c.relationships, Some(trim_slashes(resolved_base@) + "/v1/components"@))
                &&& only_data(c.resources, None)
            },
            Err(e) => !diagnostic.entities_view().contains_key(Seq::empty()) && e@ == error_spec(
                ErrorCode::VendorSpecific,
                "SovdServer entity not found"@,
                Some(VendorError::InternalError),
            ),
        },
{
    proof {
        diagnostic.lemma_entities_view();
    }
    match diagnostic.entities().get_entity("") {
        None => {
            proof {
                reveal_strlit("");
                assert(""@ =~= Seq::<char>::empty());
            }
            Err(ApiError::internal_error("SovdServer entity not found"))
        },
        Some(root) => {
            proof {
                reveal_strlit("");
                assert(""@ =~= Seq::<char>::empty());
            }
            let base = trim_end_slashes(resolved_base);
            let mut relationships = no_relationships();
            relationships.components = Some(base.concat("/v1/components"));
            Ok(EntityCapabilitiesResponse {
                entity: entity_id_of(&root),
                variant: None,
                relationships,
                resources: no_resources(),
            })
        },
    }
}


/// The URI of a component.
pub open spec fn component_href(resolved_base: Seq<char>, id: Seq<char>) -> Seq<char> {
    trim_slashes(resolved_base) + "/v1/components/"@ + id
}

/// A tag filter selects an entity: no filter, or an empty one, selects all;
/// another one the entities with at least one of its tags.
pub open spec fn tags_selected(filter: Option<Seq<Seq<char>>>, tags: Seq<Seq<char>>) -> bool {
    match filter {
        Some(f) => f.len() == 0 || exists|j: int| 0 <= j < tags.len() && f.contains(#[trigger] tags[j]),
        None => true,
    }
}

/// The view of an optional list of strings.
pub open spec fn opt_strings_view(v: Option<Vec<String>>) -> Option<Seq<Seq<char>>> {
    match v {
        Some(x) => Some(x.deep_view()),
        None => None,
    }
}

/// A reference is the one of the entity under the base URI.
pub open spec fn reference_of(r: EntityReference, e: EntityView, resolved_base: Seq<char>) -> bool {
    &&& r.entity.id@ == e.id
    &&& r.entity.name@ == e.name
    &&& r.entity.translation_id.deep_view() == e.translation_id
    &&& r.href@ == component_href(resolved_base, e.id)
    &&& r.tags.deep_view() == e.tags
}

fn any_tag_in(tags: &Vec<String>, filter: &Vec<String>) -> (r: bool)
    ensures
        r == exists|j: int| 0 <= j < tags.deep_view().len() && filter.deep_view().contains(#[trigger] tags.deep_view()[j]),
{
    let mut i: usize = 0;
    while i < tags.len()
        invariant
            i <= tags@.len(),
            forall|j: int| 0 <= j < i ==> !filter.deep_view().contains(#[trigger] tags.deep_view()[j]),
        decreases tags@.len() - i,
    {
        if strings_contain(filter, &tags[i]) {
            assert(filter.deep_view().contains(tags.deep_view()[i as int]));
            return true;
        }
        i = i + 1;
    }
    false
}

/// Whether the tag filter selects the tags.
fn select_by_tags(filter: &Option<Vec<String>>, tags: &Vec<String>) -> (r: bool)
    ensures
        r == tags_selected(opt_strings_view(*filter), tags.deep_view()),
{
    match filter {
        Some(f) => f.len() == 0 || any_tag_in(tags, f),
        None => true,
    }
}

/// The references of the components (the entities with a non-empty
/// identifier) that the tag filter selects, each once, in no stated order.
pub fn list_entities<S>(diagnostic: &Diagnostic<S>, resolved_base: &str, query: &EntityQuery) -> (r: EntityResponse)
    requires
        diagnostic.wf(),
    ensures
        forall|i: int| 0 <= i < r.items@.len() ==> {
            let id = (#[trigger] r.items@[i]).entity.id@;
            &&& id.len() > 0
            &&& diagnostic.entities_view().contains_key(id)
            &&& reference_of(r.items@[i], diagnostic.entities_view()[id], resolved_base@)
            &&& tags_selected(opt_strings_view(query.tags), diagnostic.entities_view()[id].tags)
        },
        forall|k: Seq<char>| #[trigger] diagnostic.entities_view().contains_key(k) && k.len() > 0 && tags_selected(
            opt_strings_view(query.tags),
            diagnostic.entities_view()[k].tags,
        ) ==> exists|i: int| 0 <= i < r.items@.len() && (#[trigger] r.items@[i]).entity.id@ == k,
        forall|i: int, j: int| 0 <= i < r.items@.len() && 0 <= j < r.items@.len() && i != j
            ==> (#[trigger] r.items@[i]).entity.id@ != (#[trigger] r.items@[j]).entity.id@,
{
    proof {
        diagnostic.lemma_entities_view();
    }
    let components = diagnostic.entities().list_components();
    let base = trim_end_slashes(resolved_base);
    let ghost ev = diagnostic.entities_view();
    let ghost f = opt_strings_view(query.tags);
    let mut items: Vec<EntityReference> = Vec::new();
    let ghost mut picked: Seq<int> = Seq::empty();
    let mut i: usize = 0;
    while i < components.len()
        invariant
            i <= components@.len(),
            ev == diagnostic.entities_view(),
            f == opt_strings_view(query.tags),
            base@ == trim_slashes(resolved_base@),
            picked.len() == items@.len(),
            forall|j: int| 0 <= j < components@.len() ==> (#[trigger] components@[j])@.id.len() > 0
                && ev.contains_key(components@[j]@.id) && ev[components@[j]@.id] == components@[j]@,
            forall|a: int, b: int| 0 <= a < components@.len() && 0 <= b < components@.len() && a != b
                ==> (#[trigger] components@[a])@.id != (#[trigger] components@[b])@.id,
            forall|j: int| 0 <= j < items@.len() ==> 0 <= #[trigger] picked[j] < i
                && reference_of(items@[j], components@[picked[j]]@, resolved_base@)
                && tags_selected(f, components@[picked[j]]@.tags),
            forall|a: int, b: int| 0 <= a < b < items@.len() ==> #[trigger] picked[a] < #[trigger] picked[b],
            forall|j: int| 0 <= j < i && tags_selected(f, (#[trigger] components@[j])@.tags)
                ==> exists|p: int| 0 <= p < items@.len() && picked[p] == j,
        decreases components@.len() - i,
    {
        let c = &components[i];
        let ghost old_picked = picked;
        let ghost old_len = items@.len();
        if select_by_tags(&query.tags, &c.tags) {
            let href = base.clone().concat("/v1/components/").concat(c.id.as_str());
            let reference = EntityReference { entity: entity_id_of(c), href, tags: clone_strings(&c.tags) };
            proof {
                picked = picked.push(i as int);
            }
            items.push(reference);
            assert(picked[old_len as int] == i);
        }
        assert forall|j: int| 0 <= j < i + 1 && tags_selected(f, (#[trigger] components@[j])@.tags)
            implies exists|p: int| 0 <= p < items@.len() && picked[p] == j by {
            if j < i {
                let p = choose|p: int| 0 <= p < old_len && old_picked[p] == j;
                assert(picked[p] == j);
            } else {
                assert(picked[old_len as int] == j);
            }
        }
        i = i + 1;
    }
    assert forall|q: int| 0 <= q < items@.len() implies {
        let id = (#[trigger] items@[q]).entity.id@;
        &&& id.len() > 0
        &&& ev.contains_key(id)
        &&& reference_of(items@[q], ev[id], resolved_base@)
        &&& tags_selected(f, ev[id].tags)
    } by {
        let j = picked[q];
        assert(0 <= j < components@.len());
        assert(reference_of(items@[q], components@[j]@, resolved_base@));
    }
    assert forall|a: int, b: int| 0 <= a < items@.len() && 0 <= b < items@.len() && a != b
        implies (#[trigger] items@[a]).entity.id@ != (#[trigger] items@[b]).entity.id@ by {
        if a < b {
            assert(picked[a] < picked[b]);
        } else {
            assert(picked[b] < picked[a]);
        }
    }
    assert forall|k: Seq<char>| #[trigger] ev.contains_key(k) && k.len() > 0 && tags_selected(f, ev[k].tags)
        implies exists|q: int| 0 <= q < items@.len() && (#[trigger] items@[q]).entity.id@ == k by {
        assert(diagnostic.repository()@.contains_key(k));
        let j = choose|j: int| 0 <= j < components@.len() && (#[trigger] components@[j])@.id == k;
        let p = choose|p: int| 0 <= p < items@.len() && picked[p] == j;
        assert(items@[p].entity.id@ == k);
    }
    EntityResponse { items }
}

/// The capabilities of a component: its identification and the URI of its data.
pub fn component_capabilities<S>(diagnostic: &Diagnostic<S>, resolved_base: &str, component_id: &str) -> (r: Result<
    EntityCapabilitiesResponse,
    ApiError,
>)
    requires
        diagnostic.wf(),
    ensures
        match r {
            Ok(c) => {
                &&& diagnostic.entities_view().contains_key(component_id@)
                &&& c.entity.id@ == diagnostic.entities_view()[component_id@].id
                &&& c.entity.name@ == diagnostic.entities_view()[component_id@].name
                &&& c.entity.translation_id.deep_view() == diagnostic.entities_view()[component_id@].translation_id
                &&& c.variant is None
                &&& only_data(c.resources, Some(component_href(resolved_base@, component_id@) + "/data"@))
                &&& only_components(c.relationships, None)
            },
            Err(e) => !diagnostic.entities_view().contains_key(component_id@) && e@ == error_spec(
                ErrorCode::VendorSpecific,
                component_not_found_message(component_id@),
                Some(VendorError::NotFound),
            ),
        },
{
    proof {
        diagnostic.lemma_entities_view();
    }
    match diagnostic.entities().get_entity(component_id) {
        None => Err(component_not_found(component_id)),
        Some(comp) => {
            let base = trim_end_slashes(resolved_base).concat("/v1/components/").concat(component_id);
            let mut resources = no_resources();
            resources.data = Some(base.concat("/data"));
            Ok(EntityCapabilitiesResponse {
                entity: entity_id_of(&comp),
                variant: None,
                relationships: no_relationships(),
                resources,
            })
        },
    }
}

/// The apps a component hosts: none are kept, so the listing is empty for a
/// component that is there.
pub fn list_hosts<S>(diagnostic: &Diagnostic<S>, component_id: &str, query: &EntityQuery) -> (r: Result<
    EntityResponse,
    ApiError,
>)
    requires
        diagnostic.wf(),
    ensures
        match r {
            Ok(l) => diagnostic.entities_view().contains_key(component_id@) && l.items@.len() == 0,
            Err(e) => !diagnostic.entities_view().contains_key(component_id@) && e@ == error_spec(
                ErrorCode::VendorSpecific,
                component_not_found_message(component_id@),
                Some(VendorError::NotFound),
            ),
        },
{
    proof {
        diagnostic.lemma_entities_view();
    }
    if !diagnostic.entities().entity_exists(component_id) {
        return Err(component_not_found(component_id));
    }
    Ok(EntityResponse { items: Vec::new() })
}


/// Trimming the trailing slashes leaves no slash at the end, and trimming again
/// changes nothing.
pub proof fn lemma_trim_slashes(s: Seq<char>)
    ensures
        trim_slashes(s).len() > 0 ==> trim_slashes(s).last() != '/',
        trim_slashes(trim_slashes(s)) == trim_slashes(s),
        trim_slashes(s).len() <= s.len(),
        trim_slashes(s) == s.subrange(0, trim_slashes(s).len() as int),
    decreases s.len(),
{
    if s.len() > 0 && s.last() == '/' {
        lemma_trim_slashes(s.drop_last());
        assert(s.drop_last().subrange(0, trim_slashes(s).len() as int) =~= s.subrange(0, trim_slashes(s).len() as int));
    } else {
        assert(s.subrange(0, s.len() as int) =~= s);
    }
}

/// A non-empty tag filter selects an entity exactly when some tag of the
/// entity is one of the filter's tags, wherever it stands in the filter; so
/// the selection does not depend on the order of the filter's tags.
pub proof fn lemma_tag_filter_selects_any(filter: Seq<Seq<char>>, tags: Seq<Seq<char>>)
    requires
        filter.len() > 0,
    ensures
        tags_selected(Some(filter), tags) <==> exists|i: int, j: int|
            0 <= i < tags.len() && 0 <= j < filter.len() && #[trigger] tags[i] == #[trigger] filter[j],
        forall|other: Seq<Seq<char>>| other.to_multiset() == filter.to_multiset() ==> tags_selected(Some(other), tags)
            == tags_selected(Some(filter), tags),
{
    if tags_selected(Some(filter), tags) {
        let i = choose|i: int| 0 <= i < tags.len() && filter.contains(#[trigger] tags[i]);
        let j = choose|j: int| 0 <= j < filter.len() && filter[j] == tags[i];
        assert(tags[i] == filter[j]);
    }
    if exists|i: int, j: int| 0 <= i < tags.len() && 0 <= j < filter.len() && #[trigger] tags[i] == #[trigger] filter[j] {
        let (i, j) = choose|i: int, j: int|
            0 <= i < tags.len() && 0 <= j < filter.len() && #[trigger] tags[i] == #[trigger] filter[j];
        assert(filter.contains(tags[i]));
    }
    assert forall|other: Seq<Seq<char>>| other.to_multiset() == filter.to_multiset() implies tags_selected(
        Some(other),
        tags,
    ) == tags_selected(Some(filter), tags) by {
        other.to_multiset_ensures();
        filter.to_multiset_ensures();
        assert(other.len() > 0) by {
            assert(other.to_multiset().len() == filter.to_multiset().len());
        }
        assert forall|t: Seq<char>| other.contains(t) == filter.contains(t) by {
            assert(other.to_multiset().count(t) == filter.to_multiset().count(t));
        }
    }
}

} // verus!
