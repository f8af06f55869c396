use vstd::prelude::*;

use crate::diagnostic::data::DataService;
use crate::diagnostic::diagnostic::ServiceType;
use crate::diagnostic::entities::{Entity, EntityView};
use crate::models::data::{
    data_error_code_name, opt_category_view, data_error_spec, DataCategory, DataCategoryInformation, DataCategoryView, DataError,
    DataErrorCode, DataErrorView, ReadValue, ValueGroup, ValueMetaData, ValueMetaDataView,
};
use crate::models::error::ErrorCode;
use crate::table::{entries_map, has_key, key_index, keys_unique, StringTable};
use crate::text::strings_contain;

verus! {

// ----------------------------------------------------------------------------
// Mock components
// ----------------------------------------------------------------------------

/// A component of the gateway's simulated machine.
pub struct MockComponent {
    pub id: String,
    pub name: String,
    pub tags: Vec<String>,
}

impl MockComponent {
    pub fn new(id: String, name: String, tags: Vec<String>) -> (r: Self)
        ensures
            r.entity_view() == (EntityView { id: id@, name: name@, tags: tags.deep_view(), translation_id: None }),
    {
        MockComponent { id, name, tags }
    }
}

impl Entity for MockComponent {
    open spec fn entity_view(&self) -> EntityView {
        EntityView { id: self.id@, name: self.name@, tags: self.tags.deep_view(), translation_id: None }
    }

    fn id(&self) -> (r: &str) {
        self.id.as_str()
    }

    fn name(&self) -> (r: &str) {
        self.name.as_str()
    }

    fn tags(&self) -> (r: &[String]) {
        self.tags.as_slice()
    }

    fn translation_id(&self) -> (r: Option<&str>) {
        None
    }
}

// ----------------------------------------------------------------------------
// Data entries
// ----------------------------------------------------------------------------

/// A data value of a mock component, with its metadata and whether it may be written.
#[derive(Debug)]
pub struct DataEntry {
    pub metadata: ValueMetaData,
    pub value: serde_json::Value,
    pub writable: bool,
}

/// The mathematical value of a [`DataEntry`].
pub struct DataEntryView {
    pub metadata: ValueMetaDataView,
    pub value: serde_json::Value,
    pub writable: bool,
}

impl View for DataEntry {
    type V = DataEntryView;

    open spec fn view(&self) -> DataEntryView {
        DataEntryView { metadata: self.metadata@, value: self.value, writable: self.writable }
    }
}

impl Clone for DataEntry {
    fn clone(&self) -> (r: Self)
        ensures
            r@ == self@,
    {
        DataEntry { metadata: self.metadata.clone(), value: self.value.clone(), writable: self.writable }
    }
}

// ----------------------------------------------------------------------------
// What the mock data service answers
// ----------------------------------------------------------------------------

/// The table after inserting the entries in order: a key given again replaces
/// the value in place.
pub open spec fn table_after(s: Seq<(Seq<char>, DataEntryView)>) -> Seq<(Seq<char>, DataEntryView)>
    decreases s.len(),
{
    if s.len() == 0 {
        Seq::empty()
    } else {
        let t = table_after(s.drop_last());
        let (k, v) = s.last();
        if has_key(t, k) {
            t.update(key_index(t, k), (k, v))
        } else {
            t.push((k, v))
        }
    }
}

/// A category filter selects the category: an empty filter selects all.
pub open spec fn category_selected(categories: Seq<DataCategoryView>, c: DataCategoryView) -> bool {
    categories.len() == 0 || categories.contains(c)
}

/// A group filter selects a value of the groups: an empty filter selects all,
/// another one a value with at least one of the groups asked for.
pub open spec fn groups_selected(groups: Seq<Seq<char>>, item_groups: Seq<Seq<char>>) -> bool {
    groups.len() == 0 || exists|i: int| 0 <= i < item_groups.len() && groups.contains(#[trigger] item_groups[i])
}

/// The metadata of the entries that both filters select, in table order.
pub open spec fn selected_metadata(
    entries: Seq<(Seq<char>, DataEntryView)>,
    categories: Seq<DataCategoryView>,
    groups: Seq<Seq<char>>,
) -> Seq<ValueMetaDataView>
    decreases entries.len(),
{
    if entries.len() == 0 {
        Seq::empty()
    } else {
        let rest = selected_metadata(entries.drop_last(), categories, groups);
        let m = entries.last().1.metadata;
        if category_selected(categories, m.category) && groups_selected(groups, m.groups) {
            rest.push(m)
        } else {
            rest
        }
    }
}

/// The categories of the entries, each once, in the order they first occur.
pub open spec fn distinct_categories(entries: Seq<(Seq<char>, DataEntryView)>) -> Seq<DataCategoryView>
    decreases entries.len(),
{
    if entries.len() == 0 {
        Seq::empty()
    } else {
        let rest = distinct_categories(entries.drop_last());
        let c = entries.last().1.metadata.category;
        if rest.contains(c) {
            rest
        } else {
            rest.push(c)
        }
    }
}

/// `acc` with the pairs of each group and the category added, each pair once.
pub open spec fn add_group_pairs(
    acc: Seq<(Seq<char>, DataCategoryView)>,
    groups: Seq<Seq<char>>,
    c: DataCategoryView,
) -> Seq<(Seq<char>, DataCategoryView)>
    decreases groups.len(),
{
    if groups.len() == 0 {
        acc
    } else {
        let a = add_group_pairs(acc, groups.drop_last(), c);
        let p = (groups.last(), c);
        if a.contains(p) {
            a
        } else {
            a.push(p)
        }
    }
}

/// A category filter of a group listing: none selects all categories.
pub open spec fn category_matches(filter: Option<DataCategoryView>, c: DataCategoryView) -> bool {
    match filter {
        Some(f) => f == c,
        None => true,
    }
}

/// The (group, category) pairs of the entries of the selected category, each
/// once, in the order they first occur.
pub open spec fn group_pairs(
    entries: Seq<(Seq<char>, DataEntryView)>,
    filter: Option<DataCategoryView>,
) -> Seq<(Seq<char>, DataCategoryView)>
    decreases entries.len(),
{
    if entries.len() == 0 {
        Seq::empty()
    } else {
        let acc = group_pairs(entries.drop_last(), filter);
        let m = entries.last().1.metadata;
        if category_matches(filter, m.category) {
            add_group_pairs(acc, m.groups, m.category)
        } else {
            acc
        }
    }
}

/// The error for a data identifier that is not there.
pub open spec fn not_found_error(data_id: Seq<char>) -> DataErrorView {
    data_error_spec(ErrorCode::VendorSpecific, Some(data_error_code_name(DataErrorCode::DataNotFound)), data_id)
}

/// The error for a write to a read-only value.
pub open spec fn read_only_error(data_id: Seq<char>) -> DataErrorView {
    data_error_spec(ErrorCode::InsufficientAccessRights, None, data_id)
}

fn categories_contain(categories: &Vec<DataCategory>, c: &DataCategory) -> (r: bool)
    ensures
        r == categories@.map_values(|x: DataCategory| x@).contains(c@),
{
    let ghost cs = categories@.map_values(|x: DataCategory| x@);
    let mut i: usize = 0;
    while i < categories.len()
        invariant
            i <= categories@.len(),
            cs == categories@.map_values(|x: DataCategory| x@),
            forall|j: int| 0 <= j < i ==> cs[j] != c@,
        decreases categories@.len() - i,
    {
        if categories[i] == *c {
            assert(cs[i as int] == c@);
            return true;
        }
        i = i + 1;
    }
    false
}

fn any_group_in(item_groups: &Vec<String>, groups: &Vec<String>) -> (r: bool)
    ensures
        r == exists|i: int| 0 <= i < item_groups.deep_view().len() && groups.deep_view().contains(
            #[trigger] item_groups.deep_view()[i],
        ),
{
    let mut i: usize = 0;
    while i < item_groups.len()
        invariant
            i <= item_groups@.len(),
            forall|j: int| 0 <= j < i ==> !groups.deep_view().contains(#[trigger] item_groups.deep_view()[j]),
        decreases item_groups@.len() - i,
    {
        if strings_contain(groups, &item_groups[i]) {
            assert(groups.deep_view().contains(item_groups.deep_view()[i as int]));
            return true;
        }
        i = i + 1;
    }
    false
}

fn pairs_contain(pairs: &Vec<(String, DataCategory)>, g: &String, c: &DataCategory) -> (r: bool)
    ensures
        r == pairs@.map_values(|p: (String, DataCategory)| (p.0@, p.1@)).contains((g@, c@)),
{
    let ghost ps = pairs@.map_values(|p: (String, DataCategory)| (p.0@, p.1@));
    let mut i: usize = 0;
    while i < pairs.len()
        invariant
            i <= pairs@.len(),
            ps == pairs@.map_values(|p: (String, DataCategory)| (p.0@, p.1@)),
            forall|j: int| 0 <= j < i ==> ps[j] != (g@, c@),
        decreases pairs@.len() - i,
    {
        if pairs[i].0 == *g && pairs[i].1 == *c {
            assert(ps[i as int] == (g@, c@));
            return true;
        }
        i = i + 1;
    }
    false
}

// ----------------------------------------------------------------------------
// The mock data service
// ----------------------------------------------------------------------------

/// The data service of a mock component: a table of data entries.
pub struct MockDataService {
    data: StringTable<DataEntry>,
}

/// The views of the entries of a table of data entries.
pub open spec fn entry_views(s: Seq<(Seq<char>, DataEntry)>) -> Seq<(Seq<char>, DataEntryView)> {
    s.map_values(|e: (Seq<char>, DataEntry)| (e.0, e.1@))
}

/// Taking the views of the entries keeps the keys, where they are and which
/// entry each one finds.
proof fn lemma_entry_views(s: Seq<(Seq<char>, DataEntry)>)
    requires
        crate::table::keys_unique(s),
    ensures
        crate::table::keys_unique(entry_views(s)),
        forall|k: Seq<char>| #[trigger] has_key(entry_views(s), k) == has_key(s, k),
        forall|k: Seq<char>| has_key(s, k) ==> #[trigger] key_index(entry_views(s), k) == key_index(s, k)
            && 0 <= key_index(s, k) < s.len(),
        forall|k: Seq<char>| #[trigger] entries_map(entry_views(s)).contains_key(k) == entries_map(s).contains_key(k),
        forall|k: Seq<char>| #[trigger] entries_map(entry_views(s)).contains_key(k) ==> entries_map(entry_views(s))[k]
            == entries_map(s)[k]@,
{
    let e = entry_views(s);
    assert forall|k: Seq<char>| #[trigger] has_key(e, k) == has_key(s, k) by {
        if has_key(e, k) {
            let j = choose|j: int| 0 <= j < e.len() && (#[trigger] e[j]).0 == k;
            assert(s[j].0 == k);
        }
        if has_key(s, k) {
            let j = choose|j: int| 0 <= j < s.len() && (#[trigger] s[j]).0 == k;
            assert(e[j].0 == k);
        }
    }
    assert forall|k: Seq<char>| has_key(s, k) implies #[trigger] key_index(e, k) == key_index(s, k)
        && 0 <= key_index(s, k) < s.len() by {
        let i = key_index(s, k);
        assert(e[i].0 == k);
        let j = key_index(e, k);
        assert(s[j].0 == k);
    }
    assert forall|k: Seq<char>| #[trigger] entries_map(e).contains_key(k) implies entries_map(e)[k] == entries_map(s)[k]@ by {
        let j = choose|j: int| 0 <= j < e.len() && (#[trigger] e[j]).0 == k;
        crate::table::lemma_entry_in_map(e, j);
        crate::table::lemma_entry_in_map(s, j);
    }
}

impl MockDataService {
    /// The entries, in table order.
    pub closed spec fn entries(&self) -> Seq<(Seq<char>, DataEntryView)> {
        entry_views(self.data@)
    }

    /// The entry under each data identifier.
    pub open spec fn map(&self) -> Map<Seq<char>, DataEntryView> {
        entries_map(self.entries())
    }

    /// No data identifier occurs twice.
    #[verifier::type_invariant]
    closed spec fn wf(&self) -> bool {
        self.data.wf()
    }
}

/// The entries after the value under `data_id` was replaced by `value`.
pub open spec fn written(
    entries: Seq<(Seq<char>, DataEntryView)>,
    data_id: Seq<char>,
    value: serde_json::Value,
) -> Seq<(Seq<char>, DataEntryView)> {
    entries.update(key_index(entries, data_id), (data_id, DataEntryView { value: value, ..entries_map(entries)[data_id] }))
}

/// The map built by inserting the entries one after the other into an empty map.
pub open spec fn insert_all(s: Seq<(Seq<char>, DataEntryView)>) -> Map<Seq<char>, DataEntryView>
    decreases s.len(),
{
    if s.len() == 0 {
        Map::empty()
    } else {
        insert_all(s.drop_last()).insert(s.last().0, s.last().1)
    }
}

/// The view of a list of entries handed to [`MockDataService::new`].
pub open spec fn entry_list_view(data: Seq<(String, DataEntry)>) -> Seq<(Seq<char>, DataEntryView)> {
    data.map_values(|e: (String, DataEntry)| (e.0@, e.1@))
}

impl MockDataService {
    /// A data service holding the entries in order; where an identifier is given
    /// twice, the later entry replaces the earlier one in its place.
    pub fn new(data: Vec<(String, DataEntry)>) -> (r: Self)
        ensures
            r.entries() == table_after(entry_list_view(data@)),
            keys_unique(r.entries()),
    {
        let ghost src = entry_list_view(data@);
        let mut table: StringTable<DataEntry> = StringTable::new();
        assert(entry_views(table@) =~= table_after(src.take(0)));
        let mut i: usize = 0;
        while i < data.len()
            invariant
                i <= data@.len(),
                src == entry_list_view(data@),
                table.wf(),
                entry_views(table@) == table_after(src.take(i as int)),
            decreases data@.len() - i,
        {
            let ghost before = entry_views(table@);
            let ghost sbefore = table@;
            let key = data[i].0.as_str();
            let value = data[i].1.clone();
            proof {
                lemma_entry_views(sbefore);
            }
            table.insert(key, value);
            proof {
                assert(src.take(i as int + 1).drop_last() =~= src.take(i as int));
                assert(src.take(i as int + 1).last() == src[i as int]);
                if has_key(sbefore, key@) {
                    assert(entry_views(table@) =~= before.update(key_index(before, key@), (key@, value@)));
                } else {
                    assert(entry_views(table@) =~= before.push((key@, value@)));
                }
            }
            i = i + 1;
        }
        assert(src.take(data@.len() as int) =~= src);
        proof {
            lemma_entry_views(table@);
        }
        MockDataService { data: table }
    }
}


impl ServiceType for MockDataService {
    open spec fn type_name_view() -> Seq<char> {
        "MockDataService"@
    }

    /// The name of the type, as lookups report it.
    fn service_type_name() -> (r: String)
        ensures
            r@ == "MockDataService"@,
    {
        String::from_str("MockDataService")
    }
}

impl DataService for MockDataService {
    /// Every listing succeeds with the metadata of the entries both filters
    /// select, in table order.
    open spec fn list_outcome(
        &self,
        entity_id: Seq<char>,
        categories: Seq<DataCategoryView>,
        groups: Seq<Seq<char>>,
        r: Result<Vec<ValueMetaData>, DataError>,
    ) -> bool {
        r matches Ok(items) && items@.map_values(|m: ValueMetaData| m@) == selected_metadata(
            self.entries(),
            categories,
            groups,
        )
    }

    /// Every listing of categories succeeds with the distinct categories of
    /// the entries, in the order they first occur, without translations.
    open spec fn categories_outcome(&self, entity_id: Seq<char>, r: Result<Vec<DataCategoryInformation>, DataError>) -> bool {
        r matches Ok(items) && items@.len() == distinct_categories(self.entries()).len() && forall|j: int|
            0 <= j < items@.len() ==> (#[trigger] items@[j]).item@ == distinct_categories(self.entries())[j]
                && items@[j].category_translation_id is None
    }

    /// Every listing of groups succeeds with the distinct (group, category)
    /// pairs of the selected entries, in the order they first occur.
    open spec fn groups_outcome(
        &self,
        entity_id: Seq<char>,
        category: Option<DataCategoryView>,
        r: Result<Vec<ValueGroup>, DataError>,
    ) -> bool {
        r matches Ok(items) && items@.len() == group_pairs(self.entries(), category).len() && forall|j: int|
            0 <= j < items@.len() ==> {
                let p = #[trigger] group_pairs(self.entries(), category)[j];
                &&& items@[j].id@ == p.0
                &&& items@[j].category@ == p.1
                &&& items@[j].category_translation_id is None
                &&& items@[j].group.deep_view() == Some(p.0)
                &&& items@[j].group_translation_id is None
            }
    }

    /// A read gives the value under the identifier, or `data-not-found`.
    open spec fn read_outcome(&self, entity_id: Seq<char>, data_id: Seq<char>, r: Result<ReadValue, DataError>) -> bool {
        match r {
            Ok(v) => self.map().contains_key(data_id) && v.id@ == data_id && v.data == self.map()[data_id].value
                && v.errors@.len() == 0,
            Err(e) => !self.map().contains_key(data_id) && e@ == not_found_error(data_id),
        }
    }

    /// A write replaces a writable value; a value that is not there gives
    /// `data-not-found`, a read-only one an access error, and both leave the
    /// entries as they were.
    open spec fn write_outcome(
        &self,
        after: Self,
        entity_id: Seq<char>,
        data_id: Seq<char>,
        value: serde_json::Value,
        r: Result<(), DataError>,
    ) -> bool {
        match r {
            Ok(()) => {
                &&& self.map().contains_key(data_id)
                &&& self.map()[data_id].writable
                &&& after.entries() == written(self.entries(), data_id, value)
                &&& keys_unique(after.entries())
                &&& after.map() == self.map().insert(data_id, DataEntryView { value: value, ..self.map()[data_id] })
            },
            Err(e) => {
                &&& after.entries() == self.entries()
                &&& !self.map().contains_key(data_id) ==> e@ == not_found_error(data_id)
                &&& self.map().contains_key(data_id) ==> !self.map()[data_id].writable && e@ == read_only_error(
                    data_id,
                )
            },
        }
    }
    /// The metadata of the entries both filters select, in table order.
    fn list(&self, entity_id: &str, categories: Vec<DataCategory>, groups: Vec<String>) -> (r: Result<
        Vec<ValueMetaData>,
        DataError,
    >)
    {
        let ghost cs = categories@.map_values(|c: DataCategory| c@);
        let ghost gs = groups.deep_view();
        let ghost es = self.entries();
        let mut out: Vec<ValueMetaData> = Vec::new();
        let mut i: usize = 0;
        assert(out@.map_values(|m: ValueMetaData| m@) =~= selected_metadata(es.take(0), cs, gs));
        while i < self.data.len()
            invariant
                i <= self.data@.len(),
                es == self.entries(),
                es.len() == self.data@.len(),
                cs == categories@.map_values(|c: DataCategory| c@),
                gs == groups.deep_view(),
                out@.map_values(|m: ValueMetaData| m@) == selected_metadata(es.take(i as int), cs, gs),
            decreases self.data@.len() - i,
        {
            let entry = self.data.value_at(i);
            let m = &entry.metadata;
            let category_match = categories.len() == 0 || categories_contain(&categories, &m.category);
            let group_match = groups.len() == 0 || any_group_in(&m.groups, &groups);
            let ghost prev = out@;
            proof {
                assert(es.take(i as int + 1).drop_last() =~= es.take(i as int));
                assert(es.take(i as int + 1).last() == es[i as int]);
                assert(es[i as int].1.metadata == m@);
            }
            if category_match && group_match {
                out.push(m.clone());
                assert(out@.map_values(|m: ValueMetaData| m@) =~= prev.map_values(|m: ValueMetaData| m@).push(m@));
            }
            i = i + 1;
        }
        assert(es.take(es.len() as int) =~= es);
        Ok(out)
    }

    /// The distinct categories of the entries, in the order they first occur.
    fn list_categories(&self, entity_id: &str) -> (r: Result<Vec<DataCategoryInformation>, DataError>)
    {
        let ghost es = self.entries();
        let mut cats: Vec<DataCategory> = Vec::new();
        let mut i: usize = 0;
        assert(cats@.map_values(|c: DataCategory| c@) =~= distinct_categories(es.take(0)));
        while i < self.data.len()
            invariant
                i <= self.data@.len(),
                es == self.entries(),
                es.len() == self.data@.len(),
                cats@.map_values(|c: DataCategory| c@) == distinct_categories(es.take(i as int)),
            decreases self.data@.len() - i,
        {
            let c = &self.data.value_at(i).metadata.category;
            let ghost prev = cats@;
            proof {
                assert(es.take(i as int + 1).drop_last() =~= es.take(i as int));
                assert(es.take(i as int + 1).last() == es[i as int]);
            }
            if !categories_contain(&cats, c) {
                cats.push(c.clone());
                assert(cats@.map_values(|c: DataCategory| c@) =~= prev.map_values(|c: DataCategory| c@).push(c@));
            }
            i = i + 1;
        }
        assert(es.take(es.len() as int) =~= es);
        let ghost ds = distinct_categories(es);
        let mut out: Vec<DataCategoryInformation> = Vec::new();
        let mut j: usize = 0;
        while j < cats.len()
            invariant
                j <= cats@.len(),
                cats@.map_values(|c: DataCategory| c@) == ds,
                out@.len() == j,
                forall|k: int| 0 <= k < j ==> (#[trigger] out@[k]).item@ == ds[k] && out@[k].category_translation_id is None,
            decreases cats@.len() - j,
        {
            out.push(DataCategoryInformation { item: cats[j].clone(), category_translation_id: None });
            j = j + 1;
        }
        Ok(out)
    }

    /// The distinct (group, category) pairs of the entries of the category asked
    /// for (of all, where none is), in the order they first occur.
    fn list_groups(&self, entity_id: &str, category: Option<DataCategory>) -> (r: Result<Vec<ValueGroup>, DataError>)
    {
        let ghost es = self.entries();
        let ghost f = opt_category_view(category);
        let mut pairs: Vec<(String, DataCategory)> = Vec::new();
        let mut i: usize = 0;
        assert(pairs@.map_values(|p: (String, DataCategory)| (p.0@, p.1@)) =~= group_pairs(es.take(0), f));
        while i < self.data.len()
            invariant
                i <= self.data@.len(),
                es == self.entries(),
                es.len() == self.data@.len(),
                f == opt_category_view(category),
                pairs@.map_values(|p: (String, DataCategory)| (p.0@, p.1@)) == group_pairs(es.take(i as int), f),
            decreases self.data@.len() - i,
        {
            let m = &self.data.value_at(i).metadata;
            proof {
                assert(es.take(i as int + 1).drop_last() =~= es.take(i as int));
                assert(es.take(i as int + 1).last() == es[i as int]);
                assert(es[i as int].1.metadata == m@);
            }
            let selected = match &category {
                Some(c) => *c == m.category,
                None => true,
            };
            if selected {
                let ghost acc = pairs@.map_values(|p: (String, DataCategory)| (p.0@, p.1@));
                let ghost gs = m.groups.deep_view();
                let mut j: usize = 0;
                assert(gs.take(0) =~= Seq::<Seq<char>>::empty());
                while j < m.groups.len()
                    invariant
                        j <= m.groups@.len(),
                        gs == m.groups.deep_view(),
                        pairs@.map_values(|p: (String, DataCategory)| (p.0@, p.1@)) == add_group_pairs(
                            acc,
                            gs.take(j as int),
                            m.category@,
                        ),
                    decreases m.groups@.len() - j,
                {
                    let g = &m.groups[j];
                    let ghost prev = pairs@;
                    proof {
                        assert(gs.take(j as int + 1).drop_last() =~= gs.take(j as int));
                        assert(gs.take(j as int + 1).last() == g@);
                    }
                    if !pairs_contain(&pairs, g, &m.category) {
                        pairs.push((g.clone(), m.category.clone()));
                        assert(pairs@.map_values(|p: (String, DataCategory)| (p.0@, p.1@)) =~= prev.map_values(
                            |p: (String, DataCategory)| (p.0@, p.1@),
                        ).push((g@, m.category@)));
                    }
                    j = j + 1;
                }
                assert(gs.take(gs.len() as int) =~= gs);
            }
            i = i + 1;
        }
        assert(es.take(es.len() as int) =~= es);
        let ghost gp = group_pairs(es, f);
        let mut out: Vec<ValueGroup> = Vec::new();
        let mut k: usize = 0;
        while k < pairs.len()
            invariant
                k <= pairs@.len(),
                pairs@.map_values(|p: (String, DataCategory)| (p.0@, p.1@)) == gp,
                out@.len() == k,
                forall|q: int| 0 <= q < k ==> {
                    &&& (#[trigger] out@[q]).id@ == gp[q].0
                    &&& out@[q].category@ == gp[q].1
                    &&& out@[q].category_translation_id is None
                    &&& out@[q].group.deep_view() == Some(gp[q].0)
                    &&& out@[q].group_translation_id is None
                },
            decreases pairs@.len() - k,
        {
            let (g, c) = &pairs[k];
            out.push(ValueGroup {
                id: g.clone(),
                category: c.clone(),
                category_translation_id: None,
                group: Some(g.clone()),
                group_translation_id: None,
            });
            k = k + 1;
        }
        Ok(out)
    }

    /// The value under the identifier, or `data-not-found`.
    fn read(&self, entity_id: &str, data_id: &str) -> (r: Result<ReadValue, DataError>)
    {
        proof {
            use_type_invariant(self);
            lemma_entry_views(self.data@);
        }
        match self.data.get(data_id) {
            Some(entry) => Ok(ReadValue { id: String::from_str(data_id), data: entry.value.clone(), errors: Vec::new() }),
            None => Err(DataError::not_found(data_id)),
        }
    }

    /// Replaces a writable value; a value that is not there gives `data-not-found`,
    /// a read-only one an access error, and both leave the entries as they were.
    fn write(&mut self, entity_id: &str, data_id: &str, value: serde_json::Value) -> (r: Result<(), DataError>)
    {
        proof {
            use_type_invariant(&*self);
            lemma_entry_views(self.data@);
        }
        let ghost s0 = self.data@;
        let ghost old_map = self.map();
        match self.data.find(data_id) {
            None => Err(DataError::not_found(data_id)),
            Some(i) => {
                let entry = self.data.value_at(i);
                if !entry.writable {
                    Err(DataError::read_only(data_id))
                } else {
                    let ghost new_view = DataEntryView { value: value, ..entry_views(s0)[i as int].1 };
                    let updated = DataEntry { metadata: entry.metadata.clone(), value: value, writable: true };
                    assert(updated@ == new_view);
                    let mut table: StringTable<DataEntry> = StringTable::new();
                    std::mem::swap(&mut table, &mut self.data);
                    table.set_value_at(i, updated);
                    self.data = table;
                    proof {
                        lemma_entry_views(self.data@);
                        assert(entry_views(self.data@) =~= entry_views(s0).update(i as int, (data_id@, new_view)));
                        assert(self.map() == old_map.insert(data_id@, new_view));
                    }
                    Ok(())
                }
            },
        }
    }
}


// ----------------------------------------------------------------------------
// Laws of the mock data service
// ----------------------------------------------------------------------------

/// Building the table from a list of entries keeps each identifier once, and the
/// table maps each identifier to the value of its last entry: it is the map built
/// by inserting the entries one after the other.
pub proof fn lemma_table_after_is_insert_all(s: Seq<(Seq<char>, DataEntryView)>)
    ensures
        keys_unique(table_after(s)),
        entries_map(table_after(s)) == insert_all(s),
    decreases s.len(),
{
    if s.len() > 0 {
        let t = table_after(s.drop_last());
        lemma_table_after_is_insert_all(s.drop_last());
        let (k, v) = s.last();
        if has_key(t, k) {
            let i = key_index(t, k);
            assert(t[i].0 == k);
            crate::table::lemma_update_value(t, i, v);
        } else {
            crate::table::lemma_push_entry(t, k, v);
        }
    }
}

/// A successful write is what a read gives back afterwards, and the values under
/// the other identifiers stay as they were.
pub proof fn lemma_read_after_write(
    entries: Seq<(Seq<char>, DataEntryView)>,
    data_id: Seq<char>,
    value: serde_json::Value,
    other: Seq<char>,
)
    requires
        keys_unique(entries),
        entries_map(entries).contains_key(data_id),
    ensures
        keys_unique(written(entries, data_id, value)),
        entries_map(written(entries, data_id, value)).contains_key(data_id),
        entries_map(written(entries, data_id, value))[data_id].value == value,
        entries_map(written(entries, data_id, value))[data_id].metadata == entries_map(entries)[data_id].metadata,
        entries_map(written(entries, data_id, value))[data_id].writable == entries_map(entries)[data_id].writable,
        other != data_id ==> entries_map(written(entries, data_id, value)).contains_key(other)
            == entries_map(entries).contains_key(other),
        other != data_id && entries_map(entries).contains_key(other) ==> entries_map(
            written(entries, data_id, value),
        )[other] == entries_map(entries)[other],
{
    let i = key_index(entries, data_id);
    assert(entries[i].0 == data_id);
    crate::table::lemma_update_value(
        entries,
        i,
        DataEntryView { value: value, ..entries_map(entries)[data_id] },
    );
}

/// Replacing an entry by one with the same metadata leaves what the listings
/// answer as it was.
proof fn lemma_same_metadata_listings(
    s: Seq<(Seq<char>, DataEntryView)>,
    i: int,
    e: DataEntryView,
    categories: Seq<DataCategoryView>,
    groups: Seq<Seq<char>>,
    filter: Option<DataCategoryView>,
)
    requires
        0 <= i < s.len(),
        e.metadata == s[i].1.metadata,
    ensures
        selected_metadata(s.update(i, (s[i].0, e)), categories, groups) == selected_metadata(s, categories, groups),
        distinct_categories(s.update(i, (s[i].0, e))) == distinct_categories(s),
        group_pairs(s.update(i, (s[i].0, e)), filter) == group_pairs(s, filter),
    decreases s.len(),
{
    let t = s.update(i, (s[i].0, e));
    if i == s.len() - 1 {
        assert(t.drop_last() =~= s.drop_last());
    } else {
        assert(t.drop_last() =~= s.drop_last().update(i, (s[i].0, e)));
        lemma_same_metadata_listings(s.drop_last(), i, e, categories, groups, filter);
    }
}

/// A write changes values only: the value listing, the categories and the groups
/// of the service answer as they did before it.
pub proof fn lemma_write_keeps_listings(
    entries: Seq<(Seq<char>, DataEntryView)>,
    data_id: Seq<char>,
    value: serde_json::Value,
    categories: Seq<DataCategoryView>,
    groups: Seq<Seq<char>>,
    filter: Option<DataCategoryView>,
)
    requires
        keys_unique(entries),
        entries_map(entries).contains_key(data_id),
    ensures
        selected_metadata(written(entries, data_id, value), categories, groups) == selected_metadata(
            entries,
            categories,
            groups,
        ),
        distinct_categories(written(entries, data_id, value)) == distinct_categories(entries),
        group_pairs(written(entries, data_id, value), filter) == group_pairs(entries, filter),
{
    let i = key_index(entries, data_id);
    assert(entries[i].0 == data_id);
    crate::table::lemma_entry_in_map(entries, i);
    lemma_same_metadata_listings(
        entries,
        i,
        DataEntryView { value: value, ..entries_map(entries)[data_id] },
        categories,
        groups,
        filter,
    );
}

/// Every value the listing gives matches both filters and is the metadata of
/// one of the entries; and every entry whose metadata matches both filters is
/// listed.
pub proof fn lemma_listing_matches_filters(
    entries: Seq<(Seq<char>, DataEntryView)>,
    categories: Seq<DataCategoryView>,
    groups: Seq<Seq<char>>,
    m: ValueMetaDataView,
)
    ensures
        selected_metadata(entries, categories, groups).contains(m) <==> (category_selected(categories, m.category)
            && groups_selected(groups, m.groups) && exists|i: int|
            0 <= i < entries.len() && (#[trigger] entries[i]).1.metadata == m),
    decreases entries.len(),
{
    if entries.len() > 0 {
        let rest = entries.drop_last();
        lemma_listing_matches_filters(rest, categories, groups, m);
        let last = entries.last().1.metadata;
        let sr = selected_metadata(rest, categories, groups);
        if category_selected(categories, last.category) && groups_selected(groups, last.groups) {
            lemma_push_contains(sr, last, m);
        }
        if exists|i: int| 0 <= i < rest.len() && (#[trigger] rest[i]).1.metadata == m {
            let i = choose|i: int| 0 <= i < rest.len() && (#[trigger] rest[i]).1.metadata == m;
            assert(entries[i] == rest[i]);
        }
        if exists|i: int| 0 <= i < entries.len() && (#[trigger] entries[i]).1.metadata == m {
            let i = choose|i: int| 0 <= i < entries.len() && (#[trigger] entries[i]).1.metadata == m;
            if i < rest.len() {
                assert(rest[i] == entries[i]);
            }
        }
        assert(entries[entries.len() - 1].1.metadata == last);
    }
}

/// With no filter, the listing gives the metadata of every entry, in table order.
pub proof fn lemma_unfiltered_list_is_all(entries: Seq<(Seq<char>, DataEntryView)>)
    ensures
        selected_metadata(entries, Seq::empty(), Seq::empty()) == entries.map_values(
            |e: (Seq<char>, DataEntryView)| e.1.metadata,
        ),
    decreases entries.len(),
{
    if entries.len() > 0 {
        lemma_unfiltered_list_is_all(entries.drop_last());
        assert(entries.map_values(|e: (Seq<char>, DataEntryView)| e.1.metadata) =~= entries.drop_last().map_values(
            |e: (Seq<char>, DataEntryView)| e.1.metadata,
        ).push(entries.last().1.metadata));
    } else {
        assert(entries.map_values(|e: (Seq<char>, DataEntryView)| e.1.metadata) =~= Seq::empty());
    }
}


/// The category listing names each category once, and exactly the categories of
/// the entries.
pub proof fn lemma_categories_distinct(entries: Seq<(Seq<char>, DataEntryView)>, c: DataCategoryView)
    ensures
        distinct_categories(entries).no_duplicates(),
        distinct_categories(entries).contains(c) <==> exists|j: int|
            0 <= j < entries.len() && (#[trigger] entries[j]).1.metadata.category == c,
    decreases entries.len(),
{
    if entries.len() > 0 {
        let rest = entries.drop_last();
        lemma_categories_distinct(rest, c);
        let d = distinct_categories(rest);
        let last = entries.last().1.metadata.category;
        if exists|j: int| 0 <= j < rest.len() && (#[trigger] rest[j]).1.metadata.category == c {
            let j = choose|j: int| 0 <= j < rest.len() && (#[trigger] rest[j]).1.metadata.category == c;
            assert(entries[j] == rest[j]);
        }
        if exists|j: int| 0 <= j < entries.len() && (#[trigger] entries[j]).1.metadata.category == c {
            let j = choose|j: int| 0 <= j < entries.len() && (#[trigger] entries[j]).1.metadata.category == c;
            if j < rest.len() {
                assert(rest[j] == entries[j]);
            }
        }
        if !d.contains(last) {
            assert(d.push(last).no_duplicates()) by {
                assert forall|a: int, b: int| 0 <= a < b < d.push(last).len() implies d.push(last)[a] != d.push(
                    last,
                )[b] by {
                    if b == d.len() {
                        assert(d.contains(d[a]));
                    }
                }
            }
        }
        if c == last {
            assert(entries[entries.len() - 1].1.metadata.category == c);
        }
        lemma_push_contains(d, last, c);
    }
}

/// The group listing names each (group, category) pair once, and exactly the
/// pairs of the groups of the entries of the selected category.
pub proof fn lemma_group_pairs_distinct(
    entries: Seq<(Seq<char>, DataEntryView)>,
    filter: Option<DataCategoryView>,
    g: Seq<char>,
    c: DataCategoryView,
)
    ensures
        group_pairs(entries, filter).no_duplicates(),
        group_pairs(entries, filter).contains((g, c)) <==> exists|j: int|
            0 <= j < entries.len() && category_matches(filter, (#[trigger] entries[j]).1.metadata.category)
                && entries[j].1.metadata.category == c && entries[j].1.metadata.groups.contains(g),
    decreases entries.len(),
{
    if entries.len() > 0 {
        let rest = entries.drop_last();
        lemma_group_pairs_distinct(rest, filter, g, c);
        let m = entries.last().1.metadata;
        let acc = group_pairs(rest, filter);
        if category_matches(filter, m.category) {
            lemma_add_group_pairs(acc, m.groups, m.category, g, c);
        }
        if exists|j: int|
            0 <= j < rest.len() && category_matches(filter, (#[trigger] rest[j]).1.metadata.category)
                && rest[j].1.metadata.category == c && rest[j].1.metadata.groups.contains(g) {
            let j = choose|j: int|
                0 <= j < rest.len() && category_matches(filter, (#[trigger] rest[j]).1.metadata.category)
                    && rest[j].1.metadata.category == c && rest[j].1.metadata.groups.contains(g);
            assert(entries[j] == rest[j]);
        }
        if exists|j: int|
            0 <= j < entries.len() && category_matches(filter, (#[trigger] entries[j]).1.metadata.category)
                && entries[j].1.metadata.category == c && entries[j].1.metadata.groups.contains(g) {
            let j = choose|j: int|
                0 <= j < entries.len() && category_matches(filter, (#[trigger] entries[j]).1.metadata.category)
                    && entries[j].1.metadata.category == c && entries[j].1.metadata.groups.contains(g);
            if j < rest.len() {
                assert(rest[j] == entries[j]);
            }
        }
        let n = entries.len() - 1;
        assert(entries[n].1.metadata == m);
    }
}

proof fn lemma_add_group_pairs(
    acc: Seq<(Seq<char>, DataCategoryView)>,
    groups: Seq<Seq<char>>,
    cat: DataCategoryView,
    g: Seq<char>,
    c: DataCategoryView,
)
    requires
        acc.no_duplicates(),
    ensures
        add_group_pairs(acc, groups, cat).no_duplicates(),
        add_group_pairs(acc, groups, cat).contains((g, c)) <==> (acc.contains((g, c)) || (c == cat && groups.contains(
            g,
        ))),
    decreases groups.len(),
{
    if groups.len() > 0 {
        let rest = groups.drop_last();
        lemma_add_group_pairs(acc, rest, cat, g, c);
        let a = add_group_pairs(acc, rest, cat);
        let p = (groups.last(), cat);
        if !a.contains(p) {
            assert(a.push(p).no_duplicates()) by {
                assert forall|x: int, y: int| 0 <= x < y < a.push(p).len() implies a.push(p)[x] != a.push(p)[y] by {
                    if y == a.len() {
                        assert(a.contains(a[x]));
                    }
                }
            }
        }
        lemma_push_contains(a, p, (g, c));
        if rest.contains(g) {
            let j = choose|j: int| 0 <= j < rest.len() && rest[j] == g;
            assert(groups[j] == g);
        }
        if groups.contains(g) {
            let j = choose|j: int| 0 <= j < groups.len() && groups[j] == g;
            if j < rest.len() {
                assert(rest[j] == g);
            }
        }
    }
}


proof fn lemma_push_contains<A>(s: Seq<A>, x: A, y: A)
    ensures
        s.push(x).contains(y) <==> (s.contains(y) || y == x),
{
    if s.contains(y) {
        let j = choose|j: int| 0 <= j < s.len() && s[j] == y;
        assert(s.push(x)[j] == y);
    }
    if y == x {
        assert(s.push(x)[s.len() as int] == y);
    }
    if s.push(x).contains(y) {
        let j = choose|j: int| 0 <= j < s.push(x).len() && s.push(x)[j] == y;
        if j < s.len() {
            assert(s[j] == y);
        }
    }
}

} // verus!
