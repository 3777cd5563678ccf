//! The index coordinator: owns the text index and the metadata store
//! together, mutates the two only together, and answers queries from an
//! immutable snapshot joined with the metadata and ranked by frecency.

use vstd::prelude::*;

use crate::model::EntrypointActionType;
use crate::model::EntrypointId;
use crate::model::ItemModel;
use crate::model::PluginId;
use crate::model::ResultActionModel;
use crate::model::ResultModel;
use crate::model::SearchIndexItem;
use crate::model::SearchIndexItemActionActionType;
use crate::model::SearchResult;
use crate::model::SearchResultEntrypointAction;
use crate::model::SearchResultEntrypointActionType;
use crate::model::clone_accessories;
use crate::model::clone_generator_option;
use crate::model::clone_icon_option;
use crate::store::EntrypointActionData;
use crate::store::EntrypointModel;
use crate::store::MetadataStore;
use crate::store::PluginModel;
use crate::store::StoreActionModel;
use crate::text_index::IndexedDocument;
use crate::text_index::TextIndex;
use crate::text_index::addr_live;
use crate::text_index::addr_pair;
use crate::text_index::addr_pairs;
use crate::text_index::committed_docs;
use crate::text_index::committed_names;
use crate::text_index::entry_matches;
use crate::text_index::hit_names_ok;
use crate::text_index::hit_pairs;
use crate::text_index::id_within_term_limit;
use crate::text_index::page_of;
use crate::text_index::pending_deletes;
use crate::text_index::pending_docs;
use crate::text_index::pending_names;
use crate::text_index::ranked;
use crate::text_index::ranked_enumerates_matches;
use crate::text_index::searcher_of;
use crate::text_index::snap_docs;
use crate::text_index::snap_names;
use crate::text_index::snap_pair_matches;
use crate::text_index::snapshot_unchanged;
use crate::text_index::tokens_of;
use crate::text_index::writer_open;

verus! {

/// The outward collaborator told, fire and forget, that the search results
/// may have changed.  The plugin that caused the change is named for
/// diagnostics.  Failures of the notification are the implementation's own
/// affair (logged at most) and never reach the caller of a save.
pub trait Notifier {
    fn notify_results_changed(&mut self, plugin_id: &PluginId);
}

/// An index mutation failed; the original cause is attached.
#[derive(Debug)]
pub struct IndexError {
    cause: tantivy::TantivyError,
}

impl IndexError {
    /// The untouched engine error this failure carries.
    pub closed spec fn spec_cause(&self) -> tantivy::TantivyError {
        self.cause
    }

    pub fn into_cause(self) -> (r: tantivy::TantivyError)
        ensures
            r == self.spec_cause(),
    {
        self.cause
    }
}

/// A search failed; the original cause is attached.
#[derive(Debug)]
pub struct SearchError {
    cause: tantivy::TantivyError,
}

impl SearchError {
    /// The untouched engine error this failure carries.
    pub closed spec fn spec_cause(&self) -> tantivy::TantivyError {
        self.cause
    }

    pub fn into_cause(self) -> (r: tantivy::TantivyError)
        ensures
            r == self.spec_cause(),
    {
        self.cause
    }
}

/// How many hits one retrieval page asks for.
pub const SEARCH_PAGE_SIZE: usize = 20;

/// The item action vocabulary mapped into the store's.
pub open spec fn store_action_type(t: SearchIndexItemActionActionType) -> EntrypointActionType {
    match t {
        SearchIndexItemActionActionType::Command => EntrypointActionType::Command,
        SearchIndexItemActionActionType::View => EntrypointActionType::View,
    }
}

/// The metadata an item contributes to the store.
pub open spec fn item_entry_model(it: ItemModel) -> EntrypointModel {
    EntrypointModel {
        entrypoint_name: it.entrypoint_name,
        entrypoint_generator: it.entrypoint_generator,
        entrypoint_type: it.entrypoint_type,
        icon: it.entrypoint_icon,
        frecency: it.entrypoint_frecency,
        actions: it.entrypoint_actions.map_values(
            |a: crate::model::ActionModel|
                StoreActionModel {
                    id: a.id,
                    label: a.label,
                    action_type: store_action_type(a.action_type),
                    shortcut: a.shortcut,
                },
        ),
        accessories: it.entrypoint_accessories,
    }
}

/// The items of one save as an entrypoint map.
pub open spec fn items_emap(items: Seq<ItemModel>) -> Map<Seq<char>, EntrypointModel>
    decreases items.len(),
{
    if items.len() == 0 {
        Map::empty()
    } else {
        items_emap(items.drop_last()).insert(
            items.last().entrypoint_id,
            item_entry_model(items.last()),
        )
    }
}

/// The items of one save as a map from entrypoint id to entrypoint name,
/// which is exactly what the text index stores of them.
pub open spec fn items_name_map(items: Seq<ItemModel>) -> Map<Seq<char>, Seq<char>>
    decreases items.len(),
{
    if items.len() == 0 {
        Map::empty()
    } else {
        items_name_map(items.drop_last()).insert(
            items.last().entrypoint_id,
            items.last().entrypoint_name,
        )
    }
}

/// The entrypoint identifiers of the items are pairwise distinct: the
/// invariant that keeps one document per (plugin, entrypoint) pair.
pub open spec fn items_distinct(items: Seq<ItemModel>) -> bool {
    forall|i: int, j: int|
        0 <= i < j < items.len() ==> items[i].entrypoint_id != items[j].entrypoint_id
}

/// The plugin data one save leaves in the metadata store.
pub open spec fn plugin_model_of(name: Seq<char>, items: Seq<ItemModel>) -> PluginModel {
    PluginModel { name, entrypoints: items_emap(items) }
}

/// The plugin has at least one entrypoint, hence at least one document.
pub open spec fn has_entries(pm: PluginModel) -> bool {
    exists|e: Seq<char>| pm.entrypoints.contains_key(e)
}

/// The documents the text index is supposed to hold for this metadata:
/// plugin id, to entrypoint id, to entrypoint name, for every plugin with
/// at least one entrypoint.
pub open spec fn docs_model(plugins: Map<Seq<char>, PluginModel>) -> Map<
    Seq<char>,
    Map<Seq<char>, Seq<char>>,
> {
    Map::new(
        |p: Seq<char>| plugins.contains_key(p) && has_entries(plugins[p]),
        |p: Seq<char>|
            plugins[p].entrypoints.map_values(|e: EntrypointModel| e.entrypoint_name),
    )
}

/// The plugin name each document of a plugin carries.
pub open spec fn names_model(plugins: Map<Seq<char>, PluginModel>) -> Map<Seq<char>, Seq<char>> {
    Map::new(
        |p: Seq<char>| plugins.contains_key(p) && has_entries(plugins[p]),
        |p: Seq<char>| plugins[p].name,
    )
}

/// Both the committed state and the snapshot agree with the metadata.
pub open spec fn synced(ix: TextIndex, plugins: Map<Seq<char>, PluginModel>) -> bool {
    &&& committed_docs(ix) == docs_model(plugins)
    &&& committed_names(ix) == names_model(plugins)
    &&& snap_docs(ix) == committed_docs(ix)
    &&& snap_names(ix) == committed_names(ix)
}

/// The name map of the items is the name projection of their entry map.
proof fn lemma_items_name_map(items: Seq<ItemModel>)
    ensures
        items_name_map(items) == items_emap(items).map_values(
            |e: EntrypointModel| e.entrypoint_name,
        ),
    decreases items.len(),
{
    if items.len() == 0 {
        assert(items_name_map(items) =~= items_emap(items).map_values(
            |e: EntrypointModel| e.entrypoint_name,
        ));
    } else {
        lemma_items_name_map(items.drop_last());
        assert(items_name_map(items) =~= items_emap(items).map_values(
            |e: EntrypointModel| e.entrypoint_name,
        ));
    }
}

/// A key of the item name map is the identifier of some item.
proof fn lemma_items_name_map_dom(items: Seq<ItemModel>, k: Seq<char>)
    ensures
        items_name_map(items).contains_key(k) <==> exists|j: int|
            0 <= j < items.len() && items[j].entrypoint_id == k,
    decreases items.len(),
{
    if items.len() > 0 {
        lemma_items_name_map_dom(items.drop_last(), k);
        if items.last().entrypoint_id == k {
            assert(items[items.len() - 1].entrypoint_id == k);
        } else {
            if exists|j: int| 0 <= j < items.drop_last().len() && items.drop_last()[j].entrypoint_id
                == k {
                let j = choose|j: int|
                    0 <= j < items.drop_last().len() && items.drop_last()[j].entrypoint_id == k;
                assert(items[j].entrypoint_id == k);
            }
            if exists|j: int| 0 <= j < items.len() && items[j].entrypoint_id == k {
                let j = choose|j: int| 0 <= j < items.len() && items[j].entrypoint_id == k;
                assert(items.drop_last()[j].entrypoint_id == k);
            }
        }
    }
}

/// The index coordinator.  All mutation runs through `&mut self`, which is
/// the single-writer exclusivity the underlying index demands, made
/// structural: wrap one value of this type in one mutual-exclusion guard
/// and every save or remove serializes against every other.
pub struct SearchIndex<N: Notifier> {
    index: TextIndex,
    store: MetadataStore,
    notifier: N,
    consistent: bool,
}

impl<N: Notifier> SearchIndex<N> {
    /// The mathematical content of the metadata store: plugin id to plugin
    /// name and entrypoint map.
    pub closed spec fn plugins(&self) -> Map<Seq<char>, PluginModel> {
        self.store@
    }

    /// The coordinator's invariant: the store is well formed, no staging
    /// section is left open, and while the coordinator is consistent the
    /// index agrees with the metadata.
    pub closed spec fn inv(&self) -> bool {
        &&& self.store.wf()
        &&& !writer_open(self.index)
        &&& (self.consistent ==> synced(self.index, self.store@))
    }

    /// The cross-store invariant holds observably.  It survives every
    /// successful operation and every failure that left the index
    /// untouched; it is lost only when the index moved and the snapshot
    /// or metadata could not follow.
    pub closed spec fn is_consistent(&self) -> bool {
        self.consistent
    }

    /// The snapshot searches read is the same in both coordinator values.
    pub closed spec fn same_snapshot(&self, other: &Self) -> bool {
        snapshot_unchanged(other.index, self.index)
    }

    /// The order in which the engine hands back the documents matching a
    /// query: a fixed sequence for a given index state and query.  Records
    /// of equal frecency keep this order in a search's answer.
    pub closed spec fn retrieval_ranking(&self, query: Seq<char>) -> Seq<(Seq<char>, Seq<char>)> {
        ranked(self.index, tokens_of(query))
    }

    /// Whether the cross-store invariant still holds; when it does not, the
    /// process should treat the index as fatally out of order rather than
    /// read from it.
    pub fn healthy(&self) -> (r: bool)
        ensures
            r == self.is_consistent(),
    {
        self.consistent
    }

    /// Create an empty index with its snapshot and metadata store.
    pub fn create_index(notifier: N) -> (r: Result<SearchIndex<N>, IndexError>)
        ensures
            match r {
                Ok(s) => {
                    &&& s.inv()
                    &&& s.is_consistent()
                    &&& s.plugins() == Map::<Seq<char>, PluginModel>::empty()
                },
                Err(_) => true,
            },
    {
        let index = match TextIndex::create() {
            Ok(ix) => ix,
            Err(e) => {
                return Err(IndexError { cause: e });
            },
        };
        let store = MetadataStore::new();
        let s = SearchIndex { index, store, notifier, consistent: true };
        proof {
            assert(docs_model(s.store@) =~= Map::<Seq<char>, Map<Seq<char>, Seq<char>>>::empty());
            assert(names_model(s.store@) =~= Map::<Seq<char>, Seq<char>>::empty());
        }
        Ok(s)
    }

    /// Replace everything indexed and stored for one plugin, wholesale and
    /// atomically with respect to every other save, remove and search:
    /// delete the plugin's old documents, add one document per item, commit,
    /// publish the new snapshot, then replace the plugin's metadata.  On
    /// success the plugin's data is exactly the new items; on failure
    /// nothing visible has changed.  The items must name each entrypoint
    /// once: one document per (plugin, entrypoint) pair is the index's
    /// invariant, so a duplicate in one save is a caller error.  The
    /// plugin id must fit within one indexable term (`id_fits_term_limit`
    /// tests this), or its documents could never be deleted again.  When
    /// `refresh_search_list` is set, a successful save tells the notifier.
    pub fn save_for_plugin(
        &mut self,
        plugin_id: PluginId,
        plugin_name: String,
        search_items: Vec<SearchIndexItem>,
        refresh_search_list: bool,
    ) -> (r: Result<(), IndexError>)
        requires
            old(self).inv(),
            old(self).is_consistent(),
            id_within_term_limit(plugin_id@),
            items_distinct(search_items.deep_view()),
        ensures
            final(self).inv(),
            match r {
                Ok(()) => {
                    &&& final(self).is_consistent()
                    &&& final(self).plugins() == old(self).plugins().insert(
                        plugin_id@,
                        plugin_model_of(plugin_name@, search_items.deep_view()),
                    )
                },
                Err(_) => {
                    &&& final(self).plugins() == old(self).plugins()
                    &&& final(self).same_snapshot(&*old(self))
                },
            },
    {
        let ghost pid = plugin_id@;
        let ghost pname = plugin_name@;
        let ghost itemsv = search_items.deep_view();
        let ghost plugins0 = self.store@;
        let notify_id = plugin_id.clone();

        match self.index.open_writer() {
            Ok(()) => {},
            Err(e) => {
                return Err(IndexError { cause: e });
            },
        }
        match self.index.stage_delete(&plugin_id) {
            Ok(()) => {},
            Err(e) => {
                self.index.discard_writer();
                return Err(IndexError { cause: e });
            },
        }
        let mut i: usize = 0;
        while i < search_items.len()
            invariant
                old(self).inv(),
                old(self).is_consistent(),
                items_distinct(itemsv),
                itemsv == search_items.deep_view(),
                pid == plugin_id@,
                id_within_term_limit(pid),
                pname == plugin_name@,
                0 <= i <= search_items.len(),
                self.store == old(self).store,
                self.consistent == old(self).consistent,
                plugins0 == self.store@,
                synced(self.index, plugins0),
                writer_open(self.index),
                pending_deletes(self.index) == Set::<Seq<char>>::empty().insert(pid),
                pending_docs(self.index) == if i == 0 {
                    Map::<Seq<char>, Map<Seq<char>, Seq<char>>>::empty()
                } else {
                    Map::<Seq<char>, Map<Seq<char>, Seq<char>>>::empty().insert(
                        pid,
                        items_name_map(itemsv.take(i as int)),
                    )
                },
                pending_names(self.index) == if i == 0 {
                    Map::<Seq<char>, Seq<char>>::empty()
                } else {
                    Map::<Seq<char>, Seq<char>>::empty().insert(pid, pname)
                },
            decreases search_items.len() - i,
        {
            let item = &search_items[i];
            proof {
                assert(itemsv[i as int] == item.deep_view());
                assert(pending_deletes(self.index).contains(pid));
                lemma_items_name_map_dom(itemsv.take(i as int), item.entrypoint_id@);
                assert forall|j: int| 0 <= j < i implies itemsv.take(i as int)[j].entrypoint_id
                    != item.entrypoint_id@ by {
                    assert(itemsv[j].entrypoint_id != itemsv[i as int].entrypoint_id);
                }
            }
            match self.index.stage_add(
                &item.entrypoint_name,
                &item.entrypoint_id,
                &plugin_name,
                &plugin_id,
            ) {
                Ok(()) => {},
                Err(e) => {
                    self.index.discard_writer();
                    return Err(IndexError { cause: e });
                },
            }
            proof {
                assert(itemsv.take(i + 1).drop_last() =~= itemsv.take(i as int));
                assert(itemsv.take(i + 1).last() == itemsv[i as int]);
                if i > 0 {
                    assert(items_name_map(itemsv.take(i + 1)) =~= items_name_map(
                        itemsv.take(i as int),
                    ).insert(item.entrypoint_id@, item.entrypoint_name@));
                    assert(pending_docs(self.index)
                        =~= Map::<Seq<char>, Map<Seq<char>, Seq<char>>>::empty().insert(
                        pid,
                        items_name_map(itemsv.take(i + 1)),
                    ));
                } else {
                    assert(items_name_map(itemsv.take(1))
                        =~= Map::<Seq<char>, Seq<char>>::empty().insert(
                        itemsv[0].entrypoint_id,
                        itemsv[0].entrypoint_name,
                    ));
                    assert(pending_docs(self.index)
                        =~= Map::<Seq<char>, Map<Seq<char>, Seq<char>>>::empty().insert(
                        pid,
                        items_name_map(itemsv.take(1)),
                    ));
                }
            }
            i = i + 1;
        }
        proof {
            assert(itemsv.take(itemsv.len() as int) =~= itemsv);
        }
        match self.index.commit_staged() {
            Ok(()) => {},
            Err(e) => {
                return Err(IndexError { cause: e });
            },
        }
        match self.index.reload() {
            Ok(()) => {},
            Err(e) => {
                self.consistent = false;
                return Err(IndexError { cause: e });
            },
        }
        proof {
            lemma_items_name_map(itemsv);
            let pm = plugin_model_of(pname, itemsv);
            let plugins2 = plugins0.insert(pid, pm);
            if itemsv.len() > 0 {
                assert(items_emap(itemsv) == items_emap(itemsv.drop_last()).insert(
                    itemsv.last().entrypoint_id,
                    item_entry_model(itemsv.last()),
                ));
                assert(pm.entrypoints.contains_key(itemsv.last().entrypoint_id));
                assert(has_entries(pm));
            }
            assert(committed_docs(self.index) =~= docs_model(plugins2));
            assert(committed_names(self.index) =~= names_model(plugins2));
        }
        let data = build_plugin_data(plugin_name, search_items);
        self.store.replace_plugin(plugin_id, data);
        if refresh_search_list {
            self.notifier.notify_results_changed(&notify_id);
        }
        Ok(())
    }

    /// Remove everything indexed and stored for one plugin; every other
    /// plugin's documents and metadata stay exactly as they were.
    pub fn remove_for_plugin(&mut self, plugin_id: PluginId) -> (r: Result<(), IndexError>)
        requires
            old(self).inv(),
            old(self).is_consistent(),
        ensures
            final(self).inv(),
            match r {
                Ok(()) => {
                    &&& final(self).is_consistent()
                    &&& final(self).plugins() == old(self).plugins().remove(plugin_id@)
                },
                Err(_) => {
                    &&& final(self).plugins() == old(self).plugins()
                    &&& final(self).same_snapshot(&*old(self))
                },
            },
    {
        let ghost pid = plugin_id@;
        let ghost plugins0 = self.store@;
        match self.index.open_writer() {
            Ok(()) => {},
            Err(e) => {
                return Err(IndexError { cause: e });
            },
        }
        match self.index.stage_delete(&plugin_id) {
            Ok(()) => {},
            Err(e) => {
                self.index.discard_writer();
                return Err(IndexError { cause: e });
            },
        }
        match self.index.commit_staged() {
            Ok(()) => {},
            Err(e) => {
                return Err(IndexError { cause: e });
            },
        }
        match self.index.reload() {
            Ok(()) => {},
            Err(e) => {
                self.consistent = false;
                return Err(IndexError { cause: e });
            },
        }
        proof {
            let plugins2 = plugins0.remove(pid);
            assert(committed_docs(self.index) =~= docs_model(plugins2));
            assert(committed_names(self.index) =~= names_model(plugins2));
        }
        self.store.remove_plugin(&plugin_id);
        Ok(())
    }
}

/// Turn the items of one save into the plugin's stored data.
fn build_plugin_data(plugin_name: String, search_items: Vec<SearchIndexItem>) -> (r:
    crate::store::PluginData)
    requires
        items_distinct(search_items.deep_view()),
    ensures
        r@ == plugin_model_of(plugin_name@, search_items.deep_view()),
        crate::store::entries_distinct(r.entrypoints@),
{
    let ghost itemsv = search_items.deep_view();
    let mut entries: Vec<crate::store::EntrypointEntry> = Vec::new();
    let mut i: usize = 0;
    while i < search_items.len()
        invariant
            itemsv == search_items.deep_view(),
            0 <= i <= search_items.len(),
            entries@.len() == i,
            forall|j: int|
                0 <= j < i ==> (#[trigger] entries@[j]).id@ == itemsv[j].entrypoint_id
                    && entries@[j].data@ == item_entry_model(itemsv[j]),
        decreases search_items.len() - i,
    {
        let item = &search_items[i];
        let actions = build_store_actions(&item.entrypoint_actions);
        let data = crate::store::EntrypointData {
            entrypoint_name: item.entrypoint_name.clone(),
            entrypoint_generator: clone_generator_option(&item.entrypoint_generator),
            entrypoint_type: item.entrypoint_type,
            icon: clone_icon_option(&item.entrypoint_icon),
            frecency: item.entrypoint_frecency,
            actions,
            accessories: clone_accessories(&item.entrypoint_accessories),
        };
        let entry = crate::store::EntrypointEntry { id: item.entrypoint_id.clone(), data };
        proof {
            assert(itemsv[i as int] == item.deep_view());
        }
        entries.push(entry);
        i = i + 1;
    }
    proof {
        lemma_entries_items_map(entries@, itemsv);
        assert forall|a: int, b: int| 0 <= a < b < entries@.len() implies entries@[a].id@
            != entries@[b].id@ by {
            assert(itemsv[a].entrypoint_id != itemsv[b].entrypoint_id);
        }
    }
    crate::store::PluginData { plugin_name, entrypoints: entries }
}

/// Entries built one from each item carry the items' entry map.
proof fn lemma_entries_items_map(entries: Seq<crate::store::EntrypointEntry>, items: Seq<ItemModel>)
    requires
        entries.len() == items.len(),
        forall|j: int|
            0 <= j < entries.len() ==> (#[trigger] entries[j]).id@ == items[j].entrypoint_id
                && entries[j].data@ == item_entry_model(items[j]),
    ensures
        crate::store::entries_map(entries) == items_emap(items),
    decreases entries.len(),
{
    if entries.len() > 0 {
        assert forall|j: int| 0 <= j < entries.drop_last().len() implies (#[trigger] entries.drop_last()[
            j
        ]).id@ == items.drop_last()[j].entrypoint_id && entries.drop_last()[j].data@
            == item_entry_model(items.drop_last()[j]) by {
            assert(entries.drop_last()[j] == entries[j]);
            assert(items.drop_last()[j] == items[j]);
        }
        lemma_entries_items_map(entries.drop_last(), items.drop_last());
        assert(entries[entries.len() - 1].id@ == items[items.len() - 1].entrypoint_id);
        assert(crate::store::entries_map(entries) =~= items_emap(items));
    } else {
        assert(crate::store::entries_map(entries) =~= items_emap(items));
    }
}

/// Copy the actions of an item into the store's action records, the action
/// vocabulary remapped, everything else kept.
fn build_store_actions(actions: &Vec<crate::model::SearchIndexItemAction>) -> (r: Vec<
    crate::store::EntrypointActionData,
>)
    ensures
        r.deep_view() == actions.deep_view().map_values(
            |a: crate::model::ActionModel|
                StoreActionModel {
                    id: a.id,
                    label: a.label,
                    action_type: store_action_type(a.action_type),
                    shortcut: a.shortcut,
                },
        ),
{
    let mut r: Vec<crate::store::EntrypointActionData> = Vec::new();
    let mut i: usize = 0;
    while i < actions.len()
        invariant
            0 <= i <= actions.len(),
            r@.len() == i,
            forall|j: int|
                0 <= j < i ==> (#[trigger] r@[j])@ == (StoreActionModel {
                    id: actions@[j]@.id,
                    label: actions@[j]@.label,
                    action_type: store_action_type(actions@[j]@.action_type),
                    shortcut: actions@[j]@.shortcut,
                }),
        decreases actions.len() - i,
    {
        let a = &actions[i];
        let action_type = match a.action_type {
            SearchIndexItemActionActionType::Command => EntrypointActionType::Command,
            SearchIndexItemActionActionType::View => EntrypointActionType::View,
        };
        r.push(
            crate::store::EntrypointActionData {
                id: crate::model::clone_string_option(&a.id),
                label: a.label.clone(),
                action_type,
                shortcut: crate::model::clone_shortcut_option(&a.shortcut),
            },
        );
        i = i + 1;
    }
    proof {
        assert(r.deep_view() =~= actions.deep_view().map_values(
            |a: crate::model::ActionModel|
                StoreActionModel {
                    id: a.id,
                    label: a.label,
                    action_type: store_action_type(a.action_type),
                    shortcut: a.shortcut,
                },
        ));
    }
    r
}

/// The store's action vocabulary mapped into the one a search returns.
pub open spec fn result_action_type(t: EntrypointActionType) -> SearchResultEntrypointActionType {
    match t {
        EntrypointActionType::Command => SearchResultEntrypointActionType::Command,
        EntrypointActionType::View => SearchResultEntrypointActionType::View,
    }
}

/// The action record a search returns for one stored action; the internal
/// action id is dropped.
pub open spec fn result_action_view(a: StoreActionModel) -> ResultActionModel {
    ResultActionModel {
        action_type: result_action_type(a.action_type),
        label: a.label,
        shortcut: a.shortcut,
    }
}

/// The display name of an optional generator back-reference.
pub open spec fn generator_name_of(o: Option<(Seq<char>, Seq<char>)>) -> Option<Seq<char>> {
    match o {
        Some(g) => Some(g.1),
        None => None,
    }
}

/// The identifying pair of each returned record.
pub open spec fn result_pairs(rs: Seq<ResultModel>) -> Seq<(Seq<char>, Seq<char>)> {
    rs.map_values(|r: ResultModel| (r.plugin_id, r.entrypoint_id))
}

/// The (plugin, entrypoint) pair exists in the metadata and its names
/// match the terms.
pub open spec fn plugin_entry_matches(
    plugins: Map<Seq<char>, PluginModel>,
    p: Seq<char>,
    e: Seq<char>,
    terms: Seq<Seq<char>>,
) -> bool {
    &&& plugins.contains_key(p)
    &&& plugins[p].entrypoints.contains_key(e)
    &&& entry_matches(plugins[p].entrypoints[e].entrypoint_name, plugins[p].name, terms)
}

/// The record carries exactly what the metadata holds for its pair: name,
/// type, generator display name, icon, plugin name, remapped actions and
/// accessories.
pub open spec fn record_matches(plugins: Map<Seq<char>, PluginModel>, r: ResultModel) -> bool {
    &&& plugins.contains_key(r.plugin_id)
    &&& plugins[r.plugin_id].entrypoints.contains_key(r.entrypoint_id)
    &&& {
        let d = plugins[r.plugin_id].entrypoints[r.entrypoint_id];
        &&& r.entrypoint_name == d.entrypoint_name
        &&& r.entrypoint_type == d.entrypoint_type
        &&& r.entrypoint_generator_name == generator_name_of(d.entrypoint_generator)
        &&& r.entrypoint_icon == d.icon
        &&& r.plugin_name == plugins[r.plugin_id].name
        &&& r.entrypoint_actions == d.actions.map_values(
            |a: StoreActionModel| result_action_view(a),
        )
        &&& r.entrypoint_accessories == d.accessories
    }
}

/// The frecency the metadata holds for the record's pair: the sole ranking
/// key.
pub open spec fn result_frecency(plugins: Map<Seq<char>, PluginModel>, r: ResultModel) -> u64 {
    plugins[r.plugin_id].entrypoints[r.entrypoint_id].frecency
}

/// What a successful search promises: one record for every metadata pair
/// whose names match the tokenized query and for no other, each record
/// joined with its metadata, the whole list ordered by frecency, largest
/// first.
pub open spec fn search_answer_ok(
    plugins: Map<Seq<char>, PluginModel>,
    query: Seq<char>,
    rs: Seq<ResultModel>,
) -> bool {
    &&& result_pairs(rs).no_duplicates()
    &&& forall|p: Seq<char>, e: Seq<char>|
        #[trigger] result_pairs(rs).contains((p, e)) <==> plugin_entry_matches(
            plugins,
            p,
            e,
            tokens_of(query),
        )
    &&& forall|i: int| 0 <= i < rs.len() ==> record_matches(plugins, #[trigger] rs[i])
    &&& forall|i: int, j: int|
        0 <= i < j < rs.len() ==> result_frecency(plugins, rs[i]) >= result_frecency(
            plugins,
            rs[j],
        )
}

/// One scored element of the assembler: a record paired with its frecency.
pub open spec fn scored_views(s: Seq<(SearchResult, u64)>) -> Seq<ResultModel> {
    s.map_values(|x: (SearchResult, u64)| x.0.deep_view())
}

/// The element is a correct join against the metadata and carries its own
/// frecency.
pub open spec fn elem_ok(plugins: Map<Seq<char>, PluginModel>, x: (SearchResult, u64)) -> bool {
    &&& record_matches(plugins, x.0.deep_view())
    &&& x.1 == result_frecency(plugins, x.0.deep_view())
}

/// The scored elements of one frecency key.
pub open spec fn frec_is(key: u64) -> spec_fn((SearchResult, u64)) -> bool {
    |e: (SearchResult, u64)| e.1 == key
}

/// The frecency the metadata holds for a pair.
pub open spec fn pair_frecency(
    plugins: Map<Seq<char>, PluginModel>,
    pe: (Seq<char>, Seq<char>),
) -> u64 {
    plugins[pe.0].entrypoints[pe.1].frecency
}

/// The pairs of one frecency key, in their order of appearance.
pub open spec fn pairs_with_frecency(
    plugins: Map<Seq<char>, PluginModel>,
    ps: Seq<(Seq<char>, Seq<char>)>,
    key: u64,
) -> Seq<(Seq<char>, Seq<char>)> {
    ps.filter(|pe: (Seq<char>, Seq<char>)| pair_frecency(plugins, pe) == key)
}

impl<N: Notifier> SearchIndex<N> {
    /// One retrieval page: the slice of the ranked matching documents at
    /// the given offset.  An empty term list stands for the
    /// match-everything query, which keeps a query of nothing but
    /// punctuation from rejecting all documents.
    fn fetch_page(&self, terms: &Vec<String>, offset: usize) -> (r: Result<
        Vec<IndexedDocument>,
        tantivy::TantivyError,
    >)
        ensures
            match r {
                Ok(v) => {
                    &&& ranked_enumerates_matches(self.index, terms.deep_view())
                    &&& hit_pairs(v@) == page_of(
                        ranked(self.index, terms.deep_view()),
                        offset as int,
                        SEARCH_PAGE_SIZE as int,
                    )
                    &&& hit_names_ok(self.index, v@)
                },
                Err(_) => true,
            },
    {
        let ghost tdv = terms.deep_view();
        let (searcher, addrs) = if terms.len() == 0 {
            proof {
                assert(terms.deep_view() =~= Seq::<Seq<char>>::empty());
            }
            match self.index.search_addresses_all(offset, SEARCH_PAGE_SIZE) {
                Ok(sa) => sa,
                Err(e) => {
                    return Err(e);
                },
            }
        } else {
            match self.index.search_addresses_terms(terms, offset, SEARCH_PAGE_SIZE) {
                Ok(sa) => sa,
                Err(e) => {
                    return Err(e);
                },
            }
        };
        let ghost page = page_of(ranked(self.index, tdv), offset as int, SEARCH_PAGE_SIZE as int);
        let mut out: Vec<IndexedDocument> = Vec::new();
        let mut i: usize = 0;
        while i < addrs.len()
            invariant
                searcher_of(searcher, self.index),
                forall|j: int| 0 <= j < addrs@.len() ==> addr_live(searcher, #[trigger] addrs@[j]),
                addr_pairs(searcher, addrs@) == page,
                0 <= i <= addrs@.len(),
                out@.len() == i,
                forall|j: int|
                    0 <= j < i ==> ((#[trigger] out@[j]).plugin_id@, out@[j].entrypoint_id@)
                        == page[j],
                hit_names_ok(self.index, out@),
            decreases addrs@.len() - i,
        {
            let d = match self.index.resolve_hit(&searcher, &addrs[i]) {
                Ok(d) => d,
                Err(e) => {
                    return Err(e);
                },
            };
            let ghost pre = out@;
            proof {
                assert(addr_pairs(searcher, addrs@)[i as int] == addr_pair(
                    searcher,
                    addrs@[i as int],
                ));
            }
            out.push(d);
            proof {
                assert forall|j: int| 0 <= j < out@.len() implies {
                    let h = #[trigger] out@[j];
                    h.entrypoint_name@ == snap_docs(self.index)[h.plugin_id@][h.entrypoint_id@]
                        && h.plugin_name@ == snap_names(self.index)[h.plugin_id@]
                } by {
                    if j < pre.len() {
                        assert(out@[j] == pre[j]);
                    }
                }
            }
            i = i + 1;
        }
        proof {
            assert(hit_pairs(out@) =~= page);
        }
        Ok(out)
    }

    /// Answer a query: tokenize it, walk the snapshot page by page until a
    /// page comes back empty, join every hit with its metadata, and order
    /// the records by frecency, largest first.  Retrieval is exhaustive:
    /// nothing caps the number of records.  Records of equal frecency keep
    /// the engine's retrieval order.
    pub fn search(&self, query: &str) -> (r: Result<Vec<SearchResult>, SearchError>)
        requires
            self.inv(),
            self.is_consistent(),
        ensures
            query@.len() == 0 ==> tokens_of(query@) == Seq::<Seq<char>>::empty(),
            match r {
                Ok(results) => {
                    &&& search_answer_ok(self.plugins(), query@, results.deep_view())
                    &&& forall|key: u64|
                        #[trigger] pairs_with_frecency(
                            self.plugins(),
                            result_pairs(results.deep_view()),
                            key,
                        ) == pairs_with_frecency(
                            self.plugins(),
                            self.retrieval_ranking(query@),
                            key,
                        )
                },
                Err(_) => true,
            },
    {
        let ghost plugins = self.plugins();
        let ghost tq = tokens_of(query@);
        let terms = self.index.tokenize(query);
        proof {
            if query@.len() == 0 {
                assert(tokens_of(query@) =~= Seq::<Seq<char>>::empty());
            }
        }
        let ghost rseq = ranked(self.index, tq);

        let mut hits: Vec<IndexedDocument> = Vec::new();
        loop
            invariant
                self.inv(),
                self.is_consistent(),
                plugins == self.plugins(),
                terms.deep_view() == tq,
                query@.len() == 0 ==> tq == Seq::<Seq<char>>::empty(),
                tq == tokens_of(query@),
                rseq == ranked(self.index, tq),
                hits@.len() <= rseq.len(),
                hit_pairs(hits@) == rseq.take(hits@.len() as int),
                hit_names_ok(self.index, hits@),
            ensures
                self.inv(),
                self.is_consistent(),
                plugins == self.plugins(),
                rseq == ranked(self.index, tq),
                ranked_enumerates_matches(self.index, tq),
                hit_pairs(hits@) == rseq,
                hit_names_ok(self.index, hits@),
            decreases rseq.len() - hits@.len(),
        {
            let offset = hits.len();
            let mut page = match self.fetch_page(&terms, offset) {
                Ok(p) => p,
                Err(e) => {
                    return Err(SearchError { cause: e });
                },
            };
            let full = page.len() == SEARCH_PAGE_SIZE;
            let ghost pre = hits@;
            let ghost pg = page@;
            hits.append(&mut page);
            proof {
                assert(hit_pairs(pre + pg) =~= hit_pairs(pre) + hit_pairs(pg));
                if offset >= rseq.len() {
                    assert(rseq.take(offset as int) =~= rseq);
                    assert(hit_pairs(hits@) =~= rseq);
                } else if offset + SEARCH_PAGE_SIZE >= rseq.len() {
                    assert(rseq.take(offset as int) + rseq.subrange(offset as int, rseq.len() as int)
                        =~= rseq);
                    assert(hit_pairs(hits@) =~= rseq);
                } else {
                    assert(rseq.take(offset as int) + rseq.subrange(
                        offset as int,
                        offset + SEARCH_PAGE_SIZE,
                    ) =~= rseq.take(offset as int + SEARCH_PAGE_SIZE as int));
                    assert(hit_pairs(hits@) =~= rseq.take(hits@.len() as int));
                }
                assert forall|i: int| 0 <= i < hits@.len() implies {
                    let h = #[trigger] hits@[i];
                    h.entrypoint_name@ == snap_docs(self.index)[h.plugin_id@][h.entrypoint_id@]
                        && h.plugin_name@ == snap_names(self.index)[h.plugin_id@]
                } by {
                    if i < pre.len() {
                        assert(hits@[i] == pre[i]);
                    } else {
                        assert(hits@[i] == pg[i - pre.len()]);
                    }
                }
            }
            if !full {
                proof {
                    if offset < rseq.len() {
                        assert(hits@.len() == rseq.len());
                        assert(hit_pairs(hits@) =~= rseq);
                    }
                }
                break ;
            }
        }

        let mut scored: Vec<(SearchResult, u64)> = Vec::new();
        let mut k: usize = 0;
        while k < hits.len()
            invariant
                self.inv(),
                self.is_consistent(),
                plugins == self.plugins(),
                rseq == ranked(self.index, tq),
                ranked_enumerates_matches(self.index, tq),
                hit_pairs(hits@) == rseq,
                hit_names_ok(self.index, hits@),
                0 <= k <= hits@.len(),
                scored@.len() == k,
                forall|i: int|
                    0 <= i < k ==> elem_ok(plugins, #[trigger] scored@[i]) && (
                    scored@[i].0.deep_view().plugin_id, scored@[i].0.deep_view().entrypoint_id)
                        == rseq[i],
            decreases hits@.len() - k,
        {
            let h = &hits[k];
            let ghost pe = (h.plugin_id@, h.entrypoint_id@);
            proof {
                assert(hit_pairs(hits@)[k as int] == pe);
                assert(rseq.contains(rseq[k as int]));
                assert(ranked(self.index, tq).contains(pe));
                assert(snap_pair_matches(self.index, pe, tq));
                assert(snap_docs(self.index) == docs_model(plugins));
                assert(docs_model(plugins).contains_key(pe.0));
                assert(plugins.contains_key(pe.0));
                assert(docs_model(plugins)[pe.0].contains_key(pe.1));
                assert(plugins[pe.0].entrypoints.contains_key(pe.1));
            }
            let pid = PluginId::from_string(h.plugin_id.clone());
            let eid = EntrypointId::from_string(h.entrypoint_id.clone());
            let d = match self.store.get_entrypoint(&pid, &eid) {
                Some(d) => d,
                None => {
                    proof {
                        assert(false);
                    }
                    vstd::pervasive::unreached()
                },
            };
            let generator_name = match &d.entrypoint_generator {
                Some(g) => Some(g.1.clone()),
                None => None,
            };
            let record = SearchResult {
                entrypoint_type: d.entrypoint_type,
                entrypoint_name: h.entrypoint_name.clone(),
                entrypoint_generator_name: generator_name,
                entrypoint_id: eid,
                entrypoint_icon: clone_icon_option(&d.icon),
                plugin_name: h.plugin_name.clone(),
                plugin_id: pid,
                entrypoint_actions: build_result_actions(&d.actions),
                entrypoint_accessories: clone_accessories(&d.accessories),
            };
            let frecency = d.frecency;
            proof {
                let dm = plugins[pe.0].entrypoints[pe.1];
                assert(record.deep_view().entrypoint_name == snap_docs(self.index)[pe.0][pe.1]);
                assert(snap_docs(self.index)[pe.0][pe.1] == dm.entrypoint_name);
                assert(record.deep_view().plugin_name == snap_names(self.index)[pe.0]);
                assert(names_model(plugins).contains_key(pe.0));
                assert(snap_names(self.index)[pe.0] == plugins[pe.0].name);
                assert(record_matches(plugins, record.deep_view()));
            }
            scored.push((record, frecency));
            k = k + 1;
        }

        proof {
            assert forall|a: int, b: int| 0 <= a < b < scored@.len() implies result_pairs(
                scored_views(scored@),
            )[a] != result_pairs(scored_views(scored@))[b] by {
                assert(rseq[a] != rseq[b]);
            }
        }

        let ghost pre_sort = scored@;
        proof {
            assert(result_pairs(scored_views(pre_sort)) =~= rseq);
        }
        sort_by_frecency(&mut scored, Ghost(plugins));

        let ghost sorted = scored@;
        let mut results: Vec<SearchResult> = Vec::new();
        loop
            invariant
                scored@ == sorted.skip(results@.len() as int),
                results@.len() <= sorted.len(),
                results.deep_view() == scored_views(sorted).take(results@.len() as int),
            ensures
                results.deep_view() == scored_views(sorted),
            decreases scored@.len(),
        {
            if scored.len() == 0 {
                proof {
                    assert(results.deep_view() =~= scored_views(sorted));
                }
                break ;
            }
            let ghost n = results@.len() as int;
            let x = scored.remove(0);
            proof {
                assert(sorted.skip(n)[0] == sorted[n]);
                assert(scored@ =~= sorted.skip(n + 1));
            }
            results.push(x.0);
            proof {
                assert(results.deep_view() =~= scored_views(sorted).take(n + 1));
            }
        }

        proof {
            let rs = results.deep_view();
            assert(rs == scored_views(sorted));
            assert forall|p: Seq<char>, e: Seq<char>| #[trigger] result_pairs(rs).contains((p, e))
                <==> plugin_entry_matches(plugins, p, e, tq) by {
                assert(result_pairs(scored_views(sorted)).contains((p, e)) <==> result_pairs(
                    scored_views(pre_sort),
                ).contains((p, e)));
                assert(ranked(self.index, tq).contains((p, e)) <==> snap_pair_matches(
                    self.index,
                    (p, e),
                    tq,
                ));
                if snap_pair_matches(self.index, (p, e), tq) {
                    assert(snap_docs(self.index) == docs_model(plugins));
                    assert(docs_model(plugins).contains_key(p));
                    assert(plugins.contains_key(p));
                    assert(docs_model(plugins)[p].contains_key(e));
                    assert(plugins[p].entrypoints.contains_key(e));
                    assert(docs_model(plugins)[p][e] == plugins[p].entrypoints[e].entrypoint_name);
                    assert(names_model(plugins).contains_key(p));
                    assert(snap_names(self.index)[p] == plugins[p].name);
                    assert(plugin_entry_matches(plugins, p, e, tq));
                }
                if plugin_entry_matches(plugins, p, e, tq) {
                    assert(plugins[p].entrypoints.contains_key(e));
                    assert(has_entries(plugins[p]));
                    assert(docs_model(plugins).contains_key(p));
                    assert(docs_model(plugins)[p].contains_key(e));
                    assert(docs_model(plugins)[p][e] == plugins[p].entrypoints[e].entrypoint_name);
                    assert(names_model(plugins).contains_key(p));
                    assert(snap_pair_matches(self.index, (p, e), tq));
                }
            }
            assert forall|i: int| 0 <= i < rs.len() implies record_matches(
                plugins,
                #[trigger] rs[i],
            ) by {
                assert(elem_ok(plugins, sorted[i]));
                assert(rs[i] == sorted[i].0.deep_view());
            }
            assert forall|i: int, j: int| 0 <= i < j < rs.len() implies result_frecency(
                plugins,
                rs[i],
            ) >= result_frecency(plugins, rs[j]) by {
                assert(elem_ok(plugins, sorted[i]));
                assert(elem_ok(plugins, sorted[j]));
                assert(sorted[i].1 >= sorted[j].1);
            }
            assert forall|key: u64| #[trigger] pairs_with_frecency(
                plugins,
                result_pairs(rs),
                key,
            ) == pairs_with_frecency(plugins, self.retrieval_ranking(query@), key) by {
                assert(sorted.filter(#[trigger] frec_is(key)) == pre_sort.filter(frec_is(key)));
                lemma_pairs_filter_commute(plugins, sorted, key);
                lemma_pairs_filter_commute(plugins, pre_sort, key);
                assert(result_pairs(scored_views(pre_sort)) == rseq);
                assert(self.retrieval_ranking(query@) == rseq);
            }
        }

        Ok(results)
    }
}

impl<N: Notifier> SearchIndex<N> {
    /// A read-only deep copy of the metadata store, for external
    /// introspection (a settings front end, for instance), independent of
    /// the text index.
    pub fn plugin_entrypoint_data(&self) -> (r: Vec<(PluginId, crate::store::PluginDataView)>)
        requires
            self.inv(),
        ensures
            crate::store::dump_matches(self.plugins(), r@),
    {
        self.store.snapshot_view()
    }
}

/// Copy the stored actions into the records a search returns; the action
/// vocabulary is remapped and the internal action id dropped.
fn build_result_actions(actions: &Vec<EntrypointActionData>) -> (r: Vec<
    SearchResultEntrypointAction,
>)
    ensures
        r.deep_view() == actions.deep_view().map_values(
            |a: StoreActionModel| result_action_view(a),
        ),
{
    let mut r: Vec<SearchResultEntrypointAction> = Vec::new();
    let mut i: usize = 0;
    while i < actions.len()
        invariant
            0 <= i <= actions.len(),
            r@.len() == i,
            forall|j: int|
                0 <= j < i ==> (#[trigger] r@[j])@ == result_action_view(actions@[j]@),
        decreases actions.len() - i,
    {
        let a = &actions[i];
        let action_type = match a.action_type {
            EntrypointActionType::Command => SearchResultEntrypointActionType::Command,
            EntrypointActionType::View => SearchResultEntrypointActionType::View,
        };
        r.push(
            SearchResultEntrypointAction {
                action_type,
                label: a.label.clone(),
                shortcut: crate::model::clone_shortcut_option(&a.shortcut),
            },
        );
        i = i + 1;
    }
    proof {
        assert(r.deep_view() =~= actions.deep_view().map_values(
            |a: StoreActionModel| result_action_view(a),
        ));
    }
    r
}

/// A two-element sequence of which at most one element passes the filter
/// keeps its filtering under exchange.
proof fn lemma_filter_two(
    u: (SearchResult, u64),
    w: (SearchResult, u64),
    p: spec_fn((SearchResult, u64)) -> bool,
)
    requires
        !(p(u) && p(w)),
    ensures
        seq![u, w].filter(p) == seq![w, u].filter(p),
{
    reveal_with_fuel(Seq::<(SearchResult, u64)>::filter, 4);
    assert(seq![u, w].drop_last() =~= seq![u]);
    assert(seq![w, u].drop_last() =~= seq![w]);
    assert(seq![u].drop_last() =~= Seq::<(SearchResult, u64)>::empty());
    assert(seq![w].drop_last() =~= Seq::<(SearchResult, u64)>::empty());
    if p(u) {
        assert(seq![u, w].filter(p) =~= seq![u]);
        assert(seq![w, u].filter(p) =~= seq![u]);
    } else if p(w) {
        assert(seq![u, w].filter(p) =~= seq![w]);
        assert(seq![w, u].filter(p) =~= seq![w]);
    } else {
        assert(seq![u, w].filter(p) =~= Seq::<(SearchResult, u64)>::empty());
        assert(seq![w, u].filter(p) =~= Seq::<(SearchResult, u64)>::empty());
    }
}

/// Adjacent elements of different frecency exchanged keep every
/// per-element fact, the distinctness of the identifying pairs, which
/// pairs occur, and the subsequence of every frecency key.
proof fn lemma_swap_props(
    plugins: Map<Seq<char>, PluginModel>,
    s: Seq<(SearchResult, u64)>,
    s2: Seq<(SearchResult, u64)>,
    x: int,
    y: int,
)
    requires
        0 <= x < y < s.len(),
        y == x + 1,
        s[x].1 != s[y].1,
        s2.len() == s.len(),
        s2[x] == s[y],
        s2[y] == s[x],
        forall|i: int| 0 <= i < s.len() && i != x && i != y ==> s2[i] == s[i],
        forall|i: int| 0 <= i < s.len() ==> elem_ok(plugins, #[trigger] s[i]),
        result_pairs(scored_views(s)).no_duplicates(),
    ensures
        forall|i: int| 0 <= i < s2.len() ==> elem_ok(plugins, #[trigger] s2[i]),
        result_pairs(scored_views(s2)).no_duplicates(),
        forall|pe: (Seq<char>, Seq<char>)|
            result_pairs(scored_views(s2)).contains(pe) <==> result_pairs(
                scored_views(s),
            ).contains(pe),
        forall|key: u64| s2.filter(#[trigger] frec_is(key)) == s.filter(frec_is(key)),
{
    assert forall|key: u64| s2.filter(#[trigger] frec_is(key)) == s.filter(frec_is(key)) by {
        let pr = frec_is(key);
        let a = s.subrange(0, x);
        let m = s.subrange(x, x + 2);
        let b = s.subrange(x + 2, s.len() as int);
        let m2 = s2.subrange(x, x + 2);
        assert(s =~= (a + m) + b);
        assert(s2.subrange(0, x) =~= a);
        assert(s2.subrange(x + 2, s2.len() as int) =~= b);
        assert(s2 =~= (a + m2) + b);
        Seq::filter_distributes_over_add(a + m, b, pr);
        Seq::filter_distributes_over_add(a, m, pr);
        Seq::filter_distributes_over_add(a + m2, b, pr);
        Seq::filter_distributes_over_add(a, m2, pr);
        assert(m =~= seq![s[x], s[y]]);
        assert(m2 =~= seq![s[y], s[x]]);
        assert(!(pr(s[x]) && pr(s[y])));
        lemma_filter_two(s[x], s[y], pr);
        assert(s.filter(pr) == (a.filter(pr) + m.filter(pr)) + b.filter(pr));
        assert(s2.filter(pr) == (a.filter(pr) + m2.filter(pr)) + b.filter(pr));
    }
    let p = result_pairs(scored_views(s));
    let p2 = result_pairs(scored_views(s2));
    let ghost swap_index = |i: int| if i == x { y } else if i == y { x } else { i };
    assert forall|i: int| 0 <= i < s2.len() implies elem_ok(plugins, #[trigger] s2[i]) by {
        assert(s2[i] == s[swap_index(i)]);
    }
    assert forall|a: int, b: int| 0 <= a < b < p2.len() implies p2[a] != p2[b] by {
        assert(s2[a] == s[swap_index(a)]);
        assert(s2[b] == s[swap_index(b)]);
        assert(p2[a] == p[swap_index(a)]);
        assert(p2[b] == p[swap_index(b)]);
    }
    assert forall|pe: (Seq<char>, Seq<char>)| result_pairs(scored_views(s2)).contains(pe)
        <==> result_pairs(scored_views(s)).contains(pe) by {
        if p2.contains(pe) {
            let i = choose|i: int| 0 <= i < p2.len() && p2[i] == pe;
            assert(p[swap_index(i)] == pe);
            assert(p.contains(pe));
        }
        if p.contains(pe) {
            let i = choose|i: int| 0 <= i < p.len() && p[i] == pe;
            assert(p2[swap_index(i)] == pe);
            assert(p2.contains(pe));
        }
    }
}

/// Filtering correctly joined scored elements by their frecency key and
/// projecting to pairs is the same as projecting first and keeping the
/// pairs whose stored frecency is the key.
proof fn lemma_pairs_filter_commute(
    plugins: Map<Seq<char>, PluginModel>,
    s: Seq<(SearchResult, u64)>,
    key: u64,
)
    requires
        forall|i: int| 0 <= i < s.len() ==> elem_ok(plugins, #[trigger] s[i]),
    ensures
        result_pairs(scored_views(s.filter(frec_is(key)))) == pairs_with_frecency(
            plugins,
            result_pairs(scored_views(s)),
            key,
        ),
    decreases s.len(),
{
    reveal_with_fuel(Seq::<(SearchResult, u64)>::filter, 2);
    reveal_with_fuel(Seq::<(Seq<char>, Seq<char>)>::filter, 2);
    let pp = |pe: (Seq<char>, Seq<char>)| pair_frecency(plugins, pe) == key;
    if s.len() == 0 {
        assert(s.filter(frec_is(key)) =~= s);
        assert(result_pairs(scored_views(s)) =~= Seq::<(Seq<char>, Seq<char>)>::empty());
        assert(result_pairs(scored_views(s)).filter(pp) =~= Seq::<
            (Seq<char>, Seq<char>),
        >::empty());
        assert(result_pairs(scored_views(s.filter(frec_is(key)))) =~= Seq::<
            (Seq<char>, Seq<char>),
        >::empty());
    } else {
        let d = s.drop_last();
        assert forall|i: int| 0 <= i < d.len() implies elem_ok(plugins, #[trigger] d[i]) by {
            assert(d[i] == s[i]);
        }
        lemma_pairs_filter_commute(plugins, d, key);
        let last = s.last();
        let ps = result_pairs(scored_views(s));
        let pd = result_pairs(scored_views(d));
        let plast = (last.0.deep_view().plugin_id, last.0.deep_view().entrypoint_id);
        assert(ps.drop_last() =~= pd);
        assert(ps.last() == plast);
        assert(elem_ok(plugins, s[s.len() - 1]));
        assert(frec_is(key)(last) == pp(plast));
        if frec_is(key)(last) {
            assert(s.filter(frec_is(key)) == d.filter(frec_is(key)).push(last));
            assert(ps.filter(pp) == pd.filter(pp).push(plast));
            assert(result_pairs(scored_views(d.filter(frec_is(key)).push(last)))
                =~= result_pairs(scored_views(d.filter(frec_is(key)))).push(plast));
        } else {
            assert(s.filter(frec_is(key)) == d.filter(frec_is(key)));
            assert(ps.filter(pp) == pd.filter(pp));
        }
    }
}

/// Order the scored records by frecency, largest first, with a stable
/// insertion sort: equal keys are never exchanged, so ties keep their
/// retrieval order.
fn sort_by_frecency(
    v: &mut Vec<(SearchResult, u64)>,
    Ghost(plugins): Ghost<Map<Seq<char>, PluginModel>>,
)
    requires
        forall|i: int| 0 <= i < old(v)@.len() ==> elem_ok(plugins, #[trigger] old(v)@[i]),
        result_pairs(scored_views(old(v)@)).no_duplicates(),
    ensures
        final(v)@.len() == old(v)@.len(),
        forall|i: int| 0 <= i < final(v)@.len() ==> elem_ok(plugins, #[trigger] final(v)@[i]),
        result_pairs(scored_views(final(v)@)).no_duplicates(),
        forall|pe: (Seq<char>, Seq<char>)|
            result_pairs(scored_views(final(v)@)).contains(pe) <==> result_pairs(
                scored_views(old(v)@),
            ).contains(pe),
        forall|key: u64| final(v)@.filter(#[trigger] frec_is(key)) == old(v)@.filter(
            frec_is(key),
        ),
        forall|i: int, j: int| 0 <= i < j < final(v)@.len() ==> final(v)@[i].1 >= final(v)@[j].1,
{
    let n = v.len();
    if n == 0 {
        return ;
    }
    let mut i: usize = 1;
    while i < n
        invariant
            n == v@.len(),
            n == old(v)@.len(),
            1 <= i <= n,
            forall|k: int| 0 <= k < v@.len() ==> elem_ok(plugins, #[trigger] v@[k]),
            result_pairs(scored_views(v@)).no_duplicates(),
            forall|pe: (Seq<char>, Seq<char>)|
                result_pairs(scored_views(v@)).contains(pe) <==> result_pairs(
                    scored_views(old(v)@),
                ).contains(pe),
            forall|key: u64| v@.filter(#[trigger] frec_is(key)) == old(v)@.filter(frec_is(key)),
            forall|a: int, b: int| 0 <= a < b < i ==> v@[a].1 >= v@[b].1,
        decreases n - i,
    {
        let mut j: usize = i;
        loop
            invariant
                n == v@.len(),
                n == old(v)@.len(),
                1 <= i < n,
                0 <= j <= i,
                forall|k: int| 0 <= k < v@.len() ==> elem_ok(plugins, #[trigger] v@[k]),
                result_pairs(scored_views(v@)).no_duplicates(),
                forall|pe: (Seq<char>, Seq<char>)|
                    result_pairs(scored_views(v@)).contains(pe) <==> result_pairs(
                        scored_views(old(v)@),
                    ).contains(pe),
                forall|key: u64| v@.filter(#[trigger] frec_is(key)) == old(v)@.filter(
                    frec_is(key),
                ),
                forall|a: int, b: int| 0 <= a < b <= i && b != j ==> v@[a].1 >= v@[b].1,
            ensures
                n == v@.len(),
                forall|k: int| 0 <= k < v@.len() ==> elem_ok(plugins, #[trigger] v@[k]),
                result_pairs(scored_views(v@)).no_duplicates(),
                forall|pe: (Seq<char>, Seq<char>)|
                    result_pairs(scored_views(v@)).contains(pe) <==> result_pairs(
                        scored_views(old(v)@),
                    ).contains(pe),
                forall|key: u64| v@.filter(#[trigger] frec_is(key)) == old(v)@.filter(
                    frec_is(key),
                ),
                forall|a: int, b: int| 0 <= a < b <= i ==> v@[a].1 >= v@[b].1,
            decreases j,
        {
            if j == 0 {
                break ;
            }
            let prev = &v[j - 1];
            let cur = &v[j];
            if prev.1 >= cur.1 {
                proof {
                    assert forall|a: int, b: int| 0 <= a < b <= i implies v@[a].1 >= v@[b].1 by {
                        if b == j {
                            if a < j - 1 {
                                assert(v@[a].1 >= v@[j - 1].1);
                            }
                            assert(v@[j - 1].1 >= v@[j as int].1);
                        }
                    }
                }
                break ;
            }
            let ghost s = v@;
            let x = v.remove(j);
            v.insert(j - 1, x);
            proof {
                assert(v@.len() == s.len());
                assert(v@[j - 1] == s[j as int]);
                assert forall|k: int| 0 <= k < s.len() && k != j - 1 && k != j implies v@[k]
                    == s[k] by {
                    if k < j - 1 {
                        assert(s.remove(j as int)[k] == s[k]);
                    } else {
                        assert(s.remove(j as int)[k - 1] == s[k]);
                    }
                }
                assert(v@[j as int] == s[j - 1]);
                assert(s[j - 1].1 != s[j as int].1);
                lemma_swap_props(plugins, s, v@, j - 1, j as int);
            }
            j = j - 1;
        }
        i = i + 1;
    }
}

} // verus!
