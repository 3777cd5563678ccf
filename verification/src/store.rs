//! The metadata store: a map from plugin identity to per-entrypoint
//! descriptive data (icons, actions, accessories, frecency, generator
//! linkage) that is not suitable for text indexing.
//!
//! A plugin's data is replaced wholesale whenever that plugin re-indexes,
//! and removed wholesale when the plugin goes away.

use vstd::prelude::*;

use crate::model::AccessoryModel;
use crate::model::EntrypointActionType;
use crate::model::EntrypointId;
use crate::model::PhysicalShortcut;
use crate::model::PluginId;
use crate::model::SearchResultAccessory;
use crate::model::SearchResultEntrypointType;
use crate::model::ShortcutModel;
use crate::model::clone_generator_option;
use crate::model::clone_shortcut_option;
use crate::model::clone_string_option;
use crate::model::generator_option_view;
use crate::model::icon_option_view;
use crate::model::shortcut_option_view;
use crate::model::string_option_view;

verus! {

/// One action kept in the metadata store.
#[derive(Debug, PartialEq)]
pub struct EntrypointActionData {
    pub id: Option<String>,
    pub label: String,
    pub action_type: EntrypointActionType,
    pub shortcut: Option<PhysicalShortcut>,
}

/// Mathematical image of an `EntrypointActionData`.
pub ghost struct StoreActionModel {
    pub id: Option<Seq<char>>,
    pub label: Seq<char>,
    pub action_type: EntrypointActionType,
    pub shortcut: Option<ShortcutModel>,
}

impl View for EntrypointActionData {
    type V = StoreActionModel;

    open spec fn view(&self) -> StoreActionModel {
        StoreActionModel {
            id: string_option_view(self.id),
            label: self.label@,
            action_type: self.action_type,
            shortcut: shortcut_option_view(self.shortcut),
        }
    }
}

impl DeepView for EntrypointActionData {
    type V = StoreActionModel;

    open spec fn deep_view(&self) -> StoreActionModel {
        self.view()
    }
}

/// The descriptive data of one entrypoint.
#[derive(Debug, PartialEq)]
pub struct EntrypointData {
    pub entrypoint_name: String,
    pub entrypoint_generator: Option<(EntrypointId, String)>,
    pub entrypoint_type: SearchResultEntrypointType,
    pub icon: Option<Vec<u8>>,
    pub frecency: u64,
    pub actions: Vec<EntrypointActionData>,
    pub accessories: Vec<SearchResultAccessory>,
}

/// Mathematical image of an `EntrypointData`.
pub ghost struct EntrypointModel {
    pub entrypoint_name: Seq<char>,
    pub entrypoint_generator: Option<(Seq<char>, Seq<char>)>,
    pub entrypoint_type: SearchResultEntrypointType,
    pub icon: Option<Seq<u8>>,
    pub frecency: u64,
    pub actions: Seq<StoreActionModel>,
    pub accessories: Seq<AccessoryModel>,
}

impl View for EntrypointData {
    type V = EntrypointModel;

    open spec fn view(&self) -> EntrypointModel {
        EntrypointModel {
            entrypoint_name: self.entrypoint_name@,
            entrypoint_generator: generator_option_view(self.entrypoint_generator),
            entrypoint_type: self.entrypoint_type,
            icon: icon_option_view(self.icon),
            frecency: self.frecency,
            actions: self.actions.deep_view(),
            accessories: self.accessories.deep_view(),
        }
    }
}

/// One entrypoint of a plugin, keyed by its identifier.
#[derive(Debug, PartialEq)]
pub struct EntrypointEntry {
    pub id: EntrypointId,
    pub data: EntrypointData,
}

/// All the data kept for one plugin.
#[derive(Debug, PartialEq)]
pub struct PluginData {
    pub plugin_name: String,
    pub entrypoints: Vec<EntrypointEntry>,
}

/// Mathematical image of a `PluginData`: its name and its entrypoints as a
/// map.
pub ghost struct PluginModel {
    pub name: Seq<char>,
    pub entrypoints: Map<Seq<char>, EntrypointModel>,
}

/// The entrypoint entries as a map; a later entry for the same identifier
/// wins, though a well-formed store never holds two.
pub open spec fn entries_map(s: Seq<EntrypointEntry>) -> Map<Seq<char>, EntrypointModel>
    decreases s.len(),
{
    if s.len() == 0 {
        Map::empty()
    } else {
        entries_map(s.drop_last()).insert(s.last().id@, s.last().data@)
    }
}

/// The entry identifiers are pairwise distinct.
pub open spec fn entries_distinct(s: Seq<EntrypointEntry>) -> bool {
    forall|i: int, j: int| 0 <= i < j < s.len() ==> s[i].id@ != s[j].id@
}

impl View for PluginData {
    type V = PluginModel;

    open spec fn view(&self) -> PluginModel {
        PluginModel { name: self.plugin_name@, entrypoints: entries_map(self.entrypoints@) }
    }
}

/// One plugin of the store, keyed by its identifier.
#[derive(Debug, PartialEq)]
pub struct PluginEntry {
    pub id: PluginId,
    pub data: PluginData,
}

/// The plugin entries as a map.
pub open spec fn plugins_map(s: Seq<PluginEntry>) -> Map<Seq<char>, PluginModel>
    decreases s.len(),
{
    if s.len() == 0 {
        Map::empty()
    } else {
        plugins_map(s.drop_last()).insert(s.last().id@, s.last().data@)
    }
}

/// The plugin identifiers are pairwise distinct.
pub open spec fn plugins_distinct(s: Seq<PluginEntry>) -> bool {
    forall|i: int, j: int| 0 <= i < j < s.len() ==> s[i].id@ != s[j].id@
}

/// The metadata store.
#[derive(Debug, PartialEq)]
pub struct MetadataStore {
    plugins: Vec<PluginEntry>,
}

impl View for MetadataStore {
    type V = Map<Seq<char>, PluginModel>;

    closed spec fn view(&self) -> Map<Seq<char>, PluginModel> {
        plugins_map(self.plugins@)
    }
}

impl MetadataStore {
    /// Every plugin identifier occurs once, and so does every entrypoint
    /// identifier within its plugin.
    pub closed spec fn wf(&self) -> bool {
        &&& plugins_distinct(self.plugins@)
        &&& forall|i: int|
            0 <= i < self.plugins@.len() ==> entries_distinct(
                #[trigger] self.plugins@[i].data.entrypoints@,
            )
    }

    pub fn new() -> (r: MetadataStore)
        ensures
            r.wf(),
            r@ == Map::<Seq<char>, PluginModel>::empty(),
    {
        MetadataStore { plugins: Vec::new() }
    }
}

/// A key present in `plugins_map(s)` is the identifier of some entry, and
/// with distinct identifiers the map carries each entry's own data.
proof fn lemma_plugins_map_index(s: Seq<PluginEntry>, i: int)
    requires
        plugins_distinct(s),
        0 <= i < s.len(),
    ensures
        plugins_map(s).contains_key(s[i].id@),
        plugins_map(s)[s[i].id@] == s[i].data@,
    decreases s.len(),
{
    if i == s.len() - 1 {
    } else {
        assert(s.drop_last()[i] == s[i]);
        lemma_plugins_map_index(s.drop_last(), i);
        assert(s[s.len() - 1].id@ != s[i].id@);
    }
}

/// A key of `plugins_map(s)` always names some entry.
proof fn lemma_plugins_map_key_has_index(s: Seq<PluginEntry>, k: Seq<char>)
    requires
        plugins_map(s).contains_key(k),
    ensures
        exists|i: int| 0 <= i < s.len() && s[i].id@ == k,
    decreases s.len(),
{
    if s.len() > 0 {
        if s.last().id@ == k {
            assert(s[s.len() - 1].id@ == k);
        } else {
            lemma_plugins_map_key_has_index(s.drop_last(), k);
            let i = choose|i: int| 0 <= i < s.drop_last().len() && s.drop_last()[i].id@ == k;
            assert(s[i].id@ == k);
        }
    }
}

/// The same two facts for the entrypoint entries of one plugin.
proof fn lemma_entries_map_index(s: Seq<EntrypointEntry>, i: int)
    requires
        entries_distinct(s),
        0 <= i < s.len(),
    ensures
        entries_map(s).contains_key(s[i].id@),
        entries_map(s)[s[i].id@] == s[i].data@,
    decreases s.len(),
{
    if i == s.len() - 1 {
    } else {
        assert(s.drop_last()[i] == s[i]);
        lemma_entries_map_index(s.drop_last(), i);
        assert(s[s.len() - 1].id@ != s[i].id@);
    }
}

/// A key of `entries_map(s)` always names some entry.
proof fn lemma_entries_map_key_has_index(s: Seq<EntrypointEntry>, k: Seq<char>)
    requires
        entries_map(s).contains_key(k),
    ensures
        exists|i: int| 0 <= i < s.len() && s[i].id@ == k,
    decreases s.len(),
{
    if s.len() > 0 {
        if s.last().id@ == k {
            assert(s[s.len() - 1].id@ == k);
        } else {
            lemma_entries_map_key_has_index(s.drop_last(), k);
            let i = choose|i: int| 0 <= i < s.drop_last().len() && s.drop_last()[i].id@ == k;
            assert(s[i].id@ == k);
        }
    }
}

/// Removing the entry at one index removes exactly its key from the map.
proof fn lemma_plugins_map_remove(s: Seq<PluginEntry>, i: int)
    requires
        plugins_distinct(s),
        0 <= i < s.len(),
    ensures
        plugins_map(s.remove(i)) == plugins_map(s).remove(s[i].id@),
        plugins_distinct(s.remove(i)),
    decreases s.len(),
{
    let k = s[i].id@;
    assert forall|a: int, b: int| 0 <= a < b < s.remove(i).len() implies s.remove(i)[a].id@
        != s.remove(i)[b].id@ by {
        if b < i {
            assert(s.remove(i)[a] == s[a]);
            assert(s.remove(i)[b] == s[b]);
        } else if a < i {
            assert(s.remove(i)[a] == s[a]);
            assert(s.remove(i)[b] == s[b + 1]);
        } else {
            assert(s.remove(i)[a] == s[a + 1]);
            assert(s.remove(i)[b] == s[b + 1]);
        }
    }
    if i == s.len() - 1 {
        assert(s.remove(i) =~= s.drop_last());
        assert forall|k2: Seq<char>| #![auto] plugins_map(s.drop_last()).contains_key(k2)
            implies k2 != k by {
            lemma_plugins_map_key_has_index(s.drop_last(), k2);
            let j = choose|j: int| 0 <= j < s.drop_last().len() && s.drop_last()[j].id@ == k2;
            assert(s[j].id@ == k2);
        }
        assert(plugins_map(s.drop_last()) =~= plugins_map(s).remove(k));
    } else {
        lemma_plugins_map_remove(s.drop_last(), i);
        assert(s.remove(i).drop_last() =~= s.drop_last().remove(i));
        assert(s.remove(i).last() == s.last());
        assert(plugins_map(s.remove(i)) == plugins_map(s.drop_last().remove(i)).insert(
            s.last().id@,
            s.last().data@,
        ));
        assert(s.last().id@ != k);
        assert(plugins_map(s.drop_last()).remove(k).insert(s.last().id@, s.last().data@)
            =~= plugins_map(s.drop_last()).insert(s.last().id@, s.last().data@).remove(k));
    }
}

impl MetadataStore {
    /// Replace the plugin's data wholesale; other plugins keep theirs.
    pub fn replace_plugin(&mut self, plugin_id: PluginId, data: PluginData)
        requires
            old(self).wf(),
            entries_distinct(data.entrypoints@),
        ensures
            final(self).wf(),
            final(self)@ == old(self)@.insert(plugin_id@, data@),
    {
        let ghost pid = plugin_id@;
        let ghost dm = data@;
        self.remove_plugin(&plugin_id);
        let ghost pre = self.plugins@;
        let entry = PluginEntry { id: plugin_id, data };
        self.plugins.push(entry);
        proof {
            assert(self.plugins@.drop_last() =~= pre);
            assert forall|i: int, j: int| 0 <= i < j < self.plugins@.len() implies self.plugins@[
                i
            ].id@ != self.plugins@[j].id@ by {
                if j < self.plugins@.len() - 1 {
                    assert(pre[i] == self.plugins@[i]);
                    assert(pre[j] == self.plugins@[j]);
                } else {
                    assert(self.plugins@[i] == pre[i]);
                    lemma_plugins_map_index(pre, i);
                }
            }
            assert forall|i: int| 0 <= i < self.plugins@.len() implies entries_distinct(
                #[trigger] self.plugins@[i].data.entrypoints@,
            ) by {
                if i < self.plugins@.len() - 1 {
                    assert(self.plugins@[i] == pre[i]);
                }
            }
            assert(old(self)@.remove(pid).insert(pid, dm) =~= old(self)@.insert(pid, dm));
        }
    }

    /// Remove the plugin's data wholesale; other plugins keep theirs.
    pub fn remove_plugin(&mut self, plugin_id: &PluginId)
        requires
            old(self).wf(),
        ensures
            final(self).wf(),
            final(self)@ == old(self)@.remove(plugin_id@),
    {
        let ghost pre = self.plugins@;
        let mut i: usize = 0;
        loop
            invariant
                self == old(self),
                self.plugins@ == pre,
                old(self).wf(),
                0 <= i <= pre.len(),
                forall|j: int| 0 <= j < i ==> pre[j].id@ != plugin_id@,
            decreases pre.len() - i,
        {
            if i == self.plugins.len() {
                proof {
                    assert forall|k: Seq<char>| #![auto] plugins_map(pre).contains_key(k)
                        implies k != plugin_id@ by {
                        lemma_plugins_map_key_has_index(pre, k);
                    }
                    assert(plugins_map(pre) =~= plugins_map(pre).remove(plugin_id@));
                }
                return ;
            }
            let hit = self.plugins[i].id.to_string() == plugin_id.to_string();
            if hit {
                proof {
                    lemma_plugins_map_remove(pre, i as int);
                }
                self.plugins.remove(i);
                proof {
                    assert forall|a: int| 0 <= a < self.plugins@.len() implies entries_distinct(
                        #[trigger] self.plugins@[a].data.entrypoints@,
                    ) by {
                        if a < i {
                            assert(self.plugins@[a] == pre[a]);
                        } else {
                            assert(self.plugins@[a] == pre[a + 1]);
                        }
                    }
                }
                return ;
            }
            i = i + 1;
        }
    }

    /// The data kept for one plugin.
    pub fn find_plugin(&self, plugin_id: &PluginId) -> (r: Option<&PluginData>)
        requires
            self.wf(),
        ensures
            match r {
                Some(d) => self@.contains_key(plugin_id@) && d@ == self@[plugin_id@]
                    && entries_distinct(d.entrypoints@),
                None => !self@.contains_key(plugin_id@),
            },
    {
        let mut i: usize = 0;
        loop
            invariant
                self.wf(),
                0 <= i <= self.plugins@.len(),
                forall|j: int| 0 <= j < i ==> self.plugins@[j].id@ != plugin_id@,
            decreases self.plugins@.len() - i,
        {
            if i == self.plugins.len() {
                proof {
                    if self@.contains_key(plugin_id@) {
                        lemma_plugins_map_key_has_index(self.plugins@, plugin_id@);
                    }
                }
                return None;
            }
            let candidate = &self.plugins[i];
            if candidate.id.to_string() == plugin_id.to_string() {
                proof {
                    lemma_plugins_map_index(self.plugins@, i as int);
                }
                return Some(&candidate.data);
            }
            i = i + 1;
        }
    }

    /// The entrypoint's data, when the plugin and the entrypoint are known.
    pub fn get_entrypoint(&self, plugin_id: &PluginId, entrypoint_id: &EntrypointId) -> (r: Option<
        &EntrypointData,
    >)
        requires
            self.wf(),
        ensures
            match r {
                Some(d) => self@.contains_key(plugin_id@) && self@[plugin_id@
                ].entrypoints.contains_key(entrypoint_id@) && d@ == self@[plugin_id@].entrypoints[
                    entrypoint_id@
                ],
                None => !(self@.contains_key(plugin_id@) && self@[plugin_id@
                ].entrypoints.contains_key(entrypoint_id@)),
            },
    {
        match self.find_plugin(plugin_id) {
            None => None,
            Some(data) => find_entry(&data.entrypoints, entrypoint_id),
        }
    }
}

/// One action of the read-only introspection view; unlike the records a
/// search returns, it keeps the internal action id.
#[derive(Debug, PartialEq)]
pub struct EntrypointActionDataView {
    pub id: Option<String>,
    pub label: String,
    pub action_type: EntrypointActionType,
    pub shortcut: Option<PhysicalShortcut>,
}

impl View for EntrypointActionDataView {
    type V = StoreActionModel;

    open spec fn view(&self) -> StoreActionModel {
        StoreActionModel {
            id: string_option_view(self.id),
            label: self.label@,
            action_type: self.action_type,
            shortcut: shortcut_option_view(self.shortcut),
        }
    }
}

impl DeepView for EntrypointActionDataView {
    type V = StoreActionModel;

    open spec fn deep_view(&self) -> StoreActionModel {
        self.view()
    }
}

/// One entrypoint of the read-only introspection view.
#[derive(Debug, PartialEq)]
pub struct EntrypointDataView {
    pub entrypoint_name: String,
    pub entrypoint_generator: Option<(EntrypointId, String)>,
    pub entrypoint_type: SearchResultEntrypointType,
    pub actions: Vec<EntrypointActionDataView>,
}

/// Mathematical image of an `EntrypointDataView`.
pub ghost struct EntrypointViewModel {
    pub entrypoint_name: Seq<char>,
    pub entrypoint_generator: Option<(Seq<char>, Seq<char>)>,
    pub entrypoint_type: SearchResultEntrypointType,
    pub actions: Seq<StoreActionModel>,
}

impl View for EntrypointDataView {
    type V = EntrypointViewModel;

    open spec fn view(&self) -> EntrypointViewModel {
        EntrypointViewModel {
            entrypoint_name: self.entrypoint_name@,
            entrypoint_generator: generator_option_view(self.entrypoint_generator),
            entrypoint_type: self.entrypoint_type,
            actions: self.actions.deep_view(),
        }
    }
}

/// One plugin of the read-only introspection view.
#[derive(Debug, PartialEq)]
pub struct PluginDataView {
    pub plugin_name: String,
    pub entrypoints: Vec<(EntrypointId, EntrypointDataView)>,
}

/// The view describes the entrypoint: the fields suitable for display
/// equal the stored ones.
pub open spec fn entry_view_matches(em: EntrypointModel, ev: EntrypointViewModel) -> bool {
    &&& ev.entrypoint_name == em.entrypoint_name
    &&& ev.entrypoint_generator == em.entrypoint_generator
    &&& ev.entrypoint_type == em.entrypoint_type
    &&& ev.actions == em.actions
}

/// The view describes the plugin: the name equals the stored one, and the
/// listed entrypoints are exactly the stored ones, each described.
pub open spec fn plugin_view_matches(pm: PluginModel, v: PluginDataView) -> bool {
    &&& v.plugin_name@ == pm.name
    &&& forall|j: int, l: int|
        0 <= j < l < v.entrypoints@.len() ==> v.entrypoints@[j].0@ != v.entrypoints@[l].0@
    &&& forall|j: int|
        0 <= j < v.entrypoints@.len() ==> pm.entrypoints.contains_key(
            (#[trigger] v.entrypoints@[j]).0@,
        ) && entry_view_matches(pm.entrypoints[v.entrypoints@[j].0@], v.entrypoints@[j].1@)
    &&& forall|e: Seq<char>|
        pm.entrypoints.contains_key(e) ==> exists|j: int|
            0 <= j < v.entrypoints@.len() && (#[trigger] v.entrypoints@[j]).0@ == e
}

/// The dump describes the store: one view per stored plugin, each
/// described, and no other.
pub open spec fn dump_matches(
    plugins: Map<Seq<char>, PluginModel>,
    r: Seq<(PluginId, PluginDataView)>,
) -> bool {
    &&& forall|i: int, j: int| 0 <= i < j < r.len() ==> r[i].0@ != r[j].0@
    &&& forall|i: int|
        0 <= i < r.len() ==> plugins.contains_key((#[trigger] r[i]).0@) && plugin_view_matches(
            plugins[r[i].0@],
            r[i].1,
        )
    &&& forall|k: Seq<char>|
        plugins.contains_key(k) ==> exists|i: int| 0 <= i < r.len() && (#[trigger] r[i]).0@ == k
}

/// Copy the stored actions into the introspection view, ids and all.
fn clone_action_views(actions: &Vec<EntrypointActionData>) -> (r: Vec<EntrypointActionDataView>)
    ensures
        r.deep_view() == actions.deep_view(),
{
    let mut r: Vec<EntrypointActionDataView> = Vec::new();
    let mut i: usize = 0;
    while i < actions.len()
        invariant
            0 <= i <= actions@.len(),
            r@.len() == i,
            forall|j: int| 0 <= j < i ==> (#[trigger] r@[j])@ == actions@[j]@,
        decreases actions@.len() - i,
    {
        let a = &actions[i];
        r.push(
            EntrypointActionDataView {
                id: clone_string_option(&a.id),
                label: a.label.clone(),
                action_type: a.action_type,
                shortcut: clone_shortcut_option(&a.shortcut),
            },
        );
        i = i + 1;
    }
    proof {
        assert(r.deep_view() =~= actions.deep_view());
    }
    r
}

/// Copy one plugin's stored data into its introspection view.
fn clone_plugin_view(data: &PluginData) -> (r: PluginDataView)
    requires
        entries_distinct(data.entrypoints@),
    ensures
        plugin_view_matches(data@, r),
{
    let entries = &data.entrypoints;
    let mut out: Vec<(EntrypointId, EntrypointDataView)> = Vec::new();
    let mut j: usize = 0;
    while j < entries.len()
        invariant
            entries == &data.entrypoints,
            entries_distinct(data.entrypoints@),
            0 <= j <= entries@.len(),
            out@.len() == j,
            forall|l: int|
                0 <= l < j ==> (#[trigger] out@[l]).0@ == entries@[l].id@ && entry_view_matches(
                    entries@[l].data@,
                    out@[l].1@,
                ),
        decreases entries@.len() - j,
    {
        let entry = &entries[j];
        let d = &entry.data;
        let view = EntrypointDataView {
            entrypoint_name: d.entrypoint_name.clone(),
            entrypoint_generator: clone_generator_option(&d.entrypoint_generator),
            entrypoint_type: d.entrypoint_type,
            actions: clone_action_views(&d.actions),
        };
        out.push((entry.id.clone(), view));
        j = j + 1;
    }
    let r = PluginDataView { plugin_name: data.plugin_name.clone(), entrypoints: out };
    proof {
        assert forall|l: int| 0 <= l < r.entrypoints@.len() implies data@.entrypoints.contains_key(
            (#[trigger] r.entrypoints@[l]).0@,
        ) && entry_view_matches(
            data@.entrypoints[r.entrypoints@[l].0@],
            r.entrypoints@[l].1@,
        ) by {
            lemma_entries_map_index(data.entrypoints@, l);
        }
        assert forall|e: Seq<char>| data@.entrypoints.contains_key(e) implies exists|l: int|
            0 <= l < r.entrypoints@.len() && (#[trigger] r.entrypoints@[l]).0@ == e by {
            lemma_entries_map_key_has_index(data.entrypoints@, e);
            let l = choose|l: int|
                0 <= l < data.entrypoints@.len() && data.entrypoints@[l].id@ == e;
            assert(r.entrypoints@[l].0@ == e);
        }
    }
    r
}

impl MetadataStore {
    /// A read-only deep copy of everything the store holds, suitable for
    /// external inspection.
    pub fn snapshot_view(&self) -> (r: Vec<(PluginId, PluginDataView)>)
        requires
            self.wf(),
        ensures
            dump_matches(self@, r@),
    {
        let mut r: Vec<(PluginId, PluginDataView)> = Vec::new();
        let mut i: usize = 0;
        while i < self.plugins.len()
            invariant
                self.wf(),
                0 <= i <= self.plugins@.len(),
                r@.len() == i,
                forall|j: int|
                    0 <= j < i ==> (#[trigger] r@[j]).0@ == self.plugins@[j].id@
                        && plugin_view_matches(self.plugins@[j].data@, r@[j].1),
            decreases self.plugins@.len() - i,
        {
            let entry = &self.plugins[i];
            let view = clone_plugin_view(&entry.data);
            r.push((entry.id.clone(), view));
            i = i + 1;
        }
        proof {
            assert forall|j: int| 0 <= j < r@.len() implies self@.contains_key(
                (#[trigger] r@[j]).0@,
            ) && plugin_view_matches(self@[r@[j].0@], r@[j].1) by {
                lemma_plugins_map_index(self.plugins@, j);
            }
            assert forall|k: Seq<char>| self@.contains_key(k) implies exists|i2: int|
                0 <= i2 < r@.len() && (#[trigger] r@[i2]).0@ == k by {
                lemma_plugins_map_key_has_index(self.plugins@, k);
                let j = choose|j: int|
                    0 <= j < self.plugins@.len() && self.plugins@[j].id@ == k;
                assert(r@[j].0@ == k);
            }
        }
        r
    }
}

/// The entrypoint entry with the given identifier, if any.
fn find_entry<'a>(entries: &'a Vec<EntrypointEntry>, entrypoint_id: &EntrypointId) -> (r: Option<
    &'a EntrypointData,
>)
    requires
        entries_distinct(entries@),
    ensures
        match r {
            Some(d) => entries_map(entries@).contains_key(entrypoint_id@) && d@ == entries_map(
                entries@,
            )[entrypoint_id@],
            None => !entries_map(entries@).contains_key(entrypoint_id@),
        },
{
    let mut j: usize = 0;
    loop
        invariant
            entries_distinct(entries@),
            0 <= j <= entries@.len(),
            forall|l: int| 0 <= l < j ==> entries@[l].id@ != entrypoint_id@,
        decreases entries@.len() - j,
    {
        if j == entries.len() {
            proof {
                if entries_map(entries@).contains_key(entrypoint_id@) {
                    lemma_entries_map_key_has_index(entries@, entrypoint_id@);
                }
            }
            return None;
        }
        let entry = &entries[j];
        if entry.id.to_string() == entrypoint_id.to_string() {
            proof {
                lemma_entries_map_index(entries@, j as int);
            }
            return Some(&entry.data);
        }
        j = j + 1;
    }
}

} // verus!
