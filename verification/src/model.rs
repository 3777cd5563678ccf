//! The data model: plugin and entrypoint identities, the items a plugin
//! hands over for indexing, and the records a search returns.

use vstd::prelude::*;

verus! {

/// Opaque, stable identifier of a plugin; equality is by string value.
#[derive(Debug, PartialEq)]
pub struct PluginId {
    value: String,
}

impl View for PluginId {
    type V = Seq<char>;

    closed spec fn view(&self) -> Seq<char> {
        self.value@
    }
}

impl PluginId {
    pub fn from_string(value: String) -> (r: Self)
        ensures
            r@ == value@,
    {
        PluginId { value }
    }

    pub fn to_string(&self) -> (r: String)
        ensures
            r@ == self@,
    {
        self.value.clone()
    }
}

impl Clone for PluginId {
    fn clone(&self) -> (r: Self)
        ensures
            r@ == self@,
    {
        PluginId { value: self.value.clone() }
    }
}

/// Opaque, stable identifier of one entrypoint within a plugin.
#[derive(Debug, PartialEq)]
pub struct EntrypointId {
    value: String,
}

impl View for EntrypointId {
    type V = Seq<char>;

    closed spec fn view(&self) -> Seq<char> {
        self.value@
    }
}

impl EntrypointId {
    pub fn from_string(value: String) -> (r: Self)
        ensures
            r@ == value@,
    {
        EntrypointId { value }
    }

    pub fn to_string(&self) -> (r: String)
        ensures
            r@ == self@,
    {
        self.value.clone()
    }
}

impl Clone for EntrypointId {
    fn clone(&self) -> (r: Self)
        ensures
            r@ == self@,
    {
        EntrypointId { value: self.value.clone() }
    }
}

/// What kind of entrypoint a plugin contributed.
#[derive(Clone, Copy, Debug, PartialEq, Eq, Structural)]
pub enum SearchResultEntrypointType {
    Command,
    View,
    InlineView,
    Generated,
}

/// Action vocabulary used by the items a plugin hands over for indexing.
#[derive(Clone, Copy, Debug, PartialEq, Eq, Structural)]
pub enum SearchIndexItemActionActionType {
    Command,
    View,
}

/// Action vocabulary kept in the metadata store.
#[derive(Clone, Copy, Debug, PartialEq, Eq, Structural)]
pub enum EntrypointActionType {
    Command,
    View,
}

/// Action vocabulary of the records a search returns.
#[derive(Clone, Copy, Debug, PartialEq, Eq, Structural)]
pub enum SearchResultEntrypointActionType {
    Command,
    View,
}

/// A physical keyboard shortcut attached to an action.
#[derive(Debug, PartialEq)]
pub struct PhysicalShortcut {
    pub physical_key: String,
    pub modifier_shift: bool,
    pub modifier_control: bool,
    pub modifier_alt: bool,
    pub modifier_meta: bool,
}

/// Mathematical image of a `PhysicalShortcut`.
pub ghost struct ShortcutModel {
    pub physical_key: Seq<char>,
    pub modifier_shift: bool,
    pub modifier_control: bool,
    pub modifier_alt: bool,
    pub modifier_meta: bool,
}

impl View for PhysicalShortcut {
    type V = ShortcutModel;

    open spec fn view(&self) -> ShortcutModel {
        ShortcutModel {
            physical_key: self.physical_key@,
            modifier_shift: self.modifier_shift,
            modifier_control: self.modifier_control,
            modifier_alt: self.modifier_alt,
            modifier_meta: self.modifier_meta,
        }
    }
}

impl Clone for PhysicalShortcut {
    fn clone(&self) -> (r: Self)
        ensures
            r@ == self@,
    {
        PhysicalShortcut {
            physical_key: self.physical_key.clone(),
            modifier_shift: self.modifier_shift,
            modifier_control: self.modifier_control,
            modifier_alt: self.modifier_alt,
            modifier_meta: self.modifier_meta,
        }
    }
}

/// A small badge shown next to a search result.
#[derive(Debug, PartialEq)]
pub struct SearchResultAccessory {
    pub text: Option<String>,
    pub icon: Option<String>,
    pub tooltip: Option<String>,
}

/// Mathematical image of a `SearchResultAccessory`.
pub ghost struct AccessoryModel {
    pub text: Option<Seq<char>>,
    pub icon: Option<Seq<char>>,
    pub tooltip: Option<Seq<char>>,
}

pub open spec fn string_option_view(o: Option<String>) -> Option<Seq<char>> {
    match o {
        Some(s) => Some(s@),
        None => None,
    }
}

impl View for SearchResultAccessory {
    type V = AccessoryModel;

    open spec fn view(&self) -> AccessoryModel {
        AccessoryModel {
            text: string_option_view(self.text),
            icon: string_option_view(self.icon),
            tooltip: string_option_view(self.tooltip),
        }
    }
}

pub fn clone_string_option(o: &Option<String>) -> (r: Option<String>)
    ensures
        string_option_view(r) == string_option_view(*o),
{
    match o {
        Some(s) => Some(s.clone()),
        None => None,
    }
}

impl Clone for SearchResultAccessory {
    fn clone(&self) -> (r: Self)
        ensures
            r@ == self@,
    {
        SearchResultAccessory {
            text: clone_string_option(&self.text),
            icon: clone_string_option(&self.icon),
            tooltip: clone_string_option(&self.tooltip),
        }
    }
}

/// One action attached to an item a plugin hands over for indexing.
#[derive(Debug, PartialEq)]
pub struct SearchIndexItemAction {
    pub id: Option<String>,
    pub label: String,
    pub action_type: SearchIndexItemActionActionType,
    pub shortcut: Option<PhysicalShortcut>,
}

/// Mathematical image of a `SearchIndexItemAction`.
pub ghost struct ActionModel {
    pub id: Option<Seq<char>>,
    pub label: Seq<char>,
    pub action_type: SearchIndexItemActionActionType,
    pub shortcut: Option<ShortcutModel>,
}

pub open spec fn shortcut_option_view(o: Option<PhysicalShortcut>) -> Option<ShortcutModel> {
    match o {
        Some(s) => Some(s@),
        None => None,
    }
}

impl View for SearchIndexItemAction {
    type V = ActionModel;

    open spec fn view(&self) -> ActionModel {
        ActionModel {
            id: string_option_view(self.id),
            label: self.label@,
            action_type: self.action_type,
            shortcut: shortcut_option_view(self.shortcut),
        }
    }
}

pub fn clone_shortcut_option(o: &Option<PhysicalShortcut>) -> (r: Option<PhysicalShortcut>)
    ensures
        shortcut_option_view(r) == shortcut_option_view(*o),
{
    match o {
        Some(s) => Some(s.clone()),
        None => None,
    }
}

impl Clone for SearchIndexItemAction {
    fn clone(&self) -> (r: Self)
        ensures
            r@ == self@,
    {
        SearchIndexItemAction {
            id: clone_string_option(&self.id),
            label: self.label.clone(),
            action_type: self.action_type,
            shortcut: clone_shortcut_option(&self.shortcut),
        }
    }
}

/// One item a plugin hands over to be indexed: the text that goes into the
/// index together with the descriptive data kept in the metadata store.
///
/// `entrypoint_frecency` is an order key: an externally computed popularity
/// score mapped to an unsigned integer whose `<` agrees with the intended
/// ranking order (larger means ranked higher).
#[derive(Debug, PartialEq)]
pub struct SearchIndexItem {
    pub entrypoint_type: SearchResultEntrypointType,
    pub entrypoint_name: String,
    pub entrypoint_generator: Option<(EntrypointId, String)>,
    pub entrypoint_id: EntrypointId,
    pub entrypoint_icon: Option<Vec<u8>>,
    pub entrypoint_frecency: u64,
    pub entrypoint_actions: Vec<SearchIndexItemAction>,
    pub entrypoint_accessories: Vec<SearchResultAccessory>,
}

/// Mathematical image of a `SearchIndexItem`.
pub ghost struct ItemModel {
    pub entrypoint_type: SearchResultEntrypointType,
    pub entrypoint_name: Seq<char>,
    pub entrypoint_generator: Option<(Seq<char>, Seq<char>)>,
    pub entrypoint_id: Seq<char>,
    pub entrypoint_icon: Option<Seq<u8>>,
    pub entrypoint_frecency: u64,
    pub entrypoint_actions: Seq<ActionModel>,
    pub entrypoint_accessories: Seq<AccessoryModel>,
}

pub open spec fn generator_option_view(
    o: Option<(EntrypointId, String)>,
) -> Option<(Seq<char>, Seq<char>)> {
    match o {
        Some(g) => Some((g.0@, g.1@)),
        None => None,
    }
}

pub open spec fn icon_option_view(o: Option<Vec<u8>>) -> Option<Seq<u8>> {
    match o {
        Some(b) => Some(b@),
        None => None,
    }
}

impl DeepView for SearchIndexItem {
    type V = ItemModel;

    open spec fn deep_view(&self) -> ItemModel {
        self.view()
    }
}

impl View for SearchIndexItem {
    type V = ItemModel;

    open spec fn view(&self) -> ItemModel {
        ItemModel {
            entrypoint_type: self.entrypoint_type,
            entrypoint_name: self.entrypoint_name@,
            entrypoint_generator: generator_option_view(self.entrypoint_generator),
            entrypoint_id: self.entrypoint_id@,
            entrypoint_icon: icon_option_view(self.entrypoint_icon),
            entrypoint_frecency: self.entrypoint_frecency,
            entrypoint_actions: self.entrypoint_actions.deep_view(),
            entrypoint_accessories: self.entrypoint_accessories.deep_view(),
        }
    }
}

impl DeepView for SearchIndexItemAction {
    type V = ActionModel;

    open spec fn deep_view(&self) -> ActionModel {
        self.view()
    }
}

impl DeepView for SearchResultAccessory {
    type V = AccessoryModel;

    open spec fn deep_view(&self) -> AccessoryModel {
        self.view()
    }
}

/// One action on a returned search record; the internal action id is not
/// part of what a search returns.
#[derive(Debug, PartialEq)]
pub struct SearchResultEntrypointAction {
    pub action_type: SearchResultEntrypointActionType,
    pub label: String,
    pub shortcut: Option<PhysicalShortcut>,
}

/// Mathematical image of a `SearchResultEntrypointAction`.
pub ghost struct ResultActionModel {
    pub action_type: SearchResultEntrypointActionType,
    pub label: Seq<char>,
    pub shortcut: Option<ShortcutModel>,
}

impl View for SearchResultEntrypointAction {
    type V = ResultActionModel;

    open spec fn view(&self) -> ResultActionModel {
        ResultActionModel {
            action_type: self.action_type,
            label: self.label@,
            shortcut: shortcut_option_view(self.shortcut),
        }
    }
}

impl DeepView for SearchResultEntrypointAction {
    type V = ResultActionModel;

    open spec fn deep_view(&self) -> ResultActionModel {
        self.view()
    }
}

/// One record of a search answer, ready for display.
#[derive(Debug, PartialEq)]
pub struct SearchResult {
    pub entrypoint_type: SearchResultEntrypointType,
    pub entrypoint_name: String,
    pub entrypoint_generator_name: Option<String>,
    pub entrypoint_id: EntrypointId,
    pub entrypoint_icon: Option<Vec<u8>>,
    pub plugin_name: String,
    pub plugin_id: PluginId,
    pub entrypoint_actions: Vec<SearchResultEntrypointAction>,
    pub entrypoint_accessories: Vec<SearchResultAccessory>,
}

/// Mathematical image of a `SearchResult`.
pub ghost struct ResultModel {
    pub entrypoint_type: SearchResultEntrypointType,
    pub entrypoint_name: Seq<char>,
    pub entrypoint_generator_name: Option<Seq<char>>,
    pub entrypoint_id: Seq<char>,
    pub entrypoint_icon: Option<Seq<u8>>,
    pub plugin_name: Seq<char>,
    pub plugin_id: Seq<char>,
    pub entrypoint_actions: Seq<ResultActionModel>,
    pub entrypoint_accessories: Seq<AccessoryModel>,
}

impl DeepView for SearchResult {
    type V = ResultModel;

    open spec fn deep_view(&self) -> ResultModel {
        self.view()
    }
}

impl View for SearchResult {
    type V = ResultModel;

    open spec fn view(&self) -> ResultModel {
        ResultModel {
            entrypoint_type: self.entrypoint_type,
            entrypoint_name: self.entrypoint_name@,
            entrypoint_generator_name: string_option_view(self.entrypoint_generator_name),
            entrypoint_id: self.entrypoint_id@,
            entrypoint_icon: icon_option_view(self.entrypoint_icon),
            plugin_name: self.plugin_name@,
            plugin_id: self.plugin_id@,
            entrypoint_actions: self.entrypoint_actions.deep_view(),
            entrypoint_accessories: self.entrypoint_accessories.deep_view(),
        }
    }
}

/// Copy an optional generator back-reference.
pub fn clone_generator_option(o: &Option<(EntrypointId, String)>) -> (r: Option<
    (EntrypointId, String),
>)
    ensures
        generator_option_view(r) == generator_option_view(*o),
{
    match o {
        Some(g) => Some((g.0.clone(), g.1.clone())),
        None => None,
    }
}

/// Copy an optional icon byte payload.
pub fn clone_icon_option(o: &Option<Vec<u8>>) -> (r: Option<Vec<u8>>)
    ensures
        icon_option_view(r) == icon_option_view(*o),
{
    match o {
        Some(b) => Some(clone_bytes(b)),
        None => None,
    }
}

/// Copy a byte payload.
pub fn clone_bytes(b: &Vec<u8>) -> (r: Vec<u8>)
    ensures
        r@ == b@,
{
    let mut r: Vec<u8> = Vec::new();
    let mut i: usize = 0;
    while i < b.len()
        invariant
            0 <= i <= b@.len(),
            r@ == b@.take(i as int),
        decreases b@.len() - i,
    {
        r.push(b[i]);
        proof {
            assert(r@ =~= b@.take(i + 1));
        }
        i = i + 1;
    }
    proof {
        assert(b@.take(b@.len() as int) =~= b@);
    }
    r
}

/// Copy the accessory badges of an item.
pub fn clone_accessories(a: &Vec<SearchResultAccessory>) -> (r: Vec<
    SearchResultAccessory,
>)
    ensures
        r.deep_view() == a.deep_view(),
{
    let mut r: Vec<SearchResultAccessory> = Vec::new();
    let mut i: usize = 0;
    while i < a.len()
        invariant
            0 <= i <= a@.len(),
            r@.len() == i,
            forall|j: int| 0 <= j < i ==> (#[trigger] r@[j])@ == a@[j]@,
        decreases a@.len() - i,
    {
        let x = a[i].clone();
        r.push(x);
        i = i + 1;
    }
    proof {
        assert(r.deep_view() =~= a.deep_view());
    }
    r
}

} // verus!
