//! The shape of returned records and introspection views, and the small
//! client-side state types.

use std::cell::RefCell;
use std::rc::Rc;

use gauntlet_search::main_view::ACTION_PANEL_VISIBLE_ITEMS;
use gauntlet_search::main_view::ESTIMATED_ACTION_ITEM_HEIGHT;
use gauntlet_search::main_view::MainViewState;
use gauntlet_search::model::EntrypointId;
use gauntlet_search::model::PhysicalShortcut;
use gauntlet_search::model::PluginId;
use gauntlet_search::model::SearchIndexItem;
use gauntlet_search::model::SearchIndexItemAction;
use gauntlet_search::model::SearchIndexItemActionActionType;
use gauntlet_search::model::SearchResultAccessory;
use gauntlet_search::model::SearchResultEntrypointActionType;
use gauntlet_search::model::SearchResultEntrypointType;
use gauntlet_search::search::Notifier;
use gauntlet_search::search::SearchIndex;
use gauntlet_search::theme::GridStyle;
use gauntlet_search::theme::RowStyle;

struct SilentNotifier;

impl Notifier for SilentNotifier {
    fn notify_results_changed(&mut self, _plugin_id: &PluginId) {}
}

fn frecency_key(f: f64) -> u64 {
    let b = f.to_bits();
    if b & (1u64 << 63) != 0 {
        !b
    } else {
        b | (1u64 << 63)
    }
}

fn rich_item() -> SearchIndexItem {
    SearchIndexItem {
        entrypoint_type: SearchResultEntrypointType::Generated,
        entrypoint_name: "Generated Entry".to_string(),
        entrypoint_generator: Some((
            EntrypointId::from_string("the-generator".to_string()),
            "The Generator".to_string(),
        )),
        entrypoint_id: EntrypointId::from_string("generated-1".to_string()),
        entrypoint_icon: Some(vec![1u8, 2, 3, 4]),
        entrypoint_frecency: frecency_key(0.75),
        entrypoint_actions: vec![
            SearchIndexItemAction {
                id: Some("primary".to_string()),
                label: "Run".to_string(),
                action_type: SearchIndexItemActionActionType::Command,
                shortcut: Some(PhysicalShortcut {
                    physical_key: "KeyR".to_string(),
                    modifier_shift: false,
                    modifier_control: true,
                    modifier_alt: false,
                    modifier_meta: false,
                }),
            },
            SearchIndexItemAction {
                id: None,
                label: "Preview".to_string(),
                action_type: SearchIndexItemActionActionType::View,
                shortcut: None,
            },
        ],
        entrypoint_accessories: vec![SearchResultAccessory {
            text: Some("badge".to_string()),
            icon: None,
            tooltip: Some("a badge".to_string()),
        }],
    }
}

#[test]
fn returned_record_joins_all_metadata() {
    let mut index = SearchIndex::create_index(SilentNotifier).expect("index creation works");
    index
        .save_for_plugin(
            PluginId::from_string("rich".to_string()),
            "Rich Plugin".to_string(),
            vec![rich_item()],
            false,
        )
        .expect("saving works");

    let results = index.search("generated").expect("searching works");
    assert_eq!(results.len(), 1);
    let r = &results[0];

    assert_eq!(r.entrypoint_type, SearchResultEntrypointType::Generated);
    assert_eq!(r.entrypoint_name, "Generated Entry");
    assert_eq!(r.entrypoint_generator_name, Some("The Generator".to_string()));
    assert_eq!(r.entrypoint_id.to_string(), "generated-1");
    assert_eq!(r.entrypoint_icon, Some(vec![1u8, 2, 3, 4]));
    assert_eq!(r.plugin_name, "Rich Plugin");
    assert_eq!(r.plugin_id.to_string(), "rich");

    assert_eq!(r.entrypoint_actions.len(), 2);
    assert_eq!(r.entrypoint_actions[0].label, "Run");
    assert_eq!(
        r.entrypoint_actions[0].action_type,
        SearchResultEntrypointActionType::Command
    );
    let shortcut = r.entrypoint_actions[0].shortcut.as_ref().expect("shortcut kept");
    assert_eq!(shortcut.physical_key, "KeyR");
    assert!(shortcut.modifier_control);
    assert!(!shortcut.modifier_shift);
    assert_eq!(r.entrypoint_actions[1].label, "Preview");
    assert_eq!(r.entrypoint_actions[1].action_type, SearchResultEntrypointActionType::View);
    assert!(r.entrypoint_actions[1].shortcut.is_none());

    assert_eq!(r.entrypoint_accessories.len(), 1);
    assert_eq!(r.entrypoint_accessories[0].text, Some("badge".to_string()));
    assert_eq!(r.entrypoint_accessories[0].icon, None);
    assert_eq!(r.entrypoint_accessories[0].tooltip, Some("a badge".to_string()));
}

#[test]
fn introspection_view_keeps_action_ids() {
    let mut index = SearchIndex::create_index(SilentNotifier).expect("index creation works");
    index
        .save_for_plugin(
            PluginId::from_string("rich".to_string()),
            "Rich Plugin".to_string(),
            vec![rich_item()],
            false,
        )
        .expect("saving works");

    let data = index.plugin_entrypoint_data();
    assert_eq!(data.len(), 1);
    assert_eq!(data[0].0.to_string(), "rich");
    let plugin = &data[0].1;
    assert_eq!(plugin.plugin_name, "Rich Plugin");
    assert_eq!(plugin.entrypoints.len(), 1);
    let (eid, entry) = &plugin.entrypoints[0];
    assert_eq!(eid.to_string(), "generated-1");
    assert_eq!(entry.entrypoint_name, "Generated Entry");
    assert_eq!(entry.entrypoint_type, SearchResultEntrypointType::Generated);
    let generator = entry.entrypoint_generator.as_ref().expect("generator kept");
    assert_eq!(generator.0.to_string(), "the-generator");
    assert_eq!(generator.1, "The Generator");
    assert_eq!(entry.actions.len(), 2);
    assert_eq!(entry.actions[0].id, Some("primary".to_string()));
    assert_eq!(entry.actions[0].label, "Run");
    assert_eq!(entry.actions[1].id, None);
}

#[test]
fn notifier_receives_the_saving_plugin_id() {
    struct LogNotifier {
        log: Rc<RefCell<Vec<String>>>,
    }
    impl Notifier for LogNotifier {
        fn notify_results_changed(&mut self, plugin_id: &PluginId) {
            self.log.borrow_mut().push(plugin_id.to_string());
        }
    }
    let log = Rc::new(RefCell::new(Vec::new()));
    let mut index =
        SearchIndex::create_index(LogNotifier { log: log.clone() }).expect("index creation works");
    index
        .save_for_plugin(
            PluginId::from_string("announcer".to_string()),
            "Announcer".to_string(),
            Vec::new(),
            true,
        )
        .expect("saving works");
    assert_eq!(log.borrow().clone(), vec!["announcer".to_string()]);
}

#[test]
fn main_view_state_starts_closed() {
    let state = MainViewState::new();
    assert!(matches!(state, MainViewState::Closed));
}

#[test]
fn main_view_state_returns_to_initial() {
    let mut state = MainViewState::new();
    MainViewState::search_result_action_panel(&mut state, true);
    MainViewState::initial(&mut state);
    assert!(matches!(state, MainViewState::Closed));
}

#[test]
fn search_result_action_panel_focuses_first_item_on_request() {
    let mut state = MainViewState::new();
    MainViewState::search_result_action_panel(&mut state, true);
    match state {
        MainViewState::SearchResultActionPanel { focused_action_item } => {
            assert_eq!(focused_action_item.focused_index, Some(0));
            assert_eq!(focused_action_item.item_height, ESTIMATED_ACTION_ITEM_HEIGHT);
            assert_eq!(focused_action_item.rows_per_view, ACTION_PANEL_VISIBLE_ITEMS);
        }
        _ => panic!("expected the search result action panel"),
    }
}

#[test]
fn inline_result_action_panel_can_leave_focus_unset() {
    let mut state = MainViewState::new();
    MainViewState::inline_result_action_panel(&mut state, false);
    match state {
        MainViewState::InlineViewActionPanel { focused_action_item } => {
            assert_eq!(focused_action_item.focused_index, None);
        }
        _ => panic!("expected the inline view action panel"),
    }
}

#[test]
fn theme_style_kinds_are_distinct() {
    assert_eq!(GridStyle::Default, GridStyle::Default);
    assert_ne!(RowStyle::ActionShortcut, RowStyle::FormInput);
    assert_ne!(RowStyle::RootTopPanel, RowStyle::RootBottomPanel);
    let all = [
        RowStyle::ActionShortcut,
        RowStyle::FormInput,
        RowStyle::ListFirstSectionTitle,
        RowStyle::ListSectionTitle,
        RowStyle::GridFirstSectionTitle,
        RowStyle::GridSectionTitle,
        RowStyle::GridItemTitle,
        RowStyle::RootBottomPanel,
        RowStyle::RootTopPanel,
    ];
    assert_eq!(all.len(), 9);
}
