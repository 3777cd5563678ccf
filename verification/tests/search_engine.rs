//! End-to-end behaviour of the search engine: saving, removing, searching,
//! matching, ranking and pagination, against the real index underneath.

use std::cell::RefCell;
use std::rc::Rc;

use gauntlet_search::model::EntrypointId;
use gauntlet_search::model::PluginId;
use gauntlet_search::model::SearchIndexItem;
use gauntlet_search::model::SearchIndexItemAction;
use gauntlet_search::model::SearchIndexItemActionActionType;
use gauntlet_search::model::SearchResult;
use gauntlet_search::model::SearchResultEntrypointType;
use gauntlet_search::search::Notifier;
use gauntlet_search::search::SearchIndex;
use gauntlet_search::text_index::MAX_ID_BYTES;
use gauntlet_search::text_index::id_fits_term_limit;

/// A notifier that records which plugin asked for a refresh.
struct RecordingNotifier {
    log: Rc<RefCell<Vec<String>>>,
}

impl Notifier for RecordingNotifier {
    fn notify_results_changed(&mut self, plugin_id: &PluginId) {
        self.log.borrow_mut().push(plugin_id.to_string());
    }
}

fn new_index() -> (SearchIndex<RecordingNotifier>, Rc<RefCell<Vec<String>>>) {
    let log = Rc::new(RefCell::new(Vec::new()));
    let notifier = RecordingNotifier { log: log.clone() };
    let index = SearchIndex::create_index(notifier).expect("creating an in-memory index works");
    (index, log)
}

/// The frecency order key of a float score: a bijection into `u64` whose
/// `<` agrees with `f64::total_cmp`.
fn frecency_key(f: f64) -> u64 {
    let b = f.to_bits();
    if b & (1u64 << 63) != 0 {
        !b
    } else {
        b | (1u64 << 63)
    }
}

fn item(id: &str, name: &str, frecency: f64) -> SearchIndexItem {
    SearchIndexItem {
        entrypoint_type: SearchResultEntrypointType::Command,
        entrypoint_name: name.to_string(),
        entrypoint_generator: None,
        entrypoint_id: EntrypointId::from_string(id.to_string()),
        entrypoint_icon: None,
        entrypoint_frecency: frecency_key(frecency),
        entrypoint_actions: Vec::new(),
        entrypoint_accessories: Vec::new(),
    }
}

fn save(
    index: &mut SearchIndex<RecordingNotifier>,
    plugin_id: &str,
    plugin_name: &str,
    items: Vec<SearchIndexItem>,
) {
    index
        .save_for_plugin(
            PluginId::from_string(plugin_id.to_string()),
            plugin_name.to_string(),
            items,
            false,
        )
        .expect("saving into an in-memory index works");
}

fn search(index: &SearchIndex<RecordingNotifier>, query: &str) -> Vec<SearchResult> {
    index.search(query).expect("searching an in-memory index works")
}

fn result_ids(results: &[SearchResult]) -> Vec<(String, String)> {
    results
        .iter()
        .map(|r| (r.plugin_id.to_string(), r.entrypoint_id.to_string()))
        .collect()
}

#[test]
fn plugin_id_term_limit_is_checked_in_bytes() {
    let short = PluginId::from_string("dev-tools".to_string());
    assert!(id_fits_term_limit(&short));
    let at_limit = PluginId::from_string("a".repeat(MAX_ID_BYTES));
    assert!(id_fits_term_limit(&at_limit));
    let over_limit = PluginId::from_string("a".repeat(MAX_ID_BYTES + 1));
    assert!(!id_fits_term_limit(&over_limit));
    // three bytes per character: the bound counts bytes, not characters
    let wide = PluginId::from_string("\u{20AC}".repeat(MAX_ID_BYTES / 3 + 1));
    assert!(!id_fits_term_limit(&wide));
}

#[test]
fn fresh_index_answers_nothing() {
    let (index, _log) = new_index();
    assert!(search(&index, "").is_empty());
    assert!(search(&index, "anything").is_empty());
    assert!(index.plugin_entrypoint_data().is_empty());
    assert!(index.healthy());
}

#[test]
fn substring_matching() {
    let (mut index, _log) = new_index();
    save(
        &mut index,
        "dev-tools",
        "Dev Tools",
        vec![item("open-terminal", "Open Terminal", 0.5)],
    );

    let by_name = search(&index, "term");
    assert_eq!(result_ids(&by_name), vec![("dev-tools".to_string(), "open-terminal".to_string())]);
    assert_eq!(by_name[0].entrypoint_name, "Open Terminal");
    assert_eq!(by_name[0].plugin_name, "Dev Tools");

    let by_plugin = search(&index, "dev");
    assert_eq!(
        result_ids(&by_plugin),
        vec![("dev-tools".to_string(), "open-terminal".to_string())]
    );

    assert!(search(&index, "xyz").is_empty());
}

#[test]
fn matching_is_case_insensitive() {
    let (mut index, _log) = new_index();
    save(
        &mut index,
        "dev-tools",
        "Dev Tools",
        vec![item("open-terminal", "Open Terminal", 0.5)],
    );
    assert_eq!(search(&index, "TERM").len(), 1);
    assert_eq!(search(&index, "Terminal").len(), 1);
    assert_eq!(search(&index, "DEV").len(), 1);
}

#[test]
fn all_terms_must_match_within_one_field_group() {
    let (mut index, _log) = new_index();
    save(
        &mut index,
        "files",
        "File Manager",
        vec![
            item("open-downloads", "Open Downloads", 0.5),
            item("open-documents", "Open Documents", 0.5),
        ],
    );
    let both = search(&index, "open down");
    assert_eq!(result_ids(&both), vec![("files".to_string(), "open-downloads".to_string())]);
    assert!(search(&index, "open nowhere").is_empty());
}

#[test]
fn empty_query_returns_everything() {
    let (mut index, _log) = new_index();
    save(
        &mut index,
        "alpha",
        "Alpha",
        vec![item("a1", "First", 0.1), item("a2", "Second", 0.2), item("a3", "Third", 0.3)],
    );
    save(&mut index, "beta", "Beta", vec![item("b1", "Fourth", 0.4), item("b2", "Fifth", 0.5)]);

    let all = search(&index, "");
    assert_eq!(all.len(), 5);
    let mut ids = result_ids(&all);
    ids.sort();
    assert_eq!(
        ids,
        vec![
            ("alpha".to_string(), "a1".to_string()),
            ("alpha".to_string(), "a2".to_string()),
            ("alpha".to_string(), "a3".to_string()),
            ("beta".to_string(), "b1".to_string()),
            ("beta".to_string(), "b2".to_string()),
        ]
    );
}

#[test]
fn punctuation_only_query_matches_everything() {
    let (mut index, _log) = new_index();
    save(&mut index, "alpha", "Alpha", vec![item("a1", "First", 0.1), item("a2", "Second", 0.2)]);
    assert_eq!(search(&index, "!!! ...").len(), 2);
}

#[test]
fn pagination_is_exhaustive() {
    let (mut index, _log) = new_index();
    let items: Vec<SearchIndexItem> = (0..45)
        .map(|n| item(&format!("entry-{n}"), &format!("Common Entry {n}"), 0.01 * n as f64))
        .collect();
    save(&mut index, "bulk", "Bulk", items);

    let matched = search(&index, "common");
    assert_eq!(matched.len(), 45);
    let all = search(&index, "");
    assert_eq!(all.len(), 45);

    let mut ids: Vec<String> = matched.iter().map(|r| r.entrypoint_id.to_string()).collect();
    ids.sort();
    ids.dedup();
    assert_eq!(ids.len(), 45);
}

#[test]
fn ranking_is_by_frecency_descending() {
    let (mut index, _log) = new_index();
    save(
        &mut index,
        "plugin",
        "Plugin",
        vec![item("low", "Same Name Low", 0.1), item("high", "Same Name High", 0.9)],
    );

    let results = search(&index, "same name");
    assert_eq!(results.len(), 2);
    assert_eq!(results[0].entrypoint_id.to_string(), "high");
    assert_eq!(results[1].entrypoint_id.to_string(), "low");
}

#[test]
fn ranking_orders_negative_and_nan_scores_consistently() {
    let (mut index, _log) = new_index();
    save(
        &mut index,
        "plugin",
        "Plugin",
        vec![
            item("worst", "Entry Worst", -f64::NAN),
            item("bad", "Entry Bad", -2.5),
            item("good", "Entry Good", 0.5),
        ],
    );
    let results = search(&index, "entry");
    let ids: Vec<String> = results.iter().map(|r| r.entrypoint_id.to_string()).collect();
    assert_eq!(ids, vec!["good".to_string(), "bad".to_string(), "worst".to_string()]);
}

#[test]
fn replace_is_atomic() {
    let (mut index, _log) = new_index();
    save(
        &mut index,
        "plugin",
        "Plugin",
        vec![item("old-a", "Alpha Old", 0.5), item("old-b", "Bravo Old", 0.5)],
    );
    save(&mut index, "other", "Other", vec![item("o1", "Omega", 0.5)]);

    save(&mut index, "plugin", "Plugin", vec![item("new-c", "Charlie New", 0.5)]);

    assert!(search(&index, "alpha").is_empty());
    assert!(search(&index, "old").is_empty());
    assert_eq!(
        result_ids(&search(&index, "charlie")),
        vec![("plugin".to_string(), "new-c".to_string())]
    );

    let mut all = result_ids(&search(&index, ""));
    all.sort();
    assert_eq!(
        all,
        vec![
            ("other".to_string(), "o1".to_string()),
            ("plugin".to_string(), "new-c".to_string()),
        ]
    );
}

#[test]
fn removal_is_scoped() {
    let (mut index, _log) = new_index();
    save(&mut index, "doomed", "Doomed", vec![item("d1", "Doomed Entry", 0.5)]);
    save(&mut index, "kept", "Kept", vec![item("k1", "Kept Entry", 0.5)]);

    index
        .remove_for_plugin(PluginId::from_string("doomed".to_string()))
        .expect("removing from an in-memory index works");

    assert!(search(&index, "doomed").is_empty());
    assert_eq!(result_ids(&search(&index, "")), vec![("kept".to_string(), "k1".to_string())]);

    let data = index.plugin_entrypoint_data();
    assert_eq!(data.len(), 1);
    assert_eq!(data[0].0.to_string(), "kept");
    assert_eq!(data[0].1.plugin_name, "Kept");
    assert_eq!(data[0].1.entrypoints.len(), 1);
    assert_eq!(data[0].1.entrypoints[0].0.to_string(), "k1");
    assert_eq!(data[0].1.entrypoints[0].1.entrypoint_name, "Kept Entry");
}

#[test]
fn removing_an_unknown_plugin_is_a_no_op() {
    let (mut index, _log) = new_index();
    save(&mut index, "kept", "Kept", vec![item("k1", "Kept Entry", 0.5)]);
    index
        .remove_for_plugin(PluginId::from_string("never-seen".to_string()))
        .expect("removing an unknown plugin succeeds");
    assert_eq!(search(&index, "").len(), 1);
}

#[test]
fn saving_no_items_clears_the_plugin_from_search() {
    let (mut index, _log) = new_index();
    save(&mut index, "plugin", "Plugin", vec![item("e1", "Entry One", 0.5)]);
    save(&mut index, "plugin", "Plugin", Vec::new());

    assert!(search(&index, "").is_empty());
    let data = index.plugin_entrypoint_data();
    assert_eq!(data.len(), 1);
    assert!(data[0].1.entrypoints.is_empty());
}

#[test]
fn notification_fires_only_when_asked() {
    let (mut index, log) = new_index();
    index
        .save_for_plugin(
            PluginId::from_string("quiet".to_string()),
            "Quiet".to_string(),
            vec![item("q1", "Quiet Entry", 0.5)],
            false,
        )
        .expect("saving works");
    assert!(log.borrow().is_empty());

    index
        .save_for_plugin(
            PluginId::from_string("loud".to_string()),
            "Loud".to_string(),
            vec![item("l1", "Loud Entry", 0.5)],
            true,
        )
        .expect("saving works");
    assert_eq!(log.borrow().clone(), vec!["loud".to_string()]);
}

#[test]
fn two_plugins_saved_in_turn_both_complete() {
    let (mut index, _log) = new_index();
    save(&mut index, "first", "First Plugin", vec![item("f1", "First Entry", 0.5)]);
    save(&mut index, "second", "Second Plugin", vec![item("s1", "Second Entry", 0.5)]);
    assert!(index.healthy());
    assert_eq!(search(&index, "").len(), 2);
}

#[test]
fn searching_by_action_label_does_not_match() {
    let (mut index, _log) = new_index();
    let mut it = item("e1", "Plain Entry", 0.5);
    it.entrypoint_actions = vec![SearchIndexItemAction {
        id: Some("copy".to_string()),
        label: "Zebra Label".to_string(),
        action_type: SearchIndexItemActionActionType::Command,
        shortcut: None,
    }];
    save(&mut index, "plugin", "Plugin", vec![it]);
    assert!(search(&index, "zebra").is_empty());
    assert_eq!(search(&index, "plain").len(), 1);
}
