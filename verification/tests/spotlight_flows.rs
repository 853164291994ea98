use grinta::bridge::OneShotBridge;
use grinta::predicate::{
    build_predicate_parts, exclude_system_clause, extension_clause, folder_clause, search_clause,
    search_term,
};
use grinta::spotlight::{
    completion_event_name, payload_matches, query_id_string, SpotlightAppInfo, SpotlightState,
    MAX_SPOTLIGHT_RESULTS,
};

fn item(tag: usize) -> SpotlightAppInfo {
    SpotlightAppInfo {
        path: format!("/Applications/App{}.app", tag),
        display_name: format!("App{}", tag),
        content_type: "com.apple.application-bundle".to_string(),
    }
}

#[test]
fn registry_caps_each_buffer_at_the_maximum() {
    let mut state = SpotlightState::new();
    state.register(7);
    for i in 0..MAX_SPOTLIGHT_RESULTS {
        assert!(state.add_result(7, item(i)));
    }
    assert!(!state.add_result(7, item(1000)));
    let results = state.take_results(7);
    assert_eq!(results.len(), MAX_SPOTLIGHT_RESULTS);
    assert_eq!(results[0].display_name, "App0");
    assert_eq!(results[99].display_name, "App99");
    // The entry is gone once taken.
    assert_eq!(state.take_results(7).len(), 0);
}

#[test]
fn registry_ignores_unregistered_queries() {
    let mut state = SpotlightState::new();
    assert!(!state.add_result(5, item(0)));
    assert_eq!(state.take_results(5).len(), 0);
}

#[test]
fn registering_again_resets_the_buffer() {
    let mut state = SpotlightState::new();
    state.register(3);
    assert!(state.add_result(3, item(0)));
    state.register(3);
    assert_eq!(state.take_results(3).len(), 0);
}

#[test]
fn registry_keeps_queries_apart() {
    let mut state = SpotlightState::new();
    state.register(1);
    state.register(2);
    assert!(state.add_result(1, item(10)));
    assert!(state.add_result(2, item(20)));
    assert!(state.add_result(1, item(11)));
    let one = state.take_results(1);
    assert_eq!(one.len(), 2);
    assert_eq!(one[1].display_name, "App11");
    let two = state.take_results(2);
    assert_eq!(two.len(), 1);
    assert_eq!(two[0].display_name, "App20");
}

#[test]
fn query_identifiers_carry_the_timestamp() {
    assert_eq!(query_id_string(0), "query_0");
    assert_eq!(query_id_string(1234567890123), "query_1234567890123");
}

#[test]
fn completion_payload_matching_strips_quotes() {
    assert!(payload_matches("\"query_5\"", "query_5"));
    assert!(payload_matches("query_5", "query_5"));
    assert!(!payload_matches("\"query_6\"", "query_5"));
    assert_eq!(completion_event_name(), "spotlight-search-complete");
}

#[test]
fn one_shot_bridge_delivers_at_most_once() {
    let mut bridge: OneShotBridge<bool> = OneShotBridge::new();
    assert!(bridge.deliver(true));
    assert!(!bridge.deliver(false));
    assert_eq!(bridge.take(), Some(true));
    assert_eq!(bridge.take(), None);
    assert!(!bridge.deliver(false));
}

#[test]
fn predicate_clauses_are_exact() {
    assert_eq!(extension_clause("pdf"), "kMDItemDisplayName LIKE[c] 'pdf'");
    assert_eq!(
        search_clause("notes"),
        "kMDItemDisplayName CONTAINS[cd] 'notes'"
    );
    assert_eq!(
        folder_clause(),
        "kMDItemContentType == 'public.folder' AND NOT (kMDItemDisplayName CONTAINS[cd] '.')"
    );
    assert_eq!(
        exclude_system_clause(),
        "NOT (kMDItemSupportFileType == 'MDSystemFile')"
    );
}

#[test]
fn predicate_parts_cover_every_extension() {
    let extensions = vec!["pdf".to_string(), "md".to_string()];
    let parts = build_predicate_parts("report", &extensions);
    assert_eq!(parts.extension_clauses.len(), 2);
    assert_eq!(
        parts.extension_clauses[0],
        "kMDItemDisplayName LIKE[c] 'pdf'"
    );
    assert_eq!(parts.extension_clauses[1], "kMDItemDisplayName LIKE[c] 'md'");
    assert_eq!(
        parts.search_clause,
        "kMDItemDisplayName CONTAINS[cd] 'report'"
    );
    assert_eq!(
        parts.folder_clause,
        "kMDItemContentType == 'public.folder' AND NOT (kMDItemDisplayName CONTAINS[cd] '.')"
    );
    assert_eq!(
        parts.exclude_system_clause,
        "NOT (kMDItemSupportFileType == 'MDSystemFile')"
    );
}

#[test]
fn predicate_parts_with_no_extensions_or_query() {
    let parts = build_predicate_parts("", &Vec::new());
    assert!(parts.extension_clauses.is_empty());
    assert_eq!(parts.search_clause, "kMDItemDisplayName CONTAINS[cd] ''");
}

#[test]
fn absent_query_searches_for_empty_text() {
    assert_eq!(search_term(&Some("abc".to_string())), "abc");
    assert_eq!(search_term(&None), "");
}
