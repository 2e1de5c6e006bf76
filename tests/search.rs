use std::collections::HashMap;

use websurfx::blocklist::{is_match_from_filter_list, FilterRuleError};
use websurfx::cache_key::build_cache_key;
use websurfx::models::{SearchResult, SearchResults, SearchSettings, ServerConfig};
use websurfx::orchestrator::{
    combine_fanout, current_page, default_engines, is_blank_query, plan_search, prefetch_window,
    resolve_settings, settings_from_config, SearchPlan,
};
use websurfx::resolver::{ResolveAction, Resolution, SearchError};
use websurfx::safe_search::get_safesearch_level;

fn server() -> ServerConfig {
    ServerConfig {
        binding_ip: "127.0.0.1".to_string(),
        port: 8080,
        safe_search: 0,
        upstream_search_engines: vec![
            ("bing".to_string(), true),
            ("brave".to_string(), true),
            ("duckduckgo".to_string(), false),
        ],
        theme: "simple".to_string(),
        colorscheme: "catppuccin-mocha".to_string(),
        animation: None,
    }
}

fn settings(level: u8, engines: &[&str]) -> SearchSettings {
    SearchSettings {
        theme: "simple".to_string(),
        colorscheme: "catppuccin-mocha".to_string(),
        animation: None,
        engines: engines.iter().map(|e| e.to_string()).collect(),
        safe_search_level: level,
    }
}

fn one_result() -> SearchResults {
    let mut bundle = SearchResults::empty();
    bundle.results.push(SearchResult {
        title: "Sweden".to_string(),
        url: "https://en.wikipedia.org/wiki/Sweden".to_string(),
        description: "A country in northern Europe".to_string(),
        engines: vec!["bing".to_string()],
    });
    bundle
}

/// An in-memory cache, a blocklist and a counting aggregator stub.
struct Fakes {
    cache: HashMap<String, SearchResults>,
    rules: Vec<String>,
    upstream: Option<SearchResults>,
    aggregator_calls: usize,
    blocklist_reads: usize,
    cache_writes: usize,
}

impl Fakes {
    fn new(rules: &[&str], upstream: Option<SearchResults>) -> Fakes {
        Fakes {
            cache: HashMap::new(),
            rules: rules.iter().map(|r| r.to_string()).collect(),
            upstream,
            aggregator_calls: 0,
            blocklist_reads: 0,
            cache_writes: 0,
        }
    }

    fn resolve(
        &mut self,
        query: &str,
        page: u32,
        settings: &SearchSettings,
        server: &ServerConfig,
    ) -> Result<(SearchResults, String), SearchError> {
        let r = Resolution::new(query, page, settings, server);
        let mut action = r.after_cache_read(self.cache.get(&r.cache_key).cloned());
        loop {
            action = match action {
                ResolveAction::ReadBlocklist => {
                    self.blocklist_reads += 1;
                    r.after_blocklist(&self.rules)
                }
                ResolveAction::Aggregate => {
                    self.aggregator_calls += 1;
                    r.after_aggregate(self.upstream.clone().ok_or(()))
                }
                ResolveAction::WriteCache(bundle) => {
                    self.cache_writes += 1;
                    self.cache.insert(r.cache_key.clone(), bundle.clone());
                    r.after_cache_write(bundle, Ok(()))
                }
                ResolveAction::Done(bundle) => return Ok((bundle, r.cache_key.clone())),
                ResolveAction::Fail(e) => return Err(e),
            };
        }
    }
}

#[test]
fn request_level_three_or_more_gives_server_default() {
    assert_eq!(get_safesearch_level(&Some(1), &Some(3), 2), 2);
    assert_eq!(get_safesearch_level(&None, &Some(4), 1), 1);
    assert_eq!(get_safesearch_level(&Some(0), &Some(200), 0), 0);
}

#[test]
fn request_level_below_three_passes_through() {
    assert_eq!(get_safesearch_level(&Some(4), &Some(2), 4), 2);
    assert_eq!(get_safesearch_level(&None, &Some(0), 3), 0);
}

#[test]
fn stored_level_used_without_request_level() {
    assert_eq!(get_safesearch_level(&Some(4), &None, 0), 4);
    assert_eq!(get_safesearch_level(&None, &None, 3), 3);
}

#[test]
fn blocklist_first_matching_rule() {
    let rules = vec!["casino".to_string(), "b.t".to_string()];
    assert_eq!(is_match_from_filter_list(&rules, "a bet"), Ok(true));
    assert_eq!(is_match_from_filter_list(&rules, "online casino"), Ok(true));
    assert_eq!(is_match_from_filter_list(&rules, "sweden"), Ok(false));
}

#[test]
fn blocklist_empty_allows_everything() {
    assert_eq!(is_match_from_filter_list(&Vec::new(), "anything"), Ok(false));
}

#[test]
fn blocklist_malformed_line_fails() {
    let rules = vec!["fine".to_string(), "unclosed(".to_string(), "x".to_string()];
    assert_eq!(is_match_from_filter_list(&rules, "xyz"), Err(FilterRuleError { line: 1 }));
}

#[test]
fn blocklist_stops_at_first_match() {
    let rules = vec!["^xyz$".to_string(), "unclosed(".to_string()];
    assert_eq!(is_match_from_filter_list(&rules, "xyz"), Ok(true));
}

#[test]
fn blocklist_regex_semantics() {
    let rules = vec![r"^\d{3}$".to_string()];
    assert_eq!(is_match_from_filter_list(&rules, "123"), Ok(true));
    assert_eq!(is_match_from_filter_list(&rules, "1234"), Ok(false));
}

#[test]
fn cache_key_wire_format() {
    let engines = vec!["bing".to_string(), "brave".to_string()];
    let key = build_cache_key("127.0.0.1", 8080, "sweden", 0, 0, &engines);
    assert_eq!(key, "http://127.0.0.1:8080/search?q=sweden&page=0&safesearch=0&engines=bing,brave");
}

#[test]
fn cache_key_large_numbers_and_no_engines() {
    let key = build_cache_key("0.0.0.0", 65535, "a b", u32::MAX, 255, &Vec::new());
    assert_eq!(key, "http://0.0.0.0:65535/search?q=a b&page=4294967295&safesearch=255&engines=");
}

#[test]
fn cache_key_deterministic_and_input_sensitive() {
    let engines = vec!["bing".to_string(), "brave".to_string()];
    let base = build_cache_key("127.0.0.1", 8080, "sweden", 1, 0, &engines);
    assert_eq!(base, build_cache_key("127.0.0.1", 8080, "sweden", 1, 0, &engines));
    assert_ne!(base, build_cache_key("127.0.0.2", 8080, "sweden", 1, 0, &engines));
    assert_ne!(base, build_cache_key("127.0.0.1", 8081, "sweden", 1, 0, &engines));
    assert_ne!(base, build_cache_key("127.0.0.1", 8080, "norway", 1, 0, &engines));
    assert_ne!(base, build_cache_key("127.0.0.1", 8080, "sweden", 10, 0, &engines));
    assert_ne!(base, build_cache_key("127.0.0.1", 8080, "sweden", 1, 4, &engines));
    let reversed = vec!["brave".to_string(), "bing".to_string()];
    assert_ne!(base, build_cache_key("127.0.0.1", 8080, "sweden", 1, 0, &reversed));
}

#[test]
fn cache_key_engine_collision_with_commas() {
    let joined = vec!["a,b".to_string()];
    let split = vec!["a".to_string(), "b".to_string()];
    assert_eq!(
        build_cache_key("h", 1, "q", 0, 0, &joined),
        build_cache_key("h", 1, "q", 0, 0, &split)
    );
}

#[test]
fn blank_queries() {
    assert!(is_blank_query(""));
    assert!(is_blank_query(" \t\n"));
    assert!(is_blank_query("\u{3000}\u{a0}"));
    assert!(!is_blank_query(" sweden "));
}

#[test]
fn default_engines_keep_enabled_in_order() {
    let engines = default_engines(&server().upstream_search_engines);
    assert_eq!(engines, vec!["bing".to_string(), "brave".to_string()]);
}

#[test]
fn settings_from_server_config() {
    let s = settings_from_config(&server());
    assert_eq!(s, settings(0, &["bing", "brave"]));
}

#[test]
fn settings_prefer_stored_preferences() {
    let stored = settings(2, &["duckduckgo"]);
    let s = resolve_settings(Some(stored), None, &server());
    assert_eq!(s, settings(2, &["duckduckgo"]));
    let s = resolve_settings(Some(settings(2, &["duckduckgo"])), Some(4), &server());
    assert_eq!(s.safe_search_level, 0);
    let s = resolve_settings(None, Some(1), &server());
    assert_eq!(s, settings(1, &["bing", "brave"]));
}

#[test]
fn pages_are_zero_based_and_clamped() {
    assert_eq!(current_page(None), 0);
    assert_eq!(current_page(Some(0)), 0);
    assert_eq!(current_page(Some(1)), 0);
    assert_eq!(current_page(Some(2)), 1);
    assert_eq!(current_page(Some(u32::MAX)), u32::MAX - 1);
}

#[test]
fn first_page_has_no_previous_page() {
    assert_eq!(prefetch_window(current_page(Some(1))), vec![0, 1]);
    assert_eq!(prefetch_window(current_page(None)), vec![0, 1]);
}

#[test]
fn second_page_resolves_three_pages() {
    assert_eq!(prefetch_window(current_page(Some(2))), vec![0, 1, 2]);
    assert_eq!(prefetch_window(u32::MAX - 1), vec![u32::MAX - 2, u32::MAX - 1, u32::MAX]);
}

#[test]
fn missing_or_blank_query_redirects() {
    assert!(matches!(plan_search(&None, None, None, None, &server()), SearchPlan::Redirect));
    assert!(matches!(
        plan_search(&Some(String::new()), Some(1), None, None, &server()),
        SearchPlan::Redirect
    ));
    assert!(matches!(
        plan_search(&Some("   ".to_string()), Some(1), None, None, &server()),
        SearchPlan::Redirect
    ));
}

#[test]
fn plan_for_second_page() {
    match plan_search(&Some("sweden".to_string()), Some(2), Some(4), None, &server()) {
        SearchPlan::Resolve(req) => {
            assert_eq!(req.query, "sweden");
            assert_eq!(req.page, 1);
            assert_eq!(req.pages, vec![0, 1, 2]);
            assert_eq!(req.settings, settings(0, &["bing", "brave"]));
        }
        SearchPlan::Redirect => panic!("expected a resolution"),
    }
}

#[test]
fn sweden_first_page_end_to_end() {
    let server = server();
    let plan = plan_search(&Some("sweden".to_string()), Some(1), None, None, &server);
    let req = match plan {
        SearchPlan::Resolve(req) => req,
        SearchPlan::Redirect => panic!("expected a resolution"),
    };
    assert_eq!(req.pages, vec![0, 1]);
    let mut fakes = Fakes::new(&[], Some(one_result()));
    let current = fakes.resolve(&req.query, req.pages[0], &req.settings, &server);
    let next = fakes.resolve(&req.query, req.pages[1], &req.settings, &server);
    let fan = combine_fanout(None, current, next).unwrap();
    assert_eq!(fan.current.results.len(), 1);
    assert_eq!(fan.current.safe_search_level, 0);
    assert!(!fan.current.filtered && !fan.current.disallowed && !fan.current.no_engines_selected);
    assert_eq!(
        fan.current_key,
        "http://127.0.0.1:8080/search?q=sweden&page=0&safesearch=0&engines=bing,brave"
    );
    assert_eq!(
        fan.neighbour_keys,
        vec!["http://127.0.0.1:8080/search?q=sweden&page=1&safesearch=0&engines=bing,brave".to_string()]
    );
    assert_eq!(fakes.aggregator_calls, 2);
    assert_eq!(fakes.blocklist_reads, 0);
}

#[test]
fn empty_upstream_answer_is_marked_filtered() {
    let mut fakes = Fakes::new(&[], Some(SearchResults::empty()));
    let (bundle, _) = fakes.resolve("sweden", 0, &settings(1, &["bing"]), &server()).unwrap();
    assert!(bundle.filtered);
    assert!(bundle.results.is_empty());
    assert_eq!(bundle.safe_search_level, 1);
}

#[test]
fn lenient_levels_never_read_blocklist() {
    for level in 0..4u8 {
        let mut fakes = Fakes::new(&["sweden"], Some(one_result()));
        let (bundle, _) = fakes.resolve("sweden", 0, &settings(level, &["bing"]), &server()).unwrap();
        assert!(!bundle.disallowed);
        assert_eq!(fakes.blocklist_reads, 0);
        assert_eq!(fakes.aggregator_calls, 1);
    }
}

#[test]
fn blocked_query_is_disallowed_and_cached() {
    let server = server();
    let s = resolve_settings(Some(settings(4, &["bing"])), None, &server);
    let mut fakes = Fakes::new(&["casino", "gambl"], Some(one_result()));
    let (bundle, key) = fakes.resolve("online casino", 0, &s, &server).unwrap();
    assert!(bundle.disallowed);
    assert!(bundle.results.is_empty());
    assert_eq!(bundle.safe_search_level, 4);
    assert_eq!(fakes.aggregator_calls, 0);
    assert_eq!(fakes.cache_writes, 1);
    assert!(fakes.cache.get(&key).unwrap().disallowed);

    let (again, _) = fakes.resolve("online casino", 0, &s, &server).unwrap();
    assert!(again.disallowed);
    assert!(again.results.is_empty());
    assert_eq!(fakes.aggregator_calls, 0);
    assert_eq!(fakes.blocklist_reads, 1);
}

#[test]
fn strict_level_allowed_query_goes_upstream() {
    let mut fakes = Fakes::new(&["casino"], Some(one_result()));
    let (bundle, _) = fakes.resolve("sweden", 0, &settings(4, &["bing"]), &server()).unwrap();
    assert!(!bundle.disallowed);
    assert_eq!(bundle.results.len(), 1);
    assert_eq!(bundle.safe_search_level, 4);
    assert_eq!(fakes.blocklist_reads, 1);
    assert_eq!(fakes.aggregator_calls, 1);
}

#[test]
fn strict_level_malformed_rule_fails() {
    let mut fakes = Fakes::new(&["[unclosed"], Some(one_result()));
    let r = fakes.resolve("sweden", 0, &settings(4, &["bing"]), &server());
    assert_eq!(r.unwrap_err(), SearchError::FilterRule(FilterRuleError { line: 0 }));
    assert_eq!(fakes.aggregator_calls, 0);
}

#[test]
fn no_engines_selected_skips_aggregator() {
    let mut fakes = Fakes::new(&[], Some(one_result()));
    let (bundle, _) = fakes.resolve("sweden", 0, &settings(0, &[]), &server()).unwrap();
    assert!(bundle.no_engines_selected);
    assert!(!bundle.filtered);
    assert!(bundle.results.is_empty());
    assert_eq!(fakes.aggregator_calls, 0);
    assert_eq!(fakes.cache_writes, 1);
}

#[test]
fn upstream_failure_propagates() {
    let mut fakes = Fakes::new(&[], None);
    let r = fakes.resolve("sweden", 0, &settings(0, &["bing"]), &server());
    assert_eq!(r.unwrap_err(), SearchError::Upstream);
    assert_eq!(fakes.cache_writes, 0);
}

#[test]
fn cache_hit_is_returned_verbatim() {
    let server = server();
    let s = settings(2, &["bing"]);
    let mut fakes = Fakes::new(&[], Some(one_result()));
    let key = build_cache_key("127.0.0.1", 8080, "sweden", 3, 2, &s.engines);
    let mut stored = one_result();
    stored.safe_search_level = 0;
    fakes.cache.insert(key.clone(), stored.clone());
    let (bundle, used) = fakes.resolve("sweden", 3, &s, &server).unwrap();
    assert_eq!(bundle, stored);
    assert_eq!(used, key);
    assert_eq!(fakes.aggregator_calls, 0);
}

#[test]
fn cache_write_failure_propagates() {
    let r = Resolution::new("sweden", 0, &settings(0, &["bing"]), &server());
    match r.after_cache_write(one_result(), Err(())) {
        ResolveAction::Fail(e) => assert_eq!(e, SearchError::Cache),
        other => panic!("unexpected {:?}", other),
    }
}

#[test]
fn fanout_first_error_wins() {
    let ok = || Ok((one_result(), "k".to_string()));
    let r = combine_fanout(Some(Err(SearchError::Upstream)), Err(SearchError::Cache), ok());
    assert_eq!(r.unwrap_err(), SearchError::Upstream);
    let r = combine_fanout(Some(ok()), Err(SearchError::Cache), Err(SearchError::Upstream));
    assert_eq!(r.unwrap_err(), SearchError::Cache);
    let r = combine_fanout(None, ok(), Err(SearchError::Upstream));
    assert_eq!(r.unwrap_err(), SearchError::Upstream);
}

#[test]
fn fanout_three_pages() {
    let r = combine_fanout(
        Some(Ok((SearchResults::empty(), "p".to_string()))),
        Ok((one_result(), "c".to_string())),
        Ok((SearchResults::empty(), "n".to_string())),
    )
    .unwrap();
    assert_eq!(r.current, one_result());
    assert_eq!(r.current_key, "c");
    assert_eq!(r.neighbour_keys, vec!["p".to_string(), "n".to_string()]);
    assert_eq!(r.neighbour_bundles.len(), 2);
}

#[test]
fn filtered_mark_only_when_nothing_came_back() {
    let mut b = SearchResults::empty();
    b.mark_filtered_if_empty();
    assert!(b.filtered);
    let mut b = SearchResults::empty();
    b.set_no_engines_selected();
    b.mark_filtered_if_empty();
    assert!(!b.filtered);
    let mut b = one_result();
    b.mark_filtered_if_empty();
    assert!(!b.filtered);
}
