//! Resolution of one (query, page) pair, as a state machine: the caller
//! performs each action (a cache read, reading the blocklist, a call to the
//! aggregator, a cache write) and hands the outcome to the next step.
//!
//! Order of steps: `ReadCache` → [`Resolution::after_cache_read`]; on a miss
//! at the strictest level `ReadBlocklist` → [`Resolution::after_blocklist`];
//! `Aggregate` → [`Resolution::after_aggregate`]; `WriteCache` →
//! [`Resolution::after_cache_write`]; ending in `Done` or `Fail`.

use vstd::prelude::*;
use crate::blocklist::{
    filter_outcome, is_match_from_filter_list, regex_compiles, regex_finds, rule_patterns,
    FilterRuleError,
};
use crate::cache_key::{build_cache_key, cache_key, string_views};
use crate::models::{
    copy_string, is_blank_bundle, normalized, with_level, SearchResults, SearchSettings, ServerConfig,
};
use crate::safe_search::STRICTEST_LEVEL;

verus! {

/// Why a resolution failed.
#[derive(Debug, Clone, Copy, PartialEq, Eq)]
pub enum SearchError {
    /// A blocklist line is not a valid regular expression.
    FilterRule(FilterRuleError),
    /// The blocklist could not be read.
    BlocklistUnreadable,
    /// The aggregator failed.
    Upstream,
    /// Writing to the cache failed.
    Cache,
}

/// What the caller does next.
#[derive(Debug)]
pub enum ResolveAction {
    /// Read the blocklist lines and hand them to `after_blocklist`.
    ReadBlocklist,
    /// Ask the aggregator for the query, page, engines and level of the
    /// resolution and hand the outcome to `after_aggregate`.
    Aggregate,
    /// Write the bundle under the resolution's cache key and hand the
    /// outcome, with the bundle, to `after_cache_write`.
    WriteCache(SearchResults),
    /// The resolution is over: this bundle is its value.
    Done(SearchResults),
    /// The resolution failed.
    Fail(SearchError),
}

/// One (query, page) resolution under fixed settings.
#[derive(Debug)]
pub struct Resolution {
    pub query: String,
    pub page: u32,
    pub safe_search_level: u8,
    pub engines: Vec<String>,
    /// The key under which the bundle is looked up and written; the first
    /// action of every resolution is a cache read of it.
    pub cache_key: String,
}

/// The bundle that a resolution writes when the blocklist rejects the query.
pub open spec fn is_disallowed_bundle(b: SearchResults) -> bool {
    is_blank_bundle(SearchResults { disallowed: false, ..b }) && b.disallowed
}

/// The bundle that a resolution writes when no engine is selected.
pub open spec fn is_no_engines_bundle(b: SearchResults) -> bool {
    is_blank_bundle(SearchResults { no_engines_selected: false, ..b }) && b.no_engines_selected
}

/// The step taken once the safe-search gate has let the query through.
pub open spec fn gate_passed_step(r: Resolution, a: ResolveAction) -> bool {
    if r.engines@.len() == 0 {
        a matches ResolveAction::WriteCache(b) && is_no_engines_bundle(b)
    } else {
        a is Aggregate
    }
}

/// The step after the cache read: a hit is returned as stored; a miss goes
/// to the blocklist at the strictest level only.
pub open spec fn cache_read_step(r: Resolution, cached: Option<SearchResults>, a: ResolveAction) -> bool {
    match cached {
        Some(b) => a == ResolveAction::Done(b),
        None => if r.safe_search_level == STRICTEST_LEVEL {
            a is ReadBlocklist
        } else {
            gate_passed_step(r, a)
        },
    }
}

/// The step after the blocklist was read.
pub open spec fn blocklist_step(r: Resolution, rules: Seq<String>, a: ResolveAction) -> bool {
    match filter_outcome(rule_patterns(rules), r.query@) {
        Err(i) => a matches ResolveAction::Fail(SearchError::FilterRule(e)) && e.line as nat == i,
        Ok(true) => a matches ResolveAction::WriteCache(b) && is_disallowed_bundle(b),
        Ok(false) => gate_passed_step(r, a),
    }
}

/// The step after the aggregator answered.
pub open spec fn aggregate_step(outcome: Result<SearchResults, ()>, a: ResolveAction) -> bool {
    match outcome {
        Ok(b) => a == ResolveAction::WriteCache(normalized(b)),
        Err(_) => a == ResolveAction::Fail(SearchError::Upstream),
    }
}

/// The step after the cache write: the bundle is returned with the
/// resolution's level stamped on it.
pub open spec fn cache_write_step(
    r: Resolution,
    bundle: SearchResults,
    outcome: Result<(), ()>,
    a: ResolveAction,
) -> bool {
    match outcome {
        Ok(_) => a == ResolveAction::Done(with_level(bundle, r.safe_search_level)),
        Err(_) => a == ResolveAction::Fail(SearchError::Cache),
    }
}

impl Resolution {
    /// Sets up the resolution of `query` at the zero-based `page`.
    pub fn new(query: &str, page: u32, settings: &SearchSettings, server: &ServerConfig) -> (r:
        Resolution)
        ensures
            r.query@ == query@,
            r.page == page,
            r.safe_search_level == settings.safe_search_level,
            r.engines@.len() == settings.engines@.len(),
            string_views(r.engines@) == string_views(settings.engines@),
            r.cache_key@ == cache_key(
                server.binding_ip@,
                server.port as nat,
                query@,
                page as nat,
                settings.safe_search_level as nat,
                string_views(settings.engines@),
            ),
    {
        let cache_key = build_cache_key(
            server.binding_ip.as_str(),
            server.port,
            query,
            page,
            settings.safe_search_level,
            &settings.engines,
        );
        let mut engines: Vec<String> = Vec::new();
        let mut i: usize = 0;
        while i < settings.engines.len()
            invariant
                0 <= i <= settings.engines.len(),
                engines@.len() == i,
                forall|j: int| 0 <= j < i ==> #[trigger] engines@[j]@ == settings.engines@[j]@,
            decreases settings.engines.len() - i,
        {
            engines.push(copy_string(&settings.engines[i]));
            i = i + 1;
        }
        proof {
            assert(string_views(engines@) =~= string_views(settings.engines@));
        }
        Resolution {
            query: String::from_str(query),
            page,
            safe_search_level: settings.safe_search_level,
            engines,
            cache_key,
        }
    }

    fn gate_passed(&self) -> (a: ResolveAction)
        ensures
            gate_passed_step(*self, a),
    {
        if self.engines.len() == 0 {
            let mut bundle = SearchResults::empty();
            bundle.set_no_engines_selected();
            bundle.mark_filtered_if_empty();
            ResolveAction::WriteCache(bundle)
        } else {
            ResolveAction::Aggregate
        }
    }

    /// Takes what the cache held under the key (`None` for a miss, which a
    /// failed read also counts as).
    pub fn after_cache_read(&self, cached: Option<SearchResults>) -> (a: ResolveAction)
        ensures
            cache_read_step(*self, cached, a),
            self.safe_search_level != STRICTEST_LEVEL ==> !(a is ReadBlocklist),
    {
        match cached {
            Some(bundle) => ResolveAction::Done(bundle),
            None => {
                if self.safe_search_level == STRICTEST_LEVEL {
                    ResolveAction::ReadBlocklist
                } else {
                    self.gate_passed()
                }
            },
        }
    }

    /// Takes the blocklist's lines, one regular expression each.
    pub fn after_blocklist(&self, rules: &Vec<String>) -> (a: ResolveAction)
        ensures
            blocklist_step(*self, rules@, a),
    {
        match is_match_from_filter_list(rules, self.query.as_str()) {
            Err(e) => ResolveAction::Fail(SearchError::FilterRule(e)),
            Ok(true) => {
                let mut bundle = SearchResults::empty();
                bundle.set_disallowed();
                ResolveAction::WriteCache(bundle)
            },
            Ok(false) => self.gate_passed(),
        }
    }

    /// Takes the aggregator's bundle, or its failure.
    pub fn after_aggregate(&self, outcome: Result<SearchResults, ()>) -> (a: ResolveAction)
        ensures
            aggregate_step(outcome, a),
    {
        match outcome {
            Ok(bundle) => {
                let mut bundle = bundle;
                bundle.mark_filtered_if_empty();
                ResolveAction::WriteCache(bundle)
            },
            Err(_) => ResolveAction::Fail(SearchError::Upstream),
        }
    }

    /// Takes the bundle that was written and the outcome of the write.
    pub fn after_cache_write(&self, bundle: SearchResults, outcome: Result<(), ()>) -> (a:
        ResolveAction)
        ensures
            cache_write_step(*self, bundle, outcome, a),
    {
        match outcome {
            Ok(_) => {
                let mut bundle = bundle;
                bundle.set_safe_search_level(self.safe_search_level);
                ResolveAction::Done(bundle)
            },
            Err(_) => ResolveAction::Fail(SearchError::Cache),
        }
    }
}

/// Below the strictest safe-search level the blocklist is never consulted:
/// neither the step after the cache read, nor the step after the
/// aggregator, nor the step after the cache write asks for it.
pub proof fn lemma_blocklist_only_at_strictest(
    r: Resolution,
    cached: Option<SearchResults>,
    after_read: ResolveAction,
    aggregated: Result<SearchResults, ()>,
    after_aggregate: ResolveAction,
    written: SearchResults,
    write_outcome: Result<(), ()>,
    after_write: ResolveAction,
)
    requires
        r.safe_search_level < STRICTEST_LEVEL,
        cache_read_step(r, cached, after_read),
        aggregate_step(aggregated, after_aggregate),
        cache_write_step(r, written, write_outcome, after_write),
    ensures
        !(after_read is ReadBlocklist),
        !(after_aggregate is ReadBlocklist),
        !(after_write is ReadBlocklist),
{
}

/// At the strictest level, when every blocklist rule compiles and one of
/// them matches the query, a cache miss leads to the blocklist, the
/// blocklist to a cache write of a disallowed bundle with no results, and
/// only after that write is the bundle returned, with the level stamped.
pub proof fn lemma_disallowed_cached_before_returned(
    r: Resolution,
    rules: Seq<String>,
    after_read: ResolveAction,
    after_blocklist: ResolveAction,
    after_write: ResolveAction,
)
    requires
        r.safe_search_level == STRICTEST_LEVEL,
        forall|i: int| 0 <= i < rules.len() ==> regex_compiles(#[trigger] rule_patterns(rules)[i]),
        exists|i: int| 0 <= i < rules.len() && #[trigger] regex_finds(rule_patterns(rules)[i], r.query@),
        cache_read_step(r, None, after_read),
        blocklist_step(r, rules, after_blocklist),
        after_blocklist matches ResolveAction::WriteCache(b) ==> cache_write_step(
            r,
            b,
            Ok(()),
            after_write,
        ),
    ensures
        after_read is ReadBlocklist,
        after_blocklist matches ResolveAction::WriteCache(b) && is_disallowed_bundle(b)
            && b.results@.len() == 0 && after_write == ResolveAction::Done(
            with_level(b, r.safe_search_level),
        ),
{
    let pats = rule_patterns(rules);
    assert(pats.len() == rules.len());
    crate::blocklist::lemma_valid_rules_match_any(pats, r.query@);
}

} // verus!
