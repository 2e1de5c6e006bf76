//! The values that flow through a search: result bundles, settings and the
//! server configuration that the core reads.

use vstd::prelude::*;
use vstd::string::*;

verus! {

/// One result entry, as the aggregator produced it.
#[derive(Debug, Clone, PartialEq, Eq)]
pub struct SearchResult {
    pub title: String,
    pub url: String,
    pub description: String,
    /// The upstream engines that returned this entry.
    pub engines: Vec<String>,
}

/// An error that one upstream engine reported.
#[derive(Debug, Clone, PartialEq, Eq)]
pub struct EngineErrorInfo {
    pub error: String,
    pub engine: String,
    pub severity_color: String,
}

/// The result bundle of one (query, page) resolution. The three flags are
/// independent annotations for the renderer, not states of one machine.
#[derive(Debug, Clone, PartialEq, Eq)]
pub struct SearchResults {
    pub results: Vec<SearchResult>,
    pub engine_errors_info: Vec<EngineErrorInfo>,
    /// The query was rejected by the blocklist.
    pub disallowed: bool,
    /// Nothing came back and no engine failed: the content was filtered.
    pub filtered: bool,
    /// No upstream engine was selected, so none was asked.
    pub no_engines_selected: bool,
    pub safe_search_level: u8,
}

/// A bundle with no results, no engine errors, no flags and level 0.
pub open spec fn is_blank_bundle(b: SearchResults) -> bool {
    &&& b.results@.len() == 0
    &&& b.engine_errors_info@.len() == 0
    &&& !b.disallowed
    &&& !b.filtered
    &&& !b.no_engines_selected
    &&& b.safe_search_level == 0
}

/// The bundle with its safe-search level replaced.
pub open spec fn with_level(b: SearchResults, level: u8) -> SearchResults {
    SearchResults { safe_search_level: level, ..b }
}

/// The bundle with `filtered` set when it holds no results and no engine
/// errors and was not short of engines; unchanged otherwise.
pub open spec fn normalized(b: SearchResults) -> SearchResults {
    if b.engine_errors_info@.len() == 0 && b.results@.len() == 0 && !b.no_engines_selected {
        SearchResults { filtered: true, ..b }
    } else {
        b
    }
}

impl SearchResults {
    /// A bundle with nothing in it.
    pub fn empty() -> (r: SearchResults)
        ensures
            is_blank_bundle(r),
    {
        SearchResults {
            results: Vec::new(),
            engine_errors_info: Vec::new(),
            disallowed: false,
            filtered: false,
            no_engines_selected: false,
            safe_search_level: 0,
        }
    }

    pub fn set_disallowed(&mut self)
        ensures
            *final(self) == (SearchResults { disallowed: true, ..*old(self) }),
    {
        self.disallowed = true;
    }

    pub fn set_filtered(&mut self)
        ensures
            *final(self) == (SearchResults { filtered: true, ..*old(self) }),
    {
        self.filtered = true;
    }

    pub fn set_no_engines_selected(&mut self)
        ensures
            *final(self) == (SearchResults { no_engines_selected: true, ..*old(self) }),
    {
        self.no_engines_selected = true;
    }

    pub fn set_safe_search_level(&mut self, level: u8)
        ensures
            *final(self) == with_level(*old(self), level),
    {
        self.safe_search_level = level;
    }

    /// Marks the bundle as filtered when it came back with no results, no
    /// engine errors, and engines were selected.
    pub fn mark_filtered_if_empty(&mut self)
        ensures
            *final(self) == normalized(*old(self)),
    {
        if self.engine_errors_info.len() == 0 && self.results.len() == 0 && !self.no_engines_selected {
            self.set_filtered();
        }
    }
}

/// The settings of one request, fully resolved.
#[derive(Debug, Clone, PartialEq, Eq)]
pub struct SearchSettings {
    pub theme: String,
    pub colorscheme: String,
    pub animation: Option<String>,
    /// Selected upstream engines, in a stable order.
    pub engines: Vec<String>,
    pub safe_search_level: u8,
}

/// What the core reads of the server's configuration.
#[derive(Debug, Clone, PartialEq, Eq)]
pub struct ServerConfig {
    pub binding_ip: String,
    pub port: u16,
    /// The server's safe-search level.
    pub safe_search: u8,
    /// Each known upstream engine with whether it is on by default, in
    /// configuration order.
    pub upstream_search_engines: Vec<(String, bool)>,
    pub theme: String,
    pub colorscheme: String,
    pub animation: Option<String>,
}

/// A copy of the string.
pub(crate) fn copy_string(s: &String) -> (r: String)
    ensures
        r@ == s@,
{
    String::from_str(s.as_str())
}

} // verus!
