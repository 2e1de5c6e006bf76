//! The decisions of one search request: whether to redirect, the settings
//! in force, the window of pages to resolve together, and how the
//! resolutions of that window combine.

use vstd::prelude::*;
use vstd::string::*;
use crate::cache_key::string_views;
use crate::models::{copy_string, SearchResults, SearchSettings, ServerConfig};
use crate::resolver::SearchError;
use crate::safe_search::{effective_level, get_safesearch_level};

verus! {

/// Unicode's White_Space property, the whitespace that `str::trim` removes.
pub open spec fn is_white_space(c: char) -> bool {
    let u = c as u32;
    (9 <= u <= 13) || u == 32 || u == 0x85 || u == 0xA0 || u == 0x1680 || (0x2000 <= u <= 0x200A)
        || u == 0x2028 || u == 0x2029 || u == 0x202F || u == 0x205F || u == 0x3000
}

/// A query that is empty or holds only whitespace.
pub open spec fn is_blank(q: Seq<char>) -> bool {
    forall|i: int| 0 <= i < q.len() ==> is_white_space(#[trigger] q[i])
}

fn white_space(c: char) -> (r: bool)
    ensures
        r == is_white_space(c),
{
    let u = c as u32;
    (9 <= u && u <= 13) || u == 32 || u == 0x85 || u == 0xA0 || u == 0x1680 || (0x2000 <= u && u
        <= 0x200A) || u == 0x2028 || u == 0x2029 || u == 0x202F || u == 0x205F || u == 0x3000
}

/// Whether the query is empty or whitespace only.
pub fn is_blank_query(q: &str) -> (r: bool)
    ensures
        r == is_blank(q@),
{
    let n = q.unicode_len();
    let mut i: usize = 0;
    while i < n
        invariant
            0 <= i <= n,
            n == q@.len(),
            forall|j: int| 0 <= j < i ==> is_white_space(#[trigger] q@[j]),
        decreases n - i,
    {
        if !white_space(q.get_char(i)) {
            return false;
        }
        i = i + 1;
    }
    true
}

/// The engines that the configuration turns on, in configuration order.
pub open spec fn enabled_engines(engines: Seq<(String, bool)>) -> Seq<Seq<char>>
    decreases engines.len(),
{
    if engines.len() == 0 {
        Seq::empty()
    } else {
        let rest = enabled_engines(engines.drop_last());
        if engines.last().1 {
            rest.push(engines.last().0@)
        } else {
            rest
        }
    }
}

/// The engines that are on by default.
pub fn default_engines(engines: &Vec<(String, bool)>) -> (r: Vec<String>)
    ensures
        string_views(r@) == enabled_engines(engines@),
{
    let mut out: Vec<String> = Vec::new();
    let mut i: usize = 0;
    while i < engines.len()
        invariant
            0 <= i <= engines.len(),
            string_views(out@) == enabled_engines(engines@.take(i as int)),
        decreases engines.len() - i,
    {
        proof {
            assert(engines@.take(i + 1).drop_last() =~= engines@.take(i as int));
            assert(engines@.take(i + 1).last() == engines@[i as int]);
        }
        if engines[i].1 {
            let name = copy_string(&engines[i].0);
            let ghost before = out@;
            out.push(name);
            proof {
                assert(string_views(out@) =~= string_views(before).push(name@));
            }
        }
        i = i + 1;
    }
    proof {
        assert(engines@.take(i as int) =~= engines@);
    }
    out
}

fn copy_option(s: &Option<String>) -> (r: Option<String>)
    ensures
        r.is_some() == s.is_some(),
        r.is_some() ==> r.unwrap()@ == s.unwrap()@,
{
    match s {
        Some(v) => Some(copy_string(v)),
        None => None,
    }
}

/// The settings that the server's configuration gives when the request
/// brings none.
pub fn settings_from_config(server: &ServerConfig) -> (r: SearchSettings)
    ensures
        r.theme@ == server.theme@,
        r.colorscheme@ == server.colorscheme@,
        r.animation.is_some() == server.animation.is_some(),
        r.animation.is_some() ==> r.animation.unwrap()@ == server.animation.unwrap()@,
        string_views(r.engines@) == enabled_engines(server.upstream_search_engines@),
        r.safe_search_level == server.safe_search,
{
    SearchSettings {
        theme: copy_string(&server.theme),
        colorscheme: copy_string(&server.colorscheme),
        animation: copy_option(&server.animation),
        engines: default_engines(&server.upstream_search_engines),
        safe_search_level: server.safe_search,
    }
}

/// The settings of a request: the stored preferences when present, else the
/// server's, with the safe-search level resolved against the level that the
/// request URL asks for.
pub fn resolve_settings(stored: Option<SearchSettings>, url_level: Option<u8>, server: &ServerConfig) -> (r:
    SearchSettings)
    ensures
        match stored {
            Some(s) => r == (SearchSettings {
                safe_search_level: effective_level(Some(s.safe_search_level), url_level, server.safe_search),
                ..s
            }),
            None => {
                &&& r.theme@ == server.theme@
                &&& r.colorscheme@ == server.colorscheme@
                &&& r.animation.is_some() == server.animation.is_some()
                &&& r.animation.is_some() ==> r.animation.unwrap()@ == server.animation.unwrap()@
                &&& string_views(r.engines@) == enabled_engines(server.upstream_search_engines@)
                &&& r.safe_search_level == effective_level(Some(server.safe_search), url_level, server.safe_search)
            },
        },
{
    let mut settings = match stored {
        Some(s) => s,
        None => settings_from_config(server),
    };
    settings.safe_search_level = get_safesearch_level(&Some(settings.safe_search_level), &url_level, server.safe_search);
    settings
}

/// The zero-based page of a one-based page parameter: absent, 0 and 1 all
/// give the first page.
pub open spec fn zero_based_page(requested: Option<u32>) -> u32 {
    match requested {
        Some(p) => if p >= 1 { (p - 1) as u32 } else { 0 },
        None => 0,
    }
}

/// The pages resolved together with `current`: the one before it (none
/// before the first page), itself, and the one after.
pub open spec fn window(current: u32) -> Seq<u32> {
    if current == 0 {
        seq![0u32, 1u32]
    } else {
        seq![(current - 1) as u32, current, (current + 1) as u32]
    }
}

/// Converts the one-based page parameter to a zero-based page.
pub fn current_page(requested: Option<u32>) -> (r: u32)
    ensures
        r == zero_based_page(requested),
        r < u32::MAX,
{
    match requested {
        Some(p) => if p >= 1 { p - 1 } else { 0 },
        None => 0,
    }
}

/// The pages to resolve together, in order: previous (when there is one),
/// current, next.
pub fn prefetch_window(current: u32) -> (r: Vec<u32>)
    requires
        current < u32::MAX,
    ensures
        r@ == window(current),
{
    let previous: u32 = if current >= 1 { current - 1 } else { 0 };
    let next: u32 = current + 1;
    let mut pages: Vec<u32> = Vec::new();
    if previous != current {
        pages.push(previous);
    }
    pages.push(current);
    pages.push(next);
    proof {
        assert(pages@ =~= window(current));
    }
    pages
}

/// The first page (asked for as page 1, page 0 or no page) is resolved with
/// the next one only, never with one before it; a later one-based page `p`
/// is resolved with its neighbours, zero-based `p - 2`, `p - 1` and `p`.
pub proof fn lemma_pagination_window(requested: Option<u32>)
    ensures
        (requested is None || requested.unwrap() <= 1) ==> window(zero_based_page(requested)) == seq![0u32, 1u32],
        (requested is Some && requested.unwrap() >= 2) ==> window(zero_based_page(requested)) == seq![
            (requested.unwrap() - 2) as u32,
            (requested.unwrap() - 1) as u32,
            requested.unwrap(),
        ],
{
}

/// A request that goes on to resolution.
#[derive(Debug)]
pub struct SearchRequest {
    pub query: String,
    pub settings: SearchSettings,
    /// The zero-based page to render.
    pub page: u32,
    /// The pages to resolve together, in order.
    pub pages: Vec<u32>,
}

/// What to do with a search request.
#[derive(Debug)]
pub enum SearchPlan {
    /// A missing or blank query: redirect to the home page.
    Redirect,
    Resolve(SearchRequest),
}

/// Decides what a search request leads to: a redirect when the query is
/// missing or blank, else the settings and the pages to resolve.
pub fn plan_search(
    query: &Option<String>,
    page: Option<u32>,
    safesearch: Option<u8>,
    stored: Option<SearchSettings>,
    server: &ServerConfig,
) -> (r: SearchPlan)
    ensures
        (r is Redirect) <==> (query.is_none() || is_blank(query.unwrap()@)),
        r matches SearchPlan::Resolve(req) ==> {
            &&& req.query@ == query.unwrap()@
            &&& req.page == zero_based_page(page)
            &&& req.pages@ == window(req.page)
            &&& match stored {
                Some(s) => req.settings == (SearchSettings {
                    safe_search_level: effective_level(Some(s.safe_search_level), safesearch, server.safe_search),
                    ..s
                }),
                None => {
                    &&& string_views(req.settings.engines@) == enabled_engines(server.upstream_search_engines@)
                    &&& req.settings.safe_search_level == effective_level(Some(server.safe_search), safesearch, server.safe_search)
                },
            }
        },
{
    match query {
        None => SearchPlan::Redirect,
        Some(q) => {
            if is_blank_query(q.as_str()) {
                SearchPlan::Redirect
            } else {
                let settings = resolve_settings(stored, safesearch, server);
                let current = current_page(page);
                let pages = prefetch_window(current);
                SearchPlan::Resolve(SearchRequest { query: copy_string(q), settings, page: current, pages })
            }
        },
    }
}

/// The resolved window: the bundle to render and the neighbouring pages'
/// bundles and keys, for a batched cache refresh that nobody waits on.
#[derive(Debug)]
pub struct FanOut {
    pub current: SearchResults,
    pub current_key: String,
    pub neighbour_bundles: Vec<SearchResults>,
    pub neighbour_keys: Vec<String>,
}

/// The outcome of resolving one page: its bundle and cache key.
pub type PageOutcome = Result<(SearchResults, String), SearchError>;

/// The combination of a window's resolutions: the first failure in page
/// order, else the current page's bundle and key with the other pages'
/// bundles and keys in page order.
pub open spec fn fanout_outcome(
    previous: Option<PageOutcome>,
    current: PageOutcome,
    next: PageOutcome,
    r: Result<FanOut, SearchError>,
) -> bool {
    match previous {
        Some(Err(e)) => r == Err::<FanOut, SearchError>(e),
        _ => match current {
            Err(e) => r == Err::<FanOut, SearchError>(e),
            Ok((cb, ck)) => match next {
                Err(e) => r == Err::<FanOut, SearchError>(e),
                Ok((nb, nk)) => match r {
                    Ok(f) => {
                        &&& f.current == cb
                        &&& f.current_key == ck
                        &&& match previous {
                            Some(Ok((pb, pk))) => f.neighbour_bundles@ == seq![pb, nb]
                                && f.neighbour_keys@ == seq![pk, nk],
                            _ => f.neighbour_bundles@ == seq![nb] && f.neighbour_keys@ == seq![nk],
                        }
                    },
                    Err(_) => false,
                },
            },
        },
    }
}

/// Combines the resolutions of a window. Any failure fails the whole
/// request, the first in page order winning; there is no partial success.
pub fn combine_fanout(previous: Option<PageOutcome>, current: PageOutcome, next: PageOutcome) -> (r:
    Result<FanOut, SearchError>)
    ensures
        fanout_outcome(previous, current, next, r),
{
    let ghost before = previous;
    let mut neighbour_bundles: Vec<SearchResults> = Vec::new();
    let mut neighbour_keys: Vec<String> = Vec::new();
    match previous {
        Some(Err(e)) => {
            return Err(e);
        },
        Some(Ok((bundle, key))) => {
            neighbour_bundles.push(bundle);
            neighbour_keys.push(key);
        },
        None => {},
    }
    let (current_bundle, current_key) = match current {
        Err(e) => {
            return Err(e);
        },
        Ok(pair) => pair,
    };
    match next {
        Err(e) => Err(e),
        Ok((bundle, key)) => {
            neighbour_bundles.push(bundle);
            neighbour_keys.push(key);
            proof {
                match before {
                    Some(Ok((pb, pk))) => {
                        assert(neighbour_bundles@ =~= seq![pb, bundle]);
                        assert(neighbour_keys@ =~= seq![pk, key]);
                    },
                    _ => {
                        assert(neighbour_bundles@ =~= seq![bundle]);
                        assert(neighbour_keys@ =~= seq![key]);
                    },
                }
            }
            Ok(FanOut { current: current_bundle, current_key, neighbour_bundles, neighbour_keys })
        },
    }
}

} // verus!
