//! The cache key of one (query, page) resolution:
//! `http://{host}:{port}/search?q={query}&page={page}&safesearch={level}&engines={e1,e2,...}`.
//!
//! Query text and engine names go in raw, unescaped, so a query or an engine
//! name that holds `&`, `=` or `,` can give the key of another request. The
//! format is kept as it is so that keys stay compatible with stores that
//! other instances already fill.

use vstd::prelude::*;
use vstd::string::*;

verus! {

/// The ten decimal digits, in order.
pub open spec fn digit_chars() -> Seq<char> {
    seq!['0', '1', '2', '3', '4', '5', '6', '7', '8', '9']
}

/// The decimal notation of `n`, without leading zeros.
pub open spec fn decimal(n: nat) -> Seq<char>
    decreases n,
{
    if n < 10 {
        seq![digit_chars()[n as int]]
    } else {
        decimal(n / 10) + seq![digit_chars()[(n % 10) as int]]
    }
}

/// The items joined with `,` between each two.
pub open spec fn join_commas(items: Seq<Seq<char>>) -> Seq<char>
    decreases items.len(),
{
    if items.len() == 0 {
        Seq::empty()
    } else if items.len() == 1 {
        items[0]
    } else {
        join_commas(items.drop_last()) + seq![','] + items.last()
    }
}

/// The views of a list of strings.
pub open spec fn string_views(items: Seq<String>) -> Seq<Seq<char>> {
    items.map_values(|s: String| s@)
}

/// `http://`
pub open spec fn scheme() -> Seq<char> {
    seq!['h', 't', 't', 'p', ':', '/', '/']
}

/// `/search?q=`
pub open spec fn query_field() -> Seq<char> {
    seq!['/', 's', 'e', 'a', 'r', 'c', 'h', '?', 'q', '=']
}

/// `&page=`
pub open spec fn page_field() -> Seq<char> {
    seq!['&', 'p', 'a', 'g', 'e', '=']
}

/// `&safesearch=`
pub open spec fn level_field() -> Seq<char> {
    seq!['&', 's', 'a', 'f', 'e', 's', 'e', 'a', 'r', 'c', 'h', '=']
}

/// `&engines=`
pub open spec fn engines_field() -> Seq<char> {
    seq!['&', 'e', 'n', 'g', 'i', 'n', 'e', 's', '=']
}

/// The cache key of a resolution: every input is embedded in one string.
pub open spec fn cache_key(
    host: Seq<char>,
    port: nat,
    query: Seq<char>,
    page: nat,
    level: nat,
    engines: Seq<Seq<char>>,
) -> Seq<char> {
    scheme() + host + seq![':'] + decimal(port) + query_field() + query + page_field() + decimal(page)
        + level_field() + decimal(level) + engines_field() + join_commas(engines)
}

/// Engine names that a comma-joined list gives back one for one: none is
/// empty and none holds a comma.
pub open spec fn plain_names(names: Seq<Seq<char>>) -> bool {
    forall|i: int| 0 <= i < names.len() ==> #[trigger] names[i].len() > 0 && !names[i].contains(',')
}

proof fn lemma_cancel(a: Seq<char>, x: Seq<char>, y: Seq<char>, b: Seq<char>)
    requires
        a + x + b == a + y + b,
    ensures
        x == y,
{
    assert((a + x + b).len() == (a + y + b).len());
    assert(x =~= (a + x + b).subrange(a.len() as int, (a.len() + x.len()) as int));
    assert(y =~= (a + y + b).subrange(a.len() as int, (a.len() + y.len()) as int));
}

proof fn lemma_decimal_len(n: nat)
    ensures
        decimal(n).len() >= 1,
        n >= 10 ==> decimal(n).len() >= 2,
    decreases n,
{
    if n >= 10 {
        lemma_decimal_len(n / 10);
    }
}

proof fn lemma_decimal_injective(a: nat, b: nat)
    requires
        decimal(a) == decimal(b),
    ensures
        a == b,
    decreases a,
{
    lemma_decimal_len(a);
    lemma_decimal_len(b);
    let d = digit_chars();
    if a < 10 && b < 10 {
        assert(decimal(a)[0] == d[a as int]);
        assert(decimal(b)[0] == d[b as int]);
    } else if a >= 10 && b >= 10 {
        let da = decimal(a);
        assert(da.last() == d[(a % 10) as int]);
        assert(decimal(b).last() == d[(b % 10) as int]);
        assert(da.drop_last() =~= decimal(a / 10));
        assert(decimal(b).drop_last() =~= decimal(b / 10));
        lemma_decimal_injective(a / 10, b / 10);
    }
}

proof fn lemma_join_shape(x: Seq<Seq<char>>)
    requires
        plain_names(x),
    ensures
        (join_commas(x).len() == 0) == (x.len() == 0),
        x.len() >= 1 ==> join_commas(x).len() >= x.last().len(),
        x.len() >= 2 ==> join_commas(x).len() >= x.last().len() + 1 && join_commas(x)[join_commas(
            x,
        ).len() - x.last().len() - 1] == ',',
        x.len() >= 1 ==> forall|k: int|
            0 <= k < x.last().len() ==> join_commas(x)[join_commas(x).len() - x.last().len() + k]
                == #[trigger] x.last()[k],
    decreases x.len(),
{
    if x.len() >= 2 {
        assert(plain_names(x.drop_last())) by {
            assert forall|i: int| 0 <= i < x.drop_last().len() implies #[trigger] x.drop_last()[i].len() > 0
                && !x.drop_last()[i].contains(',') by {
                assert(x.drop_last()[i] == x[i]);
            }
        }
        lemma_join_shape(x.drop_last());
    }
    if x.len() >= 1 {
        assert(x.last() == x[x.len() - 1]);
    }
}

proof fn lemma_join_injective(x: Seq<Seq<char>>, y: Seq<Seq<char>>)
    requires
        plain_names(x),
        plain_names(y),
        join_commas(x) == join_commas(y),
    ensures
        x == y,
    decreases x.len(),
{
    lemma_join_shape(x);
    lemma_join_shape(y);
    let s = join_commas(x);
    if x.len() == 0 || y.len() == 0 {
        assert(x =~= y);
    } else {
        let lx = x.last();
        let ly = y.last();
        assert(lx == x[x.len() - 1] && ly == y[y.len() - 1]);
        if lx.len() < ly.len() {
            if x.len() >= 2 {
                let k = ly.len() - lx.len() - 1;
                assert(s[s.len() - ly.len() + k] == ly[k]);
                assert(ly.contains(','));
            }
            assert(false);
        } else if ly.len() < lx.len() {
            if y.len() >= 2 {
                let k = lx.len() - ly.len() - 1;
                assert(s[s.len() - lx.len() + k] == lx[k]);
                assert(lx.contains(','));
            }
            assert(false);
        }
        assert(lx =~= ly) by {
            assert forall|k: int| 0 <= k < lx.len() implies lx[k] == ly[k] by {
                assert(s[s.len() - lx.len() + k] == lx[k]);
                assert(s[s.len() - ly.len() + k] == ly[k]);
            }
        }
        if x.len() == 1 && y.len() == 1 {
            assert(x =~= y);
        } else if x.len() >= 2 && y.len() >= 2 {
            let sx = x.drop_last();
            let sy = y.drop_last();
            let tail = seq![','] + lx;
            assert(join_commas(x) =~= Seq::<char>::empty() + join_commas(sx) + tail);
            assert(join_commas(y) =~= Seq::<char>::empty() + join_commas(sy) + tail);
            lemma_cancel(Seq::empty(), join_commas(sx), join_commas(sy), tail);
            assert(plain_names(sx)) by {
                assert forall|i: int| 0 <= i < sx.len() implies #[trigger] sx[i].len() > 0 && !sx[i].contains(',') by {
                    assert(sx[i] == x[i]);
                }
            }
            assert(plain_names(sy)) by {
                assert forall|i: int| 0 <= i < sy.len() implies #[trigger] sy[i].len() > 0 && !sy[i].contains(',') by {
                    assert(sy[i] == y[i]);
                }
            }
            lemma_join_injective(sx, sy);
            assert(x =~= sx.push(lx));
            assert(y =~= sy.push(ly));
        }
    }
}

proof fn lemma_key_fixes_host(
    host: Seq<char>,
    host2: Seq<char>,
    port: nat,
    query: Seq<char>,
    page: nat,
    level: nat,
    engines: Seq<Seq<char>>,
)
    requires
        cache_key(host, port, query, page, level, engines) == cache_key(host2, port, query, page, level, engines),
    ensures
        host == host2,
{
    let b = seq![':'] + decimal(port) + query_field() + query + page_field() + decimal(page) + level_field()
        + decimal(level) + engines_field() + join_commas(engines);
    assert(cache_key(host, port, query, page, level, engines) =~= scheme() + host + b);
    assert(cache_key(host2, port, query, page, level, engines) =~= scheme() + host2 + b);
    lemma_cancel(scheme(), host, host2, b);
}

proof fn lemma_key_fixes_port(
    host: Seq<char>,
    port: nat,
    port2: nat,
    query: Seq<char>,
    page: nat,
    level: nat,
    engines: Seq<Seq<char>>,
)
    requires
        cache_key(host, port, query, page, level, engines) == cache_key(host, port2, query, page, level, engines),
    ensures
        port == port2,
{
    let a = scheme() + host + seq![':'];
    let b = query_field() + query + page_field() + decimal(page) + level_field() + decimal(level)
        + engines_field() + join_commas(engines);
    assert(cache_key(host, port, query, page, level, engines) =~= a + decimal(port) + b);
    assert(cache_key(host, port2, query, page, level, engines) =~= a + decimal(port2) + b);
    lemma_cancel(a, decimal(port), decimal(port2), b);
    lemma_decimal_injective(port, port2);
}

proof fn lemma_key_fixes_query(
    host: Seq<char>,
    port: nat,
    query: Seq<char>,
    query2: Seq<char>,
    page: nat,
    level: nat,
    engines: Seq<Seq<char>>,
)
    requires
        cache_key(host, port, query, page, level, engines) == cache_key(host, port, query2, page, level, engines),
    ensures
        query == query2,
{
    let a = scheme() + host + seq![':'] + decimal(port) + query_field();
    let b = page_field() + decimal(page) + level_field() + decimal(level) + engines_field()
        + join_commas(engines);
    assert(cache_key(host, port, query, page, level, engines) =~= a + query + b);
    assert(cache_key(host, port, query2, page, level, engines) =~= a + query2 + b);
    lemma_cancel(a, query, query2, b);
}

proof fn lemma_key_fixes_page(
    host: Seq<char>,
    port: nat,
    query: Seq<char>,
    page: nat,
    page2: nat,
    level: nat,
    engines: Seq<Seq<char>>,
)
    requires
        cache_key(host, port, query, page, level, engines) == cache_key(host, port, query, page2, level, engines),
    ensures
        page == page2,
{
    let a = scheme() + host + seq![':'] + decimal(port) + query_field() + query + page_field();
    let b = level_field() + decimal(level) + engines_field() + join_commas(engines);
    assert(cache_key(host, port, query, page, level, engines) =~= a + decimal(page) + b);
    assert(cache_key(host, port, query, page2, level, engines) =~= a + decimal(page2) + b);
    lemma_cancel(a, decimal(page), decimal(page2), b);
    lemma_decimal_injective(page, page2);
}

proof fn lemma_key_fixes_level(
    host: Seq<char>,
    port: nat,
    query: Seq<char>,
    page: nat,
    level: nat,
    level2: nat,
    engines: Seq<Seq<char>>,
)
    requires
        cache_key(host, port, query, page, level, engines) == cache_key(host, port, query, page, level2, engines),
    ensures
        level == level2,
{
    let a = scheme() + host + seq![':'] + decimal(port) + query_field() + query + page_field() + decimal(page)
        + level_field();
    let b = engines_field() + join_commas(engines);
    assert(cache_key(host, port, query, page, level, engines) =~= a + decimal(level) + b);
    assert(cache_key(host, port, query, page, level2, engines) =~= a + decimal(level2) + b);
    lemma_cancel(a, decimal(level), decimal(level2), b);
    lemma_decimal_injective(level, level2);
}

proof fn lemma_key_fixes_engines(
    host: Seq<char>,
    port: nat,
    query: Seq<char>,
    page: nat,
    level: nat,
    engines: Seq<Seq<char>>,
    engines2: Seq<Seq<char>>,
)
    requires
        plain_names(engines),
        plain_names(engines2),
        cache_key(host, port, query, page, level, engines) == cache_key(host, port, query, page, level, engines2),
    ensures
        engines == engines2,
{
    let a = scheme() + host + seq![':'] + decimal(port) + query_field() + query + page_field() + decimal(page)
        + level_field() + decimal(level) + engines_field();
    let e: Seq<char> = Seq::empty();
    assert(cache_key(host, port, query, page, level, engines) =~= a + join_commas(engines) + e);
    assert(cache_key(host, port, query, page, level, engines2) =~= a + join_commas(engines2) + e);
    lemma_cancel(a, join_commas(engines), join_commas(engines2), e);
    lemma_join_injective(engines, engines2);
}

/// The number of the six key inputs that differ between two requests.
pub open spec fn inputs_differing(
    host: Seq<char>,
    port: nat,
    query: Seq<char>,
    page: nat,
    level: nat,
    engines: Seq<Seq<char>>,
    host2: Seq<char>,
    port2: nat,
    query2: Seq<char>,
    page2: nat,
    level2: nat,
    engines2: Seq<Seq<char>>,
) -> int {
    (if host == host2 { 0int } else { 1int }) + (if port == port2 { 0int } else { 1int }) + (if query
        == query2 { 0int } else { 1int }) + (if page == page2 { 0int } else { 1int }) + (if level
        == level2 { 0int } else { 1int }) + (if engines == engines2 { 0int } else { 1int })
}

/// Two keys built from the same inputs are the same string.
pub proof fn lemma_cache_key_deterministic(
    host: Seq<char>,
    port: nat,
    query: Seq<char>,
    page: nat,
    level: nat,
    engines: Seq<Seq<char>>,
    key: Seq<char>,
    key2: Seq<char>,
)
    requires
        key == cache_key(host, port, query, page, level, engines),
        key2 == cache_key(host, port, query, page, level, engines),
    ensures
        key == key2,
{
}

/// Changing any one input changes the key: when at most one of the six
/// inputs differs and the keys are equal, none differs. Engine lists are
/// told apart only where no name is empty or holds a comma (`["a,b"]` and
/// `["a", "b"]` give one key, as do `[]` and `[""]`).
pub proof fn lemma_cache_key_separates(
    host: Seq<char>,
    port: nat,
    query: Seq<char>,
    page: nat,
    level: nat,
    engines: Seq<Seq<char>>,
    host2: Seq<char>,
    port2: nat,
    query2: Seq<char>,
    page2: nat,
    level2: nat,
    engines2: Seq<Seq<char>>,
)
    requires
        inputs_differing(host, port, query, page, level, engines, host2, port2, query2, page2, level2, engines2) <= 1,
        engines != engines2 ==> plain_names(engines) && plain_names(engines2),
        cache_key(host, port, query, page, level, engines) == cache_key(host2, port2, query2, page2, level2, engines2),
    ensures
        host == host2,
        port == port2,
        query == query2,
        page == page2,
        level == level2,
        engines == engines2,
{
    if host != host2 {
        lemma_key_fixes_host(host, host2, port, query, page, level, engines);
    } else if port != port2 {
        lemma_key_fixes_port(host, port, port2, query, page, level, engines);
    } else if query != query2 {
        lemma_key_fixes_query(host, port, query, query2, page, level, engines);
    } else if page != page2 {
        lemma_key_fixes_page(host, port, query, page, page2, level, engines);
    } else if level != level2 {
        lemma_key_fixes_level(host, port, query, page, level, level2, engines);
    } else if engines != engines2 {
        lemma_key_fixes_engines(host, port, query, page, level, engines, engines2);
    }
}

/// Appends the decimal notation of `n`.
fn push_decimal(out: &mut String, n: u32)
    ensures
        final(out)@ == old(out)@ + decimal(n as nat),
    decreases n,
{
    if n >= 10 {
        push_decimal(out, n / 10);
    }
    let d: usize = (n % 10) as usize;
    let digits = "0123456789";
    proof {
        reveal_strlit("0123456789");
        assert(digits@ =~= digit_chars());
    }
    out.append(digits.substring_char(d, d + 1));
    proof {
        assert(digits@.subrange(d as int, d + 1) =~= seq![digit_chars()[d as int]]);
        assert(final(out)@ =~= old(out)@ + decimal(n as nat));
    }
}

/// Appends a literal piece of the key.
fn push_literal(out: &mut String, piece: &str)
    ensures
        final(out)@ == old(out)@ + piece@,
{
    out.append(piece);
}

/// Appends the engine names joined by commas, in the order given.
fn push_engines(out: &mut String, engines: &Vec<String>)
    ensures
        final(out)@ == old(out)@ + join_commas(string_views(engines@)),
{
    let ghost start = out@;
    let ghost views = string_views(engines@);
    let comma = ",";
    proof {
        reveal_strlit(",");
    }
    let mut i: usize = 0;
    while i < engines.len()
        invariant
            0 <= i <= engines.len(),
            views == string_views(engines@),
            views.len() == engines@.len(),
            comma@ == seq![','],
            out@ == start + join_commas(views.take(i as int)),
        decreases engines.len() - i,
    {
        proof {
            let next = views.take(i + 1);
            assert(next.drop_last() =~= views.take(i as int));
            assert(next.last() == engines@[i as int]@);
        }
        if i > 0 {
            out.append(comma);
        }
        out.append(engines[i].as_str());
        proof {
            if i == 0 {
                assert(views.take(0).len() == 0);
                assert(join_commas(views.take(0)) =~= Seq::<char>::empty());
            }
        }
        i = i + 1;
        proof {
            assert(out@ =~= start + join_commas(views.take(i as int)));
        }
    }
    proof {
        assert(views.take(i as int) =~= views);
    }
}

/// Builds the cache key of one resolution from the server's binding
/// address and port, the query, the zero-based page, the safe-search level
/// and the engines in the order given.
pub fn build_cache_key(
    host: &str,
    port: u16,
    query: &str,
    page: u32,
    level: u8,
    engines: &Vec<String>,
) -> (r: String)
    ensures
        r@ == cache_key(host@, port as nat, query@, page as nat, level as nat, string_views(engines@)),
{
    let mut out = String::new();
    push_literal(&mut out, "http://");
    push_literal(&mut out, host);
    push_literal(&mut out, ":");
    push_decimal(&mut out, port as u32);
    push_literal(&mut out, "/search?q=");
    push_literal(&mut out, query);
    push_literal(&mut out, "&page=");
    push_decimal(&mut out, page);
    push_literal(&mut out, "&safesearch=");
    push_decimal(&mut out, level as u32);
    push_literal(&mut out, "&engines=");
    push_engines(&mut out, engines);
    proof {
        reveal_strlit("http://");
        reveal_strlit(":");
        reveal_strlit("/search?q=");
        reveal_strlit("&page=");
        reveal_strlit("&safesearch=");
        reveal_strlit("&engines=");
        assert(out@ =~= cache_key(host@, port as nat, query@, page as nat, level as nat, string_views(engines@)));
    }
    out
}

} // verus!
