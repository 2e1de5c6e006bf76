//! The hard safe-search gate: a query checked against regex rules, one rule
//! per line of the blocklist.

use vstd::prelude::*;

verus! {

#[verifier::external_type_specification]
#[verifier::external_body]
pub struct ExRegex(regex::Regex);

#[verifier::external_type_specification]
#[verifier::external_body]
pub struct ExRegexError(regex::Error);

/// Whether `regex::Regex::new` accepts the pattern (its syntax, and the
/// default size limit of the compiled program).
pub uninterp spec fn regex_compiles(pattern: Seq<char>) -> bool;

/// Whether the regex compiled from `pattern` matches somewhere in `text`.
pub uninterp spec fn regex_finds(pattern: Seq<char>, text: Seq<char>) -> bool;

/// A compiled rule, kept with the pattern it was compiled from.
struct Rule {
    pattern: String,
    compiled: regex::Regex,
}

/// Relies on `regex::Regex::new`: it fails exactly on the patterns that it
/// does not accept, and does not panic.
#[verifier::external_body]
fn compile_rule(pattern: &str) -> (r: Result<Rule, regex::Error>)
    ensures
        r is Ok <==> regex_compiles(pattern@),
        r matches Ok(rule) ==> rule.pattern@ == pattern@,
{
    regex::Regex::new(pattern).map(|compiled| Rule { pattern: pattern.to_string(), compiled })
}

/// Relies on `regex::Regex::is_match`: true when the rule's regex matches
/// anywhere in the text.
#[verifier::external_body]
fn rule_finds(rule: &Rule, text: &str) -> (r: bool)
    ensures
        r == regex_finds(rule.pattern@, text@),
{
    rule.compiled.is_match(text)
}

/// A blocklist line that is not a valid regular expression.
#[derive(Debug, Clone, Copy, PartialEq, Eq)]
pub struct FilterRuleError {
    /// Zero-based index of the offending line.
    pub line: usize,
}

/// The outcome of checking `query` against `rules` in order: the first rule
/// that fails to compile is an error, the first that matches gives `true`,
/// and running out of rules gives `false`.
pub open spec fn filter_outcome(rules: Seq<Seq<char>>, query: Seq<char>) -> Result<bool, nat>
    decreases rules.len(),
{
    if rules.len() == 0 {
        Ok(false)
    } else if !regex_compiles(rules[0]) {
        Err(0)
    } else if regex_finds(rules[0], query) {
        Ok(true)
    } else {
        match filter_outcome(rules.drop_first(), query) {
            Ok(b) => Ok(b),
            Err(i) => Err(i + 1),
        }
    }
}

/// The patterns of the rule lines, as character sequences.
pub open spec fn rule_patterns(rules: Seq<String>) -> Seq<Seq<char>> {
    rules.map_values(|s: String| s@)
}

/// When every rule compiles, the check gives `true` exactly when some rule
/// matches the query.
pub proof fn lemma_valid_rules_match_any(rules: Seq<Seq<char>>, query: Seq<char>)
    requires
        forall|i: int| 0 <= i < rules.len() ==> regex_compiles(#[trigger] rules[i]),
    ensures
        filter_outcome(rules, query) == Ok::<bool, nat>(
            exists|i: int| 0 <= i < rules.len() && #[trigger] regex_finds(rules[i], query),
        ),
    decreases rules.len(),
{
    if rules.len() > 0 {
        let rest = rules.drop_first();
        assert forall|i: int| 0 <= i < rest.len() implies regex_compiles(#[trigger] rest[i]) by {
            assert(rest[i] == rules[i + 1]);
        }
        lemma_valid_rules_match_any(rest, query);
        assert(regex_compiles(rules[0]));
        if regex_finds(rules[0], query) {
        } else {
            if exists|i: int| 0 <= i < rules.len() && #[trigger] regex_finds(rules[i], query) {
                let i = choose|i: int| 0 <= i < rules.len() && #[trigger] regex_finds(rules[i], query);
                assert(rest[i - 1] == rules[i]);
            }
            if exists|i: int| 0 <= i < rest.len() && #[trigger] regex_finds(rest[i], query) {
                let i = choose|i: int| 0 <= i < rest.len() && #[trigger] regex_finds(rest[i], query);
                assert(rest[i] == rules[i + 1]);
            }
        }
    }
}

proof fn lemma_outcome_step(rules: Seq<Seq<char>>, query: Seq<char>, i: int)
    requires
        0 <= i < rules.len(),
        forall|j: int| 0 <= j < i ==> regex_compiles(#[trigger] rules[j]) && !regex_finds(rules[j], query),
    ensures
        filter_outcome(rules, query) == (match filter_outcome(rules.subrange(i, rules.len() as int), query) {
            Ok(b) => Ok(b),
            Err(k) => Err::<bool, nat>((k + i) as nat),
        }),
    decreases i,
{
    if i > 0 {
        let rest = rules.drop_first();
        assert forall|j: int| 0 <= j < i - 1 implies regex_compiles(#[trigger] rest[j]) && !regex_finds(rest[j], query) by {
            assert(rest[j] == rules[j + 1]);
        }
        lemma_outcome_step(rest, query, i - 1);
        assert(rest.subrange(i - 1, rest.len() as int) =~= rules.subrange(i, rules.len() as int));
        assert(regex_compiles(rules[0]) && !regex_finds(rules[0], query));
    } else {
        assert(rules.subrange(0, rules.len() as int) =~= rules);
    }
}

/// Checks `query` against the blocklist rules, one regular expression per
/// line, in order. Stops at the first rule that matches; a line that does
/// not compile before that point is an error: a bad rule is never passed
/// over, since that would quietly let blocked queries through.
pub fn is_match_from_filter_list(rules: &Vec<String>, query: &str) -> (r: Result<bool, FilterRuleError>)
    ensures
        match filter_outcome(rule_patterns(rules@), query@) {
            Ok(b) => r == Ok::<bool, FilterRuleError>(b),
            Err(i) => r matches Err(e) && e.line as nat == i,
        },
{
    let ghost pats = rule_patterns(rules@);
    let mut i: usize = 0;
    while i < rules.len()
        invariant
            0 <= i <= rules.len(),
            pats == rule_patterns(rules@),
            pats.len() == rules@.len(),
            forall|j: int| 0 <= j < i ==> regex_compiles(#[trigger] pats[j]) && !regex_finds(pats[j], query@),
        decreases rules.len() - i,
    {
        assert(pats[i as int] == rules@[i as int]@);
        let rule = match compile_rule(rules[i].as_str()) {
            Ok(rule) => rule,
            Err(_) => {
                proof {
                    lemma_outcome_step(pats, query@, i as int);
                    assert(pats.subrange(i as int, pats.len() as int)[0] == pats[i as int]);
                }
                return Err(FilterRuleError { line: i });
            },
        };
        if rule_finds(&rule, query) {
            proof {
                lemma_outcome_step(pats, query@, i as int);
                assert(pats.subrange(i as int, pats.len() as int)[0] == pats[i as int]);
            }
            return Ok(true);
        }
        i = i + 1;
    }
    proof {
        if pats.len() > 0 {
            lemma_outcome_step(pats, query@, pats.len() - 1);
            let last = pats.subrange(pats.len() - 1, pats.len() as int);
            assert(last[0] == pats[pats.len() - 1]);
            assert(last.drop_first().len() == 0);
            assert(filter_outcome(last.drop_first(), query@) == Ok::<bool, nat>(false));
            assert(filter_outcome(last, query@) == Ok::<bool, nat>(false));
        }
    }
    Ok(false)
}

} // verus!
