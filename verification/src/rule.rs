//! Rewrite rules as the command line gives them: `<signum>:<replacement>`.

use vstd::prelude::*;
use crate::numeral::{parse_small, small_numeral};

verus! {

/// One rewrite rule: `signum` in 1..=31 is replaced by `replacement` in
/// 1..=31, or dropped when `replacement` is 0.
#[derive(Clone, Copy, Debug, PartialEq, Eq, Structural)]
pub struct RewriteRule {
    pub signum: i32,
    pub replacement: i32,
}

/// The pattern that the text of a rule has to match: one or two digits, a
/// colon, and `-1` or one or two digits.
pub open spec fn rule_pattern() -> Seq<char> {
    "^(\\d{1,2}?):(-1|\\d{1,2}?)$"@
}

/// What the regex crate captures when it matches `pattern` against `text`:
/// `None` where `pattern` is no regular expression or matches nowhere in
/// `text`; else the capture groups of the leftmost match, the whole match
/// first, each with the text it captured, or `None` for a group that took no
/// part in the match.
pub uninterp spec fn captured_groups(pattern: Seq<char>, text: Seq<char>) -> Option<
    Seq<Option<Seq<char>>>,
>;

/// Compiles `pattern` with `regex::Regex::new` and matches it against `text`
/// with `Regex::captures`. Nothing is claimed of the outcome but that it is
/// the one the regex crate gives for this pattern and this text.
#[verifier::external_body]
fn regex_captures(pattern: &str, text: &str) -> (groups: Option<Vec<Option<String>>>)
    ensures
        groups.deep_view() == captured_groups(pattern@, text@),
{
    let re = regex::Regex::new(pattern).ok()?;
    let caps = re.captures(text)?;
    Some(caps.iter().map(|g| g.map(|m| m.as_str().to_string())).collect())
}

/// The rule that a match result stands for: there must be three groups, the
/// second and the third of them taking part and writing a signal number from
/// 1 to 31 and a replacement from 0 to 31.
pub open spec fn rule_of_groups(groups: Option<Seq<Option<Seq<char>>>>) -> Option<RewriteRule> {
    match groups {
        Some(g) => if g.len() == 3 && g[1].is_some() && g[2].is_some() {
            match (small_numeral(g[1].unwrap()), small_numeral(g[2].unwrap())) {
                (Some(signum), Some(replacement)) => if signum >= 1 {
                    Some(RewriteRule { signum, replacement })
                } else {
                    None
                },
                _ => None,
            }
        } else {
            None
        },
        None => None,
    }
}

/// The rule that the text `arg` stands for, if it stands for one.
pub open spec fn rule_of_text(arg: Seq<char>) -> Option<RewriteRule> {
    rule_of_groups(captured_groups(rule_pattern(), arg))
}

/// Reads a rule off the groups that matching its text against the rule
/// pattern captured.
pub fn rule_from_captures(groups: &Option<Vec<Option<String>>>) -> (rule: Option<RewriteRule>)
    ensures
        rule == rule_of_groups(groups.deep_view()),
{
    match groups {
        Some(g) => {
            if g.len() != 3 {
                return None;
            }
            match (&g[1], &g[2]) {
                (Some(signum_text), Some(replacement_text)) => {
                    assert(g.deep_view()[1] == Some(signum_text@));
                    assert(g.deep_view()[2] == Some(replacement_text@));
                    match (parse_small(signum_text.as_str()), parse_small(replacement_text.as_str())) {
                        (Some(signum), Some(replacement)) => {
                            if signum >= 1 {
                                Some(RewriteRule { signum, replacement })
                            } else {
                                None
                            }
                        },
                        _ => None,
                    }
                },
                _ => None,
            }
        },
        None => None,
    }
}

/// Reads the rule that `arg` writes.
pub fn parse_rule(arg: &str) -> (rule: Option<RewriteRule>)
    ensures
        rule == rule_of_text(arg@),
{
    let groups = regex_captures("^(\\d{1,2}?):(-1|\\d{1,2}?)$", arg);
    rule_from_captures(&groups)
}

} // verus!
