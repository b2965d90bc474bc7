use vstd::prelude::*;

verus! {

/// What the `regex` crate finds for `pattern` in `haystack`: `None` when
/// `pattern` does not compile (it is not a valid regular expression, or it
/// exceeds the crate's size limits); otherwise `Some(None)` when
/// there is no match, when `pattern` has no group named `group` or when
/// that group takes no part in the leftmost-first match, and
/// `Some(Some(text))` with the text that group captures in that match.
pub uninterp spec fn regex_named_capture(
    pattern: Seq<char>,
    group: Seq<char>,
    haystack: Seq<char>,
) -> Option<Option<Seq<char>>>;

/// The view of an optional optional string.
pub open spec fn nested_view(r: Option<Option<String>>) -> Option<Option<Seq<char>>> {
    match r {
        None => None,
        Some(None) => Some(None),
        Some(Some(s)) => Some(Some(s@)),
    }
}

/// The pattern of the line in which a native Go harness names the seed
/// corpus entry that failed.
pub open spec fn seed_entry_pattern() -> Seq<char> {
    "(?m)failure while testing seed corpus entry: (?<test_case>.*)"@
}

/// The literal text that starts a line of `seed_entry_pattern`.
pub open spec fn seed_entry_marker() -> Seq<char> {
    "failure while testing seed corpus entry: "@
}

/// The first position at or after `i` at which `needle` occurs in `text`.
pub open spec fn find_from(text: Seq<char>, needle: Seq<char>, i: int) -> Option<int>
    decreases text.len() + 1 - i,
{
    if i < 0 || i + needle.len() > text.len() {
        None
    } else if text.subrange(i, i + needle.len()) == needle {
        Some(i)
    } else {
        find_from(text, needle, i + 1)
    }
}

/// `text` up to, and without, its first `'\n'`.
pub open spec fn first_line(text: Seq<char>) -> Seq<char> {
    match find_from(text, seq!['\n'], 0) {
        Some(end) => text.take(end),
        None => text,
    }
}

/// What the `test_case` group of `seed_entry_pattern` captures in
/// `haystack`: the rest of the line after the first occurrence of
/// `seed_entry_marker` (`.` matches any character but `'\n'`, and `.*` is
/// greedy), or `None` when the marker does not occur.
pub open spec fn spec_seed_entry(haystack: Seq<char>) -> Option<Seq<char>> {
    match find_from(haystack, seed_entry_marker(), 0) {
        Some(start) => Some(
            first_line(haystack.subrange(start + seed_entry_marker().len(), haystack.len() as int)),
        ),
        None => None,
    }
}

/// Trusted: compiles `pattern` with `regex::Regex::new`, searches
/// `haystack` with `Regex::captures` and takes the group named `group`
/// with `Captures::name`.  The contract ties the result to
/// `regex_named_capture` of the three arguments and, for the group
/// `test_case` of `seed_entry_pattern`, states what the crate's
/// documented syntax gives: the pattern compiles, and the group captures
/// the rest of the line after the first marker, if there is one.  What
/// other expressions match is left to the `regex` crate.
#[verifier::external_body]
pub fn named_capture(pattern: &str, group: &str, haystack: &str) -> (r: Option<Option<String>>)
    ensures
        nested_view(r) == regex_named_capture(pattern@, group@, haystack@),
        pattern@ == seed_entry_pattern() && group@ == "test_case"@ ==> nested_view(r) == Some(
            spec_seed_entry(haystack@),
        ),
{
    let re = match regex::Regex::new(pattern) {
        Ok(re) => re,
        Err(_) => return None,
    };
    let caps = match re.captures(haystack) {
        Some(caps) => caps,
        None => return Some(None),
    };
    match caps.name(group) {
        Some(m) => Some(Some(m.as_str().to_string())),
        None => Some(None),
    }
}

} // verus!
