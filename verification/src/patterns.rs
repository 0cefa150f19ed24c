//! Regular expressions, matched by the `regex` crate.

use vstd::prelude::*;

verus! {

/// Whether the regular expression `pattern` matches somewhere in `text`, as
/// the `regex` crate decides it; `None` where `pattern` is not a regular
/// expression that the crate accepts.
pub uninterp spec fn regex_match(pattern: Seq<char>, text: Seq<char>) -> Option<bool>;

/// What the first capture group of the leftmost match of `pattern` in `text`
/// holds, as the `regex` crate decides it; `None` where `pattern` is not
/// accepted, does not match, or its first group took no part in the match.
pub uninterp spec fn regex_first_group(pattern: Seq<char>, text: Seq<char>) -> Option<Seq<char>>;

/// Compiles `pattern` with `regex::Regex::new` and asks `Regex::is_match`
/// whether it matches anywhere in `text`. The contract only gives the answer
/// its name.
#[verifier::external_body]
pub(crate) fn pattern_matches(pattern: &str, text: &str) -> (r: Option<bool>)
    ensures
        r == regex_match(pattern@, text@),
{
    match regex::Regex::new(pattern) {
        Ok(re) => Some(re.is_match(text)),
        Err(_) => None,
    }
}

/// Compiles `pattern` with `regex::Regex::new`, searches `text` with
/// `Regex::captures`, and returns the text of capture group 1. The contract
/// only gives that text its name.
#[verifier::external_body]
pub(crate) fn first_group(pattern: &str, text: &str) -> (r: Option<String>)
    ensures
        match r {
            Some(s) => regex_first_group(pattern@, text@) == Some(s@),
            None => regex_first_group(pattern@, text@) is None,
        },
{
    match regex::Regex::new(pattern) {
        Ok(re) => match re.captures(text) {
            Some(caps) => match caps.get(1) {
                Some(m) => Some(m.as_str().to_string()),
                None => None,
            },
            None => None,
        },
        Err(_) => None,
    }
}

/// For every match of `pattern` in `text`, in the order in which the
/// `regex` crate yields the matches, what its first capture group holds, or
/// nothing where the group took no part in the match; `None` where
/// `pattern` is not accepted.
pub uninterp spec fn regex_all_first_groups(pattern: Seq<char>, text: Seq<char>) -> Option<
    Seq<Option<Seq<char>>>,
>;

/// The texts that the optional strings of `v` hold.
pub open spec fn optional_strings(v: Seq<Option<String>>) -> Seq<Option<Seq<char>>> {
    Seq::new(
        v.len(),
        |i: int|
            match v[i] {
                Some(s) => Some(s@),
                None => None,
            },
    )
}

/// Compiles `pattern` with `regex::Regex::new`, walks the matches that
/// `Regex::captures_iter` yields for `text`, and collects for each what
/// `Captures::get` gives for group 1. The contract only gives the outcome
/// its name.
#[verifier::external_body]
pub(crate) fn all_first_groups(pattern: &str, text: &str) -> (r: Option<Vec<Option<String>>>)
    ensures
        match r {
            Some(v) => regex_all_first_groups(pattern@, text@) == Some(optional_strings(v@)),
            None => regex_all_first_groups(pattern@, text@) is None,
        },
{
    match regex::Regex::new(pattern) {
        Ok(re) => {
            let mut found: Vec<Option<String>> = Vec::new();
            for caps in re.captures_iter(text) {
                match caps.get(1) {
                    Some(m) => found.push(Some(m.as_str().to_string())),
                    None => found.push(None),
                }
            }
            Some(found)
        },
        Err(_) => None,
    }
}

/// The texts of the groups, where every group holds one; nothing where
/// some group holds none.
pub open spec fn all_present(groups: Seq<Option<Seq<char>>>) -> Option<Seq<Seq<char>>> {
    if forall|i: int| 0 <= i < groups.len() ==> (#[trigger] groups[i]) is Some {
        Some(Seq::new(groups.len(), |i: int| groups[i]->Some_0))
    } else {
        None
    }
}

/// The texts of the groups, where every group holds one.
pub fn present_groups(groups: &Vec<Option<String>>) -> (r: Option<Vec<String>>)
    ensures
        match r {
            Some(v) => all_present(optional_strings(groups@)) == Some(crate::text::strings(v@)),
            None => all_present(optional_strings(groups@)) is None,
        },
{
    let mut found: Vec<String> = Vec::new();
    let mut i: usize = 0;
    while i < groups.len()
        invariant
            i <= groups.len(),
            found@.len() == i,
            forall|k: int| 0 <= k < i ==> (#[trigger] optional_strings(groups@)[k]) is Some,
            forall|k: int|
                0 <= k < i ==> (#[trigger] found@[k])@ == optional_strings(groups@)[k]->Some_0,
        decreases groups.len() - i,
    {
        match &groups[i] {
            Some(s) => {
                found.push(s.clone());
            },
            None => {
                assert(optional_strings(groups@)[i as int] is None);
                return None;
            },
        }
        i = i + 1;
    }
    assert(crate::text::strings(found@) =~= Seq::new(
        groups@.len(),
        |k: int| optional_strings(groups@)[k]->Some_0,
    ));
    Some(found)
}

/// Some pattern among the first `n` of `patterns` matches `text`.
pub open spec fn any_matches(patterns: Seq<Seq<char>>, text: Seq<char>, n: int) -> bool {
    exists|k: int| 0 <= k < n && k < patterns.len() && regex_match(#[trigger] patterns[k], text) == Some(true)
}

/// Whether one of `patterns` matches `text`. A pattern that is not a valid
/// regular expression matches nothing.
pub fn matches_any(patterns: &Vec<String>, text: &str) -> (r: bool)
    ensures
        r == any_matches(crate::text::strings(patterns@), text@, patterns@.len() as int),
{
    let mut i: usize = 0;
    while i < patterns.len()
        invariant
            i <= patterns.len(),
            !any_matches(crate::text::strings(patterns@), text@, i as int),
        decreases patterns.len() - i,
    {
        assert(crate::text::strings(patterns@)[i as int] == patterns@[i as int]@);
        match pattern_matches(patterns[i].as_str(), text) {
            Some(true) => {
                return true;
            },
            _ => {},
        }
        i = i + 1;
    }
    false
}

} // verus!
