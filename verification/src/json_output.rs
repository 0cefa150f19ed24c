//! The JSON that a command prints among other output: where it stands,
//! whether it needs repair, and how a repaired form is put in its place.

use vstd::prelude::*;
use crate::text::{
    chars_of, extend_chars, joined_by, lines_of, push_str, split_lines, string_of, texts,
    trim_chars, trimmed,
};

verus! {

/// Whether `text` is a JSON document, as the `serde_json` crate parses it.
pub uninterp spec fn json_parses(text: Seq<char>) -> bool;

/// What the JSON repairer of the `anyrepair` crate makes of `text`; `None`
/// where it reports an error.
pub uninterp spec fn json_repaired(text: Seq<char>) -> Option<Seq<char>>;

/// Parses `text` with `serde_json::from_str` as a `serde_json::Value` and
/// tells whether that succeeds. The contract only gives the answer its name.
#[verifier::external_body]
pub(crate) fn parses_as_json(text: &str) -> (r: bool)
    ensures
        r == json_parses(text@),
{
    serde_json::from_str::<serde_json::Value>(text).is_ok()
}

/// The deepest nesting of JSON that is handed on for repair.
pub const MAX_JSON_NESTING: usize = 128;

/// The largest number of brackets and braces that are open at once in `s`
/// from position `i` on, or `most` where that is more. Before `i`, `depth`
/// of them are open; `in_string` tells whether `i` stands inside a string
/// between double quotes, and `escaped` whether a backslash stands just
/// before it there. Brackets and braces inside strings do not count.
pub open spec fn nesting_from(
    s: Seq<char>,
    i: int,
    depth: nat,
    in_string: bool,
    escaped: bool,
    most: nat,
) -> nat
    decreases s.len() - i,
{
    if i < 0 || i >= s.len() {
        most
    } else if in_string {
        nesting_from(s, i + 1, depth, escaped || s[i] != '"', !escaped && s[i] == '\\', most)
    } else if s[i] == '"' {
        nesting_from(s, i + 1, depth, true, false, most)
    } else if s[i] == '{' || s[i] == '[' {
        nesting_from(
            s,
            i + 1,
            depth + 1,
            false,
            false,
            if depth + 1 > most {
                depth + 1
            } else {
                most
            },
        )
    } else if (s[i] == '}' || s[i] == ']') && depth > 0 {
        nesting_from(s, i + 1, (depth - 1) as nat, false, false, most)
    } else {
        nesting_from(s, i + 1, depth, false, false, most)
    }
}

/// The largest number of brackets and braces that are open at once in
/// `s`, outside strings.
pub open spec fn json_nesting(s: Seq<char>) -> nat {
    nesting_from(s, 0, 0, false, false, 0)
}

/// The largest number of brackets and braces that are open at once in
/// `text`, outside strings.
pub fn nesting_of(text: &str) -> (r: usize)
    ensures
        r == json_nesting(text@),
{
    let chars = chars_of(text);
    let mut depth: usize = 0;
    let mut most: usize = 0;
    let mut in_string = false;
    let mut escaped = false;
    let mut i: usize = 0;
    while i < chars.len()
        invariant
            i <= chars.len(),
            chars@ == text@,
            depth <= i,
            most <= i,
            json_nesting(text@) == nesting_from(
                chars@,
                i as int,
                depth as nat,
                in_string,
                escaped,
                most as nat,
            ),
        decreases chars.len() - i,
    {
        let c = chars[i];
        let ghost before = nesting_from(
            chars@,
            i as int,
            depth as nat,
            in_string,
            escaped,
            most as nat,
        );
        if in_string {
            let closes = !escaped && c == '"';
            let next_escaped = !escaped && c == '\\';
            assert(before == nesting_from(
                chars@,
                i + 1,
                depth as nat,
                !closes,
                next_escaped,
                most as nat,
            ));
            escaped = next_escaped;
            in_string = !closes;
        } else if c == '"' {
            assert(before == nesting_from(chars@, i + 1, depth as nat, true, false, most as nat));
            in_string = true;
            escaped = false;
        } else if c == '{' || c == '[' {
            depth = depth + 1;
            if depth > most {
                most = depth;
            }
            assert(before == nesting_from(chars@, i + 1, depth as nat, false, false, most as nat));
        } else if (c == '}' || c == ']') && depth > 0 {
            depth = depth - 1;
            assert(before == nesting_from(chars@, i + 1, depth as nat, false, false, most as nat));
        } else {
            assert(before == nesting_from(chars@, i + 1, depth as nat, false, false, most as nat));
        }
        i = i + 1;
    }
    most
}

/// Hands `text` to `Repair::repair` of a repairer that
/// `anyrepair::json::JsonRepairer::new` made. The contract only gives the
/// outcome its name. The repairer first checks the text with a parser
/// that calls itself once for every bracket or brace that is open, so the
/// text may not nest deeper than `MAX_JSON_NESTING`.
#[verifier::external_body]
pub(crate) fn repair_json(text: &str) -> (r: Option<String>)
    requires
        json_nesting(text@) <= MAX_JSON_NESTING,
    ensures
        match r {
            Some(s) => json_repaired(text@) == Some(s@),
            None => json_repaired(text@) is None,
        },
{
    match anyrepair::Repair::repair(&mut anyrepair::json::JsonRepairer::new(), text) {
        Ok(repaired) => Some(repaired),
        Err(_) => None,
    }
}

/// The line, without surrounding whitespace, starts as JSON starts.
pub open spec fn opens_json(line: Seq<char>) -> bool {
    let t = trimmed(line);
    t.len() > 0 && (t.first() == '{' || t.first() == '[')
}

/// The line, without surrounding whitespace, ends as JSON ends.
pub open spec fn closes_json(line: Seq<char>) -> bool {
    let t = trimmed(line);
    t.len() > 0 && (t.last() == '}' || t.last() == ']')
}

/// The first line at or after `k` that opens JSON; the number of lines
/// where there is none.
pub open spec fn first_opening(lines: Seq<Seq<char>>, k: int) -> int
    decreases lines.len() - k,
{
    if k < 0 || k >= lines.len() {
        lines.len() as int
    } else if opens_json(lines[k]) {
        k
    } else {
        first_opening(lines, k + 1)
    }
}

/// The first line at or after `k` that closes JSON; the number of lines
/// where there is none.
pub open spec fn first_closing(lines: Seq<Seq<char>>, k: int) -> int
    decreases lines.len() - k,
{
    if k < 0 || k >= lines.len() {
        lines.len() as int
    } else if closes_json(lines[k]) {
        k
    } else {
        first_closing(lines, k + 1)
    }
}

/// The lines that hold JSON: from the first line that opens JSON to the
/// first line from there on that closes it, or to the end where none does.
pub open spec fn json_lines(lines: Seq<Seq<char>>) -> Seq<Seq<char>> {
    let a = first_opening(lines, 0);
    if a >= lines.len() {
        Seq::empty()
    } else {
        let b = first_closing(lines, a);
        if b >= lines.len() {
            lines.subrange(a, lines.len() as int)
        } else {
            lines.subrange(a, b + 1)
        }
    }
}

/// The JSON in an output: its JSON lines, joined by line feeds. Nothing
/// where no line opens JSON.
pub open spec fn json_section(output: Seq<char>) -> Option<Seq<char>> {
    let found = json_lines(lines_of(output));
    if found.len() == 0 {
        None
    } else {
        Some(joined_by(found, "\n"@, found.len() as int))
    }
}

/// Where `c` stands first in `s` at or after `k`.
pub open spec fn first_at(s: Seq<char>, c: char, k: int) -> Option<int>
    decreases s.len() - k,
{
    if k < 0 || k >= s.len() {
        None
    } else if s[k] == c {
        Some(k)
    } else {
        first_at(s, c, k + 1)
    }
}

/// Where `c` stands last in `s` before `j`.
pub open spec fn last_before(s: Seq<char>, c: char, j: int) -> Option<int>
    decreases j,
{
    if j <= 0 || j > s.len() {
        None
    } else if s[j - 1] == c {
        Some(j - 1)
    } else {
        last_before(s, c, j - 1)
    }
}

/// The output with `repaired` in the place of its JSON: what stands before
/// the first opening brace, then `repaired`, then what stands after the
/// last closing brace. Without both braces the output stays as it is.
pub open spec fn spliced(output: Seq<char>, repaired: Seq<char>) -> Seq<char> {
    match (first_at(output, '{', 0), last_before(output, '}', output.len() as int)) {
        (Some(a), Some(b)) => output.take(a) + repaired + output.skip(b + 1),
        _ => output,
    }
}

/// The JSON in `output`, if any.
pub fn extract_json_section(output: &str) -> (r: Option<String>)
    ensures
        match r {
            Some(s) => json_section(output@) == Some(s@),
            None => json_section(output@) is None,
        },
{
    let chars = chars_of(output);
    let lines = split_lines(&chars);
    let ghost all = texts(lines@);
    let mut a: usize = 0;
    let mut opened = false;
    while a < lines.len() && !opened
        invariant
            a <= lines.len(),
            all == texts(lines@),
            first_opening(all, 0) == first_opening(all, a as int),
            opened ==> a < lines.len() && opens_json(all[a as int]),
        decreases lines.len() - a + (if opened { 0int } else { 1int }),
    {
        let t = trim_chars(&lines[a]);
        if t.len() > 0 && (t[0] == '{' || t[0] == '[') {
            opened = true;
        } else {
            a = a + 1;
        }
    }
    if !opened {
        return None;
    }
    let mut b: usize = a;
    let mut closed = false;
    while b < lines.len() && !closed
        invariant
            a <= b <= lines.len(),
            all == texts(lines@),
            first_closing(all, a as int) == first_closing(all, b as int),
            closed ==> b < lines.len() && closes_json(all[b as int]),
        decreases lines.len() - b + (if closed { 0int } else { 1int }),
    {
        let t = trim_chars(&lines[b]);
        if t.len() > 0 && (t[t.len() - 1] == '}' || t[t.len() - 1] == ']') {
            closed = true;
        } else {
            b = b + 1;
        }
    }
    let end: usize = if closed {
        b + 1
    } else {
        lines.len()
    };
    let ghost found = json_lines(all);
    assert(found == all.subrange(a as int, end as int));
    let mut out: Vec<char> = Vec::new();
    let mut i: usize = a;
    while i < end
        invariant
            a <= i <= end <= lines.len(),
            all == texts(lines@),
            found == all.subrange(a as int, end as int),
            out@ == joined_by(found, "\n"@, i - a),
        decreases end - i,
    {
        if i > a {
            push_str(&mut out, "\n");
        }
        extend_chars(&mut out, &lines[i]);
        i = i + 1;
    }
    Some(string_of(&out))
}

/// The output with `repaired` in the place of its JSON.
pub fn splice_repaired(output: &str, repaired: &str) -> (r: String)
    ensures
        r@ == spliced(output@, repaired@),
{
    let chars = chars_of(output);
    let mut a: usize = 0;
    while a < chars.len() && chars[a] != '{'
        invariant
            a <= chars.len(),
            first_at(chars@, '{', 0) == first_at(chars@, '{', a as int),
        decreases chars.len() - a,
    {
        a = a + 1;
    }
    let mut b: usize = chars.len();
    while b > 0 && chars[b - 1] != '}'
        invariant
            b <= chars.len(),
            last_before(chars@, '}', chars@.len() as int) == last_before(chars@, '}', b as int),
        decreases b,
    {
        b = b - 1;
    }
    if a >= chars.len() || b == 0 {
        return output.to_owned();
    }
    let mut out: Vec<char> = crate::text::slice_of(&chars, 0, a);
    push_str(&mut out, repaired);
    let tail = crate::text::slice_of(&chars, b, chars.len());
    extend_chars(&mut out, &tail);
    assert(out@ =~= chars@.take(a as int) + repaired@ + chars@.skip(b as int));
    string_of(&out)
}

/// The output after a repair was tried on its JSON: with the repaired
/// form in the place of the JSON where the JSON was not valid and the
/// repair gave valid JSON, and else as it was.
pub open spec fn with_repair(
    output: Seq<char>,
    section_valid: bool,
    repaired: Option<Seq<char>>,
    repaired_valid: bool,
) -> Seq<char> {
    if !section_valid && repaired is Some && repaired_valid {
        spliced(output, repaired->Some_0)
    } else {
        output
    }
}

/// The output of a command with its JSON repaired: as it was where it
/// holds no JSON, where the JSON is valid, or where the JSON nests deeper
/// than `MAX_JSON_NESTING`, and else what a repair gives.
pub open spec fn repaired_output(output: Seq<char>) -> Seq<char> {
    match json_section(output) {
        None => output,
        Some(section) => if json_parses(section) || json_nesting(section) > MAX_JSON_NESTING {
            output
        } else {
            with_repair(
                output,
                false,
                json_repaired(section),
                match json_repaired(section) {
                    Some(text) => json_parses(text),
                    None => false,
                },
            )
        },
    }
}

/// The output after a repair was tried on its JSON, where `section_valid`
/// tells whether the JSON was valid, `repaired` is what the repair gave,
/// and `repaired_valid` tells whether that is valid JSON.
pub fn place_repair(
    output: &str,
    section_valid: bool,
    repaired: &Option<String>,
    repaired_valid: bool,
) -> (r: String)
    ensures
        r@ == with_repair(
            output@,
            section_valid,
            match *repaired {
                Some(text) => Some(text@),
                None => None,
            },
            repaired_valid,
        ),
{
    if section_valid || !repaired_valid {
        return output.to_owned();
    }
    match repaired {
        Some(text) => splice_repaired(output, text.as_str()),
        None => output.to_owned(),
    }
}

/// The output of a command with its JSON repaired.
pub fn repair_aws_json_output(output: &str) -> (r: String)
    ensures
        r@ == repaired_output(output@),
{
    match extract_json_section(output) {
        None => output.to_owned(),
        Some(section) => {
            if parses_as_json(section.as_str()) {
                return output.to_owned();
            }
            if nesting_of(section.as_str()) > MAX_JSON_NESTING {
                return output.to_owned();
            }
            let repaired = repair_json(section.as_str());
            let repaired_valid = match &repaired {
                Some(text) => parses_as_json(text.as_str()),
                None => false,
            };
            place_repair(output, false, &repaired, repaired_valid)
        },
    }
}

} // verus!
