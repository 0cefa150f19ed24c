//! The quality of a generated IBM Cloud command in five respects: its
//! structure, its parameters, its relevance to the request, its syntax and
//! its completeness. Every respect gets a score between zero and one, as
//! an exact fraction, and the scores decide what is suggested.

use vstd::prelude::*;
use crate::patterns::{
    all_first_groups, all_present, pattern_matches, present_groups, regex_all_first_groups,
    regex_match,
};
use crate::quality::one_if;
use crate::ratio::Ratio;
use crate::similarity::{count_substring_hits, substring_hits};
use crate::text::{
    chars_contain, chars_eq, chars_of, contains, extend_chars, lower_chars, lowercase, matches_at,
    split_words, starts_with, str_contains, strings, texts, trim_chars, trimmed, words,
};

verus! {

/// Whether `sub` is a known subcommand of the base command `base`, which
/// is the program name and the word after it.
pub open spec fn is_known_subcommand(base: Seq<char>, sub: Seq<char>) -> bool {
    if base == "ibmcloud"@ {
        sub == "login"@ || sub == "target"@ || sub == "logout"@ || sub == "config"@ || sub
            == "update"@
    } else if base == "ibmcloud account"@ {
        sub == "list"@ || sub == "show"@ || sub == "orgs"@ || sub == "spaces"@
    } else if base == "ibmcloud resource"@ {
        sub == "groups"@ || sub == "service-instances"@ || sub == "service-keys"@
    } else if base == "ibmcloud cf"@ {
        sub == "apps"@ || sub == "services"@ || sub == "routes"@ || sub == "domains"@
    } else if base == "ibmcloud ks"@ {
        sub == "clusters"@ || sub == "workers"@ || sub == "worker-pools"@
    } else if base == "ibmcloud cr"@ {
        sub == "images"@ || sub == "namespaces"@ || sub == "tokens"@
    } else if base == "ibmcloud watson"@ {
        sub == "services"@ || sub == "credentials"@ || sub == "models"@
    } else if base == "ibmcloud code-engine"@ {
        sub == "projects"@ || sub == "applications"@ || sub == "jobs"@
    } else {
        false
    }
}

/// Whether `base` is a known base command.
pub open spec fn is_known_base(base: Seq<char>) -> bool {
    base == "ibmcloud"@ || base == "ibmcloud account"@ || base == "ibmcloud resource"@ || base
        == "ibmcloud cf"@ || base == "ibmcloud ks"@ || base == "ibmcloud cr"@ || base
        == "ibmcloud watson"@ || base == "ibmcloud code-engine"@
}

/// Whether `p` is a parameter that is common in commands.
pub open spec fn is_common_parameter(p: Seq<char>) -> bool {
    p == "--help"@ || p == "-h"@ || p == "--version"@ || p == "-v"@ || p == "--output"@ || p
        == "-o"@ || p == "--quiet"@ || p == "-q"@ || p == "--resource-group"@ || p == "-g"@ || p
        == "--cf-org"@ || p == "--cf-space"@ || p == "-s"@ || p == "--name"@ || p == "-n"@ || p
        == "--force"@ || p == "-f"@
}

/// Whether the characters are those of the string.
fn is_word(v: &Vec<char>, s: &str) -> (r: bool)
    ensures
        r == (v@ == s@),
{
    let t = chars_of(s);
    chars_eq(v, &t)
}

/// Whether `base` is a known base command.
pub fn known_base(base: &Vec<char>) -> (r: bool)
    ensures
        r == is_known_base(base@),
{
    is_word(base, "ibmcloud") || is_word(base, "ibmcloud account") || is_word(
        base,
        "ibmcloud resource",
    ) || is_word(base, "ibmcloud cf") || is_word(base, "ibmcloud ks") || is_word(
        base,
        "ibmcloud cr",
    ) || is_word(base, "ibmcloud watson") || is_word(base, "ibmcloud code-engine")
}

/// Whether `sub` is a known subcommand of the base command `base`.
pub fn known_subcommand(base: &Vec<char>, sub: &Vec<char>) -> (r: bool)
    ensures
        r == is_known_subcommand(base@, sub@),
{
    if is_word(base, "ibmcloud") {
        is_word(sub, "login") || is_word(sub, "target") || is_word(sub, "logout") || is_word(
            sub,
            "config",
        ) || is_word(sub, "update")
    } else if is_word(base, "ibmcloud account") {
        is_word(sub, "list") || is_word(sub, "show") || is_word(sub, "orgs") || is_word(
            sub,
            "spaces",
        )
    } else if is_word(base, "ibmcloud resource") {
        is_word(sub, "groups") || is_word(sub, "service-instances") || is_word(sub, "service-keys")
    } else if is_word(base, "ibmcloud cf") {
        is_word(sub, "apps") || is_word(sub, "services") || is_word(sub, "routes") || is_word(
            sub,
            "domains",
        )
    } else if is_word(base, "ibmcloud ks") {
        is_word(sub, "clusters") || is_word(sub, "workers") || is_word(sub, "worker-pools")
    } else if is_word(base, "ibmcloud cr") {
        is_word(sub, "images") || is_word(sub, "namespaces") || is_word(sub, "tokens")
    } else if is_word(base, "ibmcloud watson") {
        is_word(sub, "services") || is_word(sub, "credentials") || is_word(sub, "models")
    } else if is_word(base, "ibmcloud code-engine") {
        is_word(sub, "projects") || is_word(sub, "applications") || is_word(sub, "jobs")
    } else {
        false
    }
}

/// Whether `p` is a parameter that is common in commands.
pub fn common_parameter(p: &Vec<char>) -> (r: bool)
    ensures
        r == is_common_parameter(p@),
{
    is_word(p, "--help") || is_word(p, "-h") || is_word(p, "--version") || is_word(p, "-v")
        || is_word(p, "--output") || is_word(p, "-o") || is_word(p, "--quiet") || is_word(p, "-q")
        || is_word(p, "--resource-group") || is_word(p, "-g") || is_word(p, "--cf-org") || is_word(
        p,
        "--cf-space",
    ) || is_word(p, "-s") || is_word(p, "--name") || is_word(p, "-n") || is_word(p, "--force")
        || is_word(p, "-f")
}

/// The points out of a hundred for the structure of a command: forty for
/// the program name at its start, thirty for a known base command, and
/// thirty more for a known subcommand of it.
pub open spec fn structure_points(command: Seq<char>) -> nat {
    let parts = words(command);
    (if starts_with(trimmed(command), "ibmcloud"@) {
        40nat
    } else {
        0
    }) + (if parts.len() >= 2 && is_known_base(parts[0] + seq![' '] + parts[1]) {
        30nat + (if parts.len() >= 3 && is_known_subcommand(
            parts[0] + seq![' '] + parts[1],
            parts[2],
        ) {
            30nat
        } else {
            0
        })
    } else {
        0
    })
}

/// The points out of a hundred for the structure of `command`.
pub fn assess_command_structure(command: &str) -> (r: u64)
    ensures
        r == structure_points(command@),
        r <= 100,
{
    let text = chars_of(command);
    let t = trim_chars(&text);
    let program = chars_of("ibmcloud");
    let mut score: u64 = 0;
    if matches_at(&t, &program, 0) {
        score = score + 40;
    }
    let parts = split_words(&text);
    if parts.len() >= 2 {
        let mut base: Vec<char> = Vec::new();
        extend_chars(&mut base, &parts[0]);
        base.push(' ');
        extend_chars(&mut base, &parts[1]);
        assert(base@ =~= texts(parts@)[0] + seq![' '] + texts(parts@)[1]);
        if known_base(&base) {
            score = score + 30;
            if parts.len() >= 3 && known_subcommand(&base, &parts[2]) {
                score = score + 30;
            }
        }
    }
    score
}

/// How many of the first `n` parameters are common ones.
pub open spec fn common_count(found: Seq<Seq<char>>, n: int) -> nat
    decreases n,
{
    if n <= 0 {
        0
    } else {
        common_count(found, n - 1) + if is_common_parameter(found[n - 1]) {
            1nat
        } else {
            0nat
        }
    }
}

/// The score for the parameters of a command of which `valid` out of
/// `count` are common ones: a half for a command without parameters, and
/// else two tenths and eight tenths of the share of the common ones. With
/// more parameters than a fraction can hold, the score is a half.
pub open spec fn parameter_score(valid: nat, count: nat) -> Ratio {
    if count == 0 || 10 * count > u64::MAX || valid > count {
        Ratio { num: 5, den: 10 }
    } else {
        Ratio { num: (8 * valid + 2 * count) as u64, den: (10 * count) as u64 }
    }
}

/// How many of `found` are common parameters.
pub fn count_common_parameters(found: &Vec<String>) -> (r: usize)
    ensures
        r == common_count(strings(found@), found@.len() as int),
        r <= found@.len(),
{
    let mut valid: usize = 0;
    let mut i: usize = 0;
    while i < found.len()
        invariant
            i <= found.len(),
            valid <= i,
            valid == common_count(strings(found@), i as int),
        decreases found.len() - i,
    {
        let p = chars_of(found[i].as_str());
        if common_parameter(&p) {
            valid = valid + 1;
        }
        i = i + 1;
    }
    valid
}

/// The score for the parameters `found` in a command.
pub fn score_parameters(found: &Vec<String>) -> (r: Ratio)
    ensures
        r == parameter_score(
            common_count(strings(found@), found@.len() as int),
            found@.len() as nat,
        ),
        r.valid(),
        r.unit(),
{
    let count = found.len();
    let valid = count_common_parameters(found);
    if count == 0 || count as u64 > u64::MAX / 10 {
        Ratio { num: 5, den: 10 }
    } else {
        let c = count as u64;
        let v = valid as u64;
        Ratio { num: 8 * v + 2 * c, den: 10 * c }
    }
}

/// The pattern that finds the parameters of a command.
pub open spec fn parameter_pattern() -> Seq<char> {
    "(--?[a-zA-Z][a-zA-Z0-9-]*)"@
}

/// The score for the parameters that the parameter pattern found in a
/// command, where `groups` holds what the first group of each match holds:
/// the score of the parameters, or a half where the pattern was not
/// accepted or a match holds no parameter.
pub open spec fn parameter_validity_of(groups: Option<Seq<Option<Seq<char>>>>) -> Ratio {
    match groups {
        Some(found) => match all_present(found) {
            Some(parameters) => parameter_score(
                common_count(parameters, parameters.len() as int),
                parameters.len(),
            ),
            None => Ratio { num: 5, den: 10 },
        },
        None => Ratio { num: 5, den: 10 },
    }
}

/// The score for the parameters of a command: that of the parameters that
/// the parameter pattern finds in it.
pub open spec fn parameter_validity(command: Seq<char>) -> Ratio {
    parameter_validity_of(regex_all_first_groups(parameter_pattern(), command))
}

/// The score for the parameters that the parameter pattern found in a
/// command, where `groups` holds what the first group of each match holds.
pub fn score_found_parameters(groups: &Option<Vec<Option<String>>>) -> (r: Ratio)
    ensures
        r == parameter_validity_of(
            match *groups {
                Some(found) => Some(crate::patterns::optional_strings(found@)),
                None => None,
            },
        ),
{
    match groups {
        Some(found) => match present_groups(found) {
            Some(parameters) => score_parameters(&parameters),
            None => Ratio { num: 5, den: 10 },
        },
        None => Ratio { num: 5, den: 10 },
    }
}

/// The score for the parameters of `command`.
pub fn assess_parameter_validity(command: &str) -> (r: Ratio)
    ensures
        r == parameter_validity(command@),
{
    let groups = all_first_groups("(--?[a-zA-Z][a-zA-Z0-9-]*)", command);
    score_found_parameters(&groups)
}

/// The first `n` words without those of at most two characters.
pub open spec fn long_terms(all: Seq<Seq<char>>, n: int) -> Seq<Seq<char>>
    decreases n,
{
    if n <= 0 {
        Seq::empty()
    } else if all[n - 1].len() > 2 {
        long_terms(all, n - 1).push(all[n - 1])
    } else {
        long_terms(all, n - 1)
    }
}

/// Some word of action stands both in the request and in the command,
/// which are both in lower case.
pub open spec fn actions_aligned(input: Seq<char>, command: Seq<char>) -> bool {
    (contains(input, "list"@) && contains(command, "list"@)) || (contains(input, "show"@)
        && contains(command, "show"@)) || (contains(input, "create"@) && contains(
        command,
        "create"@,
    )) || (contains(input, "delete"@) && contains(command, "delete"@)) || (contains(
        input,
        "update"@,
    ) && contains(command, "update"@)) || (contains(input, "get"@) && contains(command, "get"@))
        || (contains(input, "set"@) && contains(command, "set"@))
}

/// The score for the relevance of a command of which `matching` out of
/// `terms` terms of the request occur in it: the share of those terms, with
/// two tenths more where the actions are aligned, and at most one. With
/// more terms than a fraction can hold, the score is zero.
pub open spec fn relevance_score(matching: nat, terms: nat, aligned: bool) -> Ratio {
    if terms == 0 {
        Ratio {
            num: if aligned {
                1
            } else {
                0
            },
            den: 5,
        }
    } else if 6 * terms > u64::MAX || matching > terms {
        Ratio { num: 0, den: 1 }
    } else {
        let num = 5 * matching + (if aligned {
            terms
        } else {
            0
        });
        if num > 5 * terms {
            Ratio { num: 1, den: 1 }
        } else {
            Ratio { num: num as u64, den: (5 * terms) as u64 }
        }
    }
}

/// The score for the relevance of a command to a request, both in lower
/// case: the terms are the words of the request that have more than two
/// characters, and a term matches where it stands anywhere in the command.
pub open spec fn context_relevance(command: Seq<char>, input: Seq<char>) -> Ratio {
    let terms = long_terms(words(input), words(input).len() as int);
    relevance_score(
        substring_hits(terms, command, terms.len() as int),
        terms.len(),
        actions_aligned(input, command),
    )
}

/// The words of `all` that have more than two characters.
pub fn keep_long_terms(all: &Vec<Vec<char>>) -> (r: Vec<Vec<char>>)
    ensures
        texts(r@) == long_terms(texts(all@), all@.len() as int),
{
    let mut r: Vec<Vec<char>> = Vec::new();
    let mut i: usize = 0;
    while i < all.len()
        invariant
            i <= all.len(),
            texts(r@) == long_terms(texts(all@), i as int),
        decreases all.len() - i,
    {
        if all[i].len() > 2 {
            let mut w: Vec<char> = Vec::new();
            extend_chars(&mut w, &all[i]);
            let ghost before = texts(r@);
            r.push(w);
            assert(texts(r@) =~= before.push(all@[i as int]@));
        }
        i = i + 1;
    }
    r
}

/// Whether some word of action stands both in the request and in the command.
pub fn are_actions_aligned(input: &Vec<char>, command: &Vec<char>) -> (r: bool)
    ensures
        r == actions_aligned(input@, command@),
{
    (chars_contain(input, "list") && chars_contain(command, "list")) || (chars_contain(
        input,
        "show",
    ) && chars_contain(command, "show")) || (chars_contain(input, "create") && chars_contain(
        command,
        "create",
    )) || (chars_contain(input, "delete") && chars_contain(command, "delete")) || (chars_contain(
        input,
        "update",
    ) && chars_contain(command, "update")) || (chars_contain(input, "get") && chars_contain(
        command,
        "get",
    )) || (chars_contain(input, "set") && chars_contain(command, "set"))
}

/// The score for the relevance of a command to a request, which are both
/// in lower case.
pub fn score_relevance(command: &Vec<char>, input: &Vec<char>) -> (r: Ratio)
    ensures
        r == context_relevance(command@, input@),
        r.valid(),
        r.unit(),
{
    let all = split_words(input);
    let terms = keep_long_terms(&all);
    let matching = count_substring_hits(&terms, command);
    let aligned = are_actions_aligned(input, command);
    let count = terms.len();
    if count == 0 {
        Ratio {
            num: if aligned {
                1
            } else {
                0
            },
            den: 5,
        }
    } else if count as u64 > u64::MAX / 6 {
        Ratio { num: 0, den: 1 }
    } else {
        let t = count as u64;
        let m = matching as u64;
        let num: u64 = 5 * m + (if aligned {
            t
        } else {
            0
        });
        if num > 5 * t {
            Ratio { num: 1, den: 1 }
        } else {
            Ratio { num, den: 5 * t }
        }
    }
}

/// The score for the relevance of `command` to the request `user_input`,
/// without regard to case.
pub fn assess_context_relevance(command: &str, user_input: &str) -> (r: Ratio)
    ensures
        r == context_relevance(lowercase(command@), lowercase(user_input@)),
        r.valid(),
        r.unit(),
{
    let command_lower = lower_chars(command);
    let input_lower = lower_chars(user_input);
    score_relevance(&command_lower, &input_lower)
}

/// How many of the first `n` characters are quotation marks, single or double.
pub open spec fn quote_count(s: Seq<char>, n: int) -> nat
    decreases n,
{
    if n <= 0 {
        0
    } else {
        quote_count(s, n - 1) + if s[n - 1] == '"' || s[n - 1] == '\'' {
            1nat
        } else {
            0nat
        }
    }
}

/// The pattern of a parameter that has one dash before more than one character.
pub open spec fn misformed_parameter_pattern() -> Seq<char> {
    "\\s-[^-\\s]\\w+"@
}

/// The points out of a hundred for the syntax of a command, where
/// `misformed` tells whether it holds a misformed parameter: none for a
/// blank command; else a hundred, less ten for two spaces in a row, less
/// twenty for a misformed parameter, less thirty for a quotation mark
/// without its partner.
pub open spec fn syntax_points_with(command: Seq<char>, misformed: bool) -> nat {
    if trimmed(command).len() == 0 {
        0
    } else {
        (100 - (if contains(command, "  "@) {
            10int
        } else {
            0
        }) - (if misformed {
            20int
        } else {
            0
        }) - (if quote_count(command, command.len() as int) % 2 != 0 {
            30int
        } else {
            0
        })) as nat
    }
}

/// The points out of a hundred for the syntax of a command.
pub open spec fn syntax_points(command: Seq<char>) -> nat {
    syntax_points_with(
        command,
        regex_match(misformed_parameter_pattern(), command) == Some(true),
    )
}

/// Whether the number of quotation marks in `text` is odd.
pub fn has_odd_quotes(text: &Vec<char>) -> (r: bool)
    ensures
        r == (quote_count(text@, text@.len() as int) % 2 != 0),
{
    let mut odd = false;
    let mut i: usize = 0;
    while i < text.len()
        invariant
            i <= text.len(),
            odd == (quote_count(text@, i as int) % 2 != 0),
        decreases text.len() - i,
    {
        if text[i] == '"' || text[i] == '\'' {
            odd = !odd;
        }
        i = i + 1;
    }
    odd
}

/// The points out of a hundred for the syntax of `command`, where
/// `misformed` tells whether it holds a misformed parameter.
pub fn score_syntax(command: &str, misformed: bool) -> (r: u64)
    ensures
        r == syntax_points_with(command@, misformed),
        r <= 100,
{
    let text = chars_of(command);
    let t = trim_chars(&text);
    if t.len() == 0 {
        return 0;
    }
    let mut score: u64 = 100;
    if chars_contain(&text, "  ") {
        score = score - 10;
    }
    if misformed {
        score = score - 20;
    }
    if has_odd_quotes(&text) {
        score = score - 30;
    }
    score
}

/// The points out of a hundred for the syntax of `command`.
pub fn assess_syntax_correctness(command: &str) -> (r: u64)
    ensures
        r == syntax_points(command@),
        r <= 100,
{
    let misformed = match pattern_matches("\\s-[^-\\s]\\w+", command) {
        Some(found) => found,
        None => false,
    };
    score_syntax(command, misformed)
}

/// The lower-case command holds a word of action.
pub open spec fn has_action(command: Seq<char>) -> bool {
    contains(command, "list"@) || contains(command, "show"@) || contains(command, "create"@)
        || contains(command, "delete"@) || contains(command, "update"@) || contains(
        command,
        "get"@,
    ) || contains(command, "set"@) || contains(command, "login"@) || contains(command, "logout"@)
}

/// The points out of a hundred for the completeness of a command, where
/// `command_lower` and `input_lower` are the command and the request in
/// lower case: fifty, thirty more for a word of action, and ten more each
/// for the JSON output, the YAML output and the resource group that the
/// request asks for and the command names, but a hundred at most.
pub open spec fn completeness_points_with(
    command: Seq<char>,
    command_lower: Seq<char>,
    input_lower: Seq<char>,
) -> nat {
    at_most_hundred(completeness_sum(command, command_lower, input_lower))
}

/// A number of points, but a hundred where it is more.
pub open spec fn at_most_hundred(points: nat) -> nat {
    if points > 100 {
        100
    } else {
        points
    }
}

/// The points for the completeness of a command before they are capped.
pub open spec fn completeness_sum(
    command: Seq<char>,
    command_lower: Seq<char>,
    input_lower: Seq<char>,
) -> nat {
    50nat + (if has_action(command_lower) {
        30nat
    } else {
        0
    }) + (if contains(input_lower, "json"@) && contains(command, "--output json"@) {
        10nat
    } else {
        0
    }) + (if contains(input_lower, "yaml"@) && contains(command, "--output yaml"@) {
        10nat
    } else {
        0
    }) + (if contains(input_lower, "resource group"@) && contains(command, "--resource-group"@) {
        10nat
    } else {
        0
    })
}

/// The points out of a hundred for the completeness of a command with
/// regard to a request.
pub open spec fn completeness_points(command: Seq<char>, input: Seq<char>) -> nat {
    completeness_points_with(command, lowercase(command), lowercase(input))
}

/// The points out of a hundred for the completeness of `command`, where
/// `command_lower` and `input_lower` hold the command and the request in
/// lower case.
pub fn score_completeness(command: &str, command_lower: &Vec<char>, input_lower: &Vec<char>) -> (r:
    u64)
    ensures
        r == completeness_points_with(command@, command_lower@, input_lower@),
        50 <= r <= 100,
{
    let mut score: u64 = 50;
    if chars_contain(command_lower, "list") || chars_contain(command_lower, "show")
        || chars_contain(command_lower, "create") || chars_contain(command_lower, "delete")
        || chars_contain(command_lower, "update") || chars_contain(command_lower, "get")
        || chars_contain(command_lower, "set") || chars_contain(command_lower, "login")
        || chars_contain(command_lower, "logout") {
        score = score + 30;
    }
    if chars_contain(input_lower, "json") && str_contains(command, "--output json") {
        score = score + 10;
    }
    if chars_contain(input_lower, "yaml") && str_contains(command, "--output yaml") {
        score = score + 10;
    }
    if chars_contain(input_lower, "resource group") && str_contains(command, "--resource-group") {
        score = score + 10;
    }
    if score > 100 {
        100
    } else {
        score
    }
}

/// The points out of a hundred for the completeness of `command` with
/// regard to the request `user_input`.
pub fn assess_completeness(command: &str, user_input: &str) -> (r: u64)
    ensures
        r == completeness_points(command@, user_input@),
        50 <= r <= 100,
{
    let command_lower = lower_chars(command);
    let input_lower = lower_chars(user_input);
    score_completeness(command, &command_lower, &input_lower)
}

/// The scores of a command in the five respects, each between zero and one.
#[derive(Clone, Copy, Debug, PartialEq, Eq, Structural)]
pub struct QualityScores {
    pub structure: Ratio,
    pub parameters: Ratio,
    pub context: Ratio,
    pub syntax: Ratio,
    pub completeness: Ratio,
}

/// The scores of a command with regard to a request.
pub open spec fn scores_of(command: Seq<char>, input: Seq<char>) -> QualityScores {
    QualityScores {
        structure: Ratio { num: structure_points(command) as u64, den: 100 },
        parameters: parameter_validity(command),
        context: context_relevance(lowercase(command), lowercase(input)),
        syntax: Ratio { num: syntax_points(command) as u64, den: 100 },
        completeness: Ratio { num: completeness_points(command, input) as u64, den: 100 },
    }
}

/// The scores of `command` with regard to the request `user_input`.
pub fn assess(command: &str, user_input: &str) -> (r: QualityScores)
    ensures
        r == scores_of(command@, user_input@),
{
    QualityScores {
        structure: Ratio { num: assess_command_structure(command), den: 100 },
        parameters: assess_parameter_validity(command),
        context: assess_context_relevance(command, user_input),
        syntax: Ratio { num: assess_syntax_correctness(command), den: 100 },
        completeness: Ratio { num: assess_completeness(command, user_input), den: 100 },
    }
}

/// The score is less than `tenths` tenths.
pub open spec fn below(score: Ratio, tenths: u64) -> bool {
    !score.ge(Ratio { num: tenths, den: 10 })
}

/// Whether `score` is less than `tenths` tenths.
pub fn is_below(score: &Ratio, tenths: u64) -> (r: bool)
    ensures
        r == below(*score, tenths),
{
    !score.at_least(&Ratio { num: tenths, den: 10 })
}

/// What is suggested for the scores: one suggestion for every respect
/// whose score is less than six tenths, in the order of the respects.
pub open spec fn suggestions_for(s: QualityScores) -> Seq<Seq<char>> {
    one_if(below(s.structure, 6), "Improve command structure with proper IBM Cloud CLI hierarchy"@)
        + one_if(below(s.parameters, 6), "Use valid IBM Cloud CLI parameters"@) + one_if(
        below(s.context, 6),
        "Better align command with user intent"@,
    ) + one_if(below(s.syntax, 6), "Fix syntax and formatting issues"@) + one_if(
        below(s.completeness, 6),
        "Add missing components for complete command"@,
    )
}

/// The respects that need improvement: those whose score is less than
/// seven tenths, in order.
pub open spec fn areas_for(s: QualityScores) -> Seq<Seq<char>> {
    one_if(below(s.structure, 7), "Command structure and hierarchy"@) + one_if(
        below(s.parameters, 7),
        "Parameter usage and validity"@,
    ) + one_if(below(s.context, 7), "Relevance to user request"@) + one_if(
        below(s.syntax, 7),
        "Syntax and formatting"@,
    ) + one_if(below(s.completeness, 7), "Command completeness"@)
}

/// What is recommended for a command, where `input_lower` is the request
/// in lower case: one piece of advice for every respect whose score is less
/// than seven tenths, in order; then the `list` subcommand where the
/// request names it and the command does not; then the JSON output where
/// the request names it and the command asks for no output.
pub open spec fn recommendations_for(command: Seq<char>, input_lower: Seq<char>, s: QualityScores) -> Seq<
    Seq<char>,
> {
    one_if(
        below(s.structure, 7),
        "Ensure command starts with 'ibmcloud' and follows proper hierarchy"@,
    ) + one_if(
        below(s.parameters, 7),
        "Use standard IBM Cloud CLI parameters (--help for reference)"@,
    ) + one_if(below(s.context, 7), "Include more specific terms from the user request"@) + one_if(
        below(s.syntax, 7),
        "Check for proper spacing and parameter formatting"@,
    ) + one_if(below(s.completeness, 7), "Add missing action verbs or required parameters"@) + one_if(
        contains(input_lower, "list"@) && !contains(command, "list"@),
        "Consider using 'list' subcommand for listing resources"@,
    ) + one_if(
        contains(input_lower, "json"@) && !contains(command, "--output"@),
        "Add '--output json' for JSON formatted output"@,
    )
}

/// The improvements for a command: what was recommended; then the program
/// name where the command does not start with it; then a rephrasing where
/// the command is poor over all.
pub open spec fn improvements_for(command: Seq<char>, recommended: Seq<Seq<char>>, poor: bool) -> Seq<
    Seq<char>,
> {
    recommended + one_if(!starts_with(command, "ibmcloud"@), "Prefix command with 'ibmcloud'"@)
        + one_if(poor, "Consider completely rephrasing the command"@)
}

/// Appends `text` where `condition` holds.
fn push_when(out: &mut Vec<String>, condition: bool, text: &str)
    ensures
        strings(final(out)@) == strings(old(out)@) + one_if(condition, text@),
{
    if condition {
        out.push(text.to_owned());
    }
    assert(strings(out@) =~= strings(old(out)@) + one_if(condition, text@));
}

/// What is suggested for `scores`.
pub fn generate_quality_suggestions(scores: &QualityScores) -> (r: Vec<String>)
    ensures
        strings(r@) == suggestions_for(*scores),
{
    let mut r: Vec<String> = Vec::new();
    assert(strings(r@) =~= Seq::<Seq<char>>::empty());
    push_when(
        &mut r,
        is_below(&scores.structure, 6),
        "Improve command structure with proper IBM Cloud CLI hierarchy",
    );
    push_when(&mut r, is_below(&scores.parameters, 6), "Use valid IBM Cloud CLI parameters");
    push_when(&mut r, is_below(&scores.context, 6), "Better align command with user intent");
    push_when(&mut r, is_below(&scores.syntax, 6), "Fix syntax and formatting issues");
    push_when(
        &mut r,
        is_below(&scores.completeness, 6),
        "Add missing components for complete command",
    );
    assert(strings(r@) =~= suggestions_for(*scores));
    r
}

/// The respects in which `scores` call for improvement.
pub fn identify_improvement_areas(scores: &QualityScores) -> (r: Vec<String>)
    ensures
        strings(r@) == areas_for(*scores),
{
    let mut r: Vec<String> = Vec::new();
    assert(strings(r@) =~= Seq::<Seq<char>>::empty());
    push_when(&mut r, is_below(&scores.structure, 7), "Command structure and hierarchy");
    push_when(&mut r, is_below(&scores.parameters, 7), "Parameter usage and validity");
    push_when(&mut r, is_below(&scores.context, 7), "Relevance to user request");
    push_when(&mut r, is_below(&scores.syntax, 7), "Syntax and formatting");
    push_when(&mut r, is_below(&scores.completeness, 7), "Command completeness");
    assert(strings(r@) =~= areas_for(*scores));
    r
}

/// What is recommended for `command`, where `input_lower` holds the
/// request in lower case.
pub fn recommend(command: &str, input_lower: &Vec<char>, scores: &QualityScores) -> (r: Vec<String>)
    ensures
        strings(r@) == recommendations_for(command@, input_lower@, *scores),
{
    let mut r: Vec<String> = Vec::new();
    assert(strings(r@) =~= Seq::<Seq<char>>::empty());
    push_when(
        &mut r,
        is_below(&scores.structure, 7),
        "Ensure command starts with 'ibmcloud' and follows proper hierarchy",
    );
    push_when(
        &mut r,
        is_below(&scores.parameters, 7),
        "Use standard IBM Cloud CLI parameters (--help for reference)",
    );
    push_when(
        &mut r,
        is_below(&scores.context, 7),
        "Include more specific terms from the user request",
    );
    push_when(
        &mut r,
        is_below(&scores.syntax, 7),
        "Check for proper spacing and parameter formatting",
    );
    push_when(
        &mut r,
        is_below(&scores.completeness, 7),
        "Add missing action verbs or required parameters",
    );
    push_when(
        &mut r,
        chars_contain(input_lower, "list") && !str_contains(command, "list"),
        "Consider using 'list' subcommand for listing resources",
    );
    push_when(
        &mut r,
        chars_contain(input_lower, "json") && !str_contains(command, "--output"),
        "Add '--output json' for JSON formatted output",
    );
    assert(strings(r@) =~= recommendations_for(command@, input_lower@, *scores));
    r
}

/// What is recommended for `command` with regard to the request `user_input`.
pub fn generate_recommendations(command: &str, user_input: &str, scores: &QualityScores) -> (r:
    Vec<String>)
    ensures
        strings(r@) == recommendations_for(command@, lowercase(user_input@), *scores),
{
    let input_lower = lower_chars(user_input);
    recommend(command, &input_lower, scores)
}

/// The improvements for `command`, after what was recommended for it;
/// `poor` tells whether its quality over all is less than a half.
pub fn suggest_improvements(command: &str, recommended: &Vec<String>, poor: bool) -> (r: Vec<
    String,
>)
    ensures
        strings(r@) == improvements_for(command@, strings(recommended@), poor),
{
    let mut r = crate::text::copy_strings(recommended);
    push_when(
        &mut r,
        !crate::text::str_starts_with(command, "ibmcloud"),
        "Prefix command with 'ibmcloud'",
    );
    push_when(&mut r, poor, "Consider completely rephrasing the command");
    r
}

} // verus!
