//! The quality of a generated command, judged by simple checks.
//!
//! Every check is worth a fixed number of points out of a hundred; the
//! score is the share of the points that were won.

use vstd::prelude::*;
use crate::domain::QualityAnalysis;
use crate::ratio::Ratio;
use crate::text::{
    chars_contain, chars_of, contains, lower_chars, lowercase, matches_at, lines_of, split_lines,
    starts_with, strings, texts, trim_chars, trimmed,
};

verus! {

/// The points for a command that starts with the program name.
pub const START_POINTS: u64 = 30;

/// The points for a command of reasonable length.
pub const LENGTH_POINTS: u64 = 20;

/// The points for a command that holds a common word.
pub const PATTERN_POINTS: u64 = 20;

/// The points for a command that holds no sign of an error.
pub const CLEAN_POINTS: u64 = 15;

/// The points for a command on a single line.
pub const SINGLE_LINE_POINTS: u64 = 15;

/// A command must be longer than this.
pub const MIN_COMMAND_CHARS: usize = 8;

/// A command must be shorter than this.
pub const MAX_COMMAND_CHARS: usize = 300;

/// The text holds a word that is common in commands of the IBM Cloud program.
pub open spec fn has_common_pattern(text: Seq<char>) -> bool {
    contains(text, "resource"@) || contains(text, "service"@) || contains(text, "target"@)
        || contains(text, "login"@) || contains(text, "plugin"@) || contains(text, "cf"@)
        || contains(text, "ks"@) || contains(text, "cr"@)
}

/// The lower-case text `t` holds a sign of an error.
pub open spec fn error_indicator_in(t: Seq<char>) -> bool {
    contains(t, "error"@) || contains(t, "failed"@) || contains(t, "invalid"@) || contains(
        t,
        "unknown"@,
    ) || contains(t, "not found"@)
}

/// The text, in lower case, holds a sign of an error.
pub open spec fn has_error_indicator(text: Seq<char>) -> bool {
    error_indicator_in(lowercase(text))
}

/// How many of the first `n` lines hold more than whitespace.
pub open spec fn filled_lines(lines: Seq<Seq<char>>, n: int) -> nat
    decreases n,
{
    if n <= 0 {
        0
    } else {
        filled_lines(lines, n - 1) + if trimmed(lines[n - 1]).len() > 0 {
            1nat
        } else {
            0nat
        }
    }
}

/// How many lines of the text hold more than whitespace.
pub open spec fn line_count(text: Seq<char>) -> nat {
    let lines = lines_of(text);
    filled_lines(lines, lines.len() as int)
}

/// Whether the text holds a word that is common in commands.
pub fn holds_common_pattern(text: &Vec<char>) -> (r: bool)
    ensures
        r == has_common_pattern(text@),
{
    chars_contain(text, "resource") || chars_contain(text, "service") || chars_contain(
        text,
        "target",
    ) || chars_contain(text, "login") || chars_contain(text, "plugin") || chars_contain(text, "cf")
        || chars_contain(text, "ks") || chars_contain(text, "cr")
}

/// Whether the lower-case text `t` holds a sign of an error.
pub fn holds_error_indicator_lowered(t: &Vec<char>) -> (r: bool)
    ensures
        r == error_indicator_in(t@),
{
    chars_contain(t, "error") || chars_contain(t, "failed") || chars_contain(t, "invalid")
        || chars_contain(t, "unknown") || chars_contain(t, "not found")
}

/// Whether the text, in lower case, holds a sign of an error.
pub fn holds_error_indicator(text: &str) -> (r: bool)
    ensures
        r == has_error_indicator(text@),
{
    let t = lower_chars(text);
    holds_error_indicator_lowered(&t)
}

/// How many lines of the text hold more than whitespace.
pub fn count_lines(text: &Vec<char>) -> (r: usize)
    ensures
        r == line_count(text@),
{
    let lines = split_lines(text);
    let mut count: usize = 0;
    let mut i: usize = 0;
    while i < lines.len()
        invariant
            i <= lines.len(),
            count <= i,
            count == filled_lines(texts(lines@), i as int),
        decreases lines.len() - i,
    {
        let t = trim_chars(&lines[i]);
        if t.len() > 0 {
            count = count + 1;
        }
        i = i + 1;
    }
    count
}

/// The command, without surrounding whitespace, starts with `ibmcloud`.
pub open spec fn starts_right(command: Seq<char>) -> bool {
    starts_with(trimmed(command), "ibmcloud"@)
}

/// The command, without surrounding whitespace, has a reasonable length.
pub open spec fn length_right(command: Seq<char>) -> bool {
    MIN_COMMAND_CHARS < trimmed(command).len() < MAX_COMMAND_CHARS
}

/// The points that a command wins.
pub open spec fn points(command: Seq<char>) -> nat {
    (if starts_right(command) {
        START_POINTS as nat
    } else {
        0
    }) + (if length_right(command) {
        LENGTH_POINTS as nat
    } else {
        0
    }) + (if has_common_pattern(command) {
        PATTERN_POINTS as nat
    } else {
        0
    }) + (if !has_error_indicator(command) {
        CLEAN_POINTS as nat
    } else {
        0
    }) + (if line_count(command) == 1 {
        SINGLE_LINE_POINTS as nat
    } else {
        0
    })
}

/// What is wrong with the length of a command.
pub open spec fn length_issue(command: Seq<char>) -> Seq<Seq<char>> {
    if length_right(command) {
        Seq::empty()
    } else if trimmed(command).len() == 0 {
        seq!["Command is empty"@]
    } else if trimmed(command).len() <= MIN_COMMAND_CHARS {
        seq!["Command is too short"@]
    } else {
        seq!["Command is too long"@]
    }
}

/// One text where the condition holds, none where not.
pub open spec fn one_if(condition: bool, text: Seq<char>) -> Seq<Seq<char>> {
    if condition {
        seq![text]
    } else {
        Seq::empty()
    }
}

/// The issues of a command, in the order of the checks.
pub open spec fn issues_of(command: Seq<char>) -> Seq<Seq<char>> {
    one_if(!starts_right(command), "Command does not start with 'ibmcloud'"@) + length_issue(command)
        + one_if(has_error_indicator(command), "Command contains error indicators"@) + one_if(
        line_count(command) != 1,
        "Command spans multiple lines"@,
    )
}

/// The suggestions for a command, in the order of the checks.
pub open spec fn suggestions_of(command: Seq<char>) -> Seq<Seq<char>> {
    one_if(!starts_right(command), "Ensure the command starts with 'ibmcloud'"@) + one_if(
        trimmed(command).len() >= MAX_COMMAND_CHARS,
        "Consider breaking down into multiple commands"@,
    ) + one_if(
        !has_common_pattern(command),
        "Command may not follow common IBM Cloud CLI patterns"@,
    ) + one_if(line_count(command) != 1, "Use a single-line command"@)
}

/// The analyzer of generated IBM Cloud commands.
pub struct QualityAnalyzer {
    command_patterns: Vec<String>,
}

impl QualityAnalyzer {
    /// The patterns of well-formed commands, as regular expressions.
    pub closed spec fn patterns(&self) -> Seq<Seq<char>> {
        strings(self.command_patterns@)
    }

    /// An analyzer with the default patterns.
    pub fn new() -> (a: Self)
        ensures
            a.patterns() == seq![
                "^ibmcloud\\s+"@,
                "^ibmcloud\\s+(login|target|resource|cf|ks|cr|plugin)"@,
            ],
    {
        let mut command_patterns: Vec<String> = Vec::new();
        command_patterns.push("^ibmcloud\\s+".to_owned());
        command_patterns.push("^ibmcloud\\s+(login|target|resource|cf|ks|cr|plugin)".to_owned());
        QualityAnalyzer { command_patterns }
    }

    /// Judges a command: its score, what is wrong with it, and what would
    /// make it better.
    pub fn analyze(&self, command: &str) -> (r: QualityAnalysis)
        ensures
            r.score == (Ratio { num: points(command@) as u64, den: 100 }),
            r.score.unit(),
            strings(r.issues@) == issues_of(command@),
            strings(r.suggestions@) == suggestions_of(command@),
    {
        let text = chars_of(command);
        let t = trim_chars(&text);
        let prefix = chars_of("ibmcloud");
        let mut score: u64 = 0;
        let mut issues: Vec<String> = Vec::new();
        let mut suggestions: Vec<String> = Vec::new();

        if matches_at(&t, &prefix, 0) {
            score = score + START_POINTS;
        } else {
            issues.push("Command does not start with 'ibmcloud'".to_owned());
            suggestions.push("Ensure the command starts with 'ibmcloud'".to_owned());
        }

        if t.len() > MIN_COMMAND_CHARS && t.len() < MAX_COMMAND_CHARS {
            score = score + LENGTH_POINTS;
        } else if t.len() == 0 {
            issues.push("Command is empty".to_owned());
        } else if t.len() <= MIN_COMMAND_CHARS {
            issues.push("Command is too short".to_owned());
        } else {
            issues.push("Command is too long".to_owned());
            suggestions.push("Consider breaking down into multiple commands".to_owned());
        }

        if holds_common_pattern(&text) {
            score = score + PATTERN_POINTS;
        } else {
            suggestions.push("Command may not follow common IBM Cloud CLI patterns".to_owned());
        }

        if !holds_error_indicator(command) {
            score = score + CLEAN_POINTS;
        } else {
            issues.push("Command contains error indicators".to_owned());
        }

        if count_lines(&text) == 1 {
            score = score + SINGLE_LINE_POINTS;
        } else {
            issues.push("Command spans multiple lines".to_owned());
            suggestions.push("Use a single-line command".to_owned());
        }
        QualityAnalysis { score: Ratio { num: score, den: 100 }, issues, suggestions }
    }

    /// Whether a command is likely valid: its score reaches six tenths.
    pub fn is_valid(&self, command: &str) -> (r: bool)
        ensures
            r == (points(command@) >= 60),
    {
        let analysis = self.analyze(command);
        analysis.score.num >= 60
    }
}

impl Default for QualityAnalyzer {
    fn default() -> (a: Self)
        ensures
            a.patterns() == seq![
                "^ibmcloud\\s+"@,
                "^ibmcloud\\s+(login|target|resource|cf|ks|cr|plugin)"@,
            ],
    {
        QualityAnalyzer::new()
    }
}

} // verus!
