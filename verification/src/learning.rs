//! The correction learning engine.
//!
//! The engine keeps a log of corrections, an index from problem tokens to
//! the commands that corrected them, a success rate per command, and a table
//! of retry strategies. It classifies error messages, suggests corrections
//! for a failed command, and finds the corrections of similar queries.

use vstd::prelude::*;
use crate::patterns::{any_matches, first_group, matches_any, regex_first_group};
use crate::ranking::{is_ranking, rank};
use crate::ratio::Ratio;
use crate::similarity::{count_word_hits, lower_word_list, lower_words, overlap, overlap_ratio, word_matches};
use crate::sorted::{insert_into_sorted, sorted_unique, sorted_unique_upto};
use crate::string_map::{keys_with, StringMap};
use crate::text::{
    chars_contain, chars_of, contains, contains_chars, find_chars, find_from, lower_chars,
    lowercase, matches_at, slice_of, split_words, starts_with, str_eq, string_of, strings, texts,
    words, push_str, to_char_lists, copy_strings,
};

verus! {

/// The kinds of correction, and so of error.
#[derive(Debug, PartialEq, Eq)]
pub enum CorrectionType {
    CommandNotFound,
    InvalidSyntax,
    MissingPlugin,
    WrongSubcommand,
    ParameterError,
    AuthenticationError,
    NetworkError,
    ResourceNotFound,
    PermissionDenied,
    /// An error that no rule recognises, with the raw message.
    Other(String),
}

/// A kind of correction, as a mathematical value.
pub enum CorrectionKind {
    CommandNotFound,
    InvalidSyntax,
    MissingPlugin,
    WrongSubcommand,
    ParameterError,
    AuthenticationError,
    NetworkError,
    ResourceNotFound,
    PermissionDenied,
    Other(Seq<char>),
}

impl View for CorrectionType {
    type V = CorrectionKind;

    open spec fn view(&self) -> CorrectionKind {
        match self {
            CorrectionType::CommandNotFound => CorrectionKind::CommandNotFound,
            CorrectionType::InvalidSyntax => CorrectionKind::InvalidSyntax,
            CorrectionType::MissingPlugin => CorrectionKind::MissingPlugin,
            CorrectionType::WrongSubcommand => CorrectionKind::WrongSubcommand,
            CorrectionType::ParameterError => CorrectionKind::ParameterError,
            CorrectionType::AuthenticationError => CorrectionKind::AuthenticationError,
            CorrectionType::NetworkError => CorrectionKind::NetworkError,
            CorrectionType::ResourceNotFound => CorrectionKind::ResourceNotFound,
            CorrectionType::PermissionDenied => CorrectionKind::PermissionDenied,
            CorrectionType::Other(s) => CorrectionKind::Other(s@),
        }
    }
}

impl CorrectionType {
    /// A copy of the same kind.
    pub fn duplicate(&self) -> (r: CorrectionType)
        ensures
            r@ == self@,
    {
        match self {
            CorrectionType::CommandNotFound => CorrectionType::CommandNotFound,
            CorrectionType::InvalidSyntax => CorrectionType::InvalidSyntax,
            CorrectionType::MissingPlugin => CorrectionType::MissingPlugin,
            CorrectionType::WrongSubcommand => CorrectionType::WrongSubcommand,
            CorrectionType::ParameterError => CorrectionType::ParameterError,
            CorrectionType::AuthenticationError => CorrectionType::AuthenticationError,
            CorrectionType::NetworkError => CorrectionType::NetworkError,
            CorrectionType::ResourceNotFound => CorrectionType::ResourceNotFound,
            CorrectionType::PermissionDenied => CorrectionType::PermissionDenied,
            CorrectionType::Other(s) => CorrectionType::Other(s.clone()),
        }
    }

    /// Whether the two are the same kind, with the same message where they
    /// are `Other`.
    pub fn same_as(&self, other: &CorrectionType) -> (r: bool)
        ensures
            r == (self@ == other@),
    {
        match (self, other) {
            (CorrectionType::CommandNotFound, CorrectionType::CommandNotFound) => true,
            (CorrectionType::InvalidSyntax, CorrectionType::InvalidSyntax) => true,
            (CorrectionType::MissingPlugin, CorrectionType::MissingPlugin) => true,
            (CorrectionType::WrongSubcommand, CorrectionType::WrongSubcommand) => true,
            (CorrectionType::ParameterError, CorrectionType::ParameterError) => true,
            (CorrectionType::AuthenticationError, CorrectionType::AuthenticationError) => true,
            (CorrectionType::NetworkError, CorrectionType::NetworkError) => true,
            (CorrectionType::ResourceNotFound, CorrectionType::ResourceNotFound) => true,
            (CorrectionType::PermissionDenied, CorrectionType::PermissionDenied) => true,
            (CorrectionType::Other(a), CorrectionType::Other(b)) => str_eq(a.as_str(), b.as_str()),
            _ => false,
        }
    }
}

impl Clone for CorrectionType {
    fn clone(&self) -> (r: Self)
        ensures
            r@ == self@,
    {
        self.duplicate()
    }
}

/// How a retry is paced.
#[derive(Clone, Copy, Debug, PartialEq, Eq, Structural)]
pub enum RetryStrategyType {
    ImmediateRetry,
    ExponentialBackoff,
    LinearBackoff,
    ContextualRetry,
    NoRetry,
}

/// A retry policy for a kind of error.
#[derive(Clone, Copy, Debug, PartialEq, Eq, Structural)]
pub struct RetryStrategy {
    pub strategy_type: RetryStrategyType,
    pub max_attempts: u32,
    pub delay_ms: u64,
    /// The share of retries that succeeded in the past.
    pub success_rate: Ratio,
}

/// A learned mapping from a failed command to the command that corrects it.
#[derive(Debug)]
pub struct CommandCorrection {
    pub original_query: String,
    pub incorrect_command: String,
    pub correct_command: String,
    pub error_message: Option<String>,
    pub correction_type: CorrectionType,
    /// Seconds since the Unix epoch at which the record was made.
    pub timestamp: i64,
    pub confidence_score: Ratio,
    pub success_rate: Ratio,
    pub usage_count: u32,
}

/// A correction record, as mathematical values.
pub struct CorrectionModel {
    pub original_query: Seq<char>,
    pub incorrect_command: Seq<char>,
    pub correct_command: Seq<char>,
    pub error_message: Option<Seq<char>>,
    pub correction_type: CorrectionKind,
    pub timestamp: i64,
    pub confidence_score: Ratio,
    pub success_rate: Ratio,
    pub usage_count: u32,
}

impl View for CommandCorrection {
    type V = CorrectionModel;

    open spec fn view(&self) -> CorrectionModel {
        CorrectionModel {
            original_query: self.original_query@,
            incorrect_command: self.incorrect_command@,
            correct_command: self.correct_command@,
            error_message: match self.error_message {
                Some(m) => Some(m@),
                None => None,
            },
            correction_type: self.correction_type@,
            timestamp: self.timestamp,
            confidence_score: self.confidence_score,
            success_rate: self.success_rate,
            usage_count: self.usage_count,
        }
    }
}

impl CommandCorrection {
    /// A copy that holds the same values.
    pub fn duplicate(&self) -> (r: CommandCorrection)
        ensures
            r@ == self@,
    {
        CommandCorrection {
            original_query: self.original_query.clone(),
            incorrect_command: self.incorrect_command.clone(),
            correct_command: self.correct_command.clone(),
            error_message: match &self.error_message {
                Some(m) => Some(m.clone()),
                None => None,
            },
            correction_type: self.correction_type.duplicate(),
            timestamp: self.timestamp,
            confidence_score: self.confidence_score,
            success_rate: self.success_rate,
            usage_count: self.usage_count,
        }
    }
}

impl Clone for CommandCorrection {
    fn clone(&self) -> (r: Self)
        ensures
            r@ == self@,
    {
        self.duplicate()
    }
}

/// The models of the records of `v`, in order.
pub open spec fn record_models(v: Seq<CommandCorrection>) -> Seq<CorrectionModel> {
    Seq::new(v.len(), |i: int| v[i]@)
}

/// The kind of error that a message tells of, where `m` is the message in
/// lower case. The rules are tried in order, and the first that applies
/// decides; a message that none applies to is `Other`, with the message as it
/// came.
pub open spec fn error_kind(m: Seq<char>, message: Seq<char>) -> CorrectionKind {
    if contains(m, "not a registered command"@) || contains(m, "command not found"@) {
        CorrectionKind::CommandNotFound
    } else if contains(m, "invalid syntax"@) || contains(m, "usage:"@) {
        CorrectionKind::InvalidSyntax
    } else if contains(m, "plugin"@) && contains(m, "not installed"@) {
        CorrectionKind::MissingPlugin
    } else if contains(m, "subcommand"@) {
        CorrectionKind::WrongSubcommand
    } else if contains(m, "parameter"@) || contains(m, "argument"@) {
        CorrectionKind::ParameterError
    } else {
        CorrectionKind::Other(message)
    }
}

/// The kind of error that a message tells of: the rules of `error_kind` on
/// the message in lower case.
pub open spec fn classify(message: Seq<char>) -> CorrectionKind {
    error_kind(lowercase(message), message)
}

/// The kind of error that `error_message` tells of, where `m` holds the
/// message in lower case.
pub fn classify_lowered(m: &Vec<char>, error_message: &str) -> (r: CorrectionType)
    ensures
        r@ == error_kind(m@, error_message@),
{
    if chars_contain(&m, "not a registered command") || chars_contain(&m, "command not found") {
        CorrectionType::CommandNotFound
    } else if chars_contain(&m, "invalid syntax") || chars_contain(&m, "usage:") {
        CorrectionType::InvalidSyntax
    } else if chars_contain(&m, "plugin") && chars_contain(&m, "not installed") {
        CorrectionType::MissingPlugin
    } else if chars_contain(&m, "subcommand") {
        CorrectionType::WrongSubcommand
    } else if chars_contain(&m, "parameter") || chars_contain(&m, "argument") {
        CorrectionType::ParameterError
    } else {
        CorrectionType::Other(error_message.to_owned())
    }
}

/// The kind of error that `error_message` tells of.
pub fn analyze_error(error_message: &str) -> (r: CorrectionType)
    ensures
        r@ == classify(error_message@),
{
    let m = lower_chars(error_message);
    classify_lowered(&m, error_message)
}

/// A failure whose message in lower case is `m` might be put right by a
/// corrected command: the message tells of an unknown command, of invalid
/// syntax, of a plugin or of a subcommand.
pub open spec fn names_correctable_error(m: Seq<char>) -> bool {
    contains(m, "not a registered command"@) || contains(m, "command not found"@) || contains(
        m,
        "invalid syntax"@,
    ) || contains(m, "plugin"@) || contains(m, "subcommand"@)
}

/// A failure with this message might be put right by a corrected command.
pub open spec fn correctable(message: Seq<char>) -> bool {
    names_correctable_error(lowercase(message))
}

/// Whether a failure whose message in lower case is `m` might be put right
/// by a corrected command.
pub fn is_correctable_lowered(m: &Vec<char>) -> (r: bool)
    ensures
        r == names_correctable_error(m@),
{
    chars_contain(m, "not a registered command") || chars_contain(m, "command not found")
        || chars_contain(m, "invalid syntax") || chars_contain(m, "plugin") || chars_contain(
        m,
        "subcommand",
    )
}

/// Whether a failure with this message might be put right by a corrected command.
pub fn is_correctable_error(error_message: &str) -> (r: bool)
    ensures
        r == correctable(error_message@),
{
    let m = lower_chars(error_message);
    is_correctable_lowered(&m)
}

/// The text between the first two occurrences of `quote` in `message`.
pub open spec fn quoted(message: Seq<char>, quote: Seq<char>) -> Option<Seq<char>> {
    match find_from(message, quote, 0) {
        None => None,
        Some(start) => match find_from(message, quote, start + quote.len()) {
            None => None,
            Some(end) => Some(message.subrange(start + quote.len(), end)),
        },
    }
}

/// The text between the first two occurrences of `quote` in `message`.
pub fn extract_quoted(message: &Vec<char>, quote: &Vec<char>) -> (r: Option<Vec<char>>)
    ensures
        match r {
            Some(s) => quoted(message@, quote@) == Some(s@),
            None => quoted(message@, quote@) is None,
        },
{
    match find_chars(message, quote, 0) {
        None => None,
        Some(start) => {
            let from = start + quote.len();
            match find_chars(message, quote, from) {
                None => None,
                Some(end) => Some(slice_of(message, from, end)),
            }
        },
    }
}

/// The command that an error message names between single quotes, as in
/// `'services' is not a registered command`.
pub fn extract_failed_command(error_message: &str) -> (r: Option<String>)
    ensures
        match r {
            Some(s) => quoted(error_message@, seq!['\'']) == Some(s@),
            None => quoted(error_message@, seq!['\'']) is None,
        },
{
    let m = chars_of(error_message);
    let mut q: Vec<char> = Vec::new();
    q.push('\'');
    match extract_quoted(&m, &q) {
        Some(s) => Some(string_of(&s)),
        None => None,
    }
}

/// An entry of the retry table: the strategy for one kind of error.
#[derive(Debug)]
pub struct RetryEntry {
    pub kind: CorrectionType,
    pub strategy: RetryStrategy,
}

/// The strategy that the first `n` entries of `table` hold for `kind`: that
/// of the first entry of that kind.
pub open spec fn table_lookup(
    table: Seq<(CorrectionKind, RetryStrategy)>,
    kind: CorrectionKind,
    n: int,
) -> Option<RetryStrategy>
    decreases n,
{
    if n <= 0 {
        None
    } else {
        match table_lookup(table, kind, n - 1) {
            Some(s) => Some(s),
            None => if table[n - 1].0 == kind {
                Some(table[n - 1].1)
            } else {
                None
            },
        }
    }
}

/// The strategy with the given pace, attempts and delay, and a past success
/// rate of `percent` hundredths.
pub open spec fn strategy(
    strategy_type: RetryStrategyType,
    max_attempts: u32,
    delay_ms: u64,
    percent: u64,
) -> RetryStrategy {
    RetryStrategy {
        strategy_type,
        max_attempts,
        delay_ms,
        success_rate: Ratio { num: percent, den: 100 },
    }
}

/// The retry table that every engine starts with.
pub open spec fn seeded_table() -> Seq<(CorrectionKind, RetryStrategy)> {
    seq![
        (CorrectionKind::NetworkError, strategy(RetryStrategyType::ExponentialBackoff, 3, 1000, 70)),
        (CorrectionKind::AuthenticationError, strategy(RetryStrategyType::NoRetry, 1, 0, 10)),
        (CorrectionKind::InvalidSyntax, strategy(RetryStrategyType::ContextualRetry, 2, 500, 80)),
        (CorrectionKind::CommandNotFound, strategy(RetryStrategyType::ImmediateRetry, 2, 0, 60)),
        (CorrectionKind::ParameterError, strategy(RetryStrategyType::LinearBackoff, 2, 500, 75)),
    ]
}

/// The strategy for an error whose kind has no entry in the table but whose
/// message matches a known error pattern.
pub open spec fn default_strategy(kind: CorrectionKind) -> RetryStrategy {
    match kind {
        CorrectionKind::NetworkError => strategy(RetryStrategyType::ExponentialBackoff, 3, 1000, 70),
        CorrectionKind::AuthenticationError => strategy(RetryStrategyType::NoRetry, 1, 0, 10),
        _ => strategy(RetryStrategyType::LinearBackoff, 2, 500, 60),
    }
}

/// The strategy for an error that nothing is known about.
pub open spec fn generic_strategy() -> RetryStrategy {
    strategy(RetryStrategyType::LinearBackoff, 2, 1000, 50)
}

/// The retry strategy for a failure with the message `message`: the table's
/// entry for the kind of the error; without one, the default for the kind
/// where a known error pattern matches the message; else the generic one.
pub open spec fn failure_strategy(
    table: Seq<(CorrectionKind, RetryStrategy)>,
    patterns: Seq<Seq<char>>,
    message: Seq<char>,
) -> RetryStrategy {
    match table_lookup(table, classify(message), table.len() as int) {
        Some(s) => s,
        None => if any_matches(patterns, message, patterns.len() as int) {
            default_strategy(classify(message))
        } else {
            generic_strategy()
        },
    }
}

/// The strategy with the given pace, attempts and delay, and a past success
/// rate of `percent` hundredths.
pub fn make_strategy(
    strategy_type: RetryStrategyType,
    max_attempts: u32,
    delay_ms: u64,
    percent: u64,
) -> (r: RetryStrategy)
    ensures
        r == strategy(strategy_type, max_attempts, delay_ms, percent),
{
    RetryStrategy {
        strategy_type,
        max_attempts,
        delay_ms,
        success_rate: Ratio { num: percent, den: 100 },
    }
}

/// The strategy for an error whose kind has no entry in the table but whose
/// message matches a known error pattern.
pub fn get_default_retry_strategy(correction_type: &CorrectionType) -> (r: RetryStrategy)
    ensures
        r == default_strategy(correction_type@),
{
    match correction_type {
        CorrectionType::NetworkError => make_strategy(
            RetryStrategyType::ExponentialBackoff,
            3,
            1000,
            70,
        ),
        CorrectionType::AuthenticationError => make_strategy(RetryStrategyType::NoRetry, 1, 0, 10),
        _ => make_strategy(RetryStrategyType::LinearBackoff, 2, 500, 60),
    }
}

/// The table as mathematical values.
pub open spec fn table_models(table: Seq<RetryEntry>) -> Seq<(CorrectionKind, RetryStrategy)> {
    Seq::new(table.len(), |i: int| (table[i].kind@, table[i].strategy))
}

/// The strategy that `table` holds for `kind`.
pub fn lookup_strategy(table: &Vec<RetryEntry>, kind: &CorrectionType) -> (r: Option<RetryStrategy>)
    ensures
        r == table_lookup(table_models(table@), kind@, table@.len() as int),
{
    let mut i: usize = 0;
    while i < table.len()
        invariant
            i <= table.len(),
            table_lookup(table_models(table@), kind@, i as int) is None,
        decreases table.len() - i,
    {
        if table[i].kind.same_as(kind) {
            let s = table[i].strategy;
            proof {
                lemma_lookup_found(table_models(table@), kind@, i as int, table@.len() as int);
            }
            return Some(s);
        }
        i = i + 1;
    }
    None
}

/// Once the first entry of a kind is found at position `i`, the lookup over
/// any longer part of the table gives that entry.
pub proof fn lemma_lookup_found(
    table: Seq<(CorrectionKind, RetryStrategy)>,
    kind: CorrectionKind,
    i: int,
    n: int,
)
    requires
        0 <= i < n <= table.len(),
        table_lookup(table, kind, i) is None,
        table[i].0 == kind,
    ensures
        table_lookup(table, kind, n) == Some(table[i].1),
    decreases n,
{
    if n > i + 1 {
        lemma_lookup_found(table, kind, i, n - 1);
    }
}

/// The error patterns that every engine starts with.
pub open spec fn default_error_patterns() -> Seq<Seq<char>> {
    seq![
        "command '([^']+)' not found"@,
        "Unknown command: ([^\\s]+)"@,
        "Invalid syntax.*near '([^']+)'"@,
        "Plugin '([^']+)' not installed"@,
        "Authentication failed"@,
        "Network error|Connection refused|timeout"@,
        "Resource '([^']+)' not found"@,
        "Permission denied|Access denied|Forbidden"@,
        "Missing required parameter: ([^\\s]+)"@,
        "Invalid parameter value: ([^\\s]+)"@,
    ]
}

/// The success rate, in hundredths, after one more outcome: ten more after a
/// success, ten less after a failure, and never outside zero to a hundred.
pub open spec fn nudged(percent: nat, was_successful: bool) -> nat {
    if was_successful {
        if percent + 10 > 100 {
            100
        } else {
            percent + 10
        }
    } else {
        if percent < 10 {
            0
        } else {
            (percent - 10) as nat
        }
    }
}

/// The success rate of a command nothing is known about, in hundredths.
pub const DEFAULT_SUCCESS_PERCENT: u64 = 50;

/// The most suggestions that `get_suggestions` returns.
pub const MAX_SUGGESTIONS: usize = 3;

/// The most suggestions that `get_retry_suggestions` returns.
pub const MAX_RETRY_SUGGESTIONS: usize = 5;

/// The most corrections that `get_learning_context` quotes.
pub const MAX_CONTEXT_CORRECTIONS: usize = 3;

/// The key under which a correction is filed in the pattern index: for a
/// command that was not found, the first word after the program name
/// `ibmcloud`, or `unknown` where there is none; for every other kind,
/// `general`.
pub open spec fn pattern_key(kind: CorrectionKind, incorrect: Seq<char>) -> Seq<char> {
    match kind {
        CorrectionKind::CommandNotFound => {
            let prefix = "ibmcloud "@;
            if starts_with(incorrect, prefix) {
                let rest = words(incorrect.subrange(prefix.len() as int, incorrect.len() as int));
                if rest.len() > 0 {
                    rest[0]
                } else {
                    "unknown"@
                }
            } else {
                "unknown"@
            }
        },
        _ => "general"@,
    }
}

/// The key under which a correction of this kind for `incorrect` is filed.
pub fn problem_token(correction_type: &CorrectionType, incorrect: &str) -> (r: String)
    ensures
        r@ == pattern_key(correction_type@, incorrect@),
{
    match correction_type {
        CorrectionType::CommandNotFound => {
            let command = chars_of(incorrect);
            let prefix = chars_of("ibmcloud ");
            if matches_at(&command, &prefix, 0) {
                let rest = slice_of(&command, prefix.len(), command.len());
                let rest_words = split_words(&rest);
                if rest_words.len() > 0 {
                    string_of(&rest_words[0])
                } else {
                    "unknown".to_owned()
                }
            } else {
                "unknown".to_owned()
            }
        },
        _ => "general".to_owned(),
    }
}

/// The correct command of the last among the first `n` records whose query
/// is exactly `query`.
pub open spec fn learned(records: Seq<CorrectionModel>, query: Seq<char>, n: int) -> Option<
    Seq<char>,
>
    decreases n,
{
    if n <= 0 {
        None
    } else if records[n - 1].original_query == query {
        Some(records[n - 1].correct_command)
    } else {
        learned(records, query, n - 1)
    }
}

/// Record `i` is current: no later record has the same query.
pub open spec fn is_current(records: Seq<CorrectionModel>, i: int) -> bool {
    forall|j: int|
        i < j < records.len() ==> (#[trigger] records[j]).original_query
            != records[i].original_query
}

/// The correction learning engine.
pub struct CommandLearningEngine {
    corrections: Vec<CommandCorrection>,
    patterns: StringMap<Vec<String>>,
    retry_strategies: Vec<RetryEntry>,
    success_metrics: StringMap<u64>,
    last_updated: i64,
    error_patterns: Vec<String>,
}

impl CommandLearningEngine {
    /// The log of corrections, oldest first.
    pub closed spec fn records(&self) -> Seq<CorrectionModel> {
        record_models(self.corrections@)
    }

    /// The keys of the pattern index, in the order they first came.
    pub closed spec fn pattern_keys(&self) -> Seq<Seq<char>> {
        self.patterns.keys()
    }

    /// The lists of correcting commands of the pattern index, in the order
    /// of their keys.
    pub closed spec fn pattern_lists(&self) -> Seq<Seq<Seq<char>>> {
        Seq::new(self.patterns.entries().len(), |i: int| strings(self.patterns.entries()[i].1@))
    }

    /// The correcting commands filed under `key`, oldest first.
    pub closed spec fn pattern_list(&self, key: Seq<char>) -> Seq<Seq<char>> {
        if self.patterns.has(key) {
            strings(self.patterns.value_of(key)@)
        } else {
            Seq::empty()
        }
    }

    /// The pattern index, as a list and as a lookup, says the same: every
    /// key has one list, which is the one that the key leads to.
    pub open spec fn index_agrees(&self) -> bool {
        &&& self.pattern_lists().len() == self.pattern_keys().len()
        &&& forall|i: int|
            0 <= i < self.pattern_keys().len() ==> #[trigger] self.pattern_lists()[i]
                == self.pattern_list(self.pattern_keys()[i])
    }

    /// In a well-formed engine the list and the lookup of the pattern
    /// index agree.
    pub proof fn lemma_index_agrees(&self)
        requires
            self.well_formed(),
        ensures
            self.index_agrees(),
    {
        assert forall|i: int| 0 <= i < self.pattern_keys().len() implies #[trigger] self.pattern_lists()[i]
            == self.pattern_list(self.pattern_keys()[i]) by {
            self.patterns.lemma_position(i);
        }
    }

    /// The retry table.
    pub closed spec fn retry_table(&self) -> Seq<(CorrectionKind, RetryStrategy)> {
        table_models(self.retry_strategies@)
    }

    /// The error patterns, as regular expressions.
    pub closed spec fn error_pattern_texts(&self) -> Seq<Seq<char>> {
        strings(self.error_patterns@)
    }

    /// The success rate of `command`, in hundredths.
    pub closed spec fn rate_percent(&self, command: Seq<char>) -> nat {
        if self.success_metrics.has(command) {
            self.success_metrics.value_of(command) as nat
        } else {
            DEFAULT_SUCCESS_PERCENT as nat
        }
    }

    /// The commands whose success rate was ever moved or set, in the order
    /// in which they first came.
    pub closed spec fn rated_commands(&self) -> Seq<Seq<char>> {
        self.success_metrics.keys()
    }

    /// When the engine was last changed, in seconds since the Unix epoch.
    pub closed spec fn updated_at(&self) -> i64 {
        self.last_updated
    }

    /// The engine's maps have no key twice, and every success rate is at
    /// most a hundred hundredths.
    pub closed spec fn well_formed(&self) -> bool {
        &&& self.patterns.well_formed()
        &&& self.success_metrics.well_formed()
        &&& forall|i: int|
            0 <= i < self.success_metrics.entries().len() ==> (
            #[trigger] self.success_metrics.entries()[i]).1 <= 100
    }

    /// The engine has learned nothing: it holds no corrections and no
    /// pattern keys, the seeded retry table and the default error patterns,
    /// and every command has the default success rate.
    pub open spec fn is_fresh(&self) -> bool {
        &&& self.well_formed()
        &&& self.records() == Seq::<CorrectionModel>::empty()
        &&& self.pattern_keys() == Seq::<Seq<char>>::empty()
        &&& self.retry_table() == seeded_table()
        &&& self.error_pattern_texts() == default_error_patterns()
        &&& forall|c: Seq<char>| self.rate_percent(c) == DEFAULT_SUCCESS_PERCENT
        &&& self.rated_commands() == Seq::<Seq<char>>::empty()
        &&& self.pattern_lists() == Seq::<Seq<Seq<char>>>::empty()
        &&& forall|k: Seq<char>| self.pattern_list(k) == Seq::<Seq<char>>::empty()
    }

    /// An engine that has learned nothing, with the seeded retry table and
    /// the default error patterns.
    pub fn new() -> (e: Self)
        ensures
            e.well_formed(),
            e.is_fresh(),
            e.index_agrees(),
            e.records() == Seq::<CorrectionModel>::empty(),
            e.pattern_keys() == Seq::<Seq<char>>::empty(),
            e.pattern_lists() == Seq::<Seq<Seq<char>>>::empty(),
            forall|k: Seq<char>| e.pattern_list(k) == Seq::<Seq<char>>::empty(),
            e.retry_table() == seeded_table(),
            e.error_pattern_texts() == default_error_patterns(),
            forall|c: Seq<char>| e.rate_percent(c) == DEFAULT_SUCCESS_PERCENT,
            e.rated_commands() == Seq::<Seq<char>>::empty(),
    {
        let mut e = CommandLearningEngine {
            corrections: Vec::new(),
            patterns: StringMap::new(),
            retry_strategies: Vec::new(),
            success_metrics: StringMap::new(),
            last_updated: 0,
            error_patterns: Vec::new(),
        };
        e.initialize_error_patterns();
        e.initialize_retry_strategies();
        proof {
            e.lemma_index_agrees();
            assert(e.pattern_lists() =~= Seq::<Seq<Seq<char>>>::empty());
            assert(e.records() =~= Seq::<CorrectionModel>::empty());
        }
        e
    }

    /// Sets the error patterns to the default ones.
    pub fn initialize_error_patterns(&mut self)
        ensures
            final(self).error_pattern_texts() == default_error_patterns(),
            final(self).well_formed() == old(self).well_formed(),
            final(self).records() == old(self).records(),
            final(self).pattern_keys() == old(self).pattern_keys(),
            final(self).pattern_lists() == old(self).pattern_lists(),
            final(self).retry_table() == old(self).retry_table(),
            final(self).updated_at() == old(self).updated_at(),
            forall|k: Seq<char>| final(self).pattern_list(k) == old(self).pattern_list(k),
            forall|c: Seq<char>| final(self).rate_percent(c) == old(self).rate_percent(c),
            final(self).rated_commands() == old(self).rated_commands(),
    {
        let mut patterns: Vec<String> = Vec::new();
        patterns.push("command '([^']+)' not found".to_owned());
        patterns.push("Unknown command: ([^\\s]+)".to_owned());
        patterns.push("Invalid syntax.*near '([^']+)'".to_owned());
        patterns.push("Plugin '([^']+)' not installed".to_owned());
        patterns.push("Authentication failed".to_owned());
        patterns.push("Network error|Connection refused|timeout".to_owned());
        patterns.push("Resource '([^']+)' not found".to_owned());
        patterns.push("Permission denied|Access denied|Forbidden".to_owned());
        patterns.push("Missing required parameter: ([^\\s]+)".to_owned());
        patterns.push("Invalid parameter value: ([^\\s]+)".to_owned());
        self.error_patterns = patterns;
    }

    /// Sets the retry table to the seeded one.
    pub fn initialize_retry_strategies(&mut self)
        ensures
            final(self).retry_table() == seeded_table(),
            final(self).well_formed() == old(self).well_formed(),
            final(self).records() == old(self).records(),
            final(self).pattern_keys() == old(self).pattern_keys(),
            final(self).pattern_lists() == old(self).pattern_lists(),
            final(self).error_pattern_texts() == old(self).error_pattern_texts(),
            final(self).updated_at() == old(self).updated_at(),
            forall|k: Seq<char>| final(self).pattern_list(k) == old(self).pattern_list(k),
            forall|c: Seq<char>| final(self).rate_percent(c) == old(self).rate_percent(c),
            final(self).rated_commands() == old(self).rated_commands(),
    {
        let mut table: Vec<RetryEntry> = Vec::new();
        table.push(
            RetryEntry {
                kind: CorrectionType::NetworkError,
                strategy: make_strategy(RetryStrategyType::ExponentialBackoff, 3, 1000, 70),
            },
        );
        table.push(
            RetryEntry {
                kind: CorrectionType::AuthenticationError,
                strategy: make_strategy(RetryStrategyType::NoRetry, 1, 0, 10),
            },
        );
        table.push(
            RetryEntry {
                kind: CorrectionType::InvalidSyntax,
                strategy: make_strategy(RetryStrategyType::ContextualRetry, 2, 500, 80),
            },
        );
        table.push(
            RetryEntry {
                kind: CorrectionType::CommandNotFound,
                strategy: make_strategy(RetryStrategyType::ImmediateRetry, 2, 0, 60),
            },
        );
        table.push(
            RetryEntry {
                kind: CorrectionType::ParameterError,
                strategy: make_strategy(RetryStrategyType::LinearBackoff, 2, 500, 75),
            },
        );
        self.retry_strategies = table;
    }

    /// The retry strategy for a failure with the message `error_message`.
    pub fn analyze_failure_pattern(&self, error_message: &str, _command: &str) -> (r: Option<
        RetryStrategy,
    >)
        ensures
            r == Some(
                failure_strategy(self.retry_table(), self.error_pattern_texts(), error_message@),
            ),
    {
        let correction_type = analyze_error(error_message);
        match lookup_strategy(&self.retry_strategies, &correction_type) {
            Some(s) => Some(s),
            None => {
                if matches_any(&self.error_patterns, error_message) {
                    Some(get_default_retry_strategy(&correction_type))
                } else {
                    Some(make_strategy(RetryStrategyType::LinearBackoff, 2, 1000, 50))
                }
            },
        }
    }

    /// The number of corrections, the number of pattern keys, and the time
    /// of the last change.
    pub fn get_stats(&self) -> (r: (usize, usize, i64))
        ensures
            r.0 == self.records().len(),
            r.1 == self.pattern_keys().len(),
            r.2 == self.updated_at(),
    {
        (self.corrections.len(), self.patterns.len(), self.last_updated)
    }

    /// The log of corrections, oldest first.
    pub fn get_all_corrections(&self) -> (r: &Vec<CommandCorrection>)
        ensures
            record_models(r@) == self.records(),
    {
        &self.corrections
    }

    /// The command learned for exactly this query: the correct command of
    /// the last correction recorded for it.
    pub fn get_learned_command(&self, query: &str) -> (r: Option<&String>)
        ensures
            match r {
                Some(c) => learned(self.records(), query@, self.records().len() as int) == Some(c@),
                None => learned(self.records(), query@, self.records().len() as int) is None,
            },
    {
        let mut n: usize = self.corrections.len();
        while n > 0
            invariant
                n <= self.corrections.len(),
                learned(self.records(), query@, self.records().len() as int) == learned(
                    self.records(),
                    query@,
                    n as int,
                ),
            decreases n,
        {
            if str_eq(self.corrections[n - 1].original_query.as_str(), query) {
                return Some(&self.corrections[n - 1].correct_command);
            }
            n = n - 1;
        }
        None
    }

    /// The success rate of `command`.
    pub fn get_success_rate(&self, command: &str) -> (r: Ratio)
        requires
            self.well_formed(),
        ensures
            self.rate_percent(command@) <= 100,
            r == (Ratio { num: self.rate_percent(command@) as u64, den: 100 }),
            r.unit(),
    {
        match self.success_metrics.find(command) {
            Some(i) => {
                let p = *self.success_metrics.value_at(i);
                Ratio { num: p, den: 100 }
            },
            None => Ratio { num: DEFAULT_SUCCESS_PERCENT, den: 100 },
        }
    }

    /// Moves the success rate of `command` by a tenth: up after a success,
    /// down after a failure, and never outside zero to one.
    pub fn update_success_metrics(&mut self, command: &str, was_successful: bool)
        requires
            old(self).well_formed(),
        ensures
            final(self).well_formed(),
            final(self).rate_percent(command@) == nudged(
                old(self).rate_percent(command@),
                was_successful,
            ),
            forall|c: Seq<char>|
                c != command@ ==> final(self).rate_percent(c) == old(self).rate_percent(c),
            final(self).rated_commands() == keys_with(old(self).rated_commands(), command@),
            final(self).records() == old(self).records(),
            final(self).pattern_keys() == old(self).pattern_keys(),
            final(self).pattern_lists() == old(self).pattern_lists(),
            final(self).retry_table() == old(self).retry_table(),
            final(self).error_pattern_texts() == old(self).error_pattern_texts(),
            forall|k: Seq<char>| final(self).pattern_list(k) == old(self).pattern_list(k),
    {
        let now = crate::clock::now_timestamp();
        self.update_success_metrics_at(command, was_successful, now);
    }

    /// Moves the success rate of `command` by a tenth, at the time `now`: up
    /// after a success, down after a failure, and never outside zero to one.
    pub fn update_success_metrics_at(&mut self, command: &str, was_successful: bool, now: i64)
        requires
            old(self).well_formed(),
        ensures
            final(self).well_formed(),
            final(self).updated_at() == now,
            final(self).rate_percent(command@) == nudged(
                old(self).rate_percent(command@),
                was_successful,
            ),
            forall|c: Seq<char>|
                c != command@ ==> final(self).rate_percent(c) == old(self).rate_percent(c),
            final(self).rated_commands() == keys_with(old(self).rated_commands(), command@),
            final(self).records() == old(self).records(),
            final(self).pattern_keys() == old(self).pattern_keys(),
            final(self).pattern_lists() == old(self).pattern_lists(),
            final(self).retry_table() == old(self).retry_table(),
            final(self).error_pattern_texts() == old(self).error_pattern_texts(),
            forall|k: Seq<char>| final(self).pattern_list(k) == old(self).pattern_list(k),
    {
        let current: u64 = match self.success_metrics.find(command) {
            Some(i) => *self.success_metrics.value_at(i),
            None => DEFAULT_SUCCESS_PERCENT,
        };
        let next: u64 = if was_successful {
            if current + 10 > 100 {
                100
            } else {
                current + 10
            }
        } else {
            if current < 10 {
                0
            } else {
                current - 10
            }
        };
        let ghost before = self.success_metrics;
        self.success_metrics.insert(command.to_owned(), next);
        self.last_updated = now;
        proof {
            before.lemma_has_key(command@);
            let after = self.success_metrics;
            assert forall|c: Seq<char>| after.has(c) == after.map().contains_key(c) by {}
            assert forall|c: Seq<char>| after.has(c) implies after.value_of(c) == after.map()[c] by {}
            assert forall|i: int| 0 <= i < after.entries().len() implies (
            #[trigger] after.entries()[i]).1 <= 100 by {
                after.lemma_position(i);
            }
        }
    }
}

/// The record that a correction starts as: full confidence, full success
/// rate, used once.
pub open spec fn fresh_record(
    query: Seq<char>,
    incorrect: Seq<char>,
    correct: Seq<char>,
    error: Option<Seq<char>>,
    kind: CorrectionKind,
    timestamp: i64,
) -> CorrectionModel {
    CorrectionModel {
        original_query: query,
        incorrect_command: incorrect,
        correct_command: correct,
        error_message: error,
        correction_type: kind,
        timestamp,
        confidence_score: Ratio { num: 1, den: 1 },
        success_rate: Ratio { num: 1, den: 1 },
        usage_count: 1,
    }
}

/// The text of an optional string.
pub open spec fn optional_text(s: Option<&str>) -> Option<Seq<char>> {
    match s {
        Some(m) => Some(m@),
        None => None,
    }
}

/// A record matches a failed command where its query holds the command or
/// the command holds its query, without regard to case.
pub open spec fn record_matches(r: CorrectionModel, failed: Seq<char>) -> bool {
    ||| contains(lowercase(r.original_query), lowercase(failed))
    ||| contains(lowercase(failed), lowercase(r.original_query))
}

/// The correct commands of the first `n` records that match the failed command.
pub open spec fn direct_suggestions(records: Seq<CorrectionModel>, failed: Seq<char>, n: int) -> Seq<
    Seq<char>,
>
    decreases n,
{
    if n <= 0 {
        Seq::empty()
    } else if record_matches(records[n - 1], failed) {
        direct_suggestions(records, failed, n - 1).push(records[n - 1].correct_command)
    } else {
        direct_suggestions(records, failed, n - 1)
    }
}

/// The commands filed under those of the first `n` pattern keys that are
/// part of the failed command.
pub open spec fn pattern_suggestions(
    keys: Seq<Seq<char>>,
    lists: Seq<Seq<Seq<char>>>,
    failed: Seq<char>,
    n: int,
) -> Seq<Seq<char>>
    decreases n,
{
    if n <= 0 {
        Seq::empty()
    } else if contains(failed, keys[n - 1]) {
        pattern_suggestions(keys, lists, failed, n - 1) + lists[n - 1]
    } else {
        pattern_suggestions(keys, lists, failed, n - 1)
    }
}

/// Every command that is a candidate suggestion for the failed command.
pub open spec fn suggestion_candidates(
    records: Seq<CorrectionModel>,
    keys: Seq<Seq<char>>,
    lists: Seq<Seq<Seq<char>>>,
    failed: Seq<char>,
) -> Seq<Seq<char>> {
    direct_suggestions(records, failed, records.len() as int) + pattern_suggestions(
        keys,
        lists,
        failed,
        keys.len() as int,
    )
}

/// The first `limit` of the candidates once they are sorted and freed of
/// duplicates.
pub open spec fn best_sorted(candidates: Seq<Seq<char>>, limit: nat) -> Seq<Seq<char>> {
    let all = sorted_unique(candidates);
    if all.len() <= limit {
        all
    } else {
        all.take(limit as int)
    }
}

/// Sorts the candidates, drops duplicates, and keeps the first `limit`.
pub fn sort_and_limit(candidates: &Vec<Vec<char>>, limit: usize) -> (r: Vec<String>)
    ensures
        strings(r@) == best_sorted(texts(candidates@), limit as nat),
{
    let mut sorted: Vec<Vec<char>> = Vec::new();
    let mut i: usize = 0;
    while i < candidates.len()
        invariant
            i <= candidates.len(),
            texts(sorted@) == sorted_unique_upto(texts(candidates@), i as int),
            crate::sorted::strictly_sorted(texts(sorted@)),
        decreases candidates.len() - i,
    {
        let mut x: Vec<char> = Vec::new();
        crate::text::extend_chars(&mut x, &candidates[i]);
        insert_into_sorted(&mut sorted, x);
        i = i + 1;
    }
    let mut r: Vec<String> = Vec::new();
    let mut k: usize = 0;
    while k < sorted.len() && k < limit
        invariant
            k <= sorted.len(),
            k <= limit,
            strings(r@) == texts(sorted@).take(k as int),
        decreases sorted.len() - k,
    {
        let s = string_of(&sorted[k]);
        let ghost before = strings(r@);
        r.push(s);
        assert(strings(r@) == before.push(sorted@[k as int]@));
        k = k + 1;
    }
    r
}

/// One correction that `find_similar` found, with its score and its
/// position in the log.
#[derive(Debug)]
pub struct SimilarCorrection {
    pub correction: CommandCorrection,
    pub score: Ratio,
    pub position: usize,
}

/// The positions that the found corrections name, in order.
pub open spec fn similar_positions(r: Seq<SimilarCorrection>) -> Seq<usize> {
    Seq::new(r.len(), |a: int| r[a].position)
}

/// The score of a record's query against the query: the share of the
/// query's words that are words of the record's query, without regard to case.
pub open spec fn similarity_score(query: Seq<char>, record: CorrectionModel) -> Ratio {
    overlap(word_matches(query, record.original_query), lower_words(query).len())
}

/// The ranking keys of `find_similar`: for each record, how many words of
/// the query are words of its query.
pub open spec fn similarity_keys(records: Seq<CorrectionModel>, query: Seq<char>) -> Seq<u128> {
    Seq::new(records.len(), |i: int| word_matches(query, records[i].original_query) as u128)
}

/// Which records `find_similar` admits: the current ones whose score
/// reaches the threshold.
pub open spec fn similarity_keep(
    records: Seq<CorrectionModel>,
    query: Seq<char>,
    threshold: Ratio,
) -> Seq<bool> {
    Seq::new(
        records.len(),
        |i: int| is_current(records, i) && similarity_score(query, records[i]).ge(threshold),
    )
}

impl CommandLearningEngine {
    /// Records a correction: appends it to the log, files the correct
    /// command in the pattern index, and notes the time of the change.
    pub fn add_correction(
        &mut self,
        original_query: &str,
        incorrect_command: &str,
        correct_command: &str,
        error_message: Option<&str>,
        correction_type: CorrectionType,
    )
        requires
            old(self).well_formed(),
        ensures
            final(self).well_formed(),
            final(self).index_agrees(),
            final(self).updated_at() == final(self).records().last().timestamp,
            final(self).records().len() == old(self).records().len() + 1,
            final(self).records() == old(self).records().push(
                fresh_record(
                    original_query@,
                    incorrect_command@,
                    correct_command@,
                    optional_text(error_message),
                    correction_type@,
                    final(self).records().last().timestamp,
                ),
            ),
            learned(final(self).records(), original_query@, final(self).records().len() as int)
                == Some(correct_command@),
            ({
                let key = pattern_key(correction_type@, incorrect_command@);
                &&& final(self).pattern_keys() == keys_with(old(self).pattern_keys(), key)
                &&& final(self).pattern_list(key) == old(self).pattern_list(key).push(
                    correct_command@,
                )
                &&& forall|k: Seq<char>|
                    k != key ==> final(self).pattern_list(k) == old(self).pattern_list(k)
            }),
            final(self).retry_table() == old(self).retry_table(),
            final(self).error_pattern_texts() == old(self).error_pattern_texts(),
            forall|c: Seq<char>| final(self).rate_percent(c) == old(self).rate_percent(c),
            final(self).rated_commands() == old(self).rated_commands(),
    {
        let now = crate::clock::now_timestamp();
        self.add_correction_at(
            original_query,
            incorrect_command,
            correct_command,
            error_message,
            correction_type,
            now,
        );
    }

    /// Records a correction made at the time `now`: appends it to the log,
    /// files the correct command in the pattern index, and notes the time.
    pub fn add_correction_at(
        &mut self,
        original_query: &str,
        incorrect_command: &str,
        correct_command: &str,
        error_message: Option<&str>,
        correction_type: CorrectionType,
        now: i64,
    )
        requires
            old(self).well_formed(),
        ensures
            final(self).well_formed(),
            final(self).index_agrees(),
            final(self).updated_at() == now,
            final(self).records().len() == old(self).records().len() + 1,
            final(self).records() == old(self).records().push(
                fresh_record(
                    original_query@,
                    incorrect_command@,
                    correct_command@,
                    optional_text(error_message),
                    correction_type@,
                    now,
                ),
            ),
            learned(final(self).records(), original_query@, final(self).records().len() as int)
                == Some(correct_command@),
            ({
                let key = pattern_key(correction_type@, incorrect_command@);
                &&& final(self).pattern_keys() == keys_with(old(self).pattern_keys(), key)
                &&& final(self).pattern_list(key) == old(self).pattern_list(key).push(
                    correct_command@,
                )
                &&& forall|k: Seq<char>|
                    k != key ==> final(self).pattern_list(k) == old(self).pattern_list(k)
            }),
            final(self).retry_table() == old(self).retry_table(),
            final(self).error_pattern_texts() == old(self).error_pattern_texts(),
            forall|c: Seq<char>| final(self).rate_percent(c) == old(self).rate_percent(c),
            final(self).rated_commands() == old(self).rated_commands(),
    {
        let kind_copy = correction_type.duplicate();
        let correction = CommandCorrection {
            original_query: original_query.to_owned(),
            incorrect_command: incorrect_command.to_owned(),
            correct_command: correct_command.to_owned(),
            error_message: match error_message {
                Some(m) => Some(m.to_owned()),
                None => None,
            },
            correction_type: kind_copy,
            timestamp: now,
            confidence_score: Ratio { num: 1, den: 1 },
            success_rate: Ratio { num: 1, den: 1 },
            usage_count: 1,
        };
        self.corrections.push(correction);
        self.last_updated = now;
        self.update_patterns(&correction_type, incorrect_command, correct_command);
        proof {
            self.lemma_index_agrees();
        }
    }

    /// Files `correct` in the pattern index under the key of the correction.
    fn update_patterns(&mut self, correction_type: &CorrectionType, incorrect: &str, correct: &str)
        requires
            old(self).well_formed(),
        ensures
            final(self).well_formed(),
            final(self).records() == old(self).records(),
            ({
                let key = pattern_key(correction_type@, incorrect@);
                &&& final(self).pattern_keys() == keys_with(old(self).pattern_keys(), key)
                &&& final(self).pattern_list(key) == old(self).pattern_list(key).push(correct@)
                &&& forall|k: Seq<char>|
                    k != key ==> final(self).pattern_list(k) == old(self).pattern_list(k)
            }),
            final(self).retry_table() == old(self).retry_table(),
            final(self).error_pattern_texts() == old(self).error_pattern_texts(),
            final(self).updated_at() == old(self).updated_at(),
            forall|c: Seq<char>| final(self).rate_percent(c) == old(self).rate_percent(c),
            final(self).rated_commands() == old(self).rated_commands(),
    {
        let key = problem_token(correction_type, incorrect);
        let ghost k = key@;
        let ghost before = self.patterns;
        let mut list: Vec<String> = match self.patterns.find(key.as_str()) {
            Some(i) => {
                copy_strings(self.patterns.value_at(i))
            },
            None => Vec::new(),
        };
        list.push(correct.to_owned());
        self.patterns.insert(key, list);
        proof {
            let after = self.patterns;
            assert forall|x: Seq<char>| after.has(x) == after.map().contains_key(x) by {}
            assert forall|x: Seq<char>| after.has(x) implies after.value_of(x) == after.map()[x] by {}
            assert(before.keys().contains(k) == before.has(k)) by {
                if before.has(k) {
                    let p = before.position(k);
                    assert(before.keys()[p] == k);
                }
            }
        }
    }

    /// Up to three suggestions for a failed command: the correct commands of
    /// the records that match it and the commands filed under pattern keys
    /// that are part of it, sorted, without duplicates.
    pub fn get_suggestions(&self, failed_command: &str, _error_message: Option<&str>) -> (r: Vec<
        String,
    >)
        ensures
            strings(r@) == best_sorted(
                suggestion_candidates(
                    self.records(),
                    self.pattern_keys(),
                    self.pattern_lists(),
                    failed_command@,
                ),
                MAX_SUGGESTIONS as nat,
            ),
    {
        let candidates = self.collect_candidates(failed_command);
        sort_and_limit(&candidates, MAX_SUGGESTIONS)
    }

    /// Every command that is a candidate suggestion for the failed command.
    fn collect_candidates(&self, failed_command: &str) -> (r: Vec<Vec<char>>)
        ensures
            texts(r@) == suggestion_candidates(
                self.records(),
                self.pattern_keys(),
                self.pattern_lists(),
                failed_command@,
            ),
    {
        let failed = chars_of(failed_command);
        let failed_lower = lower_chars(failed_command);
        let mut r: Vec<Vec<char>> = Vec::new();
        let mut i: usize = 0;
        while i < self.corrections.len()
            invariant
                i <= self.corrections.len(),
                failed@ == failed_command@,
                failed_lower@ == lowercase(failed_command@),
                texts(r@) == direct_suggestions(self.records(), failed_command@, i as int),
            decreases self.corrections.len() - i,
        {
            let c = &self.corrections[i];
            let query_lower = lower_chars(c.original_query.as_str());
            if contains_chars(&query_lower, &failed_lower) || contains_chars(
                &failed_lower,
                &query_lower,
            ) {
                r.push(chars_of(c.correct_command.as_str()));
            }
            i = i + 1;
        }
        let ghost direct = texts(r@);
        let mut k: usize = 0;
        let count = self.patterns.len();
        while k < count
            invariant
                k <= count,
                count == self.patterns.entries().len(),
                failed@ == failed_command@,
                texts(r@) == direct + pattern_suggestions(
                    self.pattern_keys(),
                    self.pattern_lists(),
                    failed_command@,
                    k as int,
                ),
            decreases count - k,
        {
            let key = chars_of(self.patterns.key_at(k).as_str());
            if contains_chars(&failed, &key) {
                let list = self.patterns.value_at(k);
                let ghost before = texts(r@);
                let mut j: usize = 0;
                while j < list.len()
                    invariant
                        j <= list.len(),
                        texts(r@) == before + strings(list@).take(j as int),
                    decreases list.len() - j,
                {
                    let ghost sofar = texts(r@);
                    r.push(chars_of(list[j].as_str()));
                    assert(texts(r@) =~= sofar.push(list@[j as int]@));
                    j = j + 1;
                }
            }
            k = k + 1;
        }
        r
    }

    /// The corrections of queries similar to `query`: the current records
    /// whose score reaches the threshold, best first, records with equal
    /// scores in the order they were recorded.
    pub fn find_similar(&self, query: &str, threshold: &Ratio) -> (r: Vec<SimilarCorrection>)
        ensures
            is_ranking(
                similar_positions(r@),
                similarity_keys(self.records(), query@),
                similarity_keep(self.records(), query@, *threshold),
                self.records().len(),
            ),
            forall|a: int|
                0 <= a < r@.len() ==> (#[trigger] r@[a]).position < self.records().len()
                    && r@[a].correction@ == self.records()[r@[a].position as int] && r@[a].score
                    == similarity_score(query@, r@[a].correction@),
    {
        let query_words = lower_word_list(query);
        let n = self.corrections.len();
        let mut keys: Vec<u128> = Vec::new();
        let mut keep: Vec<bool> = Vec::new();
        let mut scores: Vec<Ratio> = Vec::new();
        let mut i: usize = 0;
        while i < n
            invariant
                i <= n,
                n == self.corrections.len(),
                texts(query_words@) == lower_words(query@),
                keys@.len() == i,
                keep@.len() == i,
                scores@.len() == i,
                forall|k: int|
                    0 <= k < i ==> #[trigger] keys@[k] == similarity_keys(self.records(), query@)[k],
                forall|k: int|
                    0 <= k < i ==> #[trigger] keep@[k] == similarity_keep(
                        self.records(),
                        query@,
                        *threshold,
                    )[k],
                forall|k: int|
                    0 <= k < i ==> #[trigger] scores@[k] == similarity_score(
                        query@,
                        self.records()[k],
                    ),
            decreases n - i,
        {
            let c = &self.corrections[i];
            let other = lower_word_list(c.original_query.as_str());
            let hits = count_word_hits(&query_words, &other);
            let score = overlap_ratio(hits, query_words.len());
            let current = self.is_current_record(i);
            keys.push(hits as u128);
            keep.push(current && score.at_least(threshold));
            scores.push(score);
            i = i + 1;
        }
        let order = rank(&keys, &keep, n);
        let mut r: Vec<SimilarCorrection> = Vec::new();
        let mut a: usize = 0;
        while a < order.len()
            invariant
                a <= order.len(),
                n == self.corrections.len(),
                scores@.len() == n,
                forall|k: int|
                    0 <= k < n ==> #[trigger] scores@[k] == similarity_score(
                        query@,
                        self.records()[k],
                    ),
                forall|b: int| 0 <= b < order@.len() ==> (#[trigger] order@[b]) < n,
                r@.len() == a,
                forall|b: int| 0 <= b < a ==> (#[trigger] r@[b]).position == order@[b],
                forall|b: int|
                    0 <= b < a ==> (#[trigger] r@[b]).correction@
                        == self.records()[r@[b].position as int] && r@[b].score
                        == similarity_score(query@, r@[b].correction@),
            decreases order.len() - a,
        {
            let p = order[a];
            r.push(
                SimilarCorrection {
                    correction: self.corrections[p].duplicate(),
                    score: scores[p],
                    position: p,
                },
            );
            a = a + 1;
        }
        assert(similar_positions(r@) =~= order@);
        r
    }

    /// Whether no record after record `i` has the same query.
    fn is_current_record(&self, i: usize) -> (r: bool)
        requires
            i < self.records().len(),
        ensures
            r == is_current(self.records(), i as int),
    {
        let n = self.corrections.len();
        let mut j: usize = i + 1;
        while j < n
            invariant
                n == self.corrections.len(),
                i < j <= n,
                forall|k: int|
                    i < k < j ==> (#[trigger] self.records()[k]).original_query
                        != self.records()[i as int].original_query,
            decreases n - j,
        {
            assert(self.records()[j as int] == self.corrections@[j as int]@);
            if str_eq(
                self.corrections[j].original_query.as_str(),
                self.corrections[i].original_query.as_str(),
            ) {
                return false;
            }
            j = j + 1;
        }
        true
    }
}

/// Correction overwrite: after two corrections for the same query, the
/// command learned for the query is that of the second.
pub proof fn lemma_correction_overwrite(
    records: Seq<CorrectionModel>,
    first: CorrectionModel,
    second: CorrectionModel,
)
    requires
        first.original_query == second.original_query,
    ensures
        learned(
            records.push(first).push(second),
            second.original_query,
            records.len() as int + 2,
        ) == Some(second.correct_command),
{
}

/// A correction for one query leaves what is learned for every other query
/// as it was.
pub proof fn lemma_correction_leaves_others(
    records: Seq<CorrectionModel>,
    added: CorrectionModel,
    query: Seq<char>,
)
    requires
        added.original_query != query,
    ensures
        learned(records.push(added), query, records.len() as int + 1) == learned(
            records,
            query,
            records.len() as int,
        ),
{
    lemma_learned_prefix(records.push(added), records, query, records.len() as int);
}

/// What is learned from the first `n` records depends on those records only.
pub proof fn lemma_learned_prefix(
    a: Seq<CorrectionModel>,
    b: Seq<CorrectionModel>,
    query: Seq<char>,
    n: int,
)
    requires
        0 <= n <= a.len(),
        n <= b.len(),
        forall|i: int| 0 <= i < n ==> a[i] == b[i],
    ensures
        learned(a, query, n) == learned(b, query, n),
    decreases n,
{
    if n > 0 {
        lemma_learned_prefix(a, b, query, n - 1);
    }
}

/// A record bears on a query where its query holds the query or the query
/// holds its query, without regard to case.
pub open spec fn relevant(r: CorrectionModel, query: Seq<char>) -> bool {
    contains(lowercase(r.original_query), lowercase(query)) || contains(
        lowercase(query),
        lowercase(r.original_query),
    )
}

/// The line that quotes a correction in the learning context.
pub open spec fn correction_line(r: CorrectionModel) -> Seq<char> {
    "- Query: '"@ + r.original_query + "' -> Correct command: '"@ + r.correct_command + "'\n"@
}

/// The lines for the first `left` relevant records from position `i` on.
pub open spec fn correction_lines(
    records: Seq<CorrectionModel>,
    query: Seq<char>,
    i: int,
    left: nat,
) -> Seq<char>
    decreases records.len() - i,
{
    if i < 0 || i >= records.len() || left == 0 {
        Seq::empty()
    } else if relevant(records[i], query) {
        correction_line(records[i]) + correction_lines(records, query, i + 1, (left - 1) as nat)
    } else {
        correction_lines(records, query, i + 1, left)
    }
}

/// Some record among the first `n` bears on the query.
pub open spec fn has_relevant(records: Seq<CorrectionModel>, query: Seq<char>, n: int) -> bool
    decreases n,
{
    if n <= 0 {
        false
    } else {
        relevant(records[n - 1], query) || has_relevant(records, query, n - 1)
    }
}

/// The note on the command `services`, which does not exist.
pub open spec fn services_note() -> Seq<char> {
    "\nNote: 'ibmcloud services' is not valid. Use 'ibmcloud resource service-instances' instead.\n"@
}

/// The learning context for a query: under a heading, the lines for the
/// first three records that bear on it, if there are any; then the note on
/// `services`, if the query holds that word.
pub open spec fn learning_context(records: Seq<CorrectionModel>, query: Seq<char>) -> Seq<char> {
    let learned_part = if has_relevant(records, query, records.len() as int) {
        "\nLearned corrections:\n"@ + correction_lines(
            records,
            query,
            0,
            MAX_CONTEXT_CORRECTIONS as nat,
        )
    } else {
        Seq::empty()
    };
    let note = if contains(query, "services"@) {
        services_note()
    } else {
        Seq::empty()
    };
    learned_part + note
}

/// Where some record among the first `n` bears on the query, so does one
/// among any more.
pub proof fn lemma_has_relevant_grows(
    records: Seq<CorrectionModel>,
    query: Seq<char>,
    n: int,
    m: int,
)
    requires
        0 <= n <= m,
        has_relevant(records, query, n),
    ensures
        has_relevant(records, query, m),
    decreases m,
{
    if m > n {
        lemma_has_relevant_grows(records, query, n, m - 1);
    }
}

/// The suggestions that an error of the kind `kind` adds for a retry, where
/// `plugin` is the plugin that the error message names, if any.
pub open spec fn retry_advice(
    kind: CorrectionKind,
    plugin: Option<Seq<char>>,
    attempt_count: u32,
) -> Seq<Seq<char>> {
    match kind {
        CorrectionKind::AuthenticationError => seq![
            "Try running 'ibmcloud login' first"@,
            "Check your API key or credentials"@,
        ],
        CorrectionKind::NetworkError => if attempt_count < 2 {
            seq![
                "Retry the command (network issue detected)"@,
                "Check your internet connection"@,
            ]
        } else {
            seq!["Check your internet connection"@]
        },
        CorrectionKind::MissingPlugin => match plugin {
            Some(name) => seq!["Install the plugin: ibmcloud plugin install "@ + name],
            None => Seq::empty(),
        },
        CorrectionKind::ResourceNotFound => seq![
            "Verify the resource name and region"@,
            "List available resources first"@,
        ],
        CorrectionKind::ParameterError => seq![
            "Check parameter syntax and required values"@,
            "Use --help to see valid parameters"@,
        ],
        _ => Seq::empty(),
    }
}

/// The suggestions that the kind of an error adds for a retry.
pub open spec fn retry_extras(kind: CorrectionKind, error: Seq<char>, attempt_count: u32) -> Seq<
    Seq<char>,
> {
    retry_advice(kind, regex_first_group("plugin '([^']+)'"@, error), attempt_count)
}

/// The suggestions that an error of the kind `kind` adds for a retry, where
/// `plugin` is the plugin that the error message names, if any.
pub fn advise_retry(kind: &CorrectionType, plugin: &Option<String>, attempt_count: u32) -> (r: Vec<
    Vec<char>,
>)
    ensures
        texts(r@) == retry_advice(
            kind@,
            match *plugin {
                Some(name) => Some(name@),
                None => None,
            },
            attempt_count,
        ),
{
    let mut all: Vec<Vec<char>> = Vec::new();
    match kind {
        CorrectionType::AuthenticationError => {
            all.push(chars_of("Try running 'ibmcloud login' first"));
            all.push(chars_of("Check your API key or credentials"));
        },
        CorrectionType::NetworkError => {
            if attempt_count < 2 {
                all.push(chars_of("Retry the command (network issue detected)"));
            }
            all.push(chars_of("Check your internet connection"));
        },
        CorrectionType::MissingPlugin => {
            match plugin {
                Some(name) => {
                    let mut line = chars_of("Install the plugin: ibmcloud plugin install ");
                    push_str(&mut line, name.as_str());
                    all.push(line);
                },
                None => {},
            }
        },
        CorrectionType::ResourceNotFound => {
            all.push(chars_of("Verify the resource name and region"));
            all.push(chars_of("List available resources first"));
        },
        CorrectionType::ParameterError => {
            all.push(chars_of("Check parameter syntax and required values"));
            all.push(chars_of("Use --help to see valid parameters"));
        },
        _ => {},
    }
    assert(texts(all@) =~= retry_advice(
        kind@,
        match *plugin {
            Some(name) => Some(name@),
            None => None,
        },
        attempt_count,
    ));
    all
}

/// The name of the plugin that an error message names, as in
/// `plugin 'code-engine' not installed`.
pub fn extract_plugin_name(error_message: &str) -> (r: Option<String>)
    ensures
        match r {
            Some(s) => regex_first_group("plugin '([^']+)'"@, error_message@) == Some(s@),
            None => regex_first_group("plugin '([^']+)'"@, error_message@) is None,
        },
{
    first_group("plugin '([^']+)'", error_message)
}

impl CommandLearningEngine {
    /// The learning context for a query, for use in a prompt.
    pub fn get_learning_context(&self, query: &str) -> (r: String)
        ensures
            r@ == learning_context(self.records(), query@),
    {
        let query_lower = lower_chars(query);
        let mut lines: Vec<char> = Vec::new();
        let mut left: usize = MAX_CONTEXT_CORRECTIONS;
        let mut i: usize = 0;
        let n = self.corrections.len();
        while i < n && left > 0
            invariant
                i <= n,
                n == self.corrections.len(),
                left <= MAX_CONTEXT_CORRECTIONS,
                query_lower@ == lowercase(query@),
                lines@ + correction_lines(self.records(), query@, i as int, left as nat)
                    == correction_lines(self.records(), query@, 0, MAX_CONTEXT_CORRECTIONS as nat),
                (left < MAX_CONTEXT_CORRECTIONS) == has_relevant(self.records(), query@, i as int),
            decreases n - i,
        {
            let c = &self.corrections[i];
            let record_lower = lower_chars(c.original_query.as_str());
            if contains_chars(&record_lower, &query_lower) || contains_chars(
                &query_lower,
                &record_lower,
            ) {
                push_str(&mut lines, "- Query: '");
                push_str(&mut lines, c.original_query.as_str());
                push_str(&mut lines, "' -> Correct command: '");
                push_str(&mut lines, c.correct_command.as_str());
                push_str(&mut lines, "'\n");
                left = left - 1;
            }
            i = i + 1;
        }
        proof {
            if left < MAX_CONTEXT_CORRECTIONS {
                lemma_has_relevant_grows(self.records(), query@, i as int, n as int);
            }
        }
        let mut context: Vec<char> = Vec::new();
        if left < MAX_CONTEXT_CORRECTIONS {
            push_str(&mut context, "\nLearned corrections:\n");
            crate::text::extend_chars(&mut context, &lines);
        }
        if crate::text::str_contains(query, "services") {
            push_str(
                &mut context,
                "\nNote: 'ibmcloud services' is not valid. Use 'ibmcloud resource service-instances' instead.\n",
            );
        }
        string_of(&context)
    }

    /// Up to five suggestions for a retry: the suggestions for the failed
    /// command and those that the kind of the error adds, sorted, without
    /// duplicates.
    pub open spec fn retry_suggestions(
        &self,
        failed_command: Seq<char>,
        error_message: Seq<char>,
        attempt_count: u32,
    ) -> Seq<Seq<char>> {
        best_sorted(
            best_sorted(
                suggestion_candidates(
                    self.records(),
                    self.pattern_keys(),
                    self.pattern_lists(),
                    failed_command,
                ),
                MAX_SUGGESTIONS as nat,
            ) + retry_extras(classify(error_message), error_message, attempt_count),
            MAX_RETRY_SUGGESTIONS as nat,
        )
    }

    /// Up to five suggestions for a retry of `failed_command`, which failed
    /// with `error_message`.
    pub fn get_retry_suggestions(
        &self,
        failed_command: &str,
        error_message: &str,
        attempt_count: u32,
    ) -> (r: Vec<String>)
        ensures
            strings(r@) == self.retry_suggestions(failed_command@, error_message@, attempt_count),
    {
        let base = self.get_suggestions(failed_command, Some(error_message));
        let mut all = to_char_lists(&base);
        let ghost start = texts(all@);
        let correction_type = analyze_error(error_message);
        let plugin = extract_plugin_name(error_message);
        let extras = advise_retry(&correction_type, &plugin, attempt_count);
        let mut k: usize = 0;
        while k < extras.len()
            invariant
                k <= extras.len(),
                texts(all@) == start + texts(extras@).take(k as int),
            decreases extras.len() - k,
        {
            let mut line: Vec<char> = Vec::new();
            crate::text::extend_chars(&mut line, &extras[k]);
            let ghost sofar = texts(all@);
            all.push(line);
            assert(texts(all@) =~= sofar.push(extras@[k as int]@));
            assert(texts(extras@).take(k + 1) =~= texts(extras@).take(k as int).push(
                extras@[k as int]@,
            ));
            k = k + 1;
        }
        assert(texts(extras@).take(extras@.len() as int) =~= texts(extras@));
        sort_and_limit(&all, MAX_RETRY_SUGGESTIONS)
    }
}

/// The correct commands of those of the first `n` records that are filed
/// under `key` in the pattern index, oldest first.
pub open spec fn filed_under(records: Seq<CorrectionModel>, key: Seq<char>, n: int) -> Seq<
    Seq<char>,
>
    decreases n,
{
    if n <= 0 {
        Seq::empty()
    } else if pattern_key(records[n - 1].correction_type, records[n - 1].incorrect_command) == key {
        filed_under(records, key, n - 1).push(records[n - 1].correct_command)
    } else {
        filed_under(records, key, n - 1)
    }
}

/// A success rate in hundredths, but a hundred where it is more.
pub open spec fn capped(percent: u64) -> nat {
    if percent > 100 {
        100
    } else {
        percent as nat
    }
}

impl CommandLearningEngine {
    /// An engine that holds the corrections of a snapshot: the log is the
    /// snapshot's, and the pattern index is what recording the corrections
    /// one after another gives.
    pub fn restore(corrections: Vec<CommandCorrection>, last_updated: i64) -> (e: Self)
        ensures
            e.well_formed(),
            e.index_agrees(),
            e.records() == record_models(corrections@),
            forall|k: Seq<char>|
                e.pattern_list(k) == filed_under(e.records(), k, e.records().len() as int),
            e.retry_table() == seeded_table(),
            e.error_pattern_texts() == default_error_patterns(),
            e.updated_at() == last_updated,
            forall|c: Seq<char>| e.rate_percent(c) == DEFAULT_SUCCESS_PERCENT,
            e.rated_commands() == Seq::<Seq<char>>::empty(),
    {
        let mut e = CommandLearningEngine::new();
        let ghost all = record_models(corrections@);
        let mut i: usize = 0;
        while i < corrections.len()
            invariant
                i <= corrections.len(),
                all == record_models(corrections@),
                e.well_formed(),
                e.retry_table() == seeded_table(),
                e.error_pattern_texts() == default_error_patterns(),
                forall|c: Seq<char>| e.rate_percent(c) == DEFAULT_SUCCESS_PERCENT,
                e.rated_commands() == Seq::<Seq<char>>::empty(),
                forall|k: Seq<char>| e.pattern_list(k) == filed_under(all, k, i as int),
            decreases corrections.len() - i,
        {
            let c = &corrections[i];
            e.update_patterns(
                &c.correction_type,
                c.incorrect_command.as_str(),
                c.correct_command.as_str(),
            );
            i = i + 1;
        }
        let ghost mid = e;
        e.corrections = corrections;
        e.last_updated = last_updated;
        proof {
            assert forall|k: Seq<char>| e.pattern_list(k) == mid.pattern_list(k) by {}
            assert forall|c: Seq<char>| e.rate_percent(c) == mid.rate_percent(c) by {}
            e.lemma_index_agrees();
        }
        e
    }

    /// Sets the success rate of `command` to `percent` hundredths, or to a
    /// hundred where that is more.
    pub fn set_success_rate(&mut self, command: &str, percent: u64)
        requires
            old(self).well_formed(),
        ensures
            final(self).well_formed(),
            final(self).rate_percent(command@) == capped(percent),
            forall|c: Seq<char>|
                c != command@ ==> final(self).rate_percent(c) == old(self).rate_percent(c),
            final(self).rated_commands() == keys_with(old(self).rated_commands(), command@),
            final(self).records() == old(self).records(),
            final(self).pattern_keys() == old(self).pattern_keys(),
            final(self).pattern_lists() == old(self).pattern_lists(),
            final(self).retry_table() == old(self).retry_table(),
            final(self).error_pattern_texts() == old(self).error_pattern_texts(),
            final(self).updated_at() == old(self).updated_at(),
            forall|k: Seq<char>| final(self).pattern_list(k) == old(self).pattern_list(k),
    {
        let value: u64 = if percent > 100 {
            100
        } else {
            percent
        };
        let ghost before = self.success_metrics;
        self.success_metrics.insert(command.to_owned(), value);
        proof {
            before.lemma_has_key(command@);
            let after = self.success_metrics;
            assert forall|c: Seq<char>| after.has(c) == after.map().contains_key(c) by {}
            assert forall|c: Seq<char>| after.has(c) implies after.value_of(c) == after.map()[c] by {}
            assert forall|i: int| 0 <= i < after.entries().len() implies (
            #[trigger] after.entries()[i]).1 <= 100 by {
                after.lemma_position(i);
            }
        }
    }

    /// The commands whose success rate was ever moved, in the order in
    /// which they first came, each with its rate in hundredths.
    pub fn success_rates(&self) -> (r: Vec<(String, u64)>)
        requires
            self.well_formed(),
        ensures
            r@.len() == self.rated_commands().len(),
            forall|i: int|
                0 <= i < r@.len() ==> (#[trigger] r@[i]).0@ == self.rated_commands()[i]
                    && r@[i].1 == self.rate_percent(self.rated_commands()[i]) && r@[i].1 <= 100,
    {
        let mut r: Vec<(String, u64)> = Vec::new();
        let n = self.success_metrics.len();
        let mut i: usize = 0;
        while i < n
            invariant
                i <= n,
                n == self.success_metrics.entries().len(),
                self.well_formed(),
                r@.len() == i,
                forall|k: int|
                    0 <= k < i ==> (#[trigger] r@[k]).0@ == self.rated_commands()[k] && r@[k].1
                        == self.rate_percent(self.rated_commands()[k]) && r@[k].1 <= 100,
            decreases n - i,
        {
            proof {
                self.success_metrics.lemma_position(i as int);
            }
            let key = self.success_metrics.key_at(i).clone();
            let value = *self.success_metrics.value_at(i);
            r.push((key, value));
            i = i + 1;
        }
        r
    }

    /// The pattern index: every key, in the order in which the keys first
    /// came, with the commands filed under it.
    pub fn pattern_entries(&self) -> (r: Vec<(String, Vec<String>)>)
        ensures
            r@.len() == self.pattern_keys().len(),
            forall|i: int|
                0 <= i < r@.len() ==> (#[trigger] r@[i]).0@ == self.pattern_keys()[i] && strings(
                    r@[i].1@,
                ) == self.pattern_lists()[i],
    {
        let mut r: Vec<(String, Vec<String>)> = Vec::new();
        let n = self.patterns.len();
        let mut i: usize = 0;
        while i < n
            invariant
                i <= n,
                n == self.patterns.entries().len(),
                r@.len() == i,
                forall|k: int|
                    0 <= k < i ==> (#[trigger] r@[k]).0@ == self.pattern_keys()[k] && strings(
                        r@[k].1@,
                    ) == self.pattern_lists()[k],
            decreases n - i,
        {
            let key = self.patterns.key_at(i).clone();
            let list = copy_strings(self.patterns.value_at(i));
            r.push((key, list));
            i = i + 1;
        }
        r
    }
}

} // verus!
