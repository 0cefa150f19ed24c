//! The parts of command translation that need no language model: the
//! prompts, the command that is read out of a generated text, and the
//! history of failures that later prompts tell of.

use vstd::prelude::*;
use crate::document::{models, ChunkModel, DocumentChunk};
use crate::error::Error;
use crate::generation::RetryConfig;
use crate::learning::{
    best_sorted, suggestion_candidates, CommandLearningEngine, CorrectionKind, CorrectionType,
    RetryStrategy, MAX_SUGGESTIONS,
};
use crate::rag::RAGEngine;
use crate::ratio::Ratio;
use crate::text::{
    chars_contain, chars_eq, chars_of, contains, decimal, extend_chars, joined_by, lines_of,
    matches_at, push_joined, push_str, split_lines, starts_with, string_of, strings, texts,
    trim_chars, trimmed,
};

verus! {

/// The prompt that asks for the translation of a query.
pub open spec fn translation_prompt(query: Seq<char>) -> Seq<char> {
    "Translate to IBM Cloud CLI command:\n\nQuery: "@ + query + "\n\nCommand:"@
}

/// The rules and examples that close a prompt.
pub open spec fn prompt_rules() -> Seq<char> {
    "\n\nRules: Return only the IBM Cloud CLI command, no explanations.\nExamples:\n- databases → ibmcloud resource service-instances --service-name databases-for-postgresql\n- watson services → ibmcloud resource service-instances --service-name watson\n- login → ibmcloud login --sso"@
}

/// The prompt that asks for the translation of `query`.
pub fn base_prompt(query: &str) -> (r: String)
    ensures
        r@ == translation_prompt(query@),
{
    let mut out: Vec<char> = Vec::new();
    push_str(&mut out, "Translate to IBM Cloud CLI command:\n\nQuery: ");
    push_str(&mut out, query);
    push_str(&mut out, "\n\nCommand:");
    string_of(&out)
}

/// The prompt `prompt` with the rules and examples after it.
pub fn with_rules(prompt: &str) -> (r: String)
    ensures
        r@ == prompt@ + prompt_rules(),
{
    let mut out: Vec<char> = Vec::new();
    push_str(&mut out, prompt);
    push_str(
        &mut out,
        "\n\nRules: Return only the IBM Cloud CLI command, no explanations.\nExamples:\n- databases → ibmcloud resource service-instances --service-name databases-for-postgresql\n- watson services → ibmcloud resource service-instances --service-name watson\n- login → ibmcloud login --sso",
    );
    string_of(&out)
}

/// The first of the lines from `k` on that, without surrounding whitespace,
/// starts with `ibmcloud`.
pub open spec fn first_command_line(lines: Seq<Seq<char>>, k: int) -> Option<Seq<char>>
    decreases lines.len() - k,
{
    if k < 0 || k >= lines.len() {
        None
    } else if starts_with(trimmed(lines[k]), "ibmcloud"@) {
        Some(trimmed(lines[k]))
    } else {
        first_command_line(lines, k + 1)
    }
}

/// A line may be a command where it is not empty and is no comment.
pub open spec fn may_be_command(line: Seq<char>) -> bool {
    line.len() > 0 && !starts_with(line, "//"@) && !starts_with(line, "#"@)
}

/// The first of the lines from `k` on that, without surrounding whitespace,
/// may be a command.
pub open spec fn first_likely_line(lines: Seq<Seq<char>>, k: int) -> Option<Seq<char>>
    decreases lines.len() - k,
{
    if k < 0 || k >= lines.len() {
        None
    } else if may_be_command(trimmed(lines[k])) {
        Some(trimmed(lines[k]))
    } else {
        first_likely_line(lines, k + 1)
    }
}

/// The line of a generated text that is taken as the command: the first
/// that starts with `ibmcloud`; without one, the first that may be a
/// command; without one, nothing.
pub open spec fn command_line(text: Seq<char>) -> Seq<char> {
    let lines = lines_of(text);
    match first_command_line(lines, 0) {
        Some(line) => line,
        None => match first_likely_line(lines, 0) {
            Some(line) => line,
            None => Seq::empty(),
        },
    }
}

/// The command as it is run: a line that does not name the program at all
/// gets `ibmcloud` put before it.
pub open spec fn formatted(line: Seq<char>) -> Seq<char> {
    if !starts_with(line, "ibmcloud "@) && line != "ibmcloud"@ && !contains(line, "ibmcloud"@) {
        "ibmcloud "@ + line
    } else {
        line
    }
}

/// What a generated text gives: the command, or the words of the error.
pub open spec fn translated(text: Seq<char>, query: Seq<char>) -> Result<Seq<char>, Seq<char>> {
    let line = command_line(text);
    if line.len() == 0 {
        Err("Unable to generate a valid IBM Cloud command for the query: "@ + query)
    } else if !starts_with(formatted(line), "ibmcloud"@) {
        Err("Generated command does not start with 'ibmcloud': "@ + formatted(line))
    } else {
        Ok(formatted(line))
    }
}

/// The line of a generated text that is taken as the command.
pub fn extract_command_line(text: &str) -> (r: Vec<char>)
    ensures
        r@ == command_line(text@),
{
    let chars = chars_of(text);
    let lines = split_lines(&chars);
    let program = chars_of("ibmcloud");
    let slashes = chars_of("//");
    let hash = chars_of("#");
    let mut k: usize = 0;
    while k < lines.len()
        invariant
            k <= lines.len(),
            program@ == "ibmcloud"@,
            texts(lines@) == lines_of(text@),
            first_command_line(texts(lines@), k as int) == first_command_line(texts(lines@), 0),
        decreases lines.len() - k,
    {
        let t = trim_chars(&lines[k]);
        if matches_at(&t, &program, 0) {
            return t;
        }
        k = k + 1;
    }
    let mut j: usize = 0;
    while j < lines.len()
        invariant
            j <= lines.len(),
            slashes@ == "//"@,
            hash@ == "#"@,
            texts(lines@) == lines_of(text@),
            first_command_line(texts(lines@), 0) is None,
            first_likely_line(texts(lines@), j as int) == first_likely_line(texts(lines@), 0),
        decreases lines.len() - j,
    {
        let t = trim_chars(&lines[j]);
        if t.len() > 0 && !matches_at(&t, &slashes, 0) && !matches_at(&t, &hash, 0) {
            return t;
        }
        j = j + 1;
    }
    Vec::new()
}

/// A line may be a plain command where it may be a command and holds no colon.
pub open spec fn may_be_plain_command(line: Seq<char>) -> bool {
    may_be_command(line) && !contains(line, ":"@)
}

/// The first of the lines from `k` on that, without surrounding whitespace,
/// may be a plain command.
pub open spec fn first_plain_line(lines: Seq<Seq<char>>, k: int) -> Option<Seq<char>>
    decreases lines.len() - k,
{
    if k < 0 || k >= lines.len() {
        None
    } else if may_be_plain_command(trimmed(lines[k])) {
        Some(trimmed(lines[k]))
    } else {
        first_plain_line(lines, k + 1)
    }
}

/// What an answer given with documentation holds as its command: the first
/// line that starts with `ibmcloud`; without one, the first that may be a
/// plain command; without one, the words of the error.
pub open spec fn answered(text: Seq<char>, user_input: Seq<char>) -> Result<Seq<char>, Seq<char>> {
    let lines = lines_of(text);
    match first_command_line(lines, 0) {
        Some(line) => Ok(line),
        None => match first_plain_line(lines, 0) {
            Some(line) => Ok(line),
            None => Err("Unable to generate a valid IBM Cloud command for: "@ + user_input),
        },
    }
}

/// Reads the command out of an answer that was given with documentation.
/// The error tells that no command was found.
pub fn extract_answered_command(response: &str, user_input: &str) -> (r: Result<String, Error>)
    ensures
        match r {
            Ok(c) => answered(response@, user_input@) == Ok::<Seq<char>, Seq<char>>(c@),
            Err(e) => e matches Error::Other(m) && answered(response@, user_input@) == Err::<
                Seq<char>,
                Seq<char>,
            >(m@),
        },
{
    let chars = chars_of(response);
    let lines = split_lines(&chars);
    let program = chars_of("ibmcloud");
    let slashes = chars_of("//");
    let hash = chars_of("#");
    let mut k: usize = 0;
    while k < lines.len()
        invariant
            k <= lines.len(),
            program@ == "ibmcloud"@,
            texts(lines@) == lines_of(response@),
            first_command_line(texts(lines@), k as int) == first_command_line(texts(lines@), 0),
        decreases lines.len() - k,
    {
        let t = trim_chars(&lines[k]);
        if matches_at(&t, &program, 0) {
            return Ok(string_of(&t));
        }
        k = k + 1;
    }
    let mut j: usize = 0;
    while j < lines.len()
        invariant
            j <= lines.len(),
            slashes@ == "//"@,
            hash@ == "#"@,
            texts(lines@) == lines_of(response@),
            first_command_line(texts(lines@), 0) is None,
            first_plain_line(texts(lines@), j as int) == first_plain_line(texts(lines@), 0),
        decreases lines.len() - j,
    {
        let t = trim_chars(&lines[j]);
        if t.len() > 0 && !matches_at(&t, &slashes, 0) && !matches_at(&t, &hash, 0)
            && !chars_contain(&t, ":") {
            return Ok(string_of(&t));
        }
        j = j + 1;
    }
    let mut message: Vec<char> = Vec::new();
    push_str(&mut message, "Unable to generate a valid IBM Cloud command for: ");
    push_str(&mut message, user_input);
    Err(Error::Other(string_of(&message)))
}

/// Reads the command out of a generated text and puts it in the form in
/// which it is run. The error tells that no command was found, or that what
/// was found does not start with the program name.
pub fn validate_and_format_command(result: &str, query: &str) -> (r: Result<String, Error>)
    ensures
        match r {
            Ok(c) => translated(result@, query@) == Ok::<Seq<char>, Seq<char>>(c@),
            Err(e) => e matches Error::Other(m) && translated(result@, query@) == Err::<
                Seq<char>,
                Seq<char>,
            >(m@),
        },
{
    let line = extract_command_line(result);
    if line.len() == 0 {
        let mut message: Vec<char> = Vec::new();
        push_str(&mut message, "Unable to generate a valid IBM Cloud command for the query: ");
        push_str(&mut message, query);
        return Err(Error::Other(string_of(&message)));
    }
    let with_space = chars_of("ibmcloud ");
    let program = chars_of("ibmcloud");
    let command: Vec<char> = if !matches_at(&line, &with_space, 0) && !chars_eq(&line, &program)
        && !chars_contain(&line, "ibmcloud") {
        let mut c: Vec<char> = Vec::new();
        push_str(&mut c, "ibmcloud ");
        extend_chars(&mut c, &line);
        c
    } else {
        line
    };
    if !matches_at(&command, &program, 0) {
        let mut message: Vec<char> = Vec::new();
        push_str(&mut message, "Generated command does not start with 'ibmcloud': ");
        extend_chars(&mut message, &command);
        return Err(Error::Other(string_of(&message)));
    }
    Ok(string_of(&command))
}

/// The most failures that the history keeps.
pub const MAX_FAILURE_HISTORY: usize = 5;

/// The history after one more failure: the failure goes to the end, and the
/// oldest leaves where there are then more than the history keeps.
pub open spec fn history_with(history: Seq<Seq<char>>, failure: Seq<char>) -> Seq<Seq<char>> {
    if history.len() + 1 > MAX_FAILURE_HISTORY {
        history.push(failure).drop_first()
    } else {
        history.push(failure)
    }
}

/// The prompt with which an expert is asked to translate a query.
pub open spec fn expert_prompt(query: Seq<char>) -> Seq<char> {
    "You are an IBM Cloud CLI expert. Translate the following natural language query into a valid IBM Cloud CLI command.\nOnly output the command itself, nothing else.\n\nQuery: "@ + query + "\nCommand:"@
}

/// The prompt with which an expert is asked to translate `query`.
pub fn build_prompt(query: &str) -> (r: String)
    ensures
        r@ == expert_prompt(query@),
{
    let mut out: Vec<char> = Vec::new();
    push_str(
        &mut out,
        "You are an IBM Cloud CLI expert. Translate the following natural language query into a valid IBM Cloud CLI command.\nOnly output the command itself, nothing else.\n\nQuery: ",
    );
    push_str(&mut out, query);
    push_str(&mut out, "\nCommand:");
    string_of(&out)
}

/// The query with which documentation on an error is looked for.
pub fn troubleshooting_query(error_message: &str) -> (r: String)
    ensures
        r@ == "troubleshooting error: "@ + error_message@,
{
    let mut out: Vec<char> = Vec::new();
    push_str(&mut out, "troubleshooting error: ");
    push_str(&mut out, error_message);
    string_of(&out)
}

/// The most documents that a recovery prompt quotes.
pub const MAX_RECOVERY_DOCUMENTS: usize = 2;

/// The first `n` documents, each as an item of a list.
pub open spec fn documentation_items(documents: Seq<ChunkModel>, n: int) -> Seq<Seq<char>> {
    Seq::new(n as nat, |i: int| "- "@ + documents[i].content)
}

/// What a recovery prompt quotes of the documents found: nothing where
/// there are none; else the first two, as a list under a heading.
pub open spec fn recovery_documentation(documents: Seq<ChunkModel>) -> Seq<char> {
    if documents.len() == 0 {
        Seq::empty()
    } else {
        let n = if documents.len() < MAX_RECOVERY_DOCUMENTS {
            documents.len() as int
        } else {
            MAX_RECOVERY_DOCUMENTS as int
        };
        "\n\nRELEVANT DOCUMENTATION:\n"@ + joined_by(documentation_items(documents, n), "\n"@, n)
            + "\n"@
    }
}

/// What a recovery prompt quotes of the documents found.
pub fn relevant_documentation(documents: &Vec<DocumentChunk>) -> (r: String)
    ensures
        r@ == recovery_documentation(models(documents@)),
{
    let mut out: Vec<char> = Vec::new();
    if documents.len() == 0 {
        return string_of(&out);
    }
    let n: usize = if documents.len() < MAX_RECOVERY_DOCUMENTS {
        documents.len()
    } else {
        MAX_RECOVERY_DOCUMENTS
    };
    let mut items: Vec<String> = Vec::new();
    let mut i: usize = 0;
    while i < n
        invariant
            i <= n <= documents.len(),
            items@.len() == i,
            forall|k: int| 0 <= k < i ==> (#[trigger] items@[k])@ == "- "@ + documents@[k].content@,
        decreases n - i,
    {
        let mut item: Vec<char> = Vec::new();
        push_str(&mut item, "- ");
        push_str(&mut item, documents[i].content.as_str());
        items.push(string_of(&item));
        i = i + 1;
    }
    assert(strings(items@) =~= documentation_items(models(documents@), n as int));
    push_str(&mut out, "\n\nRELEVANT DOCUMENTATION:\n");
    push_joined(&mut out, &items, "\n");
    push_str(&mut out, "\n");
    string_of(&out)
}

/// What a recovery prompt asks for, after the failure is described.
pub open spec fn recovery_task() -> Seq<char> {
    "\nYOUR TASK: Provide a clear, actionable solution.\n\nANALYZE THE ERROR:\n- If it says \"Not logged in\" → tell user to run: ibmcloud login\n- If it says \"Plugin not found\" → tell user to run: ibmcloud plugin install <plugin-name>\n- If it says \"command not found\" → provide the correct command syntax\n- If it says \"Resource not found\" → suggest how to list available resources\n- If it says \"Permission denied\" → explain what permissions are needed\n\nRESPONSE FORMAT (be specific and direct):\n\nProblem: [One sentence: what went wrong]\n\nFix: [The exact command(s) to run]\n$ <actual-command-here>\n\nDO NOT:\n- Say \"avoid speculation\"\n- Give generic advice\n- Be vague\n\nDO:\n- Give the EXACT command to run\n- Be specific and actionable\n- Include command examples with $\n\nExample good response:\nProblem: You are not authenticated to IBM Cloud.\n\nFix: Log in to IBM Cloud first:\n$ ibmcloud login\n\nThen retry your original command."@
}

/// The prompt that asks how to recover from a failed command: what the
/// user wanted, the command, the error, the documentation found, and the
/// task.
pub open spec fn recovery_prompt(
    query: Seq<char>,
    failed: Seq<char>,
    error: Seq<char>,
    documentation: Seq<char>,
) -> Seq<char> {
    "You are a cloud CLI expert. A command failed and you must provide the EXACT fix.\n\nUSER WANTED: "@ + query + "\nCOMMAND THAT FAILED: "@ + failed + "\nERROR MESSAGE:\n"@ + error + "\n"@
        + documentation + recovery_task()
}

/// The prompt that asks how to recover from `failed_command`, which was
/// generated for `original_query` and failed with `error_message`.
pub fn suggest_recovery_prompt(
    original_query: &str,
    failed_command: &str,
    error_message: &str,
    documentation: &str,
) -> (r: String)
    ensures
        r@ == recovery_prompt(original_query@, failed_command@, error_message@, documentation@),
{
    let mut out: Vec<char> = Vec::new();
    push_str(&mut out, "You are a cloud CLI expert. A command failed and you must provide the EXACT fix.\n\nUSER WANTED: ");
    push_str(&mut out, original_query);
    push_str(&mut out, "\nCOMMAND THAT FAILED: ");
    push_str(&mut out, failed_command);
    push_str(&mut out, "\nERROR MESSAGE:\n");
    push_str(&mut out, error_message);
    push_str(&mut out, "\n");
    push_str(&mut out, documentation);
    push_str(
        &mut out,
        "\nYOUR TASK: Provide a clear, actionable solution.\n\nANALYZE THE ERROR:\n- If it says \"Not logged in\" → tell user to run: ibmcloud login\n- If it says \"Plugin not found\" → tell user to run: ibmcloud plugin install <plugin-name>\n- If it says \"command not found\" → provide the correct command syntax\n- If it says \"Resource not found\" → suggest how to list available resources\n- If it says \"Permission denied\" → explain what permissions are needed\n\nRESPONSE FORMAT (be specific and direct):\n\nProblem: [One sentence: what went wrong]\n\nFix: [The exact command(s) to run]\n$ <actual-command-here>\n\nDO NOT:\n- Say \"avoid speculation\"\n- Give generic advice\n- Be vague\n\nDO:\n- Give the EXACT command to run\n- Be specific and actionable\n- Include command examples with $\n\nExample good response:\nProblem: You are not authenticated to IBM Cloud.\n\nFix: Log in to IBM Cloud first:\n$ ibmcloud login\n\nThen retry your original command.",
    );
    string_of(&out)
}

/// What closes the prompt of a plain translation, before the query is
/// given once more.
pub open spec fn closing_request() -> Seq<char> {
    "\n\nNow translate this query to an IBM Cloud CLI command:\n"@
}

/// The prompt of a plain translation: the prompt so far, the rules and
/// examples, and the query once more.
pub fn translation_request(prompt: &str, query: &str) -> (r: String)
    ensures
        r@ == prompt@ + prompt_rules() + closing_request() + query@,
{
    let ruled = with_rules(prompt);
    let mut out = chars_of(ruled.as_str());
    push_str(&mut out, "\n\nNow translate this query to an IBM Cloud CLI command:\n");
    push_str(&mut out, query);
    string_of(&out)
}

/// The line that tells of failed attempt number `i`, counted from zero.
pub open spec fn attempt_line(i: nat, error: Seq<char>) -> Seq<char> {
    "Attempt "@ + decimal(i + 1) + ": "@ + error
}

/// The lines that tell of the failed attempts, in order.
pub open spec fn attempt_lines(attempts: Seq<Seq<char>>) -> Seq<Seq<char>> {
    Seq::new(attempts.len(), |i: int| attempt_line(i as nat, attempts[i]))
}

/// What a retry is told of earlier failures: nothing where there were
/// none; else, after an empty line, the failed attempts of this
/// translation, and the remembered failures of executed commands, each
/// under its heading, with an empty line between the two.
pub open spec fn failure_context(attempts: Seq<Seq<char>>, history: Seq<Seq<char>>) -> Seq<char> {
    if attempts.len() == 0 && history.len() == 0 {
        Seq::empty()
    } else {
        "\n\n"@ + (if attempts.len() > 0 {
            "Previous generation attempts failed:\n"@ + joined_by(
                attempt_lines(attempts),
                "\n"@,
                attempts.len() as int,
            )
        } else {
            Seq::empty()
        }) + (if attempts.len() > 0 && history.len() > 0 {
            "\n\n"@
        } else {
            Seq::empty()
        }) + (if history.len() > 0 {
            "Previous command execution feedback:\n"@ + joined_by(
                history,
                "\n"@,
                history.len() as int,
            )
        } else {
            Seq::empty()
        })
    }
}

/// What a retry is told of suggestions: nothing where there are none; else
/// the suggestions, one on a line, under a heading.
pub open spec fn suggestions_context(suggestions: Seq<Seq<char>>) -> Seq<char> {
    if suggestions.len() == 0 {
        Seq::empty()
    } else {
        "\n\nSuggestions based on similar patterns:\n"@ + joined_by(
            suggestions,
            "\n"@,
            suggestions.len() as int,
        )
    }
}

/// The lines that tell of the failed attempts, in order.
fn attempt_line_list(attempts: &Vec<String>) -> (r: Vec<String>)
    ensures
        strings(r@) == attempt_lines(strings(attempts@)),
{
    let mut r: Vec<String> = Vec::new();
    let mut i: usize = 0;
    while i < attempts.len()
        invariant
            i <= attempts.len(),
            r@.len() == i,
            forall|k: int|
                0 <= k < i ==> (#[trigger] r@[k])@ == attempt_line(k as nat, attempts@[k]@),
        decreases attempts.len() - i,
    {
        let mut line: Vec<char> = Vec::new();
        push_str(&mut line, "Attempt ");
        crate::text::push_decimal(&mut line, i + 1);
        push_str(&mut line, ": ");
        push_str(&mut line, attempts[i].as_str());
        r.push(string_of(&line));
        i = i + 1;
    }
    assert(strings(r@) =~= attempt_lines(strings(attempts@)));
    r
}

/// What a retry is told of earlier failures: of the failed `attempts` of
/// this translation and of the remembered failures in `history`.
pub fn describe_failures(attempts: &Vec<String>, history: &Vec<String>) -> (r: String)
    ensures
        r@ == failure_context(strings(attempts@), strings(history@)),
{
    let mut out: Vec<char> = Vec::new();
    if attempts.len() == 0 && history.len() == 0 {
        return string_of(&out);
    }
    push_str(&mut out, "\n\n");
    if attempts.len() > 0 {
        let lines = attempt_line_list(attempts);
        assert(strings(lines@).len() == strings(attempts@).len());
        push_str(&mut out, "Previous generation attempts failed:\n");
        push_joined(&mut out, &lines, "\n");
    }
    let ghost first = out@;
    assert(first =~= "\n\n"@ + (if attempts@.len() > 0 {
        "Previous generation attempts failed:\n"@ + joined_by(
            attempt_lines(strings(attempts@)),
            "\n"@,
            attempts@.len() as int,
        )
    } else {
        Seq::empty()
    }));
    if attempts.len() > 0 && history.len() > 0 {
        push_str(&mut out, "\n\n");
    }
    if history.len() > 0 {
        push_str(&mut out, "Previous command execution feedback:\n");
        push_joined(&mut out, history, "\n");
    }
    assert(out@ =~= failure_context(strings(attempts@), strings(history@)));
    string_of(&out)
}

/// What a retry is told of suggestions.
pub fn describe_suggestions(suggestions: &Vec<String>) -> (r: String)
    ensures
        r@ == suggestions_context(strings(suggestions@)),
{
    let mut out: Vec<char> = Vec::new();
    if suggestions.len() > 0 {
        push_str(&mut out, "\n\nSuggestions based on similar patterns:\n");
        push_joined(&mut out, suggestions, "\n");
    }
    string_of(&out)
}

/// The suggestions that attempt number `attempt` of a translation is given:
/// none for the first attempt, and later what the engine suggests for the
/// query.
pub open spec fn retry_suggestions(
    engine: CommandLearningEngine,
    user_input: Seq<char>,
    attempt: usize,
) -> Seq<Seq<char>> {
    if attempt > 1 {
        best_sorted(
            suggestion_candidates(
                engine.records(),
                engine.pattern_keys(),
                engine.pattern_lists(),
                user_input,
            ),
            MAX_SUGGESTIONS as nat,
        )
    } else {
        Seq::empty()
    }
}

/// The translator's memory and settings: the learning engine, the recent
/// failures, the retrieval engine where there is one, and how generation
/// is retried.
pub struct CommandTranslator {
    pub learning_engine: CommandLearningEngine,
    pub failure_history: Vec<String>,
    pub rag_engine: Option<RAGEngine>,
    pub rag_enabled: bool,
    pub retry_config: RetryConfig,
}

impl CommandTranslator {
    /// The translator's parts are in order.
    pub open spec fn well_formed(&self) -> bool {
        &&& self.learning_engine.well_formed()
        &&& match self.rag_engine {
            Some(engine) => engine.store.well_formed(),
            None => true,
        }
    }

    /// Retrieval takes part in the prompts: it is switched on, and there
    /// is an engine.
    pub open spec fn retrieves(&self) -> bool {
        self.rag_enabled && self.rag_engine is Some
    }

    /// A translator without retrieval that has learned nothing and
    /// remembers no failure.
    pub fn new() -> (t: Self)
        ensures
            t.well_formed(),
            t.learning_engine.is_fresh(),
            t.learning_engine.records().len() == 0,
            t.failure_history@.len() == 0,
            t.rag_engine is None,
            !t.rag_enabled,
            t.retry_config.max_attempts == 3,
            t.retry_config.base_timeout_secs == 30,
            t.retry_config.enable_progressive_prompts,
            t.retry_config.quality_threshold == (Ratio { num: 7, den: 10 }),
    {
        CommandTranslator {
            learning_engine: CommandLearningEngine::new(),
            failure_history: Vec::new(),
            rag_engine: None,
            rag_enabled: false,
            retry_config: RetryConfig::default(),
        }
    }

    /// A translator with retrieval over `rag_engine`, switched on.
    pub fn with_rag(rag_engine: RAGEngine) -> (t: Self)
        requires
            rag_engine.store.well_formed(),
        ensures
            t.well_formed(),
            t.learning_engine.is_fresh(),
            t.learning_engine.records().len() == 0,
            t.failure_history@.len() == 0,
            t.rag_engine == Some(rag_engine),
            t.rag_enabled,
            t.retry_config.max_attempts == 3,
            t.retry_config.base_timeout_secs == 30,
            t.retry_config.enable_progressive_prompts,
            t.retry_config.quality_threshold == (Ratio { num: 7, den: 10 }),
    {
        CommandTranslator {
            learning_engine: CommandLearningEngine::new(),
            failure_history: Vec::new(),
            rag_engine: Some(rag_engine),
            rag_enabled: true,
            retry_config: RetryConfig::default(),
        }
    }

    /// Switches retrieval on or off; it stays off where there is no engine.
    pub fn set_rag_enabled(&mut self, enabled: bool)
        ensures
            final(self).rag_enabled == (enabled && old(self).rag_engine is Some),
            final(self).rag_engine == old(self).rag_engine,
            final(self).learning_engine == old(self).learning_engine,
            final(self).failure_history == old(self).failure_history,
            final(self).retry_config == old(self).retry_config,
    {
        self.rag_enabled = enabled && self.rag_engine.is_some();
    }

    /// Replaces the way generation is retried.
    pub fn set_retry_config(&mut self, config: RetryConfig)
        ensures
            final(self).retry_config == config,
            final(self).rag_enabled == old(self).rag_enabled,
            final(self).rag_engine == old(self).rag_engine,
            final(self).learning_engine == old(self).learning_engine,
            final(self).failure_history == old(self).failure_history,
    {
        self.retry_config = config;
    }

    /// The prompt from which generation with feedback starts: with
    /// retrieval, what the engine makes of the translation prompt; without,
    /// the translation prompt with the rules and examples.
    pub open spec fn base_prompt_for(&self, query: Seq<char>) -> Seq<char> {
        if self.retrieves() {
            self.rag_engine->Some_0.enhanced(translation_prompt(query), query)
        } else {
            translation_prompt(query) + prompt_rules()
        }
    }

    /// The prompt from which generation with feedback starts.
    pub fn prepare_base_prompt(&self, query: &str) -> (r: String)
        requires
            self.well_formed(),
        ensures
            r@ == self.base_prompt_for(query@),
    {
        let base = base_prompt(query);
        if self.rag_enabled {
            match &self.rag_engine {
                Some(engine) => {
                    return engine.enhance_prompt(base.as_str(), query);
                },
                None => {},
            }
        }
        with_rules(base.as_str())
    }

    /// The prompt of a plain translation: the translation prompt, passed
    /// through the retrieval engine where retrieval takes part, then the
    /// rules and examples, and the query once more.
    pub open spec fn request_for(&self, query: Seq<char>) -> Seq<char> {
        (if self.retrieves() {
            self.rag_engine->Some_0.enhanced(translation_prompt(query), query)
        } else {
            translation_prompt(query)
        }) + prompt_rules() + closing_request() + query
    }

    /// The prompt of a plain translation of `query`.
    pub fn translation_prompt_for(&self, query: &str) -> (r: String)
        requires
            self.well_formed(),
        ensures
            r@ == self.request_for(query@),
    {
        let base = base_prompt(query);
        let enhanced = if self.rag_enabled {
            match &self.rag_engine {
                Some(engine) => engine.enhance_prompt(base.as_str(), query),
                None => base,
            }
        } else {
            base
        };
        translation_request(enhanced.as_str(), query)
    }

    /// The success rate of `command`.
    pub fn get_command_success_rate(&self, command: &str) -> (r: Ratio)
        requires
            self.learning_engine.well_formed(),
        ensures
            r == (Ratio { num: self.learning_engine.rate_percent(command@) as u64, den: 100 }),
            r.unit(),
    {
        self.learning_engine.get_success_rate(command)
    }

    /// Up to five suggestions for a retry of `command`, which failed with
    /// `error_message`.
    pub fn get_intelligent_retry_suggestions(
        &self,
        command: &str,
        error_message: &str,
        attempt_count: u32,
    ) -> (r: Vec<String>)
        ensures
            strings(r@) == self.learning_engine.retry_suggestions(
                command@,
                error_message@,
                attempt_count,
            ),
    {
        self.learning_engine.get_retry_suggestions(command, error_message, attempt_count)
    }

    /// The retry strategy for a failure of `command` with `error_message`.
    pub fn analyze_command_failure(&self, command: &str, error_message: &str) -> (r: Option<
        RetryStrategy,
    >)
        ensures
            r == Some(
                crate::learning::failure_strategy(
                    self.learning_engine.retry_table(),
                    self.learning_engine.error_pattern_texts(),
                    error_message@,
                ),
            ),
    {
        self.learning_engine.analyze_failure_pattern(error_message, command)
    }

    /// Moves the success rate of `command` by a tenth, up after a success
    /// and down after a failure.
    pub fn update_command_success(&mut self, command: &str, was_successful: bool)
        requires
            old(self).learning_engine.well_formed(),
        ensures
            final(self).learning_engine.well_formed(),
            final(self).learning_engine.rate_percent(command@) == crate::learning::nudged(
                old(self).learning_engine.rate_percent(command@),
                was_successful,
            ),
            forall|c: Seq<char>|
                c != command@ ==> final(self).learning_engine.rate_percent(c) == old(
                    self,
                ).learning_engine.rate_percent(c),
            final(self).learning_engine.records() == old(self).learning_engine.records(),
            final(self).failure_history == old(self).failure_history,
            final(self).rag_engine == old(self).rag_engine,
            final(self).rag_enabled == old(self).rag_enabled,
    {
        self.learning_engine.update_success_metrics(command, was_successful);
    }

    /// Notes that `command`, which was generated for `user_input`, failed
    /// with `error_message`: the message joins the history, and the failure
    /// is recorded in the learning engine, without a correct command.
    pub fn add_execution_feedback(&mut self, command: &str, error_message: &str, user_input: &str)
        requires
            old(self).learning_engine.well_formed(),
        ensures
            final(self).learning_engine.well_formed(),
            final(self).rag_engine == old(self).rag_engine,
            final(self).rag_enabled == old(self).rag_enabled,
            strings(final(self).failure_history@) == history_with(
                strings(old(self).failure_history@),
                error_message@,
            ),
            final(self).learning_engine.records().len() == old(self).learning_engine.records().len()
                + 1,
            ({
                let last = final(self).learning_engine.records().last();
                &&& last.original_query == user_input@
                &&& last.incorrect_command == command@
                &&& last.correct_command == Seq::<char>::empty()
                &&& last.error_message == Some(error_message@)
                &&& last.correction_type == CorrectionKind::Other("ExecutionError"@)
            }),
    {
        self.failure_history.push(error_message.to_owned());
        if self.failure_history.len() > MAX_FAILURE_HISTORY {
            self.failure_history.remove(0);
        }
        self.learning_engine.add_correction(
            user_input,
            command,
            "",
            Some(error_message),
            CorrectionType::Other("ExecutionError".to_owned()),
        );
        proof {
            reveal_strlit("");
        }
    }

    /// The query that attempt number `attempt` of a translation sends:
    /// the user's words, then what is known of earlier failures, then the
    /// suggestions of the learning engine, which come from the second attempt on.
    pub open spec fn retry_text(
        &self,
        user_input: Seq<char>,
        attempts: Seq<Seq<char>>,
        attempt: usize,
    ) -> Seq<char> {
        user_input + failure_context(attempts, strings(self.failure_history@))
            + suggestions_context(retry_suggestions(self.learning_engine, user_input, attempt))
    }

    /// The query that attempt number `attempt` of a translation sends,
    /// after the failed `attempts`.
    pub fn retry_query(
        &self,
        user_input: &str,
        attempts: &Vec<String>,
        attempt: usize,
        last_error: Option<&str>,
    ) -> (r: String)
        ensures
            r@ == self.retry_text(user_input@, strings(attempts@), attempt),
    {
        let failures = describe_failures(attempts, &self.failure_history);
        let suggestions: Vec<String> = if attempt > 1 {
            self.learning_engine.get_suggestions(user_input, last_error)
        } else {
            Vec::new()
        };
        assert(strings(suggestions@) =~= retry_suggestions(
            self.learning_engine,
            user_input@,
            attempt,
        ));
        let suggested = describe_suggestions(&suggestions);
        let mut out = chars_of(user_input);
        push_str(&mut out, failures.as_str());
        push_str(&mut out, suggested.as_str());
        string_of(&out)
    }

    /// Notes that a translation of `user_input` failed with
    /// `error_message`: the failure is recorded in the learning engine,
    /// without commands.
    pub fn record_translation_failure(&mut self, user_input: &str, error_message: &str)
        requires
            old(self).learning_engine.well_formed(),
        ensures
            final(self).learning_engine.well_formed(),
            final(self).failure_history == old(self).failure_history,
            final(self).rag_engine == old(self).rag_engine,
            final(self).rag_enabled == old(self).rag_enabled,
            final(self).learning_engine.records().drop_last() == old(
                self,
            ).learning_engine.records(),
            ({
                let last = final(self).learning_engine.records().last();
                &&& final(self).learning_engine.records().len() == old(
                    self,
                ).learning_engine.records().len() + 1
                &&& last.original_query == user_input@
                &&& last.incorrect_command == Seq::<char>::empty()
                &&& last.correct_command == Seq::<char>::empty()
                &&& last.error_message == Some(error_message@)
                &&& last.correction_type == CorrectionKind::Other("TranslationError"@)
            }),
    {
        self.learning_engine.add_correction(
            user_input,
            "",
            "",
            Some(error_message),
            CorrectionType::Other("TranslationError".to_owned()),
        );
        proof {
            reveal_strlit("");
            assert(self.learning_engine.records().drop_last() =~= old(
                self,
            ).learning_engine.records());
        }
    }

    /// Forgets the failures.
    pub fn clear_failure_history(&mut self)
        ensures
            final(self).failure_history@.len() == 0,
            final(self).learning_engine == old(self).learning_engine,
            final(self).rag_engine == old(self).rag_engine,
            final(self).rag_enabled == old(self).rag_enabled,
    {
        self.failure_history.clear();
    }
}

/// What a translation that learns from its failures does next.
#[derive(Debug)]
pub enum TranslationStep {
    /// Translate this query, and hand back the command or the words of
    /// the error.
    Translate(String),
    /// The translation is over, with this command.
    Done(String),
    /// The translation is over, without a command, for this reason.
    Failed(String),
}

/// A translation that learns from its failures, between two attempts.
pub struct LearningTranslation {
    user_input: String,
    max_attempts: usize,
    attempt: usize,
    errors: Vec<String>,
    done: bool,
}

/// What is said where no attempt is allowed.
pub open spec fn no_attempts_message() -> Seq<char> {
    "Max attempts reached"@
}

impl LearningTranslation {
    /// The user's words.
    pub closed spec fn query(&self) -> Seq<char> {
        self.user_input@
    }

    /// The most attempts that are made.
    pub closed spec fn limit(&self) -> usize {
        self.max_attempts
    }

    /// The number of the attempt that was made last.
    pub closed spec fn attempt(&self) -> usize {
        self.attempt
    }

    /// The errors of the attempts that failed, in order.
    pub closed spec fn errors(&self) -> Seq<Seq<char>> {
        strings(self.errors@)
    }

    /// Whether the translation is over.
    pub closed spec fn finished(&self) -> bool {
        self.done
    }

    /// While the translation goes on, an attempt has been made, no more
    /// than allowed, and every attempt before it has failed.
    pub closed spec fn well_formed(&self) -> bool {
        !self.done ==> 1 <= self.attempt <= self.max_attempts && self.errors@.len() + 1
            == self.attempt
    }
}

impl CommandTranslator {
    /// Begins a translation of `user_input` with at most `max_attempts`
    /// attempts. The step is the first query, or a failure where no attempt
    /// is allowed.
    pub fn start_learning_translation(&self, user_input: &str, max_attempts: usize) -> (r: (
        LearningTranslation,
        TranslationStep,
    ))
        ensures
            r.0.well_formed(),
            r.0.query() == user_input@,
            r.0.limit() == max_attempts,
            r.0.errors() == Seq::<Seq<char>>::empty(),
            r.0.finished() == (max_attempts == 0),
            max_attempts == 0 ==> (r.1 matches TranslationStep::Failed(m) && m@
                == no_attempts_message()),
            max_attempts > 0 ==> r.0.attempt() == 1 && (r.1 matches TranslationStep::Translate(q)
                && q@ == self.retry_text(user_input@, Seq::empty(), 1)),
    {
        let none = max_attempts == 0;
        let state = LearningTranslation {
            user_input: user_input.to_owned(),
            max_attempts,
            attempt: if none {
                0
            } else {
                1
            },
            errors: Vec::new(),
            done: none,
        };
        assert(strings(state.errors@) =~= Seq::<Seq<char>>::empty());
        if none {
            (state, TranslationStep::Failed("Max attempts reached".to_owned()))
        } else {
            let q = self.retry_query(user_input, &state.errors, 1, None);
            (state, TranslationStep::Translate(q))
        }
    }

    /// Takes the outcome of the attempt that was made last, a command or
    /// the words of an error, and decides the next step.
    ///
    /// A command ends the translation. An error is recorded in the learning
    /// engine; after the last allowed attempt it ends the translation, and
    /// else the next query follows, which tells of all errors so far. Once
    /// the translation is over, every outcome gives a failure.
    pub fn advance_learning_translation(
        &mut self,
        state: &mut LearningTranslation,
        outcome: Result<String, String>,
    ) -> (step: TranslationStep)
        requires
            old(self).learning_engine.well_formed(),
            old(state).well_formed(),
        ensures
            final(self).learning_engine.well_formed(),
            final(self).failure_history == old(self).failure_history,
            final(self).rag_engine == old(self).rag_engine,
            final(self).rag_enabled == old(self).rag_enabled,
            final(state).well_formed(),
            final(state).query() == old(state).query(),
            final(state).limit() == old(state).limit(),
            old(state).finished() ==> ({
                &&& final(state).finished()
                &&& final(self).learning_engine == old(self).learning_engine
                &&& step matches TranslationStep::Failed(m) && m@ == no_attempts_message()
            }),
            !old(state).finished() ==> ({
                let before = *old(state);
                let after = *final(state);
                let translator = *final(self);
                let engine = translator.learning_engine;
                match outcome {
                    Ok(command) => {
                        &&& after.finished()
                        &&& engine == old(self).learning_engine
                        &&& step == TranslationStep::Done(command)
                    },
                    Err(message) => {
                        &&& after.errors() == before.errors().push(message@)
                        &&& engine.records().len() == old(self).learning_engine.records().len() + 1
                        &&& engine.records().drop_last() == old(self).learning_engine.records()
                        &&& engine.records().last().original_query == before.query()
                        &&& engine.records().last().error_message == Some(message@)
                        &&& engine.records().last().correction_type == CorrectionKind::Other(
                            "TranslationError"@,
                        )
                        &&& if before.attempt() == before.limit() {
                            after.finished() && step == TranslationStep::Failed(message)
                        } else {
                            !after.finished() && after.attempt() == before.attempt() + 1 && (
                            step matches TranslationStep::Translate(q) && q@
                                == translator.retry_text(
                                before.query(),
                                after.errors(),
                                after.attempt(),
                            ))
                        }
                    },
                }
            }),
    {
        if state.done {
            return TranslationStep::Failed("Max attempts reached".to_owned());
        }
        match outcome {
            Ok(command) => {
                state.done = true;
                TranslationStep::Done(command)
            },
            Err(message) => {
                let ghost told = strings(state.errors@);
                state.errors.push(message.clone());
                assert(strings(state.errors@) =~= told.push(message@));
                self.record_translation_failure(state.user_input.as_str(), message.as_str());
                if state.attempt == state.max_attempts {
                    state.done = true;
                    TranslationStep::Failed(message)
                } else {
                    state.attempt = state.attempt + 1;
                    let q = self.retry_query(
                        state.user_input.as_str(),
                        &state.errors,
                        state.attempt,
                        Some(message.as_str()),
                    );
                    TranslationStep::Translate(q)
                }
            },
        }
    }
}

} // verus!
