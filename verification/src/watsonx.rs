//! What the language-model client needs that involves no network:
//! its configuration, the prompt that tells of earlier failures, and the
//! quality of a generated command.

use vstd::prelude::*;
use crate::error::Error;
use crate::ratio::Ratio;
use crate::text::{
    chars_contain, chars_eq, chars_of, contains, decimal, find_chars, find_from, lines_of,
    matches_at, push_decimal, push_str, slice_of, split_lines, starts_with, string_of, strings,
    texts, trim_chars, trimmed,
};

verus! {

/// The model that requests go to unless another is chosen.
pub const GRANITE_4_H_SMALL: &'static str = "ibm/granite-4-h-small";

/// The instruction-following model with eight billion parameters.
pub const GRANITE_3_3_8B_INSTRUCT: &'static str = "ibm/granite-3-3-8b-instruct";

/// The first of two settings that is set.
pub open spec fn first_set(first: Option<String>, second: Option<String>) -> Option<String> {
    match first {
        Some(v) => Some(v),
        None => second,
    }
}

/// The configuration of the WatsonX client.
#[derive(Debug)]
pub struct WatsonxConfig {
    pub api_key: String,
    pub project_id: String,
    pub iam_url: String,
    pub api_url: String,
}

impl WatsonxConfig {
    /// The configuration with the given key and project and the default
    /// addresses of the services.
    pub fn new(api_key: String, project_id: String) -> (c: Self)
        ensures
            c.api_key == api_key,
            c.project_id == project_id,
            c.iam_url@ == "iam.cloud.ibm.com"@,
            c.api_url@ == "https://us-south.ml.cloud.ibm.com"@,
    {
        WatsonxConfig {
            api_key,
            project_id,
            iam_url: "iam.cloud.ibm.com".to_owned(),
            api_url: "https://us-south.ml.cloud.ibm.com".to_owned(),
        }
    }

    /// The configuration that the settings of the environment give. The
    /// key and the project each have a second setting that is used where the
    /// first is not set; without both, a configuration error tells which are
    /// wanted. The addresses of the services have defaults.
    pub fn from_settings(
        api_key: Option<String>,
        other_api_key: Option<String>,
        project_id: Option<String>,
        other_project_id: Option<String>,
        iam_url: Option<String>,
        api_url: Option<String>,
    ) -> (r: Result<Self, Error>)
        ensures
            match r {
                Ok(c) => {
                    &&& first_set(api_key, other_api_key) == Some(c.api_key)
                    &&& first_set(project_id, other_project_id) == Some(c.project_id)
                    &&& c.iam_url@ == (match iam_url {
                        Some(u) => u@,
                        None => "iam.cloud.ibm.com"@,
                    })
                    &&& c.api_url@ == (match api_url {
                        Some(u) => u@,
                        None => "https://us-south.ml.cloud.ibm.com"@,
                    })
                },
                Err(e) => e matches Error::Configuration(m) && (if first_set(
                    api_key,
                    other_api_key,
                ) is None {
                    m@ == "WATSONX_API_KEY or API_KEY environment variable not found"@
                } else {
                    first_set(project_id, other_project_id) is None && m@
                        == "WATSONX_PROJECT_ID or PROJECT_ID environment variable not found"@
                }),
            },
    {
        let key = match api_key {
            Some(k) => k,
            None => match other_api_key {
                Some(k) => k,
                None => {
                    return Err(
                        Error::Configuration(
                            "WATSONX_API_KEY or API_KEY environment variable not found".to_owned(),
                        ),
                    );
                },
            },
        };
        let project = match project_id {
            Some(p) => p,
            None => match other_project_id {
                Some(p) => p,
                None => {
                    return Err(
                        Error::Configuration(
                            "WATSONX_PROJECT_ID or PROJECT_ID environment variable not found".to_owned(),
                        ),
                    );
                },
            },
        };
        Ok(
            WatsonxConfig {
                api_key: key,
                project_id: project,
                iam_url: match iam_url {
                    Some(u) => u,
                    None => "iam.cloud.ibm.com".to_owned(),
                },
                api_url: match api_url {
                    Some(u) => u,
                    None => "https://us-south.ml.cloud.ibm.com".to_owned(),
                },
            },
        )
    }
}

/// The address at which an access token is asked for.
pub fn token_url(iam_url: &str) -> (r: String)
    ensures
        r@ == "https://"@ + iam_url@ + "/identity/token"@,
{
    let mut out: Vec<char> = Vec::new();
    push_str(&mut out, "https://");
    push_str(&mut out, iam_url);
    push_str(&mut out, "/identity/token");
    string_of(&out)
}

/// The address at which text is generated.
pub fn generation_url(api_url: &str) -> (r: String)
    ensures
        r@ == api_url@ + "/ml/v1/text/generation_stream?version=2023-05-29"@,
{
    let mut out: Vec<char> = Vec::new();
    push_str(&mut out, api_url);
    push_str(&mut out, "/ml/v1/text/generation_stream?version=2023-05-29");
    string_of(&out)
}

/// What authorizes a request that carries the access token `token`.
pub fn bearer(token: &str) -> (r: String)
    ensures
        r@ == "Bearer "@ + token@,
{
    let mut out: Vec<char> = Vec::new();
    push_str(&mut out, "Bearer ");
    push_str(&mut out, token);
    string_of(&out)
}

/// Where generation stops: at the start of the next turn of a dialogue.
pub fn stop_sequences() -> (r: Vec<String>)
    ensures
        strings(r@) == seq!["Human:"@, "Assistant:"@, "Query:"@],
{
    let mut r: Vec<String> = Vec::new();
    r.push("Human:".to_owned());
    r.push("Assistant:".to_owned());
    r.push("Query:".to_owned());
    assert(strings(r@) =~= seq!["Human:"@, "Assistant:"@, "Query:"@]);
    r
}

/// The error of a request that the service turned down with the status
/// `status` and the words `body`.
pub fn request_failed(status: &str, body: &str) -> (e: Error)
    ensures
        e matches Error::LLMProvider(m) && m@ == "WatsonX API request failed with status "@
            + status@ + ": "@ + body@,
{
    let mut out: Vec<char> = Vec::new();
    push_str(&mut out, "WatsonX API request failed with status ");
    push_str(&mut out, status);
    push_str(&mut out, ": ");
    push_str(&mut out, body);
    Error::LLMProvider(string_of(&out))
}

/// The first `n` pieces of generated text put together, without those
/// that hold nothing but whitespace.
pub open spec fn collected(pieces: Seq<Seq<char>>, n: int) -> Seq<char>
    decreases n,
{
    if n <= 0 {
        Seq::empty()
    } else if trimmed(pieces[n - 1]).len() == 0 {
        collected(pieces, n - 1)
    } else {
        collected(pieces, n - 1) + pieces[n - 1]
    }
}

/// The pieces of generated text put together, without those that hold
/// nothing but whitespace.
pub fn collect_answer(pieces: &Vec<String>) -> (r: String)
    ensures
        r@ == collected(strings(pieces@), pieces@.len() as int),
{
    let mut out: Vec<char> = Vec::new();
    let mut i: usize = 0;
    while i < pieces.len()
        invariant
            i <= pieces.len(),
            out@ == collected(strings(pieces@), i as int),
        decreases pieces.len() - i,
    {
        let piece = chars_of(pieces[i].as_str());
        let t = trim_chars(&piece);
        if t.len() > 0 {
            crate::text::extend_chars(&mut out, &piece);
        }
        i = i + 1;
    }
    string_of(&out)
}

/// The numbered list of the first `n` failures, one line each.
pub open spec fn failure_lines(failures: Seq<Seq<char>>, n: int) -> Seq<char>
    decreases n,
{
    if n <= 0 {
        Seq::empty()
    } else {
        failure_lines(failures, n - 1) + decimal(n as nat) + ". "@ + failures[n - 1] + "\n"@
    }
}

/// The advice that closes the prompt, which grows more urgent with the
/// number of the attempt.
pub open spec fn attempt_advice(attempt_number: u32) -> Seq<char> {
    if attempt_number == 1 {
        "\nPlease generate a more specific and accurate cloud CLI command."@
    } else if attempt_number == 2 {
        "\nIMPORTANT: The previous command failed. Please:\n"@ + "- Check command syntax carefully\n"@
            + "- Verify subcommand names\n"@ + "- Ensure proper parameter format\n"@
            + "- Consider if plugins are required\n"@
    } else {
        "\nCRITICAL: Multiple attempts failed. Please:\n"@ + "- Use only well-established CLI commands\n"@
            + "- Avoid deprecated or experimental features\n"@ + "- Consider alternative approaches\n"@
            + "- Focus on core cloud services\n"@
    }
}

/// The prompt that tells of earlier failures: the prompt as it is where
/// there were none; else the prompt, the list of the failures, and advice.
pub open spec fn feedback_prompt(base: Seq<char>, failures: Seq<Seq<char>>, attempt_number: u32) -> Seq<
    char,
> {
    if failures.len() == 0 {
        base
    } else {
        base + "\n\nPREVIOUS ATTEMPTS FAILED WITH THESE ERRORS:\n"@ + failure_lines(
            failures,
            failures.len() as int,
        ) + attempt_advice(attempt_number)
    }
}

/// The prompt that tells of earlier failures.
pub fn enhance_prompt_with_feedback(
    base_prompt: &str,
    previous_failures: &Vec<String>,
    attempt_number: u32,
) -> (r: String)
    ensures
        r@ == feedback_prompt(base_prompt@, strings(previous_failures@), attempt_number),
{
    if previous_failures.len() == 0 {
        return base_prompt.to_owned();
    }
    let ghost failures = strings(previous_failures@);
    let mut out: Vec<char> = Vec::new();
    push_str(&mut out, base_prompt);
    push_str(&mut out, "\n\nPREVIOUS ATTEMPTS FAILED WITH THESE ERRORS:\n");
    let ghost head = out@;
    let mut i: usize = 0;
    while i < previous_failures.len()
        invariant
            i <= previous_failures.len(),
            failures == strings(previous_failures@),
            out@ == head + failure_lines(failures, i as int),
        decreases previous_failures.len() - i,
    {
        push_decimal(&mut out, i + 1);
        push_str(&mut out, ". ");
        push_str(&mut out, previous_failures[i].as_str());
        push_str(&mut out, "\n");
        i = i + 1;
    }
    if attempt_number == 1 {
        push_str(&mut out, "\nPlease generate a more specific and accurate cloud CLI command.");
    } else if attempt_number == 2 {
        push_str(&mut out, "\nIMPORTANT: The previous command failed. Please:\n");
        push_str(&mut out, "- Check command syntax carefully\n");
        push_str(&mut out, "- Verify subcommand names\n");
        push_str(&mut out, "- Ensure proper parameter format\n");
        push_str(&mut out, "- Consider if plugins are required\n");
    } else {
        push_str(&mut out, "\nCRITICAL: Multiple attempts failed. Please:\n");
        push_str(&mut out, "- Use only well-established CLI commands\n");
        push_str(&mut out, "- Avoid deprecated or experimental features\n");
        push_str(&mut out, "- Consider alternative approaches\n");
        push_str(&mut out, "- Focus on core cloud services\n");
    }
    string_of(&out)
}

/// A generated text must be shorter than this.
pub const MAX_GENERATED_CHARS: usize = 200;

/// The text, without surrounding whitespace, starts with the name of the
/// program of a supported provider.
pub open spec fn starts_with_cli(text: Seq<char>) -> bool {
    let t = trimmed(text);
    starts_with(t, "ibmcloud"@) || starts_with(t, "aws"@) || starts_with(t, "gcloud"@)
        || starts_with(t, "az"@) || starts_with(t, "govc"@)
}

/// The text holds a word that is common in cloud commands.
pub open spec fn has_cli_pattern(text: Seq<char>) -> bool {
    crate::quality::has_common_pattern(text) || contains(text, "list"@) || contains(
        text,
        "describe"@,
    ) || contains(text, "get"@)
}

/// The points out of a hundred that a generated text wins: thirty for the
/// start, twenty for the length, twenty for a common word, fifteen for no
/// sign of an error, and fifteen for a single line.
pub open spec fn generation_points(text: Seq<char>) -> nat {
    (if starts_with_cli(text) {
        30nat
    } else {
        0
    }) + (if crate::quality::MIN_COMMAND_CHARS < trimmed(text).len() < MAX_GENERATED_CHARS {
        20nat
    } else {
        0
    }) + (if has_cli_pattern(text) {
        20nat
    } else {
        0
    }) + (if !crate::quality::has_error_indicator(text) {
        15nat
    } else {
        0
    }) + (if crate::quality::line_count(text) == 1 {
        15nat
    } else {
        0
    })
}

/// The quality of a generated text as a command, between zero and one.
pub fn assess_quality(text: &str, _prompt: &str) -> (r: Ratio)
    ensures
        r == (Ratio { num: generation_points(text@) as u64, den: 100 }),
        r.unit(),
{
    let chars = chars_of(text);
    let t = trim_chars(&chars);
    let mut score: u64 = 0;
    let ibmcloud = chars_of("ibmcloud");
    let aws = chars_of("aws");
    let gcloud = chars_of("gcloud");
    let az = chars_of("az");
    let govc = chars_of("govc");
    if matches_at(&t, &ibmcloud, 0) || matches_at(&t, &aws, 0) || matches_at(&t, &gcloud, 0)
        || matches_at(&t, &az, 0) || matches_at(&t, &govc, 0) {
        score = score + 30;
    }
    if t.len() > crate::quality::MIN_COMMAND_CHARS && t.len() < MAX_GENERATED_CHARS {
        score = score + 20;
    }
    if crate::quality::holds_common_pattern(&chars) || chars_contain(&chars, "list")
        || chars_contain(&chars, "describe") || chars_contain(&chars, "get") {
        score = score + 20;
    }
    if !crate::quality::holds_error_indicator(text) {
        score = score + 15;
    }
    if crate::quality::count_lines(&chars) == 1 {
        score = score + 15;
    }
    Ratio { num: score, den: 100 }
}

/// What a line of a streamed response carries: what follows `data: `,
/// unless that is blank or the closing mark `[DONE]`; nothing for every
/// other line.
pub open spec fn data_of(line: Seq<char>) -> Option<Seq<char>> {
    if starts_with(line, "data: "@) {
        let data = line.subrange("data: "@.len() as int, line.len() as int);
        if trimmed(data).len() == 0 || trimmed(data) == "[DONE]"@ {
            None
        } else {
            Some(data)
        }
    } else {
        None
    }
}

/// What the first `n` lines of a streamed response carry, in order.
pub open spec fn stream_payloads(lines: Seq<Seq<char>>, n: int) -> Seq<Seq<char>>
    decreases n,
{
    if n <= 0 {
        Seq::empty()
    } else {
        match data_of(lines[n - 1]) {
            Some(d) => stream_payloads(lines, n - 1).push(d),
            None => stream_payloads(lines, n - 1),
        }
    }
}

/// The pieces of data in a streamed response, each a document of its own.
pub fn stream_data(response_text: &str) -> (r: Vec<String>)
    ensures
        strings(r@) == stream_payloads(lines_of(response_text@), lines_of(response_text@).len() as int),
{
    let chars = chars_of(response_text);
    let lines = split_lines(&chars);
    let prefix = chars_of("data: ");
    let done = chars_of("[DONE]");
    let mut r: Vec<String> = Vec::new();
    let mut i: usize = 0;
    while i < lines.len()
        invariant
            i <= lines.len(),
            prefix@ == "data: "@,
            done@ == "[DONE]"@,
            strings(r@) == stream_payloads(texts(lines@), i as int),
        decreases lines.len() - i,
    {
        let line = &lines[i];
        if matches_at(line, &prefix, 0) {
            let data = slice_of(line, prefix.len(), line.len());
            let t = trim_chars(&data);
            if t.len() > 0 && !chars_eq(&t, &done) {
                r.push(string_of(&data));
            }
        }
        i = i + 1;
    }
    r
}

/// The text without the label `Answer:` at its start.
pub open spec fn without_label(s: Seq<char>) -> Seq<char> {
    if starts_with(s, "Answer:"@) {
        trimmed(s.subrange("Answer:"@.len() as int, s.len() as int))
    } else {
        s
    }
}

/// The text up to the first `Query:`, which begins what the model made up
/// beyond its answer.
pub open spec fn before_query(s: Seq<char>) -> Seq<char> {
    match find_from(s, "Query:"@, 0) {
        Some(p) => trimmed(s.subrange(0, p)),
        None => s,
    }
}

/// The first line of a text, without surrounding whitespace.
pub open spec fn first_line(s: Seq<char>) -> Seq<char> {
    if lines_of(s).len() > 0 {
        trimmed(lines_of(s)[0])
    } else {
        trimmed(s)
    }
}

/// The answer in a generated text: the first line of what stands between
/// the label `Answer:`, if any, and the first `Query:`, if any.
pub open spec fn cleaned_answer(answer: Seq<char>) -> Seq<char> {
    first_line(before_query(without_label(trimmed(answer))))
}

/// What is said of a response without an answer.
pub open spec fn empty_response_message(raw: Seq<char>) -> Seq<char> {
    "Empty response from WatsonX API. Raw response: "@ + raw
}

/// The answer in the text `answer` that was put together from the response
/// `raw_response`. A blank text is an error that quotes the response.
pub fn clean_answer(answer: &str, raw_response: &str) -> (r: Result<String, Error>)
    ensures
        match r {
            Ok(a) => trimmed(answer@).len() > 0 && a@ == cleaned_answer(answer@),
            Err(e) => trimmed(answer@).len() == 0 && (e matches Error::LLMProvider(m) && m@
                == empty_response_message(raw_response@)),
        },
{
    let chars = chars_of(answer);
    let t = trim_chars(&chars);
    if t.len() == 0 {
        let mut message: Vec<char> = Vec::new();
        push_str(&mut message, "Empty response from WatsonX API. Raw response: ");
        push_str(&mut message, raw_response);
        return Err(Error::LLMProvider(string_of(&message)));
    }
    let label = chars_of("Answer:");
    let unlabelled = if matches_at(&t, &label, 0) {
        let rest = slice_of(&t, label.len(), t.len());
        trim_chars(&rest)
    } else {
        t
    };
    let query = chars_of("Query:");
    let kept = match find_chars(&unlabelled, &query, 0) {
        Some(p) => {
            let head = slice_of(&unlabelled, 0, p);
            trim_chars(&head)
        },
        None => unlabelled,
    };
    let lines = split_lines(&kept);
    let first = if lines.len() > 0 {
        trim_chars(&lines[0])
    } else {
        trim_chars(&kept)
    };
    Ok(string_of(&first))
}

} // verus!
