//! What is decided around the run of a command: whether the login is
//! checked first, whether the output is repaired, and what the user's
//! answer to a question means.

use vstd::prelude::*;
use crate::cloud_provider::CloudProviderType;
use crate::json_output::{repair_aws_json_output, repaired_output};
use crate::text::{
    chars_eq, chars_of, contains, lower_chars, lowercase, push_str, starts_with, str_contains,
    str_starts_with, str_trim, string_of, trimmed,
};

verus! {

/// The login is checked before a command of the IBM Cloud program that
/// is not itself a login.
pub open spec fn login_checked(provider: Option<CloudProviderType>, command: Seq<char>) -> bool {
    provider == Some(CloudProviderType::IBMCloud) && starts_with(command, "ibmcloud"@) && !contains(
        command,
        "login"@,
    )
}

/// Whether the login is checked before `command` is run.
pub fn needs_login_check(provider: Option<CloudProviderType>, command: &str) -> (r: bool)
    ensures
        r == login_checked(provider, command@),
{
    match provider {
        Some(CloudProviderType::IBMCloud) => str_starts_with(command, "ibmcloud") && !str_contains(
            command,
            "login",
        ),
        _ => false,
    }
}

/// What a command is said to have failed with where the user is not logged in.
pub fn not_logged_in_message(reason: &str) -> (r: String)
    ensures
        r@ == "Not logged in to IBM Cloud: "@ + reason@,
{
    let mut out: Vec<char> = Vec::new();
    push_str(&mut out, "Not logged in to IBM Cloud: ");
    push_str(&mut out, reason);
    string_of(&out)
}

/// The output of a command of the AWS program that was asked for JSON is
/// repaired, unless it is empty.
pub open spec fn repair_wanted(
    provider: Option<CloudProviderType>,
    command: Seq<char>,
    stdout: Seq<char>,
) -> bool {
    provider == Some(CloudProviderType::AWS) && contains(command, "--output json"@) && stdout.len()
        > 0
}

/// What is shown of the output of a command: the output with its JSON
/// repaired where a repair is wanted, and else the output as it is.
pub open spec fn shown_output(
    provider: Option<CloudProviderType>,
    command: Seq<char>,
    stdout: Seq<char>,
) -> Seq<char> {
    if repair_wanted(provider, command, stdout) {
        repaired_output(stdout)
    } else {
        stdout
    }
}

/// Whether the output of `command` is repaired.
pub fn wants_json_repair(provider: Option<CloudProviderType>, command: &str, stdout: &str) -> (r:
    bool)
    ensures
        r == repair_wanted(provider, command@, stdout@),
{
    match provider {
        Some(CloudProviderType::AWS) => {
            let out = chars_of(stdout);
            str_contains(command, "--output json") && out.len() > 0
        },
        _ => false,
    }
}

/// What is shown of the output `stdout` of `command`.
pub fn output_to_show(provider: Option<CloudProviderType>, command: &str, stdout: &str) -> (r:
    String)
    ensures
        r@ == shown_output(provider, command@, stdout@),
{
    if wants_json_repair(provider, command, stdout) {
        repair_aws_json_output(stdout)
    } else {
        stdout.to_owned()
    }
}

/// An answer, without surrounding whitespace and in lower case, agrees
/// where it is empty, `y` or `yes`.
pub open spec fn agrees(answer: Seq<char>) -> bool {
    answer.len() == 0 || answer == "y"@ || answer == "yes"@
}

/// Whether `answer`, which is without surrounding whitespace and in lower
/// case, agrees.
pub fn is_agreement(answer: &Vec<char>) -> (r: bool)
    ensures
        r == agrees(answer@),
{
    let y = chars_of("y");
    let yes = chars_of("yes");
    answer.len() == 0 || chars_eq(answer, &y) || chars_eq(answer, &yes)
}

/// Whether the user's answer agrees, without regard to case and to
/// surrounding whitespace.
pub fn confirms(response: &str) -> (r: bool)
    ensures
        r == agrees(lowercase(trimmed(response@))),
{
    let t = str_trim(response);
    let answer = lower_chars(t.as_str());
    is_agreement(&answer)
}

} // verus!
