//! What is reported for a command, in both output formats.
use vstd::prelude::*;
use crate::exec::{command_of, ExecResult};
use crate::intent::{describe, Action};
use crate::text::trim_text;

verus! {

/// The machine-readable report of one command.
#[derive(Debug, Clone)]
pub struct JsonOutput {
    pub input: String,
    pub intent: String,
    pub executed: Option<String>,
    pub status: String,
    pub error: Option<String>,
}

/// The characters of an optional string.
pub open spec fn opt_view(o: Option<String>) -> Option<Seq<char>> {
    match o {
        Some(s) => Some(s@),
        None => None,
    }
}

fn clone_opt(o: &Option<String>) -> (r: Option<String>)
    ensures
        opt_view(r) == opt_view(*o),
{
    match o {
        Some(s) => Some(s.clone()),
        None => None,
    }
}

impl JsonOutput {
    /// The report of a command that was run: `success` or `failed`, with the
    /// error stream only where it failed.
    pub fn from_result(input: &str, action: &Action, result: &ExecResult) -> (r: JsonOutput)
        ensures
            r.input@ == input@,
            r.intent@ == describe(action@),
            opt_view(r.executed) == Some(result.command@),
            r.status@ == (if result.success { "success"@ } else { "failed"@ }),
            opt_view(r.error) == (if result.success { None } else { opt_view(result.output) }),
    {
        JsonOutput {
            input: String::from_str(input),
            intent: action.to_string(),
            executed: Some(result.command.clone()),
            status: if result.success {
                String::from_str("success")
            } else {
                String::from_str("failed")
            },
            error: if result.success { None } else { clone_opt(&result.output) },
        }
    }

    /// The report of a dry run, which names the command it would run.
    pub fn dry_run(input: &str, action: &Action, command: &str) -> (r: JsonOutput)
        ensures
            r.input@ == input@,
            r.intent@ == describe(action@),
            opt_view(r.executed) == Some(command@),
            r.status@ == "dry-run"@,
            r.error is None,
    {
        JsonOutput {
            input: String::from_str(input),
            intent: action.to_string(),
            executed: Some(String::from_str(command)),
            status: String::from_str("dry-run"),
            error: None,
        }
    }

    /// The report of a command that could not be parsed or run.
    pub fn error(input: &str, error: &str) -> (r: JsonOutput)
        ensures
            r.input@ == input@,
            r.intent@ == "unknown"@,
            r.executed is None,
            r.status@ == "error"@,
            opt_view(r.error) == Some(error@),
    {
        JsonOutput {
            input: String::from_str(input),
            intent: String::from_str("unknown"),
            executed: None,
            status: String::from_str("error"),
            error: Some(String::from_str(error)),
        }
    }
}

/// The line that echoes the input.
pub open spec fn input_line(input: Seq<char>) -> Seq<char> {
    "Input: \""@ + input + "\""@
}

fn line(prefix: &str, body: &str, suffix: &str) -> (r: String)
    ensures
        r@ == prefix@ + body@ + suffix@,
{
    let mut s = String::from_str(prefix);
    s.append(body);
    s.append(suffix);
    s
}

/// The human-readable report of a command that was run, one line per entry.
pub fn human_report(input: &str, action: &Action, result: &ExecResult) -> (r: Vec<String>)
    ensures
        r.deep_view() == ({
            let head = seq![
                input_line(input@),
                "Intent: "@ + describe(action@),
                "Executed: "@ + result.command@,
            ];
            if result.success {
                head.push("Result: success"@)
            } else {
                match result.output {
                    Some(o) => head.push("Result: failed"@).push(
                        "Error: "@ + crate::text::trim(o@),
                    ),
                    None => head.push("Result: failed"@),
                }
            }
        }),
{
    let mut v: Vec<String> = Vec::new();
    v.push(line("Input: \"", input, "\""));
    v.push(line("Intent: ", action.to_string().as_str(), ""));
    v.push(line("Executed: ", result.command.as_str(), ""));
    if result.success {
        v.push(String::from_str("Result: success"));
    } else {
        v.push(String::from_str("Result: failed"));
        if let Some(o) = &result.output {
            v.push(line("Error: ", trim_text(o.as_str()), ""));
        }
    }
    proof {
        reveal_strlit("");
    }
    assert(v.deep_view() =~= ({
        let head = seq![
            input_line(input@),
            "Intent: "@ + describe(action@),
            "Executed: "@ + result.command@,
        ];
        if result.success {
            head.push("Result: success"@)
        } else {
            match result.output {
                Some(o) => head.push("Result: failed"@).push("Error: "@ + crate::text::trim(o@)),
                None => head.push("Result: failed"@),
            }
        }
    }));
    v
}

/// The human-readable report of a dry run.
pub fn dry_run_report(input: &str, action: &Action, command: &str) -> (r: Vec<String>)
    ensures
        r.deep_view() == seq![
            input_line(input@),
            "Intent: "@ + describe(action@),
            "Would execute: "@ + command@,
            "(dry-run mode - no action taken)"@,
        ],
{
    let mut v: Vec<String> = Vec::new();
    v.push(line("Input: \"", input, "\""));
    v.push(line("Intent: ", action.to_string().as_str(), ""));
    v.push(line("Would execute: ", command, ""));
    v.push(String::from_str("(dry-run mode - no action taken)"));
    proof {
        reveal_strlit("");
    }
    assert(v.deep_view() =~= seq![
        input_line(input@),
        "Intent: "@ + describe(action@),
        "Would execute: "@ + command@,
        "(dry-run mode - no action taken)"@,
    ]);
    v
}

/// The human-readable report of an error: the input, the message, and examples
/// of phrases that are understood.
pub fn error_report(input: &str, error: &str) -> (r: Vec<String>)
    ensures
        r.deep_view() == seq![
            input_line(input@),
            "Error: "@ + error@,
            ""@,
            "Examples of valid commands:"@,
            "  luna \"open safari\""@,
            "  luna \"open https://google.com\""@,
            "  luna \"set volume to 50\""@,
            "  luna \"mute\""@,
            "  luna \"unmute\""@,
        ],
{
    let mut v: Vec<String> = Vec::new();
    v.push(line("Input: \"", input, "\""));
    v.push(line("Error: ", error, ""));
    v.push(String::from_str(""));
    v.push(String::from_str("Examples of valid commands:"));
    v.push(String::from_str("  luna \"open safari\""));
    v.push(String::from_str("  luna \"open https://google.com\""));
    v.push(String::from_str("  luna \"set volume to 50\""));
    v.push(String::from_str("  luna \"mute\""));
    v.push(String::from_str("  luna \"unmute\""));
    proof {
        reveal_strlit("");
    }
    assert(v.deep_view() =~= seq![
        input_line(input@),
        "Error: "@ + error@,
        ""@,
        "Examples of valid commands:"@,
        "  luna \"open safari\""@,
        "  luna \"open https://google.com\""@,
        "  luna \"set volume to 50\""@,
        "  luna \"mute\""@,
        "  luna \"unmute\""@,
    ]);
    v
}

} // verus!
