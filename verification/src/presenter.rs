//! Maps a render outcome to what the user sees: a saved-to message on
//! success, the failure's own message otherwise, and the platform
//! command that opens the produced file in the host's default viewer.

use vstd::prelude::*;
use crate::classifier::str_eq;
use crate::outcome::{RenderOutcome, OutcomeModel, spec_message};

verus! {

/// The message reported for a successful render.
pub open spec fn spec_success_message(output_path: Seq<char>) -> Seq<char> {
    "Diagram saved to "@ + output_path
}

/// Formats the saved-to message for a successful render.
pub fn success_message(output_path: &str) -> (r: String)
    ensures
        r@ == spec_success_message(output_path@),
{
    let mut r = String::from_str("Diagram saved to ");
    r.append(output_path);
    r
}

/// The message reported when the user dismisses the save dialog; no
/// render is attempted in that case.
pub fn cancel_message() -> (r: &'static str)
    ensures
        r@ == "Save cancelled by user."@,
{
    "Save cancelled by user."
}

/// The single user-facing line for an outcome: the saved-to message on
/// success, the failure's composed message otherwise.
pub open spec fn spec_present(o: OutcomeModel) -> Seq<char> {
    match o {
        OutcomeModel::Success { output_path } => spec_success_message(output_path),
        OutcomeModel::Failure { error } => spec_message(error),
    }
}

/// Formats an outcome into its single user-facing line.
pub fn present(outcome: &RenderOutcome) -> (r: String)
    ensures
        r@ == spec_present(outcome@),
{
    match outcome {
        RenderOutcome::Success { output_path } => success_message(output_path.as_str()),
        RenderOutcome::Failure { error } => error.message(),
    }
}

/// The host command that opens `file` in the default viewer, by platform
/// name; nothing for a platform without a known opener.
pub open spec fn spec_opener(platform: Seq<char>, file: Seq<char>) -> Option<
    (Seq<char>, Seq<Seq<char>>),
> {
    if platform == "macos"@ {
        Some(("open"@, seq![file]))
    } else if platform == "windows"@ {
        Some(("cmd"@, seq!["/C"@, "start"@, file]))
    } else if platform == "linux"@ {
        Some(("xdg-open"@, seq![file]))
    } else {
        None
    }
}

/// Builds the opener invocation — program and arguments — for `file` on
/// the named platform, or nothing when the platform has no known opener.
/// Opening is best effort: a failure of this command is not a render
/// failure.
pub fn opener_invocation(platform: &str, file: &str) -> (r: Option<(String, Vec<String>)>)
    ensures
        match r {
            Option::Some(cmd) => spec_opener(platform@, file@) == Some(
                (cmd.0@, cmd.1.deep_view()),
            ),
            Option::None => spec_opener(platform@, file@) is None,
        },
{
    if str_eq(platform, "macos") {
        let mut args: Vec<String> = Vec::new();
        args.push(String::from_str(file));
        proof {
            assert(args.deep_view() =~= seq![file@]);
        }
        Some((String::from_str("open"), args))
    } else if str_eq(platform, "windows") {
        let mut args: Vec<String> = Vec::new();
        args.push(String::from_str("/C"));
        args.push(String::from_str("start"));
        args.push(String::from_str(file));
        proof {
            assert(args.deep_view() =~= seq!["/C"@, "start"@, file@]);
        }
        Some((String::from_str("cmd"), args))
    } else if str_eq(platform, "linux") {
        let mut args: Vec<String> = Vec::new();
        args.push(String::from_str(file));
        proof {
            assert(args.deep_view() =~= seq![file@]);
        }
        Some((String::from_str("xdg-open"), args))
    } else {
        None
    }
}

} // verus!
