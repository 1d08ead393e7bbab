//! The result of one render call: success with the produced artifact's
//! path, or one of four terminal failures. Each failure formats into a
//! single human-readable message that keeps the underlying detail — in
//! particular, a renderer failure's message carries the captured standard
//! error text verbatim.

use vstd::prelude::*;

verus! {

/// A terminal failure of one render call.
pub enum RenderError {
    /// A filesystem operation failed; `op` names the operation and the
    /// path it touched, `cause` the underlying reason.
    IoError { op: String, cause: String },
    /// An expected bundled binary was absent from the sandbox.
    MissingAsset { path: String },
    /// The renderer subprocess exited with a failure status.
    RenderFailed { status: String, stdout: String, stderr: String },
    /// The subprocess claimed success but the artifact is absent.
    OutputMissing { expected_path: String },
}

/// The outcome of one render call: exactly one per request.
pub enum RenderOutcome {
    Success { output_path: String },
    Failure { error: RenderError },
}

/// Mathematical model of a [`RenderError`]: the same shape over
/// character sequences.
pub enum ErrorModel {
    IoError { op: Seq<char>, cause: Seq<char> },
    MissingAsset { path: Seq<char> },
    RenderFailed { status: Seq<char>, stdout: Seq<char>, stderr: Seq<char> },
    OutputMissing { expected_path: Seq<char> },
}

/// Mathematical model of a [`RenderOutcome`].
pub enum OutcomeModel {
    Success { output_path: Seq<char> },
    Failure { error: ErrorModel },
}

impl View for RenderError {
    type V = ErrorModel;

    open spec fn view(&self) -> ErrorModel {
        match self {
            RenderError::IoError { op, cause } => ErrorModel::IoError {
                op: op@,
                cause: cause@,
            },
            RenderError::MissingAsset { path } => ErrorModel::MissingAsset { path: path@ },
            RenderError::RenderFailed { status, stdout, stderr } => ErrorModel::RenderFailed {
                status: status@,
                stdout: stdout@,
                stderr: stderr@,
            },
            RenderError::OutputMissing { expected_path } => ErrorModel::OutputMissing {
                expected_path: expected_path@,
            },
        }
    }
}

impl View for RenderOutcome {
    type V = OutcomeModel;

    open spec fn view(&self) -> OutcomeModel {
        match self {
            RenderOutcome::Success { output_path } => OutcomeModel::Success {
                output_path: output_path@,
            },
            RenderOutcome::Failure { error } => OutcomeModel::Failure { error: error@ },
        }
    }
}

/// The single human-readable message for each failure: the kind's fixed
/// wording with the failure's own detail spliced in unchanged.
pub open spec fn spec_message(e: ErrorModel) -> Seq<char> {
    match e {
        ErrorModel::IoError { op, cause } => "Failed to "@ + op + ": "@ + cause,
        ErrorModel::MissingAsset { path } => "Required asset missing from sandbox: "@ + path,
        ErrorModel::RenderFailed { status, stdout, stderr } => "Mermaid CLI failed with status "@
            + status + ": "@ + stderr,
        ErrorModel::OutputMissing { expected_path } => "Output file was not created at: "@
            + expected_path,
    }
}

/// `needle` occurs contiguously somewhere in `hay`.
pub open spec fn spec_contains(hay: Seq<char>, needle: Seq<char>) -> bool {
    exists|i: int|
        0 <= i && i + needle.len() <= hay.len() && #[trigger] hay.subrange(i, i + needle.len())
            == needle
}

impl RenderError {
    /// Formats this failure into its single human-readable message.
    pub fn message(&self) -> (r: String)
        ensures
            r@ == spec_message(self@),
    {
        match self {
            RenderError::IoError { op, cause } => {
                let mut r = String::from_str("Failed to ");
                r.append(op.as_str());
                r.append(": ");
                r.append(cause.as_str());
                proof {
                    assert(r@ =~= spec_message(self@));
                }
                r
            },
            RenderError::MissingAsset { path } => {
                let mut r = String::from_str("Required asset missing from sandbox: ");
                r.append(path.as_str());
                r
            },
            RenderError::RenderFailed { status, stdout: _, stderr } => {
                let mut r = String::from_str("Mermaid CLI failed with status ");
                r.append(status.as_str());
                r.append(": ");
                r.append(stderr.as_str());
                proof {
                    assert(r@ =~= spec_message(self@));
                }
                r
            },
            RenderError::OutputMissing { expected_path } => {
                let mut r = String::from_str("Output file was not created at: ");
                r.append(expected_path.as_str());
                r
            },
        }
    }
}

/// The message of a renderer failure contains the captured standard
/// error text verbatim.
pub proof fn lemma_render_failed_message_contains_stderr(
    status: Seq<char>,
    stdout: Seq<char>,
    stderr: Seq<char>,
)
    ensures
        spec_contains(spec_message(ErrorModel::RenderFailed { status, stdout, stderr }), stderr),
{
    let hay = spec_message(ErrorModel::RenderFailed { status, stdout, stderr });
    let i: int = ("Mermaid CLI failed with status "@.len() + status.len() + ": "@.len()) as int;
    assert(hay.subrange(i, i + stderr.len()) =~= stderr);
}

} // verus!
