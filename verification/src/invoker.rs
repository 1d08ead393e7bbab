//! The render protocol. One render call is a session that walks a fixed
//! sequence of phases: create a fresh sandbox directory, extract the
//! bundled assets into it, write the three generated files, verify the
//! interpreter binary is present, run the renderer subprocess, and check
//! that the output artifact exists. The session itself performs no I/O:
//! each [`RenderSession::step`] consumes the event reporting how the last
//! piece of outside work went and returns the next action to perform.
//! The caller owns the sandbox directory and must remove it when the
//! session finishes, success or failure.

use vstd::prelude::*;
use crate::outcome::{RenderError, RenderOutcome, ErrorModel, OutcomeModel};
use crate::paths::{join_path, spec_join};

verus! {

/// Where a render session stands in the protocol.
#[derive(Clone, Copy)]
pub enum RenderPhase {
    /// Waiting for the sandbox directory to be created.
    Creating,
    /// Waiting for the asset bundle to be extracted into the sandbox.
    Extracting,
    /// Waiting for the three generated files to be written.
    Writing,
    /// Waiting for the interpreter-presence check.
    Checking,
    /// Waiting for the renderer subprocess to finish.
    Running,
    /// Waiting for the output-file existence check.
    Verifying,
    /// The outcome has been produced; the session accepts nothing more.
    Done,
}

/// What the caller reports back after performing the previous action.
pub enum RenderEvent {
    /// The sandbox directory was created at `path`.
    SandboxCreated { path: String },
    /// Creating the sandbox directory failed.
    SandboxFailed { op: String, cause: String },
    /// Every asset was extracted into the sandbox.
    AssetsExtracted,
    /// Extraction failed; `op` names the operation and path.
    ExtractFailed { op: String, cause: String },
    /// The wrapper script, package descriptor and input file were written.
    FilesWritten,
    /// Writing a generated file failed.
    WriteFailed { op: String, cause: String },
    /// The interpreter binary exists at its expected sandbox path.
    InterpreterPresent,
    /// The interpreter binary is absent from the sandbox.
    InterpreterMissing,
    /// The subprocess ran to completion with the given exit status and
    /// captured output.
    ProcessFinished { exit_ok: bool, status: String, stdout: String, stderr: String },
    /// The subprocess could not be started at all.
    SpawnFailed { op: String, cause: String },
    /// The output file exists at the requested path.
    OutputPresent,
    /// The output file is absent although the subprocess claimed success.
    OutputAbsent,
}

/// The next piece of outside work the caller must perform.
pub enum RenderAction {
    /// Create a fresh, uniquely named temporary directory.
    CreateSandbox,
    /// Extract every bundled asset into the sandbox directory.
    ExtractAssets { sandbox_path: String },
    /// Write the fixed wrapper script, the fixed package descriptor, and
    /// the diagram source verbatim, each to its given path.
    WriteSandboxFiles {
        wrapper_path: String,
        descriptor_path: String,
        input_path: String,
        input: String,
    },
    /// Check that the interpreter binary exists at `path`.
    CheckInterpreter { path: String },
    /// Run `program` with `args`, working directory `working_dir`, and
    /// report the exit status and captured stdout and stderr.
    RunRenderer { program: String, args: Vec<String>, working_dir: String },
    /// Check that the output file exists at `path`.
    CheckOutput { path: String },
    /// The session is over; remove the sandbox and report the outcome.
    Finish { outcome: RenderOutcome },
}

/// One render call in progress. `source_text` and `output_path` are fixed
/// at creation; `sandbox_path` is recorded once the sandbox exists.
pub struct RenderSession {
    pub phase: RenderPhase,
    pub source_text: String,
    pub output_path: String,
    pub sandbox_path: String,
}

/// Mathematical model of a session.
pub struct SessionModel {
    pub phase: RenderPhase,
    pub source: Seq<char>,
    pub out: Seq<char>,
    pub sandbox: Seq<char>,
}

/// Mathematical model of an event.
pub enum EventModel {
    SandboxCreated { path: Seq<char> },
    SandboxFailed { op: Seq<char>, cause: Seq<char> },
    AssetsExtracted,
    ExtractFailed { op: Seq<char>, cause: Seq<char> },
    FilesWritten,
    WriteFailed { op: Seq<char>, cause: Seq<char> },
    InterpreterPresent,
    InterpreterMissing,
    ProcessFinished { exit_ok: bool, status: Seq<char>, stdout: Seq<char>, stderr: Seq<char> },
    SpawnFailed { op: Seq<char>, cause: Seq<char> },
    OutputPresent,
    OutputAbsent,
}

/// Mathematical model of an action.
pub enum ActionModel {
    CreateSandbox,
    ExtractAssets { sandbox_path: Seq<char> },
    WriteSandboxFiles {
        wrapper_path: Seq<char>,
        descriptor_path: Seq<char>,
        input_path: Seq<char>,
        input: Seq<char>,
    },
    CheckInterpreter { path: Seq<char> },
    RunRenderer { program: Seq<char>, args: Seq<Seq<char>>, working_dir: Seq<char> },
    CheckOutput { path: Seq<char> },
    Finish { outcome: OutcomeModel },
}

impl View for RenderSession {
    type V = SessionModel;

    open spec fn view(&self) -> SessionModel {
        SessionModel {
            phase: self.phase,
            source: self.source_text@,
            out: self.output_path@,
            sandbox: self.sandbox_path@,
        }
    }
}

impl View for RenderEvent {
    type V = EventModel;

    open spec fn view(&self) -> EventModel {
        match self {
            RenderEvent::SandboxCreated { path } => EventModel::SandboxCreated { path: path@ },
            RenderEvent::SandboxFailed { op, cause } => EventModel::SandboxFailed {
                op: op@,
                cause: cause@,
            },
            RenderEvent::AssetsExtracted => EventModel::AssetsExtracted,
            RenderEvent::ExtractFailed { op, cause } => EventModel::ExtractFailed {
                op: op@,
                cause: cause@,
            },
            RenderEvent::FilesWritten => EventModel::FilesWritten,
            RenderEvent::WriteFailed { op, cause } => EventModel::WriteFailed {
                op: op@,
                cause: cause@,
            },
            RenderEvent::InterpreterPresent => EventModel::InterpreterPresent,
            RenderEvent::InterpreterMissing => EventModel::InterpreterMissing,
            RenderEvent::ProcessFinished { exit_ok, status, stdout, stderr } => {
                EventModel::ProcessFinished {
                    exit_ok: *exit_ok,
                    status: status@,
                    stdout: stdout@,
                    stderr: stderr@,
                }
            },
            RenderEvent::SpawnFailed { op, cause } => EventModel::SpawnFailed {
                op: op@,
                cause: cause@,
            },
            RenderEvent::OutputPresent => EventModel::OutputPresent,
            RenderEvent::OutputAbsent => EventModel::OutputAbsent,
        }
    }
}

impl View for RenderAction {
    type V = ActionModel;

    open spec fn view(&self) -> ActionModel {
        match self {
            RenderAction::CreateSandbox => ActionModel::CreateSandbox,
            RenderAction::ExtractAssets { sandbox_path } => ActionModel::ExtractAssets {
                sandbox_path: sandbox_path@,
            },
            RenderAction::WriteSandboxFiles { wrapper_path, descriptor_path, input_path, input } => {
                ActionModel::WriteSandboxFiles {
                    wrapper_path: wrapper_path@,
                    descriptor_path: descriptor_path@,
                    input_path: input_path@,
                    input: input@,
                }
            },
            RenderAction::CheckInterpreter { path } => ActionModel::CheckInterpreter {
                path: path@,
            },
            RenderAction::RunRenderer { program, args, working_dir } => ActionModel::RunRenderer {
                program: program@,
                args: args.deep_view(),
                working_dir: working_dir@,
            },
            RenderAction::CheckOutput { path } => ActionModel::CheckOutput { path: path@ },
            RenderAction::Finish { outcome } => ActionModel::Finish { outcome: outcome@ },
        }
    }
}

/// The subprocess invocation implied by a sandbox and an output path:
/// `interpreter wrapper_script -i input_file -o output_file`, run from
/// the sandbox root.
pub open spec fn spec_renderer_args(sandbox: Seq<char>, out: Seq<char>) -> Seq<Seq<char>> {
    seq![
        spec_join(sandbox, "mmdc_wrapper.js"@),
        "-i"@,
        spec_join(sandbox, "input.mmd"@),
        "-o"@,
        out,
    ]
}

/// The protocol's transition function: from a session state and an event
/// to the next state and the action the caller must perform. `None`
/// exactly when the event does not belong to the session's phase.
pub open spec fn model_step(m: SessionModel, e: EventModel) -> Option<(SessionModel, ActionModel)> {
    match (m.phase, e) {
        (RenderPhase::Creating, EventModel::SandboxCreated { path }) => Some(
            (
                SessionModel { phase: RenderPhase::Extracting, sandbox: path, ..m },
                ActionModel::ExtractAssets { sandbox_path: path },
            ),
        ),
        (RenderPhase::Creating, EventModel::SandboxFailed { op, cause }) => Some(
            (model_done(m), model_fail(ErrorModel::IoError { op, cause })),
        ),
        (RenderPhase::Extracting, EventModel::AssetsExtracted) => Some(
            (
                SessionModel { phase: RenderPhase::Writing, ..m },
                ActionModel::WriteSandboxFiles {
                    wrapper_path: spec_join(m.sandbox, "mmdc_wrapper.js"@),
                    descriptor_path: spec_join(m.sandbox, "package.json"@),
                    input_path: spec_join(m.sandbox, "input.mmd"@),
                    input: m.source,
                },
            ),
        ),
        (RenderPhase::Extracting, EventModel::ExtractFailed { op, cause }) => Some(
            (model_done(m), model_fail(ErrorModel::IoError { op, cause })),
        ),
        (RenderPhase::Writing, EventModel::FilesWritten) => Some(
            (
                SessionModel { phase: RenderPhase::Checking, ..m },
                ActionModel::CheckInterpreter { path: spec_join(m.sandbox, "node"@) },
            ),
        ),
        (RenderPhase::Writing, EventModel::WriteFailed { op, cause }) => Some(
            (model_done(m), model_fail(ErrorModel::IoError { op, cause })),
        ),
        (RenderPhase::Checking, EventModel::InterpreterPresent) => Some(
            (
                SessionModel { phase: RenderPhase::Running, ..m },
                ActionModel::RunRenderer {
                    program: spec_join(m.sandbox, "node"@),
                    args: spec_renderer_args(m.sandbox, m.out),
                    working_dir: m.sandbox,
                },
            ),
        ),
        (RenderPhase::Checking, EventModel::InterpreterMissing) => Some(
            (
                model_done(m),
                model_fail(ErrorModel::MissingAsset { path: spec_join(m.sandbox, "node"@) }),
            ),
        ),
        (RenderPhase::Running, EventModel::ProcessFinished { exit_ok, status, stdout, stderr }) => {
            if exit_ok {
                Some(
                    (
                        SessionModel { phase: RenderPhase::Verifying, ..m },
                        ActionModel::CheckOutput { path: m.out },
                    ),
                )
            } else {
                Some(
                    (model_done(m), model_fail(ErrorModel::RenderFailed { status, stdout, stderr })),
                )
            }
        },
        (RenderPhase::Running, EventModel::SpawnFailed { op, cause }) => Some(
            (model_done(m), model_fail(ErrorModel::IoError { op, cause })),
        ),
        (RenderPhase::Verifying, EventModel::OutputPresent) => Some(
            (
                model_done(m),
                ActionModel::Finish { outcome: OutcomeModel::Success { output_path: m.out } },
            ),
        ),
        (RenderPhase::Verifying, EventModel::OutputAbsent) => Some(
            (model_done(m), model_fail(ErrorModel::OutputMissing { expected_path: m.out })),
        ),
        _ => None,
    }
}

/// The session with its phase closed.
pub open spec fn model_done(m: SessionModel) -> SessionModel {
    SessionModel { phase: RenderPhase::Done, ..m }
}

/// A finish action carrying a failure.
pub open spec fn model_fail(e: ErrorModel) -> ActionModel {
    ActionModel::Finish { outcome: OutcomeModel::Failure { error: e } }
}

/// Whether a session in state `m` accepts event `e`.
pub open spec fn accepts(m: SessionModel, e: EventModel) -> bool {
    model_step(m, e) is Some
}

impl RenderSession {
    /// Starts a render session for one request. The first action is
    /// always to create the sandbox directory.
    pub fn new(source_text: String, output_path: String) -> (r: (Self, RenderAction))
        ensures
            r.0@.phase is Creating,
            r.0@.source == source_text@,
            r.0@.out == output_path@,
            r.1@ is CreateSandbox,
    {
        let s = RenderSession {
            phase: RenderPhase::Creating,
            source_text,
            output_path,
            sandbox_path: String::new(),
        };
        (s, RenderAction::CreateSandbox)
    }

    /// Advances the protocol by one event and returns the next action.
    /// The new state and the action are exactly what [`model_step`]
    /// prescribes; the request itself — source text and output path —
    /// never changes.
    pub fn step(&mut self, event: RenderEvent) -> (a: RenderAction)
        requires
            accepts(old(self)@, event@),
        ensures
            model_step(old(self)@, event@) == Some((final(self)@, a@)),
            final(self)@.source == old(self)@.source,
            final(self)@.out == old(self)@.out,
            a@ is RunRenderer <==> (old(self)@.phase is Checking
                && event@ is InterpreterPresent),
    {
        match (self.phase, event) {
            (RenderPhase::Creating, RenderEvent::SandboxCreated { path }) => {
                let for_action = path.clone();
                self.sandbox_path = path;
                self.phase = RenderPhase::Extracting;
                RenderAction::ExtractAssets { sandbox_path: for_action }
            },
            (RenderPhase::Creating, RenderEvent::SandboxFailed { op, cause }) => {
                self.phase = RenderPhase::Done;
                RenderAction::Finish {
                    outcome: RenderOutcome::Failure { error: RenderError::IoError { op, cause } },
                }
            },
            (RenderPhase::Extracting, RenderEvent::AssetsExtracted) => {
                self.phase = RenderPhase::Writing;
                RenderAction::WriteSandboxFiles {
                    wrapper_path: join_path(self.sandbox_path.as_str(), "mmdc_wrapper.js"),
                    descriptor_path: join_path(self.sandbox_path.as_str(), "package.json"),
                    input_path: join_path(self.sandbox_path.as_str(), "input.mmd"),
                    input: self.source_text.clone(),
                }
            },
            (RenderPhase::Extracting, RenderEvent::ExtractFailed { op, cause }) => {
                self.phase = RenderPhase::Done;
                RenderAction::Finish {
                    outcome: RenderOutcome::Failure { error: RenderError::IoError { op, cause } },
                }
            },
            (RenderPhase::Writing, RenderEvent::FilesWritten) => {
                self.phase = RenderPhase::Checking;
                RenderAction::CheckInterpreter {
                    path: join_path(self.sandbox_path.as_str(), "node"),
                }
            },
            (RenderPhase::Writing, RenderEvent::WriteFailed { op, cause }) => {
                self.phase = RenderPhase::Done;
                RenderAction::Finish {
                    outcome: RenderOutcome::Failure { error: RenderError::IoError { op, cause } },
                }
            },
            (RenderPhase::Checking, RenderEvent::InterpreterPresent) => {
                self.phase = RenderPhase::Running;
                let mut args: Vec<String> = Vec::new();
                args.push(join_path(self.sandbox_path.as_str(), "mmdc_wrapper.js"));
                args.push(String::from_str("-i"));
                args.push(join_path(self.sandbox_path.as_str(), "input.mmd"));
                args.push(String::from_str("-o"));
                args.push(self.output_path.clone());
                let a = RenderAction::RunRenderer {
                    program: join_path(self.sandbox_path.as_str(), "node"),
                    args,
                    working_dir: self.sandbox_path.clone(),
                };
                proof {
                    assert(a@->RunRenderer_args =~= spec_renderer_args(
                        old(self)@.sandbox,
                        old(self)@.out,
                    ));
                }
                a
            },
            (RenderPhase::Checking, RenderEvent::InterpreterMissing) => {
                self.phase = RenderPhase::Done;
                RenderAction::Finish {
                    outcome: RenderOutcome::Failure {
                        error: RenderError::MissingAsset {
                            path: join_path(self.sandbox_path.as_str(), "node"),
                        },
                    },
                }
            },
            (RenderPhase::Running, RenderEvent::ProcessFinished {
                exit_ok,
                status,
                stdout,
                stderr,
            }) => {
                if exit_ok {
                    self.phase = RenderPhase::Verifying;
                    RenderAction::CheckOutput { path: self.output_path.clone() }
                } else {
                    self.phase = RenderPhase::Done;
                    RenderAction::Finish {
                        outcome: RenderOutcome::Failure {
                            error: RenderError::RenderFailed { status, stdout, stderr },
                        },
                    }
                }
            },
            (RenderPhase::Running, RenderEvent::SpawnFailed { op, cause }) => {
                self.phase = RenderPhase::Done;
                RenderAction::Finish {
                    outcome: RenderOutcome::Failure { error: RenderError::IoError { op, cause } },
                }
            },
            (RenderPhase::Verifying, RenderEvent::OutputPresent) => {
                self.phase = RenderPhase::Done;
                RenderAction::Finish {
                    outcome: RenderOutcome::Success { output_path: self.output_path.clone() },
                }
            },
            (RenderPhase::Verifying, RenderEvent::OutputAbsent) => {
                self.phase = RenderPhase::Done;
                RenderAction::Finish {
                    outcome: RenderOutcome::Failure {
                        error: RenderError::OutputMissing {
                            expected_path: self.output_path.clone(),
                        },
                    },
                }
            },
            _ => vstd::pervasive::unreached(),
        }
    }
}

/// No step spawns the renderer unless the interpreter-presence check has
/// just passed: the one transition producing a [`ActionModel::RunRenderer`]
/// action is the checking phase receiving [`EventModel::InterpreterPresent`].
pub proof fn lemma_no_spawn_without_interpreter(m: SessionModel, e: EventModel)
    ensures
        match model_step(m, e) {
            Some(r) => r.1 is RunRenderer ==> (m.phase is Checking && e is InterpreterPresent),
            None => true,
        },
{
}

/// A missing interpreter binary aborts the render: the step reports the
/// `MissingAsset` failure for the interpreter's expected sandbox path,
/// and the closed session accepts no further event — in particular no
/// subprocess can be spawned afterwards.
pub proof fn lemma_missing_interpreter_aborts(m: SessionModel)
    requires
        m.phase is Checking,
    ensures
        model_step(m, EventModel::InterpreterMissing) == Some(
            (
                model_done(m),
                model_fail(ErrorModel::MissingAsset { path: spec_join(m.sandbox, "node"@) }),
            ),
        ),
        forall|e2: EventModel| #[trigger] model_step(model_done(m), e2) is None,
{
}

/// Success is only ever reported after the output file was seen on disk:
/// the one transition that finishes with `Success` is the output check
/// passing. The subprocess's own exit status is never taken as proof of
/// the artifact.
pub proof fn lemma_success_only_after_output_check(m: SessionModel, e: EventModel)
    ensures
        match model_step(m, e) {
            Some(r) => (r.1 matches ActionModel::Finish {
                outcome: OutcomeModel::Success { .. },
            }) ==> (m.phase is Verifying && e is OutputPresent),
            None => true,
        },
{
}

/// A subprocess that exits nonzero fails the render with `RenderFailed`,
/// carrying the reported status and the captured stdout and stderr
/// unchanged.
pub proof fn lemma_nonzero_exit_fails(
    m: SessionModel,
    status: Seq<char>,
    stdout: Seq<char>,
    stderr: Seq<char>,
)
    requires
        m.phase is Running,
    ensures
        model_step(m, EventModel::ProcessFinished { exit_ok: false, status, stdout, stderr })
            == Some((model_done(m), model_fail(ErrorModel::RenderFailed { status, stdout, stderr }))),
{
}

/// A subprocess that exits zero leads only to the output check; if the
/// artifact is then absent, the render fails with `OutputMissing` for
/// the requested path, not with success.
pub proof fn lemma_zero_exit_without_artifact_fails(
    m: SessionModel,
    status: Seq<char>,
    stdout: Seq<char>,
    stderr: Seq<char>,
)
    requires
        m.phase is Running,
    ensures
        ({
            let first = model_step(
                m,
                EventModel::ProcessFinished { exit_ok: true, status, stdout, stderr },
            );
            &&& first matches Some(r)
            &&& r.1 == ActionModel::CheckOutput { path: m.out }
            &&& model_step(r.0, EventModel::OutputAbsent) == Some(
                (
                    model_done(r.0),
                    model_fail(ErrorModel::OutputMissing { expected_path: m.out }),
                ),
            )
        }),
{
}

/// A step finishes with an outcome exactly when it closes the session:
/// every path through the protocol produces one outcome and then stops.
pub proof fn lemma_finish_closes_session(m: SessionModel, e: EventModel)
    requires
        !(m.phase is Done),
    ensures
        match model_step(m, e) {
            Some(r) => (r.1 is Finish) <==> (r.0.phase is Done),
            None => true,
        },
{
}

/// A closed session accepts no further event: no session produces a
/// second outcome for its request.
pub proof fn lemma_done_is_terminal(m: SessionModel, e: EventModel)
    requires
        m.phase is Done,
    ensures
        model_step(m, e) is None,
{
}

/// `a` with its written-input payload replaced by `inp`; any other
/// action is unchanged.
pub open spec fn with_input_payload(a: ActionModel, inp: Seq<char>) -> ActionModel {
    match a {
        ActionModel::WriteSandboxFiles { wrapper_path, descriptor_path, input_path, input: _ } => {
            ActionModel::WriteSandboxFiles { wrapper_path, descriptor_path, input_path, input: inp }
        },
        other => other,
    }
}

/// The invoker never gates on the diagram source: two sessions that
/// differ only in their source text accept the same events, move through
/// the same phases, and prescribe the same actions — except that the
/// generated input file carries each session's own text verbatim.
pub proof fn lemma_source_text_does_not_gate(m: SessionModel, s2: Seq<char>, e: EventModel)
    ensures
        ({
            let m2 = SessionModel { source: s2, ..m };
            match (model_step(m, e), model_step(m2, e)) {
                (Some(r1), Some(r2)) => {
                    &&& r2.0 == SessionModel { source: s2, ..r1.0 }
                    &&& r2.1 == with_input_payload(r1.1, s2)
                },
                (None, None) => true,
                _ => false,
            }
        }),
{
}

/// The actions of a whole run: starting from `m`, feed the events in
/// order until one is not accepted or they run out.
pub open spec fn run_actions(m: SessionModel, events: Seq<EventModel>) -> Seq<ActionModel>
    decreases events.len(),
{
    if events.len() == 0 {
        Seq::empty()
    } else {
        match model_step(m, events[0]) {
            Some(r) => seq![r.1] + run_actions(r.0, events.drop_first()),
            None => Seq::empty(),
        }
    }
}

/// Over a whole run: if the interpreter-presence check never passes, the
/// renderer is never spawned, whatever else happens.
pub proof fn lemma_run_never_spawns_without_interpreter(m: SessionModel, events: Seq<EventModel>)
    requires
        forall|i: int| 0 <= i < events.len() ==> !((#[trigger] events[i]) is InterpreterPresent),
    ensures
        forall|j: int|
            0 <= j < run_actions(m, events).len() ==> !((#[trigger] run_actions(m, events)[j])
                is RunRenderer),
    decreases events.len(),
{
    if events.len() > 0 {
        match model_step(m, events[0]) {
            Some(r) => {
                lemma_no_spawn_without_interpreter(m, events[0]);
                assert(forall|i: int|
                    0 <= i < events.drop_first().len() ==> #[trigger] events.drop_first()[i]
                        == events[i + 1]);
                lemma_run_never_spawns_without_interpreter(r.0, events.drop_first());
                assert forall|j: int|
                    0 <= j < run_actions(m, events).len() implies !((run_actions(m, events)[j])
                    is RunRenderer) by {
                    if j > 0 {
                        assert(run_actions(m, events)[j] == run_actions(
                            r.0,
                            events.drop_first(),
                        )[j - 1]);
                    }
                };
            },
            None => {},
        }
    }
}

/// Over a whole run: an outcome, once produced, ends the run — the
/// finish action can only be the last one, so one request yields at most
/// one outcome.
pub proof fn lemma_outcome_ends_the_run(m: SessionModel, events: Seq<EventModel>)
    requires
        !(m.phase is Done),
    ensures
        forall|j: int|
            0 <= j < run_actions(m, events).len() && (#[trigger] run_actions(m, events)[j])
                is Finish ==> j == run_actions(m, events).len() - 1,
    decreases events.len(),
{
    if events.len() > 0 {
        match model_step(m, events[0]) {
            Some(r) => {
                lemma_finish_closes_session(m, events[0]);
                if r.1 is Finish {
                    if events.drop_first().len() > 0 {
                        lemma_done_is_terminal(r.0, events.drop_first()[0]);
                    }
                    assert(run_actions(r.0, events.drop_first()) =~= Seq::<ActionModel>::empty());
                } else {
                    lemma_outcome_ends_the_run(r.0, events.drop_first());
                    let run = run_actions(m, events);
                    let rest = run_actions(r.0, events.drop_first());
                    assert forall|j: int| 0 <= j < run.len() && run[j] is Finish implies j == run.len()
                        - 1 by {
                        assert(j > 0);
                        assert(run[j] == rest[j - 1]);
                    };
                }
            },
            None => {},
        }
    }
}

/// The fixed wrapper script written into every sandbox: it locates the
/// bundled renderer, forwards the `-i` and `-o` arguments, and exits
/// nonzero on any renderer error. Independent of the render request.
pub fn wrapper_script_content() -> (r: &'static str)
    ensures
        r@ == "const { run } = require('@mermaid-js/mermaid-cli');\nconst argv = process.argv;\nlet input = null;\nlet output = null;\nfor (let k = 2; k < argv.length; k += 1) {\n  if (argv[k] === '-i') { input = argv[k + 1]; }\n  if (argv[k] === '-o') { output = argv[k + 1]; }\n}\nrun(input, output, { puppeteerConfig: { args: ['--no-sandbox'] } }).then(\n  () => process.exit(0),\n  (err) => { console.error(err); process.exit(1); }\n);\n"@,
{
    "const { run } = require('@mermaid-js/mermaid-cli');\nconst argv = process.argv;\nlet input = null;\nlet output = null;\nfor (let k = 2; k < argv.length; k += 1) {\n  if (argv[k] === '-i') { input = argv[k + 1]; }\n  if (argv[k] === '-o') { output = argv[k + 1]; }\n}\nrun(input, output, { puppeteerConfig: { args: ['--no-sandbox'] } }).then(\n  () => process.exit(0),\n  (err) => { console.error(err); process.exit(1); }\n);\n"
}

/// The fixed package descriptor written into every sandbox so the
/// interpreter resolves the wrapper as a plain script. Independent of
/// the render request.
pub fn package_descriptor_content() -> (r: &'static str)
    ensures
        r@ == "{\n  \"type\": \"commonjs\"\n}\n"@,
{
    "{\n  \"type\": \"commonjs\"\n}\n"
}

} // verus!
