use mermaid_render::invoker::{
    package_descriptor_content, wrapper_script_content, RenderAction, RenderEvent, RenderSession,
};
use mermaid_render::outcome::{RenderError, RenderOutcome};
use mermaid_render::presenter::present;

fn new_session(source: &str, out: &str) -> RenderSession {
    let (session, first) = RenderSession::new(source.to_string(), out.to_string());
    assert!(matches!(first, RenderAction::CreateSandbox));
    session
}

/// Drives a fresh session up to the interpreter check and returns it.
fn drive_to_interpreter_check(source: &str, out: &str, sandbox: &str) -> RenderSession {
    let mut session = new_session(source, out);
    let a = session.step(RenderEvent::SandboxCreated { path: sandbox.to_string() });
    match a {
        RenderAction::ExtractAssets { sandbox_path } => assert_eq!(sandbox_path, sandbox),
        _ => panic!("expected asset extraction"),
    }
    let a = session.step(RenderEvent::AssetsExtracted);
    match a {
        RenderAction::WriteSandboxFiles { wrapper_path, descriptor_path, input_path, input } => {
            assert_eq!(wrapper_path, format!("{}/mmdc_wrapper.js", sandbox));
            assert_eq!(descriptor_path, format!("{}/package.json", sandbox));
            assert_eq!(input_path, format!("{}/input.mmd", sandbox));
            assert_eq!(input, source);
        }
        _ => panic!("expected generated-file writes"),
    }
    let a = session.step(RenderEvent::FilesWritten);
    match a {
        RenderAction::CheckInterpreter { path } => {
            assert_eq!(path, format!("{}/node", sandbox));
        }
        _ => panic!("expected interpreter check"),
    }
    session
}

/// Drives a fresh session through a successful spawn and returns it.
fn drive_to_running(source: &str, out: &str, sandbox: &str) -> RenderSession {
    let mut session = drive_to_interpreter_check(source, out, sandbox);
    let a = session.step(RenderEvent::InterpreterPresent);
    match a {
        RenderAction::RunRenderer { program, args, working_dir } => {
            assert_eq!(program, format!("{}/node", sandbox));
            assert_eq!(
                args,
                vec![
                    format!("{}/mmdc_wrapper.js", sandbox),
                    "-i".to_string(),
                    format!("{}/input.mmd", sandbox),
                    "-o".to_string(),
                    out.to_string(),
                ]
            );
            assert_eq!(working_dir, sandbox);
        }
        _ => panic!("expected renderer run"),
    }
    session
}

fn finished(status_ok: bool, status: &str, stdout: &str, stderr: &str) -> RenderEvent {
    RenderEvent::ProcessFinished {
        exit_ok: status_ok,
        status: status.to_string(),
        stdout: stdout.to_string(),
        stderr: stderr.to_string(),
    }
}

#[test]
fn success_path_reports_the_output_file() {
    let out = "/tmp/out/diagram.png";
    let mut session = drive_to_running("flowchart TD\nA-->B", out, "/tmp/mr-1");
    let a = session.step(finished(true, "exit status: 0", "", ""));
    match a {
        RenderAction::CheckOutput { path } => assert_eq!(path, out),
        _ => panic!("expected output check"),
    }
    let a = session.step(RenderEvent::OutputPresent);
    match a {
        RenderAction::Finish { outcome } => {
            match &outcome {
                RenderOutcome::Success { output_path } => assert_eq!(output_path, out),
                _ => panic!("expected success"),
            }
            assert_eq!(present(&outcome), "Diagram saved to /tmp/out/diagram.png");
        }
        _ => panic!("expected finish"),
    }
}

#[test]
fn missing_interpreter_fails_without_spawning() {
    let mut session = drive_to_interpreter_check("flowchart TD", "/tmp/d.png", "/tmp/mr-2");
    let a = session.step(RenderEvent::InterpreterMissing);
    match a {
        RenderAction::Finish { outcome } => match outcome {
            RenderOutcome::Failure { error: RenderError::MissingAsset { path } } => {
                assert_eq!(path, "/tmp/mr-2/node");
            }
            _ => panic!("expected the missing-asset failure"),
        },
        RenderAction::RunRenderer { .. } => panic!("spawned without an interpreter"),
        _ => panic!("expected finish"),
    }
}

#[test]
fn nonzero_exit_reports_stderr_verbatim() {
    let mut session = drive_to_running("flowchart TD", "/tmp/d.png", "/tmp/mr-3");
    let a = session.step(finished(false, "exit status: 1", "partial output", "Parse error on line 2"));
    match a {
        RenderAction::Finish { outcome } => match outcome {
            RenderOutcome::Failure { error } => {
                match &error {
                    RenderError::RenderFailed { status, stdout, stderr } => {
                        assert_eq!(status, "exit status: 1");
                        assert_eq!(stdout, "partial output");
                        assert_eq!(stderr, "Parse error on line 2");
                    }
                    _ => panic!("expected the render-failed failure"),
                }
                let message = error.message();
                assert!(message.contains("Parse error on line 2"));
                assert_eq!(
                    message,
                    "Mermaid CLI failed with status exit status: 1: Parse error on line 2"
                );
            }
            _ => panic!("expected a failure"),
        },
        _ => panic!("expected finish"),
    }
}

#[test]
fn zero_exit_with_missing_artifact_is_not_success() {
    let mut session = drive_to_running("flowchart TD", "/tmp/out/d.png", "/tmp/mr-4");
    let a = session.step(finished(true, "exit status: 0", "", ""));
    assert!(matches!(a, RenderAction::CheckOutput { .. }));
    let a = session.step(RenderEvent::OutputAbsent);
    match a {
        RenderAction::Finish { outcome } => match outcome {
            RenderOutcome::Failure { error } => {
                match &error {
                    RenderError::OutputMissing { expected_path } => {
                        assert_eq!(expected_path, "/tmp/out/d.png");
                    }
                    _ => panic!("expected the output-missing failure"),
                }
                assert_eq!(error.message(), "Output file was not created at: /tmp/out/d.png");
            }
            _ => panic!("expected a failure, not success"),
        },
        _ => panic!("expected finish"),
    }
}

#[test]
fn empty_source_is_still_rendered() {
    // The invoker must not gate on content: an empty diagram goes through
    // the same protocol, and the renderer's own verdict is propagated.
    let mut session = drive_to_running("", "/tmp/d.png", "/tmp/mr-5");
    let a = session.step(finished(false, "exit status: 1", "", "No diagram found"));
    match a {
        RenderAction::Finish { outcome } => match outcome {
            RenderOutcome::Failure { error: RenderError::RenderFailed { stderr, .. } } => {
                assert_eq!(stderr, "No diagram found");
            }
            _ => panic!("expected the renderer's own failure"),
        },
        _ => panic!("expected finish"),
    }
}

#[test]
fn sandbox_creation_failure_is_an_io_error() {
    let mut session = new_session("flowchart TD", "/tmp/d.png");
    let a = session.step(RenderEvent::SandboxFailed {
        op: "create temporary directory".to_string(),
        cause: "permission denied".to_string(),
    });
    match a {
        RenderAction::Finish { outcome } => match outcome {
            RenderOutcome::Failure { error } => {
                assert_eq!(
                    error.message(),
                    "Failed to create temporary directory: permission denied"
                );
            }
            _ => panic!("expected a failure"),
        },
        _ => panic!("expected finish"),
    }
}

#[test]
fn generated_files_are_fixed() {
    let wrapper = wrapper_script_content();
    assert!(wrapper.contains("'-i'"));
    assert!(wrapper.contains("'-o'"));
    assert!(wrapper.contains("process.exit(1)"));
    let descriptor = package_descriptor_content();
    assert!(descriptor.contains("commonjs"));
}
