use mermaid_render::outcome::{RenderError, RenderOutcome};
use mermaid_render::presenter::{cancel_message, opener_invocation, present, success_message};

#[test]
fn success_and_cancel_messages() {
    assert_eq!(success_message("/tmp/out/diagram.png"), "Diagram saved to /tmp/out/diagram.png");
    assert_eq!(cancel_message(), "Save cancelled by user.");
}

#[test]
fn presenting_an_outcome() {
    let ok = RenderOutcome::Success { output_path: "/a/b.png".to_string() };
    assert_eq!(present(&ok), "Diagram saved to /a/b.png");
    let failed = RenderOutcome::Failure {
        error: RenderError::MissingAsset { path: "/sb/node".to_string() },
    };
    assert_eq!(present(&failed), "Required asset missing from sandbox: /sb/node");
}

#[test]
fn io_error_message_keeps_operation_and_cause() {
    let e = RenderError::IoError {
        op: "write asset /sb/node".to_string(),
        cause: "disk full".to_string(),
    };
    assert_eq!(e.message(), "Failed to write asset /sb/node: disk full");
}

#[test]
fn opener_per_platform() {
    match opener_invocation("macos", "/a.png") {
        Some((program, args)) => {
            assert_eq!(program, "open");
            assert_eq!(args, vec!["/a.png".to_string()]);
        }
        None => panic!("expected an opener"),
    }
    match opener_invocation("windows", "/a.png") {
        Some((program, args)) => {
            assert_eq!(program, "cmd");
            assert_eq!(args, vec!["/C".to_string(), "start".to_string(), "/a.png".to_string()]);
        }
        None => panic!("expected an opener"),
    }
    match opener_invocation("linux", "/a.png") {
        Some((program, args)) => {
            assert_eq!(program, "xdg-open");
            assert_eq!(args, vec!["/a.png".to_string()]);
        }
        None => panic!("expected an opener"),
    }
}

#[test]
fn no_opener_for_unknown_platform() {
    assert!(opener_invocation("freebsd", "/a.png").is_none());
    assert!(opener_invocation("", "/a.png").is_none());
}
