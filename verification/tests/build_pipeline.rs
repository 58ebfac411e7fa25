use glboot::diag::{extract_diagnostic, DiagOutcome};
use glboot::shader::{compile_shader, link_program, BuildError, DriverReply};
use glboot::{StageKind, STATUS_OK};

fn raw_log(text: &str) -> Vec<u8> {
    let mut v = text.as_bytes().to_vec();
    v.push(0);
    v
}

#[test]
fn success_status_needs_no_log() {
    let r = extract_diagnostic(STATUS_OK, Vec::new());
    assert!(matches!(r, DiagOutcome::Success));
}

#[test]
fn failing_status_yields_trimmed_text() {
    let raw = raw_log("0:1(5): error: syntax error");
    let raw_len = raw.len();
    match extract_diagnostic(0, raw) {
        DiagOutcome::Failure(text) => {
            assert_eq!(text, "0:1(5): error: syntax error");
            assert_eq!(text.len(), raw_len - 1);
            assert!(!text.is_empty());
        }
        _ => panic!("expected a diagnostic"),
    }
}

#[test]
fn failing_status_decodes_multibyte_text() {
    let raw = raw_log("sch\u{f6}n kaputt");
    match extract_diagnostic(0, raw) {
        DiagOutcome::Failure(text) => assert_eq!(text, "sch\u{f6}n kaputt"),
        _ => panic!("expected a diagnostic"),
    }
}

#[test]
fn terminator_only_log_gives_empty_text() {
    match extract_diagnostic(0, vec![0u8]) {
        DiagOutcome::Failure(text) => assert_eq!(text, ""),
        _ => panic!("expected a diagnostic"),
    }
}

#[test]
fn invalid_text_is_a_distinct_failure() {
    match extract_diagnostic(0, vec![0xFF, 0xFE, 0]) {
        DiagOutcome::BadEncoding => {}
        _ => panic!("expected the encoding failure"),
    }
}

#[test]
fn compile_success_returns_the_shader() {
    let reply = DriverReply { status: STATUS_OK, info_log: Vec::new() };
    let s = compile_shader(7, StageKind::Vertex, reply).expect("compile should succeed");
    assert_eq!(s.handle(), 7);
    assert_eq!(s.stage(), StageKind::Vertex);
}

#[test]
fn compile_failure_carries_the_literal_text() {
    let reply = DriverReply { status: 0, info_log: raw_log("bad token") };
    match compile_shader(3, StageKind::Fragment, reply) {
        Err(BuildError::CompileFailed(text)) => assert_eq!(text, "bad token"),
        _ => panic!("expected a compile failure"),
    }
}

#[test]
fn compile_failure_with_bad_log_encoding() {
    let reply = DriverReply { status: 0, info_log: vec![0x80, 0] };
    match compile_shader(3, StageKind::Vertex, reply) {
        Err(BuildError::LogNotText) => {}
        _ => panic!("expected the log-encoding failure"),
    }
}

#[test]
fn link_success_returns_a_usable_program() {
    let vs = compile_shader(
        1,
        StageKind::Vertex,
        DriverReply { status: STATUS_OK, info_log: Vec::new() },
    )
    .unwrap();
    let fs = compile_shader(
        2,
        StageKind::Fragment,
        DriverReply { status: STATUS_OK, info_log: Vec::new() },
    )
    .unwrap();
    let p = link_program(9, &vs, &fs, DriverReply { status: STATUS_OK, info_log: Vec::new() })
        .expect("link should succeed");
    assert_eq!(p.handle(), 9);
}

#[test]
fn link_failure_carries_the_literal_text() {
    let vs = compile_shader(
        1,
        StageKind::Vertex,
        DriverReply { status: STATUS_OK, info_log: Vec::new() },
    )
    .unwrap();
    let fs = compile_shader(
        2,
        StageKind::Fragment,
        DriverReply { status: STATUS_OK, info_log: Vec::new() },
    )
    .unwrap();
    match link_program(9, &vs, &fs, DriverReply { status: 0, info_log: raw_log("unresolved") }) {
        Err(BuildError::LinkFailed(text)) => assert_eq!(text, "unresolved"),
        _ => panic!("expected a link failure"),
    }
}

// A shader source with a syntax error terminates the build with the
// compiler's literal error text and never reaches the linker: the failing
// compile yields no ShaderObject, so there is nothing a link step could be
// given.
#[test]
fn syntax_error_stops_before_the_linker() {
    let driver_text = "0:3(1): error: syntax error, unexpected IDENTIFIER";
    let reply = DriverReply { status: 0, info_log: raw_log(driver_text) };
    let compiled = compile_shader(4, StageKind::Vertex, reply);
    let mut printed: Option<String> = None;
    let mut linked = false;
    match compiled {
        Ok(vs) => {
            // Only this arm may link; it is not reached.
            let fs = compile_shader(
                5,
                StageKind::Fragment,
                DriverReply { status: STATUS_OK, info_log: Vec::new() },
            )
            .unwrap();
            let _ = link_program(6, &vs, &fs, DriverReply { status: STATUS_OK, info_log: Vec::new() });
            linked = true;
        }
        Err(BuildError::CompileFailed(text)) => printed = Some(text),
        Err(_) => panic!("expected a compile failure"),
    }
    assert!(!linked);
    assert_eq!(printed.as_deref(), Some(driver_text));
}
