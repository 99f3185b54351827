use evcxr_repl::diagnostics::{render_diagnostics, Diagnostic, Span, SpannedMessage};
use evcxr_repl::forward::{forward_step, normalize_separators, ForwardAction, ForwardEvent};
use evcxr_repl::highlight::{highlight_hint, RustHighlighter};
use evcxr_repl::render::{paint, Rendering, Style};
use evcxr_repl::session::{
    next_step, ContentEntry, EngineError, ExecutionOutput, LoopStep, Phase, ReadOutcome, Session,
    FAILURE_MARKER, PROMPT, PROMPT_WIDTH, SUCCESS_MARKER,
};
use evcxr_repl::text::{decimal_text, run};
use evcxr_repl::validator::{decide, validate, wrap_in_function, Validation};

fn diagnostic(messages: Vec<SpannedMessage>) -> Diagnostic {
    Diagnostic {
        from_user_code: true,
        spanned_messages: messages,
        message: String::from("mismatched types"),
        help: vec![],
        extra_hint: None,
        rendered: String::from("error[E0308]: mismatched types"),
    }
}

fn rendered_text(errors: &Vec<Diagnostic>, width: usize) -> String {
    let mut out = Rendering::new();
    render_diagnostics(errors, width, &mut out);
    out.plain_text()
}

#[test]
fn command_is_complete() {
    assert_eq!(validate(":help"), Validation::Complete);
    assert_eq!(validate(":dep foo = { version"), Validation::Complete);
    assert_eq!(validate(":"), Validation::Complete);
}

#[test]
fn command_is_dispatched_unchanged() {
    let line = ":help";
    assert_eq!(validate(line), Validation::Complete);
    assert_eq!(normalize_separators(line), ":help");
}

#[test]
fn open_block_needs_continuation() {
    assert_eq!(validate("fn f() {"), Validation::Incomplete);
    let combined = format!("{}\n{}", "fn f() {", "}");
    assert_eq!(combined, "fn f() {\n}");
    assert_eq!(validate(&combined), Validation::Complete);
}

#[test]
fn empty_buffer_is_complete() {
    assert_eq!(validate(""), Validation::Complete);
}

#[test]
fn statements_and_partial_statements() {
    assert_eq!(validate("let x = 1;"), Validation::Complete);
    assert_eq!(validate("let x = "), Validation::Incomplete);
    assert_eq!(validate("1 + 2"), Validation::Complete);
    assert_eq!(validate("vec![1, 2"), Validation::Incomplete);
}

#[test]
fn decide_follows_parse_result() {
    assert_eq!(decide("let x = ", false), Validation::Incomplete);
    assert_eq!(decide("let x = ", true), Validation::Complete);
    assert_eq!(decide(":help", false), Validation::Complete);
    assert_eq!(decide("", false), Validation::Complete);
}

#[test]
fn wrapping_places_buffer_in_function() {
    assert_eq!(wrap_in_function("1 + 2"), "fn evcxr() { 1 + 2 }");
}

#[test]
fn caret_line_is_shifted_by_prompt() {
    let d = diagnostic(vec![SpannedMessage {
        label: String::from("expected i32"),
        span: Some(Span { start_column: 4, end_column: 7 }),
    }]);
    let text = rendered_text(&vec![d], 3);
    let first = text.lines().next().unwrap();
    assert!(first.starts_with("       ^^^"));
    assert!(!first.starts_with("        "));
    assert!(!first.starts_with("       ^^^^"));
    assert_eq!(text, "       ^^^ expected i32\nmismatched types\n");
}

#[test]
fn prompt_width_matches_prompt() {
    assert_eq!(PROMPT.len(), PROMPT_WIDTH);
}

#[test]
fn reversed_span_has_no_carets() {
    let d = diagnostic(vec![SpannedMessage {
        label: String::from("here"),
        span: Some(Span { start_column: 5, end_column: 2 }),
    }]);
    assert_eq!(rendered_text(&vec![d], 3), "         here\nmismatched types\n");
}

#[test]
fn message_without_span_shows_label_only() {
    let mut d = diagnostic(vec![SpannedMessage { label: String::from("in both"), span: None }]);
    d.help = vec![String::from("add a cast"), String::from("or change the type")];
    d.extra_hint = Some(String::from("see :explain"));
    assert_eq!(
        rendered_text(&vec![d], 3),
        "in both\nmismatched types\nhelp: add a cast\nhelp: or change the type\nsee :explain\n"
    );
}

#[test]
fn generated_code_error_shows_notice() {
    let mut d = diagnostic(vec![SpannedMessage {
        label: String::from("x"),
        span: Some(Span { start_column: 0, end_column: 1 }),
    }]);
    d.from_user_code = false;
    assert_eq!(
        rendered_text(&vec![d], 3),
        "A compilation error was found in code we generated.\nIdeally this shouldn't happen. Type :last_error_json to see details.\nerror[E0308]: mismatched types\n"
    );
}

#[test]
fn several_diagnostics_in_order() {
    let a = diagnostic(vec![]);
    let mut b = diagnostic(vec![]);
    b.message = String::from("unused variable");
    assert_eq!(rendered_text(&vec![a, b], 3), "mismatched types\nunused variable\n");
}

fn output() -> ExecutionOutput {
    ExecutionOutput {
        content: vec![
            ContentEntry { kind: String::from("text/html"), text: String::from("<b>42</b>") },
            ContentEntry { kind: String::from("text/plain"), text: String::from("42") },
        ],
        timing_millis: Some(12),
        phases: vec![
            Phase { name: String::from("Compile"), millis: 10 },
            Phase { name: String::from("Execution"), millis: 2 },
        ],
    }
}

#[test]
fn success_prints_text_and_timing() {
    let session = Session::new(false);
    let r = session.report(&Ok(output()));
    assert_eq!(r.out.plain_text(), "42\nTook 12ms\n  Compile: 10ms\n  Execution: 2ms\n");
    assert_eq!(r.err.plain_text(), "");
    assert_eq!(r.sentinel, None);
}

#[test]
fn success_without_text_or_timing_prints_nothing() {
    let session = Session::new(false);
    let o = ExecutionOutput { content: vec![], timing_millis: None, phases: vec![] };
    let r = session.report(&Ok(o));
    assert_eq!(r.out.plain_text(), "");
}

#[test]
fn ide_mode_marks_success() {
    let session = Session::new(true);
    let r = session.report(&Ok(output()));
    assert_eq!(r.sentinel, Some(SUCCESS_MARKER));
    assert_eq!(SUCCESS_MARKER, 1u8);
}

#[test]
fn ide_mode_marks_compilation_failure() {
    let session = Session::new(true);
    let d = diagnostic(vec![]);
    let r = session.report(&Err(EngineError::CompilationErrors(vec![d])));
    assert_eq!(r.sentinel, Some(FAILURE_MARKER));
    assert_eq!(FAILURE_MARKER, 2u8);
    assert_eq!(r.out.plain_text(), "mismatched types\n");
}

#[test]
fn other_error_goes_to_stderr() {
    let session = Session::new(true);
    let r = session.report(&Err(EngineError::Other(String::from("timed out"))));
    assert_eq!(r.err.plain_text(), "timed out\n");
    assert_eq!(r.out.plain_text(), "");
    assert_eq!(r.sentinel, Some(FAILURE_MARKER));
    assert_eq!(r.err.pieces[0].style, Style::Error);
}

#[test]
fn read_loop_submits_lines() {
    match next_step(ReadOutcome::Line(String::from("1 + 1"))) {
        LoopStep::Submit(l) => assert_eq!(l, "1 + 1"),
        _ => panic!("a line must be submitted"),
    }
}

#[test]
fn read_loop_interrupt_reprompts() {
    match next_step(ReadOutcome::Interrupted) {
        LoopStep::Notice(n) => assert_eq!(n, "CTRL-C"),
        _ => panic!("an interrupt must print a notice"),
    }
}

#[test]
fn read_loop_stops_at_end_and_on_errors() {
    assert!(matches!(next_step(ReadOutcome::Eof), LoopStep::Stop));
    match next_step(ReadOutcome::Failed(String::from("Io"))) {
        LoopStep::Fail(m) => assert_eq!(m, "Error: Io"),
        _ => panic!("an editor error must end the loop"),
    }
}

#[test]
fn forwarding_writes_line_with_newline() {
    match forward_step(ForwardEvent::Line(String::from("x"))) {
        ForwardAction::Write(t) => assert_eq!(t, "x\n"),
        ForwardAction::Stop => panic!("a line must be written"),
    }
    assert!(matches!(forward_step(ForwardEvent::Closed), ForwardAction::Stop));
    assert!(matches!(forward_step(ForwardEvent::WriteFailed), ForwardAction::Stop));
}

#[test]
fn forwarding_keeps_order() {
    let mut written = String::new();
    for l in ["x", "y"] {
        if let ForwardAction::Write(t) = forward_step(ForwardEvent::Line(String::from(l))) {
            written.push_str(&t);
        }
    }
    assert_eq!(written, "x\ny\n");
}

#[test]
fn line_separator_becomes_newline() {
    assert_eq!(normalize_separators("a\u{2028}b\n"), "a\nb\n");
}

#[test]
fn decimal_and_runs() {
    assert_eq!(decimal_text(0), "0");
    assert_eq!(decimal_text(1234), "1234");
    assert_eq!(run("^", 3), "^^^");
    assert_eq!(run(" ", 0), "");
}

#[test]
fn painting_keeps_text() {
    assert_eq!(paint("plain", Style::Plain), "plain");
    let red = paint("bad", Style::Error);
    assert!(red == "bad" || red == "\x1b[91mbad\x1b[0m");
    let bold = paint("help:", Style::Heading);
    assert!(bold == "help:" || bold == "\x1b[1mhelp:\x1b[0m");
    let hint = highlight_hint("hint");
    assert!(hint == "hint" || hint == "\x1b[90mhint\x1b[0m");
}

#[test]
fn highlighting_adds_escapes() {
    let h = RustHighlighter::new().expect("bundled grammar and theme");
    let line = "let x = 1;";
    let shown = h.highlight(line);
    assert_ne!(shown, line);
    assert!(shown.contains("\x1b[38;2;"));
    assert!(shown.contains("let"));
    assert_eq!(h.highlight(line), shown);
}
