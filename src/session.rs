//! The session controller's decisions: what to print for each engine outcome,
//! and which completion marker follows it in IDE mode.
use vstd::prelude::*;
use crate::diagnostics::{Diagnostic, diagnostics_pieces, newline, render_diagnostics};
use crate::render::{Rendering, Style};
use crate::text::{decimal, decimal_text};

verus! {

/// The prompt printed before each line is read.
pub const PROMPT: &'static str = ">> ";

/// The number of columns the prompt takes.
pub const PROMPT_WIDTH: usize = 3;

/// The command issued once at startup to load the user's configuration.
pub const STARTUP_COMMAND: &'static str = ":load_config";

/// The byte written after a snippet that ran successfully, in IDE mode.
pub const SUCCESS_MARKER: u8 = 1;

/// The byte written after a snippet that failed, in IDE mode.
pub const FAILURE_MARKER: u8 = 2;

/// One rendering of a result, labelled with its content kind.
pub struct ContentEntry {
    pub kind: String,
    pub text: String,
}

/// A named phase of the engine's work and how long it took.
pub struct Phase {
    pub name: String,
    pub millis: u64,
}

/// What the engine returns for a snippet that ran.
pub struct ExecutionOutput {
    /// Renderings by content kind; where a kind occurs more than once, the
    /// first entry of that kind is the one shown.
    pub content: Vec<ContentEntry>,
    /// Total duration in milliseconds, when timing is switched on.
    pub timing_millis: Option<u64>,
    pub phases: Vec<Phase>,
}

/// Why the engine could not run a snippet.
pub enum EngineError {
    CompilationErrors(Vec<Diagnostic>),
    Other(String),
}

/// What one call of the engine leads to: text for standard output and
/// standard error, and the marker byte that closes the response.
pub struct Report {
    pub out: Rendering,
    pub err: Rendering,
    pub sentinel: Option<u8>,
}

/// A session: the mode the controller runs in.
pub struct Session {
    /// Whether each response is closed by a marker byte for a host process.
    pub ide_mode: bool,
}

/// The content kind of plain text.
pub open spec fn plain_kind() -> Seq<char> {
    "text/plain"@
}

/// The text of the first entry from index `i` on whose kind is plain text.
pub open spec fn plain_text_from(cs: Seq<ContentEntry>, i: int) -> Option<Seq<char>>
    decreases cs.len() - i,
{
    if i < 0 || i >= cs.len() {
        None
    } else if cs[i].kind@ == plain_kind() {
        Some(cs[i].text@)
    } else {
        plain_text_from(cs, i + 1)
    }
}

/// The plain-text rendering of a result, if it has one.
pub open spec fn plain_text(o: ExecutionOutput) -> Option<Seq<char>> {
    plain_text_from(o.content@, 0)
}

pub open spec fn phase_line(p: Phase) -> Seq<char> {
    "  "@ + p.name@ + ": "@ + decimal(p.millis as nat) + "ms"@
}

pub open spec fn phases_pieces(ps: Seq<Phase>) -> Seq<(Seq<char>, Style)>
    decreases ps.len(),
{
    if ps.len() == 0 {
        Seq::empty()
    } else {
        phases_pieces(ps.drop_last()) + seq![(phase_line(ps.last()), Style::Timing), (newline(), Style::Plain)]
    }
}

/// The output for a successful run: the plain text, if any, then the total
/// time and each phase's time, if timing was taken.
pub open spec fn success_pieces(o: ExecutionOutput) -> Seq<(Seq<char>, Style)> {
    let text_part = match plain_text(o) {
        Some(t) => seq![(t, Style::Plain), (newline(), Style::Plain)],
        None => Seq::empty(),
    };
    let timing_part = match o.timing_millis {
        Some(ms) => seq![("Took "@ + decimal(ms as nat) + "ms"@, Style::Timing), (newline(), Style::Plain)]
            + phases_pieces(o.phases@),
        None => Seq::empty(),
    };
    text_part + timing_part
}

/// The marker that closes a response: none outside IDE mode.
pub open spec fn sentinel_for(ide_mode: bool, success: bool) -> Option<u8> {
    if !ide_mode {
        None
    } else if success {
        Some(SUCCESS_MARKER)
    } else {
        Some(FAILURE_MARKER)
    }
}

/// Finds the plain-text rendering of a result.
pub fn find_plain_text(o: &ExecutionOutput) -> (r: Option<&String>)
    ensures
        match r {
            Some(t) => plain_text(*o) == Some(t@),
            None => plain_text(*o) is None,
        },
{
    let key = String::from_str("text/plain");
    let mut i: usize = 0;
    while i < o.content.len()
        invariant
            i <= o.content.len(),
            key@ == plain_kind(),
            plain_text_from(o.content@, 0) == plain_text_from(o.content@, i as int),
        decreases o.content.len() - i,
    {
        if o.content[i].kind == key {
            return Some(&o.content[i].text);
        }
        i = i + 1;
    }
    None
}

/// Renders a successful result.
pub fn render_success(o: &ExecutionOutput, out: &mut Rendering)
    ensures
        final(out)@ == old(out)@ + success_pieces(*o),
{
    let ghost before = out@;
    proof {
        reveal_strlit("\n");
    }
    match find_plain_text(o) {
        Some(t) => {
            out.emit(t.clone(), Style::Plain);
            out.emit_str("\n", Style::Plain);
        },
        None => {},
    }
    let ghost after_text = out@;
    match o.timing_millis {
        Some(ms) => {
            let mut line = String::from_str("Took ");
            let digits = decimal_text(ms);
            line.append(digits.as_str());
            line.append("ms");
            out.emit(line, Style::Timing);
            out.emit_str("\n", Style::Plain);
            let ghost after_total = out@;
            let mut i: usize = 0;
            while i < o.phases.len()
                invariant
                    i <= o.phases.len(),
                    out@ == after_total + phases_pieces(o.phases@.take(i as int)),
                decreases o.phases.len() - i,
            {
                let p = &o.phases[i];
                let mut line = String::from_str("  ");
                line.append(p.name.as_str());
                line.append(": ");
                let digits = decimal_text(p.millis);
                line.append(digits.as_str());
                line.append("ms");
                out.emit(line, Style::Timing);
                out.emit_str("\n", Style::Plain);
                assert(o.phases@.take(i + 1).drop_last() =~= o.phases@.take(i as int));
                assert(out@ =~= after_total + phases_pieces(o.phases@.take(i + 1)));
                i = i + 1;
            }
            assert(o.phases@.take(i as int) =~= o.phases@);
        },
        None => {},
    }
    assert(out@ =~= before + success_pieces(*o));
}

/// What one read of the line editor gave.
pub enum ReadOutcome {
    /// A complete submission.
    Line(String),
    /// The user interrupted the read.
    Interrupted,
    /// The input ended.
    Eof,
    /// Any other editor error, described.
    Failed(String),
}

/// What the read loop does next.
pub enum LoopStep {
    /// Record the line in history, hand it to the engine, then read again.
    Submit(String),
    /// Print this notice, then read again.
    Notice(String),
    /// Leave the loop; history is saved on the way out.
    Stop,
    /// Print this message on standard error and leave the loop.
    Fail(String),
}

/// A submission goes to the engine; an interrupt only aborts the read; the
/// end of input ends the session; any other editor error is fatal.
pub fn next_step(o: ReadOutcome) -> (r: LoopStep)
    ensures
        match o {
            ReadOutcome::Line(l) => r matches LoopStep::Submit(t) && t@ == l@,
            ReadOutcome::Interrupted => r matches LoopStep::Notice(n) && n@ == "CTRL-C"@,
            ReadOutcome::Eof => r is Stop,
            ReadOutcome::Failed(e) => r matches LoopStep::Fail(m) && m@ == "Error: "@ + e@,
        },
{
    match o {
        ReadOutcome::Line(l) => LoopStep::Submit(l),
        ReadOutcome::Interrupted => LoopStep::Notice(String::from_str("CTRL-C")),
        ReadOutcome::Eof => LoopStep::Stop,
        ReadOutcome::Failed(e) => {
            let mut m = String::from_str("Error: ");
            m.append(e.as_str());
            LoopStep::Fail(m)
        },
    }
}

impl Session {
    pub fn new(ide_mode: bool) -> (r: Session)
        ensures
            r.ide_mode == ide_mode,
    {
        Session { ide_mode }
    }

    /// What to print for one engine outcome: the result on success; the
    /// rendered diagnostics for compilation errors; the message, on standard
    /// error, for any other error. In IDE mode the report carries exactly one
    /// marker, the failure marker if and only if the engine failed.
    pub fn report(&self, outcome: &Result<ExecutionOutput, EngineError>) -> (r: Report)
        ensures
            r.sentinel == sentinel_for(self.ide_mode, outcome is Ok),
            match outcome {
                Ok(o) => r.out@ == success_pieces(*o) && r.err@.len() == 0,
                Err(EngineError::CompilationErrors(ds)) => r.out@ == diagnostics_pieces(ds@, PROMPT_WIDTH as nat)
                    && r.err@.len() == 0,
                Err(EngineError::Other(m)) => r.out@.len() == 0
                    && r.err@ == seq![(m@, Style::Error), (newline(), Style::Plain)],
            },
    {
        let mut out = Rendering::new();
        let mut err = Rendering::new();
        let success = match outcome {
            Ok(o) => {
                render_success(o, &mut out);
                assert(out@ =~= success_pieces(*o));
                true
            },
            Err(EngineError::CompilationErrors(ds)) => {
                render_diagnostics(ds, PROMPT_WIDTH, &mut out);
                assert(out@ =~= diagnostics_pieces(ds@, PROMPT_WIDTH as nat));
                false
            },
            Err(EngineError::Other(m)) => {
                err.emit(m.clone(), Style::Error);
                err.emit_str("\n", Style::Plain);
                proof {
                    reveal_strlit("\n");
                }
                assert(err@ =~= seq![(m@, Style::Error), (newline(), Style::Plain)]);
                false
            },
        };
        let sentinel = if !self.ide_mode {
            None
        } else if success {
            Some(SUCCESS_MARKER)
        } else {
            Some(FAILURE_MARKER)
        };
        Report { out, err, sentinel }
    }
}

} // verus!
