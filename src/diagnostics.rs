//! Renders compiler diagnostics so that carets point at the offending span of
//! the line the user typed.
use vstd::prelude::*;
use crate::render::{Rendering, Style};
use crate::text::{run, run_of};

verus! {

/// A column range of the submitted snippet, both ends counted from zero.
#[derive(PartialEq, Eq, Structural, Clone, Copy, Debug)]
pub struct Span {
    pub start_column: usize,
    pub end_column: usize,
}

/// A label, located at a span where one is known.
pub struct SpannedMessage {
    pub label: String,
    pub span: Option<Span>,
}

/// One compiler diagnostic as the engine reports it.
pub struct Diagnostic {
    /// Whether the error lies in code the user wrote rather than in code the
    /// engine generated around it.
    pub from_user_code: bool,
    pub spanned_messages: Vec<SpannedMessage>,
    pub message: String,
    pub help: Vec<String>,
    pub extra_hint: Option<String>,
    /// The compiler's own rendering, shown for errors in generated code.
    pub rendered: String,
}

/// The notice shown before a diagnostic that lies in generated code.
pub open spec fn generated_notice() -> Seq<char> {
    "A compilation error was found in code we generated.\nIdeally this shouldn't happen. Type :last_error_json to see details.\n"@
}

/// How many carets underline a span; none when it ends before it starts.
pub open spec fn caret_count(s: Span) -> nat {
    if s.end_column > s.start_column {
        (s.end_column - s.start_column) as nat
    } else {
        0
    }
}

pub open spec fn newline() -> Seq<char> {
    "\n"@
}

/// The output for one spanned message: with a span, the line of carets under
/// it, shifted right by the prompt, then the label; without one, the label.
pub open spec fn message_pieces(m: SpannedMessage, prompt_width: nat) -> Seq<(Seq<char>, Style)> {
    match m.span {
        Some(s) => seq![
            (run_of(' ', prompt_width), Style::Plain),
            (run_of(' ', s.start_column as nat), Style::Plain),
            (run_of('^', caret_count(s)), Style::Error),
            (" "@, Style::Plain),
            (m.label@, Style::Label),
            (newline(), Style::Plain),
        ],
        None => seq![(m.label@, Style::Label), (newline(), Style::Plain)],
    }
}

pub open spec fn messages_pieces(ms: Seq<SpannedMessage>, prompt_width: nat) -> Seq<(Seq<char>, Style)>
    decreases ms.len(),
{
    if ms.len() == 0 {
        Seq::empty()
    } else {
        messages_pieces(ms.drop_last(), prompt_width) + message_pieces(ms.last(), prompt_width)
    }
}

pub open spec fn help_pieces(h: Seq<char>) -> Seq<(Seq<char>, Style)> {
    seq![("help:"@, Style::Heading), (" "@, Style::Plain), (h, Style::Plain), (newline(), Style::Plain)]
}

pub open spec fn helps_pieces(hs: Seq<String>) -> Seq<(Seq<char>, Style)>
    decreases hs.len(),
{
    if hs.len() == 0 {
        Seq::empty()
    } else {
        helps_pieces(hs.drop_last()) + help_pieces(hs.last()@)
    }
}

pub open spec fn hint_pieces(hint: Option<String>) -> Seq<(Seq<char>, Style)> {
    match hint {
        Some(h) => seq![(h@, Style::Plain), (newline(), Style::Plain)],
        None => Seq::empty(),
    }
}

/// The output for one diagnostic.
pub open spec fn diagnostic_pieces(d: Diagnostic, prompt_width: nat) -> Seq<(Seq<char>, Style)> {
    if d.from_user_code {
        messages_pieces(d.spanned_messages@, prompt_width)
            + seq![(d.message@, Style::Error), (newline(), Style::Plain)]
            + helps_pieces(d.help@)
            + hint_pieces(d.extra_hint)
    } else {
        seq![(generated_notice(), Style::Plain), (d.rendered@, Style::Plain), (newline(), Style::Plain)]
    }
}

/// The output for a list of diagnostics, one after another.
pub open spec fn diagnostics_pieces(ds: Seq<Diagnostic>, prompt_width: nat) -> Seq<(Seq<char>, Style)>
    decreases ds.len(),
{
    if ds.len() == 0 {
        Seq::empty()
    } else {
        diagnostics_pieces(ds.drop_last(), prompt_width) + diagnostic_pieces(ds.last(), prompt_width)
    }
}

/// Renders one spanned message.
pub fn render_message(m: &SpannedMessage, prompt_width: usize, out: &mut Rendering)
    ensures
        final(out)@ == old(out)@ + message_pieces(*m, prompt_width as nat),
{
    let ghost before = out@;
    match m.span {
        Some(s) => {
            proof {
                reveal_strlit(" ");
                reveal_strlit("^");
            }
            out.emit(run(" ", prompt_width), Style::Plain);
            out.emit(run(" ", s.start_column), Style::Plain);
            let width: usize = if s.end_column > s.start_column {
                s.end_column - s.start_column
            } else {
                0
            };
            out.emit(run("^", width), Style::Error);
            out.emit_str(" ", Style::Plain);
            out.emit(m.label.clone(), Style::Label);
            out.emit_str("\n", Style::Plain);
            proof {
                reveal_strlit("\n");
            }
        },
        None => {
            out.emit(m.label.clone(), Style::Label);
            out.emit_str("\n", Style::Plain);
            proof {
                reveal_strlit("\n");
            }
        },
    }
    assert(out@ =~= before + message_pieces(*m, prompt_width as nat));
}

/// Renders one diagnostic: carets and labels, message, help and hint for an
/// error in user code; a notice and the compiler's rendering otherwise.
pub fn render_diagnostic(d: &Diagnostic, prompt_width: usize, out: &mut Rendering)
    ensures
        final(out)@ == old(out)@ + diagnostic_pieces(*d, prompt_width as nat),
{
    let ghost before = out@;
    proof {
        reveal_strlit("\n");
        reveal_strlit("help:");
        reveal_strlit(" ");
    }
    if d.from_user_code {
        let mut i: usize = 0;
        while i < d.spanned_messages.len()
            invariant
                i <= d.spanned_messages.len(),
                out@ == before + messages_pieces(d.spanned_messages@.take(i as int), prompt_width as nat),
            decreases d.spanned_messages.len() - i,
        {
            let ghost mid = out@;
            render_message(&d.spanned_messages[i], prompt_width, out);
            assert(d.spanned_messages@.take(i + 1).drop_last() =~= d.spanned_messages@.take(i as int));
            assert(out@ =~= before + messages_pieces(d.spanned_messages@.take(i + 1), prompt_width as nat));
            i = i + 1;
        }
        assert(d.spanned_messages@.take(i as int) =~= d.spanned_messages@);
        let ghost after_messages = out@;
        out.emit(d.message.clone(), Style::Error);
        out.emit_str("\n", Style::Plain);
        let ghost after_message = out@;
        let mut j: usize = 0;
        while j < d.help.len()
            invariant
                j <= d.help.len(),
                out@ == after_message + helps_pieces(d.help@.take(j as int)),
            decreases d.help.len() - j,
        {
            out.emit_str("help:", Style::Heading);
            out.emit_str(" ", Style::Plain);
            out.emit(d.help[j].clone(), Style::Plain);
            out.emit_str("\n", Style::Plain);
            assert(d.help@.take(j + 1).drop_last() =~= d.help@.take(j as int));
            assert(out@ =~= after_message + helps_pieces(d.help@.take(j + 1)));
            j = j + 1;
        }
        assert(d.help@.take(j as int) =~= d.help@);
        let ghost after_helps = out@;
        match &d.extra_hint {
            Some(h) => {
                out.emit(h.clone(), Style::Plain);
                out.emit_str("\n", Style::Plain);
            },
            None => {},
        }
        assert(out@ =~= after_helps + hint_pieces(d.extra_hint));
        assert(out@ =~= before + diagnostic_pieces(*d, prompt_width as nat));
    } else {
        out.emit_str(
            "A compilation error was found in code we generated.\nIdeally this shouldn't happen. Type :last_error_json to see details.\n",
            Style::Plain,
        );
        out.emit(d.rendered.clone(), Style::Plain);
        out.emit_str("\n", Style::Plain);
        assert(out@ =~= before + diagnostic_pieces(*d, prompt_width as nat));
    }
}

/// Renders each diagnostic in turn; `prompt_width` is the width of the prompt
/// the snippet was typed after, so that carets line up with the input.
pub fn render_diagnostics(errors: &Vec<Diagnostic>, prompt_width: usize, out: &mut Rendering)
    ensures
        final(out)@ == old(out)@ + diagnostics_pieces(errors@, prompt_width as nat),
{
    let ghost before = out@;
    let mut i: usize = 0;
    while i < errors.len()
        invariant
            i <= errors.len(),
            out@ == before + diagnostics_pieces(errors@.take(i as int), prompt_width as nat),
        decreases errors.len() - i,
    {
        render_diagnostic(&errors[i], prompt_width, out);
        assert(errors@.take(i + 1).drop_last() =~= errors@.take(i as int));
        assert(out@ =~= before + diagnostics_pieces(errors@.take(i + 1), prompt_width as nat));
        i = i + 1;
    }
    assert(errors@.take(i as int) =~= errors@);
}

} // verus!
