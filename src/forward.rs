//! Decisions of the tasks that relay the evaluated code's output to the
//! terminal, and the normalisation of lines read without a line editor.
use vstd::prelude::*;

verus! {

/// What a forwarding task observes.
pub enum ForwardEvent {
    /// The next line arrived on the channel.
    Line(String),
    /// The channel was closed.
    Closed,
    /// Writing to the terminal failed.
    WriteFailed,
}

/// What a forwarding task does next.
pub enum ForwardAction {
    /// Write this text to the terminal stream, then wait for the next event.
    Write(String),
    /// End the task without a word.
    Stop,
}

/// A line arriving is written with a newline; a closed channel or a failed
/// write ends the task.
pub fn forward_step(event: ForwardEvent) -> (r: ForwardAction)
    ensures
        match event {
            ForwardEvent::Line(l) => r matches ForwardAction::Write(t) && t@ == l@ + "\n"@,
            _ => r is Stop,
        },
{
    match event {
        ForwardEvent::Line(l) => {
            let mut t = l;
            t.append("\n");
            ForwardAction::Write(t)
        },
        _ => ForwardAction::Stop,
    }
}

/// The Unicode line separator, which some hosts send for a newline inside a
/// submission.
pub const LINE_SEPARATOR: char = '\u{2028}';

/// Each line separator turned into a newline.
pub open spec fn normalized(line: Seq<char>) -> Seq<char> {
    line.map_values(|c: char| if c == LINE_SEPARATOR { '\n' } else { c })
}

/// Replaces each line separator of a line read straight from standard input
/// with a newline.
pub fn normalize_separators(line: &str) -> (r: String)
    ensures
        r@ == normalized(line@),
{
    let mut r = String::new();
    let n = line.unicode_len();
    let mut i: usize = 0;
    proof {
        reveal_strlit("\n");
    }
    while i < n
        invariant
            n == line@.len(),
            i <= n,
            r@ == normalized(line@.take(i as int)),
        decreases n - i,
    {
        let ghost before = r@;
        let c = line.get_char(i);
        if c == LINE_SEPARATOR {
            r.append("\n");
            proof {
                reveal_strlit("\n");
            }
            assert(r@ =~= before.push('\n'));
        } else {
            let piece = line.substring_char(i, i + 1);
            r.append(piece);
            assert(r@ =~= before.push(c));
        }
        assert(line@.take(i + 1) =~= line@.take(i as int).push(c));
        assert(normalized(line@.take(i + 1)) =~= normalized(line@.take(i as int)).push(
            if c == LINE_SEPARATOR { '\n' } else { c },
        ));
        assert(r@ =~= normalized(line@.take(i + 1)));
        i = i + 1;
    }
    assert(line@.take(n as int) =~= line@);
    r
}

} // verus!
