//! Decides whether the text typed so far forms a complete submission.
use vstd::prelude::*;

verus! {

/// The character that starts a session command such as `:help`.
pub const COMMAND_PREFIX: char = ':';

/// Whether a buffer is ready to be dispatched or needs a continuation line.
#[derive(PartialEq, Eq, Structural, Clone, Copy, Debug)]
pub enum Validation {
    Complete,
    Incomplete,
}

/// Whether `code` parses as exactly one Rust statement.
pub uninterp spec fn parses_as_stmt(code: Seq<char>) -> bool;

/// Relies on `syn::parse_str::<syn::Stmt>`: whether the text parses as one
/// statement, which depends on the text alone.
#[verifier::external_body]
fn parse_stmt(code: &str) -> (r: bool)
    ensures
        r == parses_as_stmt(code@),
{
    syn::parse_str::<syn::Stmt>(code).is_ok()
}

/// A buffer that starts with the command prefix.
pub open spec fn is_command(buffer: Seq<char>) -> bool {
    buffer.len() > 0 && buffer[0] == COMMAND_PREFIX
}

/// The buffer placed as the body of a synthetic function.
pub open spec fn wrapped(buffer: Seq<char>) -> Seq<char> {
    "fn evcxr() { "@ + buffer + " }"@
}

/// The decision, given whether the wrapped buffer parsed.
pub open spec fn validation_of(buffer: Seq<char>, parsed: bool) -> Validation {
    if is_command(buffer) || buffer.len() == 0 || parsed {
        Validation::Complete
    } else {
        Validation::Incomplete
    }
}

/// The decision that `validate` makes for a buffer.
pub open spec fn validation(buffer: Seq<char>) -> Validation {
    validation_of(buffer, parses_as_stmt(wrapped(buffer)))
}

/// Builds the text handed to the parser: the buffer as a function body.
pub fn wrap_in_function(buffer: &str) -> (r: String)
    ensures
        r@ == wrapped(buffer@),
{
    let mut code = String::from_str("fn evcxr() { ");
    code.append(buffer);
    code.append(" }");
    code
}

/// The decision for a buffer whose wrapped form did (`parsed`) or did not parse.
pub fn decide(buffer: &str, parsed: bool) -> (r: Validation)
    ensures
        r == validation_of(buffer@, parsed),
{
    let n = buffer.unicode_len();
    if n == 0 {
        Validation::Complete
    } else if buffer.get_char(0) == COMMAND_PREFIX {
        Validation::Complete
    } else if parsed {
        Validation::Complete
    } else {
        Validation::Incomplete
    }
}

/// Commands and empty buffers are complete; anything else is complete
/// exactly when it parses as one statement inside a function body.
pub fn validate(buffer: &str) -> (r: Validation)
    ensures
        r == validation(buffer@),
{
    let code = wrap_in_function(buffer);
    let parsed = parse_stmt(code.as_str());
    decide(buffer, parsed)
}

/// A buffer that starts with the command prefix is complete, whatever follows.
pub proof fn lemma_command_is_complete(buffer: Seq<char>)
    requires
        is_command(buffer),
    ensures
        validation(buffer) == Validation::Complete,
{
}

/// A non-empty buffer that is no command is complete if and only if it parses
/// as one statement when wrapped in a function body.
pub proof fn lemma_complete_iff_parses(buffer: Seq<char>)
    requires
        !is_command(buffer),
        buffer.len() > 0,
    ensures
        validation(buffer) == Validation::Complete <==> parses_as_stmt(wrapped(buffer)),
        validation(buffer) == Validation::Incomplete <==> !parses_as_stmt(wrapped(buffer)),
{
}

} // verus!
