//! Live highlighting of the input line, and the muted colour of hints.
use vstd::prelude::*;
use crate::render::{Style, no_escape, paint, shown_as, styled};
use syntect::highlighting::ThemeSet;
use syntect::parsing::SyntaxSet;

verus! {

#[verifier::external_type_specification]
#[verifier::external_body]
pub struct ExSyntaxSet(SyntaxSet);

#[verifier::external_type_specification]
#[verifier::external_body]
pub struct ExThemeSet(ThemeSet);

/// The line as syntect shows it in Rust syntax with the dark Solarized theme
/// of its bundled sets, as 24-bit terminal escapes; `None` when the bundled
/// sets lack that grammar or theme, or highlighting fails.
pub uninterp spec fn highlighted_rust(line: Seq<char>) -> Option<Seq<char>>;

/// Relies on `SyntaxSet::load_defaults_nonewlines`: syntect's bundled grammars.
#[verifier::external_body]
fn load_syntaxes() -> SyntaxSet {
    SyntaxSet::load_defaults_nonewlines()
}

/// Relies on `ThemeSet::load_defaults`: syntect's bundled themes.
#[verifier::external_body]
fn load_themes() -> ThemeSet {
    ThemeSet::load_defaults()
}

/// The grammar and theme data, loaded once from syntect's bundled sets and
/// only read afterwards.
pub struct RustHighlighter {
    ps: SyntaxSet,
    ts: ThemeSet,
}

/// Relies on syntect's `SyntaxSet::find_syntax_by_name`, the `themes` map,
/// `HighlightLines::highlight_line` and `as_24_bit_terminal_escaped`: `None`
/// when the Rust grammar or the theme is missing or highlighting fails, else
/// the highlighted line. The sets are the bundled ones, which only `new`
/// stores, so the result depends on the line alone.
#[verifier::external_body]
fn highlight_rust(h: &RustHighlighter, line: &str) -> (r: Option<String>)
    ensures
        match r {
            Some(s) => highlighted_rust(line@) == Some(s@),
            None => highlighted_rust(line@) is None,
        },
{
    let syntax = h.ps.find_syntax_by_name("Rust")?;
    let theme = h.ts.themes.get("Solarized (dark)")?;
    let mut lines = syntect::easy::HighlightLines::new(syntax, theme);
    let ranges = lines.highlight_line(line, &h.ps).ok()?;
    Some(syntect::util::as_24_bit_terminal_escaped(&ranges, false))
}

impl RustHighlighter {
    /// Loads the bundled data; `None`, which the caller treats as fatal, when
    /// the Rust grammar or the theme cannot be used.
    pub fn new() -> (r: Option<RustHighlighter>)
        ensures
            r is Some <==> highlighted_rust(Seq::empty()) is Some,
    {
        let h = RustHighlighter { ps: load_syntaxes(), ts: load_themes() };
        proof {
            reveal_strlit("");
            assert(""@ =~= Seq::<char>::empty());
        }
        match highlight_rust(&h, "") {
            Some(_) => Some(h),
            None => None,
        }
    }

    /// The line with terminal escapes for its syntax; the line unchanged if
    /// highlighting fails.
    pub fn highlight(&self, line: &str) -> (r: String)
        ensures
            r@ == match highlighted_rust(line@) {
                Some(h) => h,
                None => line@,
            },
    {
        match highlight_rust(self, line) {
            Some(h) => h,
            None => String::from_str(line),
        }
    }
}

/// A hint in the single muted colour that sets it apart from code.
pub fn highlight_hint(hint: &str) -> (r: String)
    ensures
        shown_as(hint@, Style::Hint, r@),
        no_escape(hint@) ==> (r@ == hint@ || r@ == styled(hint@, Style::Hint)),
{
    paint(hint, Style::Hint)
}

} // verus!
