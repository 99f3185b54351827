//! Styled output: a sequence of text pieces, each with a terminal style.
use vstd::prelude::*;

verus! {

/// How a piece of output is shown on a terminal.
#[derive(PartialEq, Eq, Structural, Clone, Copy, Debug)]
pub enum Style {
    /// No colour.
    Plain,
    /// Bright red: error messages and carets.
    Error,
    /// Bright blue: labels of spanned messages.
    Label,
    /// Bold: the `help:` marker.
    Heading,
    /// Blue: timing lines.
    Timing,
    /// Bright black: inline hints.
    Hint,
}

/// One piece of output text with its style.
pub struct Piece {
    pub text: String,
    pub style: Style,
}

impl View for Piece {
    type V = (Seq<char>, Style);

    open spec fn view(&self) -> (Seq<char>, Style) {
        (self.text@, self.style)
    }
}

/// Output built up piece by piece, in the order it is to be written.
pub struct Rendering {
    pub pieces: Vec<Piece>,
}

impl View for Rendering {
    type V = Seq<(Seq<char>, Style)>;

    open spec fn view(&self) -> Seq<(Seq<char>, Style)> {
        self.pieces@.map_values(|p: Piece| p@)
    }
}

/// The text of a sequence of pieces, styles left out.
pub open spec fn text_of(ps: Seq<(Seq<char>, Style)>) -> Seq<char>
    decreases ps.len(),
{
    if ps.len() == 0 {
        Seq::empty()
    } else {
        text_of(ps.drop_last()) + ps.last().0
    }
}

/// Text that holds no escape character.
pub open spec fn no_escape(t: Seq<char>) -> bool {
    forall|k: int| 0 <= k < t.len() ==> t[k] != '\x1b'
}

/// The terminal's select-graphic-rendition code for a style: bright red 91,
/// bright blue 94, bold 1, blue 34, bright black 90; none for plain text.
pub open spec fn style_code(style: Style) -> Seq<char> {
    match style {
        Style::Plain => Seq::empty(),
        Style::Error => seq!['9', '1'],
        Style::Label => seq!['9', '4'],
        Style::Heading => seq!['1'],
        Style::Timing => seq!['3', '4'],
        Style::Hint => seq!['9', '0'],
    }
}

/// `t` between the style sequence for `style` and a reset.
pub open spec fn styled(t: Seq<char>, style: Style) -> Seq<char> {
    seq!['\x1b', '['] + style_code(style) + seq!['m'] + t + seq!['\x1b', '[', '0', 'm']
}

/// `r` shows `t` in `style`: plain text unchanged; styled text either
/// unchanged, where the terminal gets no colours, or between the style's
/// sequence and a reset (stated for text without escapes of its own).
pub open spec fn shown_as(t: Seq<char>, style: Style, r: Seq<char>) -> bool {
    if style == Style::Plain {
        r == t
    } else {
        no_escape(t) ==> (r == t || r == styled(t, style))
    }
}

/// The texts one after another.
pub open spec fn concat(ts: Seq<Seq<char>>) -> Seq<char>
    decreases ts.len(),
{
    if ts.len() == 0 {
        Seq::empty()
    } else {
        concat(ts.drop_last()) + ts.last()
    }
}

/// `r` is the pieces shown one after another, each in its own style.
pub open spec fn painted_as(ps: Seq<(Seq<char>, Style)>, r: Seq<char>) -> bool {
    exists|shown: Seq<Seq<char>>|
        shown.len() == ps.len() && r == concat(shown) && forall|j: int|
            0 <= j < ps.len() ==> shown_as(ps[j].0, ps[j].1, #[trigger] shown[j])
}

/// Relies on colored's `Colorize::color` and the `Display` of `ColoredString`:
/// the text alone when colouring is off, else `ESC [ <code> m`, the text (its
/// own reset sequences re-styled) and `ESC [ 0 m`, where the code of bright
/// red is 91, bright blue 94, blue 34 and bright black 90.
#[verifier::external_body]
fn paint_color(text: &str, style: Style) -> (r: String)
    requires
        style != Style::Plain,
        style != Style::Heading,
    ensures
        no_escape(text@) ==> (r@ == text@ || r@ == styled(text@, style)),
{
    let color = match style {
        Style::Error => colored::Color::BrightRed,
        Style::Label => colored::Color::BrightBlue,
        Style::Timing => colored::Color::Blue,
        Style::Hint => colored::Color::BrightBlack,
        Style::Plain | Style::Heading => colored::Color::White,
    };
    colored::Colorize::color(text, color).to_string()
}

/// Relies on colored's `Colorize::bold` and the `Display` of `ColoredString`,
/// as for `paint_color`, with the code 1.
#[verifier::external_body]
fn paint_bold(text: &str) -> (r: String)
    ensures
        no_escape(text@) ==> (r@ == text@ || r@ == styled(text@, Style::Heading)),
{
    colored::Colorize::bold(text).to_string()
}

/// The text shown in a style on a terminal.
pub fn paint(text: &str, style: Style) -> (r: String)
    ensures
        shown_as(text@, style, r@),
{
    match style {
        Style::Plain => String::from_str(text),
        Style::Heading => paint_bold(text),
        _ => paint_color(text, style),
    }
}

impl Rendering {
    pub fn new() -> (r: Rendering)
        ensures
            r@ == Seq::<(Seq<char>, Style)>::empty(),
    {
        let r = Rendering { pieces: Vec::new() };
        assert(r@ =~= Seq::<(Seq<char>, Style)>::empty());
        r
    }

    /// Appends one piece.
    pub fn emit(&mut self, text: String, style: Style)
        ensures
            final(self)@ == old(self)@.push((text@, style)),
    {
        let ghost before = self@;
        self.pieces.push(Piece { text, style });
        assert(self@ =~= before.push((text@, style)));
    }

    /// Appends one piece holding a copy of `text`.
    pub fn emit_str(&mut self, text: &str, style: Style)
        ensures
            final(self)@ == old(self)@.push((text@, style)),
    {
        self.emit(String::from_str(text), style);
    }

    /// The text of all pieces, without styling.
    pub fn plain_text(&self) -> (r: String)
        ensures
            r@ == text_of(self@),
    {
        let mut r = String::new();
        let mut i: usize = 0;
        while i < self.pieces.len()
            invariant
                i <= self.pieces.len(),
                r@ == text_of(self@.take(i as int)),
            decreases self.pieces.len() - i,
        {
            r.append(self.pieces[i].text.as_str());
            assert(self@.take(i + 1).drop_last() =~= self@.take(i as int));
            i = i + 1;
        }
        assert(self@.take(i as int) =~= self@);
        r
    }

    /// The text of all pieces, each shown in its style.
    pub fn painted(&self) -> (r: String)
        ensures
            painted_as(self@, r@),
    {
        let mut r = String::new();
        let mut i: usize = 0;
        let ghost mut outs: Seq<Seq<char>> = Seq::empty();
        while i < self.pieces.len()
            invariant
                i <= self.pieces.len(),
                outs.len() == i,
                r@ == concat(outs),
                forall|j: int| 0 <= j < i ==> shown_as(self@[j].0, self@[j].1, #[trigger] outs[j]),
            decreases self.pieces.len() - i,
        {
            let shown = paint(self.pieces[i].text.as_str(), self.pieces[i].style);
            r.append(shown.as_str());
            proof {
                assert(outs.push(shown@).drop_last() =~= outs);
                outs = outs.push(shown@);
                assert(self@[i as int] == self.pieces@[i as int]@);
            }
            i = i + 1;
        }
        assert(r@ == concat(outs) && outs.len() == self@.len());
        r
    }
}

} // verus!
