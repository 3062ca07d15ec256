use vstd::prelude::*;

verus! {

/// The colour a piece of text is shown in.
#[derive(Debug, Clone, Copy, PartialEq, Eq, Structural)]
pub enum Color {
    Normal,
    Red,
    Green,
    Yellow,
    Cyan,
}

/// How a piece of text is shown. It changes the look only, never the text.
#[derive(Debug, Clone, Copy, PartialEq, Eq, Structural)]
pub struct Style {
    pub color: Color,
    pub bold: bool,
    pub italic: bool,
}

impl Style {
    /// Text in `color`, neither bold nor italic.
    pub fn plain(color: Color) -> (r: Style)
        ensures
            r == (Style { color, bold: false, italic: false }),
    {
        Style { color, bold: false, italic: false }
    }

    /// Bold text in `color`.
    pub fn bold(color: Color) -> (r: Style)
        ensures
            r == (Style { color, bold: true, italic: false }),
    {
        Style { color, bold: true, italic: false }
    }

    /// Italic text in the terminal's own colour.
    pub fn italic() -> (r: Style)
        ensures
            r == (Style { color: Color::Normal, bold: false, italic: true }),
    {
        Style { color: Color::Normal, bold: false, italic: true }
    }
}

/// A piece of text together with its style.
pub struct Segment {
    pub text: String,
    pub style: Style,
}

/// A value that can be shown as text in a style.
pub trait ColoredOutput {
    /// The text the value is shown as.
    spec fn text_of(&self) -> Seq<char>;

    /// The value's text, with no style.
    fn to_text(&self) -> (r: String)
        ensures
            r@ == self.text_of();

    /// The value's text in `style`.
    fn to_colored(&self, style: Style) -> (r: Segment)
        ensures
            r.text@ == self.text_of(),
            r.style == style;
}

/// The character of a single decimal digit.
pub open spec fn digit_char(d: nat) -> char {
    if d == 0 { '0' }
    else if d == 1 { '1' }
    else if d == 2 { '2' }
    else if d == 3 { '3' }
    else if d == 4 { '4' }
    else if d == 5 { '5' }
    else if d == 6 { '6' }
    else if d == 7 { '7' }
    else if d == 8 { '8' }
    else { '9' }
}

/// `n` written in base ten, with no leading zero.
pub open spec fn decimal_spec(n: nat) -> Seq<char>
    decreases n,
{
    if n < 10 {
        seq![digit_char(n)]
    } else {
        decimal_spec(n / 10).push(digit_char(n % 10))
    }
}

fn digit_text(d: u32) -> (r: &'static str)
    requires
        d < 10,
    ensures
        r@ == seq![digit_char(d as nat)],
{
    proof {
        reveal_strlit("0");
        reveal_strlit("1");
        reveal_strlit("2");
        reveal_strlit("3");
        reveal_strlit("4");
        reveal_strlit("5");
        reveal_strlit("6");
        reveal_strlit("7");
        reveal_strlit("8");
        reveal_strlit("9");
    }
    let r = match d {
        0 => "0",
        1 => "1",
        2 => "2",
        3 => "3",
        4 => "4",
        5 => "5",
        6 => "6",
        7 => "7",
        8 => "8",
        _ => "9",
    };
    assert(r@ =~= seq![digit_char(d as nat)]);
    r
}

/// `n` written in base ten.
pub fn decimal(n: u32) -> (r: String)
    ensures
        r@ == decimal_spec(n as nat),
    decreases n,
{
    if n < 10 {
        String::from_str(digit_text(n))
    } else {
        let high = decimal(n / 10);
        let r = high.concat(digit_text(n % 10));
        assert(r@ =~= decimal_spec(n as nat));
        r
    }
}

impl<'a> ColoredOutput for &'a str {
    open spec fn text_of(&self) -> Seq<char> {
        (*self)@
    }

    fn to_text(&self) -> (r: String) {
        String::from_str(*self)
    }

    fn to_colored(&self, style: Style) -> (r: Segment) {
        Segment { text: self.to_text(), style }
    }
}

impl ColoredOutput for String {
    open spec fn text_of(&self) -> Seq<char> {
        self@
    }

    fn to_text(&self) -> (r: String) {
        self.clone()
    }

    fn to_colored(&self, style: Style) -> (r: Segment) {
        Segment { text: self.to_text(), style }
    }
}

impl ColoredOutput for u32 {
    open spec fn text_of(&self) -> Seq<char> {
        decimal_spec(*self as nat)
    }

    fn to_text(&self) -> (r: String) {
        decimal(*self)
    }

    fn to_colored(&self, style: Style) -> (r: Segment) {
        Segment { text: self.to_text(), style }
    }
}

} // verus!
