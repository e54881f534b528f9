use vstd::prelude::*;
use vstd::seq_lib::lemma_concat_associative;

verus! {

/// Bold weight.
pub const GLYPH_BOLD: u8 = 0b1;
/// Gives the light version of the font, if available.
pub const GLYPH_LIGHT: u8 = 0b10;
/// Not supported everywhere.
pub const GLYPH_ITALIC: u8 = 0b100;
/// Underline.
pub const GLYPH_LINE: u8 = 0b1000;
/// Strike-through.
pub const GLYPH_STRIKE: u8 = 0b10000;
/// Blink a terminal defined time.
pub const GLYPH_BLINK: u8 = 0b100000;

/// A cell color: the terminal's default, one of eight bright or eight dim
/// palette colors, or a 24-bit RGB triple.
#[derive(Copy, Clone, Debug, PartialEq, Eq, Structural)]
pub enum Color {
    Default,

    Black,
    Red,
    Green,
    Yellow,
    Blue,
    Purple,
    Cyan,
    White,

    DBlack,
    DRed,
    DGreen,
    DYellow,
    DBlue,
    DPurple,
    DCyan,
    DWhite,

    /// Full RGB, may not be supported by every terminal.
    RGB(u8, u8, u8),
}

/// One terminal cell. A null character marks a blank cell, whose colors and
/// flags are not rendered.
#[derive(Copy, Clone, Debug, PartialEq, Eq, Structural)]
pub struct Glyph {
    pub c: char,
    pub fl: u8,
    pub fg: Color,
    pub bg: Color,
}

/// The glyph of a character with no flags and default colors.
pub open spec fn plain(c: char) -> Glyph {
    Glyph { c, fl: 0, fg: Color::Default, bg: Color::Default }
}

/// The blank cell.
pub open spec fn blank() -> Glyph {
    plain('\0')
}

impl From<char> for Glyph {
    fn from(c: char) -> (r: Self)
        ensures
            r == plain(c),
    {
        Glyph { c, fl: 0, fg: Color::Default, bg: Color::Default }
    }
}

impl vstd::std_specs::convert::FromSpecImpl<char> for Glyph {
    open spec fn obeys_from_spec() -> bool {
        true
    }

    open spec fn from_spec(c: char) -> Glyph {
        plain(c)
    }
}

/// Bright palette colors.
pub open spec fn is_bright(c: Color) -> bool {
    match c {
        Color::Black | Color::Red | Color::Green | Color::Yellow | Color::Blue | Color::Purple
        | Color::Cyan | Color::White => true,
        _ => false,
    }
}

/// Dim palette colors.
pub open spec fn is_dim(c: Color) -> bool {
    match c {
        Color::DBlack | Color::DRed | Color::DGreen | Color::DYellow | Color::DBlue
        | Color::DPurple | Color::DCyan | Color::DWhite => true,
        _ => false,
    }
}

/// Position in the palette order Black, Red, Green, Yellow, Blue, Purple, Cyan, White.
pub open spec fn palette_index(c: Color) -> nat {
    match c {
        Color::Black | Color::DBlack => 0,
        Color::Red | Color::DRed => 1,
        Color::Green | Color::DGreen => 2,
        Color::Yellow | Color::DYellow => 3,
        Color::Blue | Color::DBlue => 4,
        Color::Purple | Color::DPurple => 5,
        Color::Cyan | Color::DCyan => 6,
        _ => 7,
    }
}

/// SGR code of a palette color: backgrounds 100-107 bright and 40-47 dim,
/// foregrounds 90-97 bright and 30-37 dim.
pub open spec fn palette_code(c: Color, background: bool) -> nat {
    let base: nat = if background {
        if is_bright(c) { 100 } else { 40 }
    } else {
        if is_bright(c) { 90 } else { 30 }
    };
    base + palette_index(c)
}

/// The decimal digit character of `d < 10`.
pub open spec fn digit(d: nat) -> char {
    seq!['0', '1', '2', '3', '4', '5', '6', '7', '8', '9'][d as int]
}

/// Decimal notation of `n`, without leading zeros.
pub open spec fn decimal(n: nat) -> Seq<char>
    decreases n,
{
    if n < 10 {
        seq![digit(n)]
    } else {
        decimal(n / 10).push(digit(n % 10))
    }
}

/// One SGR parameter: a separator followed by the number.
pub open spec fn param(n: nat) -> Seq<char> {
    seq![';'] + decimal(n)
}

/// The SGR parameters that select color `c` for the background or the foreground.
pub open spec fn color_params(c: Color, background: bool) -> Seq<char> {
    match c {
        Color::Default => Seq::empty(),
        Color::RGB(r, g, b) => param(if background { 48 } else { 38 }) + param(2) + param(r as nat)
            + param(g as nat) + param(b as nat),
        _ => param(palette_code(c, background)),
    }
}

/// The parameter `n` if `on`, else nothing.
pub open spec fn param_if(on: bool, n: nat) -> Seq<char> {
    if on { param(n) } else { Seq::empty() }
}

/// The SGR parameters of the attribute flags, in the order bold, light,
/// italic, underline, blink, strike.
pub open spec fn flag_params(fl: u8) -> Seq<char> {
    param_if(fl & GLYPH_BOLD != 0, 1) + param_if(fl & GLYPH_LIGHT != 0, 2) + param_if(
        fl & GLYPH_ITALIC != 0,
        3,
    ) + param_if(fl & GLYPH_LINE != 0, 4) + param_if(fl & GLYPH_BLINK != 0, 5) + param_if(
        fl & GLYPH_STRIKE != 0,
        9,
    )
}

/// The reset-and-space sequence that renders a blank cell.
pub open spec fn blank_code() -> Seq<char> {
    seq!['\x1b', '[', '0', 'm', ' ']
}

/// The escape sequence and character that render glyph `g`.
pub open spec fn glyph_code(g: Glyph) -> Seq<char> {
    if g.c == '\0' {
        blank_code()
    } else {
        seq!['\x1b', '[', '0'] + color_params(g.bg, true) + color_params(g.fg, false)
            + flag_params(g.fl) + seq!['m', g.c]
    }
}

/// Relies on String::push: appends one character at the end.
#[verifier::external_body]
pub(crate) fn push_char(s: &mut String, c: char)
    ensures
        final(s)@ == old(s)@.push(c),
{
    s.push(c)
}

fn digit_char(d: u8) -> (c: char)
    requires
        d < 10,
    ensures
        c == digit(d as nat),
{
    let c = match d {
        0 => '0',
        1 => '1',
        2 => '2',
        3 => '3',
        4 => '4',
        5 => '5',
        6 => '6',
        7 => '7',
        8 => '8',
        _ => '9',
    };
    c
}

/// Appends one SGR parameter, `;` and `n` in decimal.
pub fn push_param(out: &mut String, n: u8)
    ensures
        final(out)@ == old(out)@ + param(n as nat),
{
    push_char(out, ';');
    if n >= 100 {
        push_char(out, digit_char(n / 100));
        push_char(out, digit_char((n / 10) % 10));
        push_char(out, digit_char(n % 10));
        assert(decimal(n as nat) == seq![digit((n / 100) as nat)].push(
            digit(((n / 10) % 10) as nat),
        ).push(digit((n % 10) as nat))) by {
            assert(decimal((n / 100) as nat) == seq![digit((n / 100) as nat)]);
            assert(decimal((n / 10) as nat) == decimal((n / 100) as nat).push(
                digit(((n / 10) % 10) as nat),
            ));
        }
    } else if n >= 10 {
        push_char(out, digit_char(n / 10));
        push_char(out, digit_char(n % 10));
        assert(decimal((n / 10) as nat) == seq![digit((n / 10) as nat)]);
        assert(decimal(n as nat) == seq![digit((n / 10) as nat)].push(digit((n % 10) as nat)));
    } else {
        push_char(out, digit_char(n));
    }
    assert(out@ =~= old(out)@ + param(n as nat));
}

fn palette_code_of(c: Color, background: bool) -> (r: u8)
    requires
        is_bright(c) || is_dim(c),
    ensures
        r as nat == palette_code(c, background),
{
    let index: u8 = match c {
        Color::Black | Color::DBlack => 0,
        Color::Red | Color::DRed => 1,
        Color::Green | Color::DGreen => 2,
        Color::Yellow | Color::DYellow => 3,
        Color::Blue | Color::DBlue => 4,
        Color::Purple | Color::DPurple => 5,
        Color::Cyan | Color::DCyan => 6,
        _ => 7,
    };
    let bright = match c {
        Color::Black | Color::Red | Color::Green | Color::Yellow | Color::Blue | Color::Purple
        | Color::Cyan | Color::White => true,
        _ => false,
    };
    let base: u8 = if background {
        if bright { 100 } else { 40 }
    } else {
        if bright { 90 } else { 30 }
    };
    base + index
}

/// Appends the SGR parameters that select color `c` for the background or
/// the foreground; nothing for the default color.
pub fn push_color(out: &mut String, c: Color, background: bool)
    ensures
        final(out)@ == old(out)@ + color_params(c, background),
{
    match c {
        Color::Default => {
            assert(out@ =~= old(out)@ + color_params(c, background));
        },
        Color::RGB(r, g, b) => {
            push_param(out, if background { 48 } else { 38 });
            push_param(out, 2);
            push_param(out, r);
            push_param(out, g);
            push_param(out, b);
            assert(out@ =~= old(out)@ + color_params(c, background));
        },
        _ => {
            push_param(out, palette_code_of(c, background));
        },
    }
}

fn push_flag(out: &mut String, on: bool, n: u8)
    ensures
        final(out)@ == old(out)@ + param_if(on, n as nat),
{
    if on {
        push_param(out, n);
    } else {
        assert(out@ =~= old(out)@ + param_if(on, n as nat));
    }
}

/// Appends the rendering of glyph `g`: the reset-and-space sequence for a
/// blank cell, else the full SGR sequence followed by the character.
pub fn encode(g: &Glyph, out: &mut String)
    ensures
        final(out)@ == old(out)@ + glyph_code(*g),
{
    if g.c == '\0' {
        push_char(out, '\x1b');
        push_char(out, '[');
        push_char(out, '0');
        push_char(out, 'm');
        push_char(out, ' ');
        assert(out@ =~= old(out)@ + glyph_code(*g));
        return;
    }
    push_char(out, '\x1b');
    push_char(out, '[');
    push_char(out, '0');
    let ghost head = out@;
    push_color(out, g.bg, true);
    let ghost with_bg = out@;
    push_color(out, g.fg, false);
    let ghost with_fg = out@;
    push_flags(out, g.fl);
    let ghost with_flags = out@;
    push_char(out, 'm');
    push_char(out, g.c);
    assert(head =~= old(out)@ + seq!['\x1b', '[', '0']);
    assert(out@ =~= with_flags + seq!['m', g.c]);
    assert(out@ =~= old(out)@ + glyph_code(*g));
}

/// Appends the SGR parameters of the attribute flags set in `fl`.
pub fn push_flags(out: &mut String, fl: u8)
    ensures
        final(out)@ == old(out)@ + flag_params(fl),
{
    let ghost p1 = param_if(fl & GLYPH_BOLD != 0, 1);
    let ghost p2 = param_if(fl & GLYPH_LIGHT != 0, 2);
    let ghost p3 = param_if(fl & GLYPH_ITALIC != 0, 3);
    let ghost p4 = param_if(fl & GLYPH_LINE != 0, 4);
    let ghost p5 = param_if(fl & GLYPH_BLINK != 0, 5);
    let ghost p6 = param_if(fl & GLYPH_STRIKE != 0, 9);
    push_flag(out, fl & GLYPH_BOLD != 0, 1);
    push_flag(out, fl & GLYPH_LIGHT != 0, 2);
    proof {
        lemma_concat_associative(old(out)@, p1, p2);
    }
    push_flag(out, fl & GLYPH_ITALIC != 0, 3);
    proof {
        lemma_concat_associative(old(out)@, p1 + p2, p3);
    }
    push_flag(out, fl & GLYPH_LINE != 0, 4);
    proof {
        lemma_concat_associative(old(out)@, p1 + p2 + p3, p4);
    }
    push_flag(out, fl & GLYPH_BLINK != 0, 5);
    proof {
        lemma_concat_associative(old(out)@, p1 + p2 + p3 + p4, p5);
    }
    push_flag(out, fl & GLYPH_STRIKE != 0, 9);
    proof {
        lemma_concat_associative(old(out)@, p1 + p2 + p3 + p4 + p5, p6);
    }
    assert(out@ == old(out)@ + (p1 + p2 + p3 + p4 + p5 + p6));
}

/// A glyph with default colors and no attribute flag renders as the reset
/// sequence followed by its character.
pub proof fn lemma_plain_glyph_code(g: Glyph)
    requires
        g.c != '\0',
        g.fg == Color::Default,
        g.bg == Color::Default,
        g.fl & GLYPH_BOLD == 0,
        g.fl & GLYPH_LIGHT == 0,
        g.fl & GLYPH_ITALIC == 0,
        g.fl & GLYPH_LINE == 0,
        g.fl & GLYPH_BLINK == 0,
        g.fl & GLYPH_STRIKE == 0,
    ensures
        glyph_code(g) == seq!['\x1b', '[', '0', 'm', g.c],
{
    assert(glyph_code(g) =~= seq!['\x1b', '[', '0', 'm', g.c]);
}

/// A glyph whose character is null renders as reset plus one space, whatever
/// its colors and flags.
pub proof fn lemma_blank_glyph_code(g: Glyph)
    requires
        g.c == '\0',
    ensures
        glyph_code(g) == seq!['\x1b', '[', '0', 'm', ' '],
{
}

/// For each of the eight palette colors, the dim code is the bright code
/// minus 60, for backgrounds and for foregrounds alike.
pub proof fn lemma_dim_code_is_bright_minus_sixty(bright: Color, dim: Color)
    requires
        is_bright(bright),
        is_dim(dim),
        palette_index(bright) == palette_index(dim),
    ensures
        palette_code(dim, true) == palette_code(bright, true) - 60,
        palette_code(dim, false) == palette_code(bright, false) - 60,
{
}

} // verus!
