use bless::{Color, Glyph, GLYPH_BLINK, GLYPH_BOLD, GLYPH_ITALIC, GLYPH_LIGHT, GLYPH_LINE, GLYPH_STRIKE};

fn render(g: &Glyph) -> String {
    let mut out = String::new();
    bless::encode(g, &mut out);
    out
}

#[test]
fn glyph_from_char_is_plain() {
    let g = Glyph::from('a');
    assert_eq!(g.c, 'a');
    assert_eq!(g.fl, 0);
    assert!(g.fg == Color::Default);
    assert!(g.bg == Color::Default);
}

#[test]
fn plain_glyph_renders_reset_and_character() {
    assert_eq!(render(&Glyph::from('x')), "\x1b[0mx");
    assert_eq!(render(&Glyph::from('é')), "\x1b[0mé");
}

#[test]
fn blank_glyph_ignores_style() {
    let mut g = Glyph::from('\0');
    g.fl = GLYPH_BOLD | GLYPH_BLINK;
    g.fg = Color::Red;
    g.bg = Color::RGB(1, 2, 3);
    assert_eq!(render(&g), "\x1b[0m ");
}

#[test]
fn dim_codes_are_bright_minus_sixty() {
    let pairs = [
        (Color::Black, Color::DBlack, 0),
        (Color::Red, Color::DRed, 1),
        (Color::Green, Color::DGreen, 2),
        (Color::Yellow, Color::DYellow, 3),
        (Color::Blue, Color::DBlue, 4),
        (Color::Purple, Color::DPurple, 5),
        (Color::Cyan, Color::DCyan, 6),
        (Color::White, Color::DWhite, 7),
    ];
    for (bright, dim, i) in pairs {
        let mut g = Glyph::from('z');
        g.bg = bright;
        assert_eq!(render(&g), format!("\x1b[0;{}mz", 100 + i));
        g.bg = dim;
        assert_eq!(render(&g), format!("\x1b[0;{}mz", 40 + i));
        g.bg = Color::Default;
        g.fg = bright;
        assert_eq!(render(&g), format!("\x1b[0;{}mz", 90 + i));
        g.fg = dim;
        assert_eq!(render(&g), format!("\x1b[0;{}mz", 30 + i));
    }
}

#[test]
fn rgb_channels_in_decimal() {
    let mut g = Glyph::from('#');
    g.bg = Color::RGB(0, 7, 255);
    g.fg = Color::RGB(10, 99, 100);
    assert_eq!(render(&g), "\x1b[0;48;2;0;7;255;38;2;10;99;100m#");
}

#[test]
fn flags_in_fixed_order() {
    let mut g = Glyph::from('f');
    g.fl = GLYPH_STRIKE | GLYPH_BLINK | GLYPH_LINE | GLYPH_ITALIC | GLYPH_LIGHT | GLYPH_BOLD;
    assert_eq!(render(&g), "\x1b[0;1;2;3;4;5;9mf");
    g.fl = GLYPH_STRIKE | GLYPH_LIGHT;
    assert_eq!(render(&g), "\x1b[0;2;9mf");
}

#[test]
fn encode_appends() {
    let mut out = String::from("ab");
    bless::encode(&Glyph::from('c'), &mut out);
    assert_eq!(out, "ab\x1b[0mc");
}
