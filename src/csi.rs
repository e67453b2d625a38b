//! Writers of control sequences. Each appends the exact bytes of one
//! sequence, `ESC [ <parameters> <final byte>`, to an output buffer, which
//! the caller then hands to the terminal.
use vstd::prelude::*;
use crate::decimal::{dec, push_decimal};

verus! {

/// What part of the screen an erase-in-display clears.
#[derive(Clone, Copy, Debug, PartialEq, Eq)]
pub enum EdClear {
    FromCurToEos,
    FromCurToBos,
    EntireScreen,
    EntireScreenAndDeleteAllScrollBuffer,
}

impl EdClear {
    /// The numeric parameter that stands for this value in a sequence.
    pub open spec fn spec_code(self) -> nat {
        match self {
            EdClear::FromCurToEos => 0,
            EdClear::FromCurToBos => 1,
            EdClear::EntireScreen => 2,
            EdClear::EntireScreenAndDeleteAllScrollBuffer => 3,
        }
    }

    pub fn code(&self) -> (r: usize)
        ensures
            r == self.spec_code(),
    {
        match self {
            EdClear::FromCurToEos => 0,
            EdClear::FromCurToBos => 1,
            EdClear::EntireScreen => 2,
            EdClear::EntireScreenAndDeleteAllScrollBuffer => 3,
        }
    }
}

/// What part of the line an erase-in-line clears.
#[derive(Clone, Copy, Debug, PartialEq, Eq)]
pub enum ElClear {
    FromCurToEol,
    FromCurToBol,
    EntireLine,
}

impl ElClear {
    /// The numeric parameter that stands for this value in a sequence.
    pub open spec fn spec_code(self) -> nat {
        match self {
            ElClear::FromCurToEol => 0,
            ElClear::FromCurToBol => 1,
            ElClear::EntireLine => 2,
        }
    }

    pub fn code(&self) -> (r: usize)
        ensures
            r == self.spec_code(),
    {
        match self {
            ElClear::FromCurToEol => 0,
            ElClear::FromCurToBol => 1,
            ElClear::EntireLine => 2,
        }
    }
}

/// A select-graphic-rendition parameter: reset, intensity, emphasis,
/// blinking, fonts, framing and the basic and bright colors.
#[derive(Clone, Copy, Debug, PartialEq, Eq)]
pub enum SgrCode {
    Normal,
    Bold,
    Faint,
    Italic,
    Underline,
    SlowBlink,
    RapidBlink,
    Inverse,
    Invisible,
    Strikethrough,
    PrimaryFont,
    AltFont1,
    AltFont2,
    AltFont3,
    AltFont4,
    AltFont5,
    AltFont6,
    AltFont7,
    AltFont8,
    AltFont9,
    DoubleUnderline,
    BoldFaintOff,
    ItalicOff,
    UnderlineOff,
    Steady,
    Positive,
    Visible,
    StrikethroughOff,
    FgColorBlack,
    FgColorRed,
    FgColorGreen,
    FgColorYellow,
    FgColorBlue,
    FgColorMagenta,
    FgColorCyan,
    FgColorWhite,
    FgColorDefault,
    BgColorBlack,
    BgColorRed,
    BgColorGreen,
    BgColorYellow,
    BgColorBlue,
    BgColorMagenta,
    BgColorCyan,
    BgColorWhite,
    BgColorDefault,
    Frame,
    Encircle,
    Overline,
    FrameEncircleOff,
    OverlineOff,
    RightSideLine,
    RightSideDoublLine,
    LeftSideLine,
    LeftSideDoublLine,
    DoubleStrikethrough,
    LineOff,
    FgColorBrightBlack,
    FgColorBrightRed,
    FgColorBrightGreen,
    FgColorBrightYellow,
    FgColorBrightBlue,
    FgColorBrightMagenta,
    FgColorBrightCyan,
    FgColorBrightWhite,
    BgColorBrightBlack,
    BgColorBrightRed,
    BgColorBrightGreen,
    BgColorBrightYellow,
    BgColorBrightBlue,
    BgColorBrightMagenta,
    BgColorBrightCyan,
    BgColorBrightWhite,
}

impl SgrCode {
    /// The numeric parameter that stands for this value in a sequence.
    pub open spec fn spec_code(self) -> nat {
        match self {
            SgrCode::Normal => 0,
            SgrCode::Bold => 1,
            SgrCode::Faint => 2,
            SgrCode::Italic => 3,
            SgrCode::Underline => 4,
            SgrCode::SlowBlink => 5,
            SgrCode::RapidBlink => 6,
            SgrCode::Inverse => 7,
            SgrCode::Invisible => 8,
            SgrCode::Strikethrough => 9,
            SgrCode::PrimaryFont => 10,
            SgrCode::AltFont1 => 11,
            SgrCode::AltFont2 => 12,
            SgrCode::AltFont3 => 13,
            SgrCode::AltFont4 => 14,
            SgrCode::AltFont5 => 15,
            SgrCode::AltFont6 => 16,
            SgrCode::AltFont7 => 17,
            SgrCode::AltFont8 => 18,
            SgrCode::AltFont9 => 19,
            SgrCode::DoubleUnderline => 21,
            SgrCode::BoldFaintOff => 22,
            SgrCode::ItalicOff => 23,
            SgrCode::UnderlineOff => 24,
            SgrCode::Steady => 25,
            SgrCode::Positive => 27,
            SgrCode::Visible => 28,
            SgrCode::StrikethroughOff => 29,
            SgrCode::FgColorBlack => 30,
            SgrCode::FgColorRed => 31,
            SgrCode::FgColorGreen => 32,
            SgrCode::FgColorYellow => 33,
            SgrCode::FgColorBlue => 34,
            SgrCode::FgColorMagenta => 35,
            SgrCode::FgColorCyan => 36,
            SgrCode::FgColorWhite => 37,
            SgrCode::FgColorDefault => 39,
            SgrCode::BgColorBlack => 40,
            SgrCode::BgColorRed => 41,
            SgrCode::BgColorGreen => 42,
            SgrCode::BgColorYellow => 43,
            SgrCode::BgColorBlue => 44,
            SgrCode::BgColorMagenta => 45,
            SgrCode::BgColorCyan => 46,
            SgrCode::BgColorWhite => 47,
            SgrCode::BgColorDefault => 49,
            SgrCode::Frame => 51,
            SgrCode::Encircle => 52,
            SgrCode::Overline => 53,
            SgrCode::FrameEncircleOff => 54,
            SgrCode::OverlineOff => 55,
            SgrCode::RightSideLine => 60,
            SgrCode::RightSideDoublLine => 61,
            SgrCode::LeftSideLine => 62,
            SgrCode::LeftSideDoublLine => 63,
            SgrCode::DoubleStrikethrough => 64,
            SgrCode::LineOff => 65,
            SgrCode::FgColorBrightBlack => 90,
            SgrCode::FgColorBrightRed => 91,
            SgrCode::FgColorBrightGreen => 92,
            SgrCode::FgColorBrightYellow => 93,
            SgrCode::FgColorBrightBlue => 94,
            SgrCode::FgColorBrightMagenta => 95,
            SgrCode::FgColorBrightCyan => 96,
            SgrCode::FgColorBrightWhite => 97,
            SgrCode::BgColorBrightBlack => 100,
            SgrCode::BgColorBrightRed => 101,
            SgrCode::BgColorBrightGreen => 102,
            SgrCode::BgColorBrightYellow => 103,
            SgrCode::BgColorBrightBlue => 104,
            SgrCode::BgColorBrightMagenta => 105,
            SgrCode::BgColorBrightCyan => 106,
            SgrCode::BgColorBrightWhite => 107,
        }
    }

    pub fn code(&self) -> (r: usize)
        ensures
            r == self.spec_code(),
    {
        match self {
            SgrCode::Normal => 0,
            SgrCode::Bold => 1,
            SgrCode::Faint => 2,
            SgrCode::Italic => 3,
            SgrCode::Underline => 4,
            SgrCode::SlowBlink => 5,
            SgrCode::RapidBlink => 6,
            SgrCode::Inverse => 7,
            SgrCode::Invisible => 8,
            SgrCode::Strikethrough => 9,
            SgrCode::PrimaryFont => 10,
            SgrCode::AltFont1 => 11,
            SgrCode::AltFont2 => 12,
            SgrCode::AltFont3 => 13,
            SgrCode::AltFont4 => 14,
            SgrCode::AltFont5 => 15,
            SgrCode::AltFont6 => 16,
            SgrCode::AltFont7 => 17,
            SgrCode::AltFont8 => 18,
            SgrCode::AltFont9 => 19,
            SgrCode::DoubleUnderline => 21,
            SgrCode::BoldFaintOff => 22,
            SgrCode::ItalicOff => 23,
            SgrCode::UnderlineOff => 24,
            SgrCode::Steady => 25,
            SgrCode::Positive => 27,
            SgrCode::Visible => 28,
            SgrCode::StrikethroughOff => 29,
            SgrCode::FgColorBlack => 30,
            SgrCode::FgColorRed => 31,
            SgrCode::FgColorGreen => 32,
            SgrCode::FgColorYellow => 33,
            SgrCode::FgColorBlue => 34,
            SgrCode::FgColorMagenta => 35,
            SgrCode::FgColorCyan => 36,
            SgrCode::FgColorWhite => 37,
            SgrCode::FgColorDefault => 39,
            SgrCode::BgColorBlack => 40,
            SgrCode::BgColorRed => 41,
            SgrCode::BgColorGreen => 42,
            SgrCode::BgColorYellow => 43,
            SgrCode::BgColorBlue => 44,
            SgrCode::BgColorMagenta => 45,
            SgrCode::BgColorCyan => 46,
            SgrCode::BgColorWhite => 47,
            SgrCode::BgColorDefault => 49,
            SgrCode::Frame => 51,
            SgrCode::Encircle => 52,
            SgrCode::Overline => 53,
            SgrCode::FrameEncircleOff => 54,
            SgrCode::OverlineOff => 55,
            SgrCode::RightSideLine => 60,
            SgrCode::RightSideDoublLine => 61,
            SgrCode::LeftSideLine => 62,
            SgrCode::LeftSideDoublLine => 63,
            SgrCode::DoubleStrikethrough => 64,
            SgrCode::LineOff => 65,
            SgrCode::FgColorBrightBlack => 90,
            SgrCode::FgColorBrightRed => 91,
            SgrCode::FgColorBrightGreen => 92,
            SgrCode::FgColorBrightYellow => 93,
            SgrCode::FgColorBrightBlue => 94,
            SgrCode::FgColorBrightMagenta => 95,
            SgrCode::FgColorBrightCyan => 96,
            SgrCode::FgColorBrightWhite => 97,
            SgrCode::BgColorBrightBlack => 100,
            SgrCode::BgColorBrightRed => 101,
            SgrCode::BgColorBrightGreen => 102,
            SgrCode::BgColorBrightYellow => 103,
            SgrCode::BgColorBrightBlue => 104,
            SgrCode::BgColorBrightMagenta => 105,
            SgrCode::BgColorBrightCyan => 106,
            SgrCode::BgColorBrightWhite => 107,
        }
    }
}

/// The shape of the cursor and whether it blinks.
#[derive(Clone, Copy, Debug, PartialEq, Eq)]
pub enum DecscusrStyle {
    BlinkingBlock,
    SteadyBlock,
    BlinkingUnderline,
    SteadyUnderline,
    BlinkingBar,
    SteadyBar,
}

impl DecscusrStyle {
    /// The numeric parameter that stands for this value in a sequence.
    pub open spec fn spec_code(self) -> nat {
        match self {
            DecscusrStyle::BlinkingBlock => 1,
            DecscusrStyle::SteadyBlock => 2,
            DecscusrStyle::BlinkingUnderline => 3,
            DecscusrStyle::SteadyUnderline => 4,
            DecscusrStyle::BlinkingBar => 5,
            DecscusrStyle::SteadyBar => 6,
        }
    }

    pub fn code(&self) -> (r: usize)
        ensures
            r == self.spec_code(),
    {
        match self {
            DecscusrStyle::BlinkingBlock => 1,
            DecscusrStyle::SteadyBlock => 2,
            DecscusrStyle::BlinkingUnderline => 3,
            DecscusrStyle::SteadyUnderline => 4,
            DecscusrStyle::BlinkingBar => 5,
            DecscusrStyle::SteadyBar => 6,
        }
    }
}
/// An extended color: an index into the 256-color palette, or a 24-bit
/// RGB triple, for the foreground or the background.
#[derive(Clone, Copy, Debug, PartialEq, Eq)]
pub enum SgrColor {
    FgColor8bit(u8),
    FgColor24bit((u8, u8, u8)),
    BgColor8bit(u8),
    BgColor24bit((u8, u8, u8)),
}

/// `ESC [` followed by `body`.
pub open spec fn csi_seq(body: Seq<u8>) -> Seq<u8> {
    seq![0x1bu8, 0x5bu8] + body
}

/// A repeat count or coordinate as a sequence carries it: zero becomes one.
pub open spec fn nz_spec(n: nat) -> nat {
    if n == 0 {
        1
    } else {
        n
    }
}

/// The sequence of one numeric parameter `n` and the final byte `fin`.
pub open spec fn param_seq(n: nat, fin: u8) -> Seq<u8> {
    csi_seq(dec(n).push(fin))
}

/// The sequence of a repeat count `n`, taken as one when zero.
pub open spec fn count_seq(n: nat, fin: u8) -> Seq<u8> {
    param_seq(nz_spec(n), fin)
}

/// Cursor position: `row ; col H`, each coordinate taken as one when zero.
pub open spec fn cup_seq(row: nat, col: nat) -> Seq<u8> {
    csi_seq(dec(nz_spec(row)) + seq![0x3bu8] + dec(nz_spec(col)).push(0x48u8))
}

// avoid zero
fn _nz(n: usize) -> (r: usize)
    ensures
        r == nz_spec(n as nat),
{
    if n == 0 {
        1
    } else {
        n
    }
}

fn push_csi(w: &mut Vec<u8>)
    ensures
        final(w)@ == old(w)@ + csi_seq(Seq::empty()),
{
    w.push(0x1b);
    w.push(0x5b);
}

fn push_param(w: &mut Vec<u8>, n: usize, fin: u8)
    ensures
        final(w)@ == old(w)@ + param_seq(n as nat, fin),
{
    push_csi(w);
    push_decimal(w, n);
    w.push(fin);
    assert(w@ =~= old(w)@ + param_seq(n as nat, fin));
}

/// CUU: cursor up.
pub fn cuu(w: &mut Vec<u8>, n: usize)
    ensures
        final(w)@ == old(w)@ + count_seq(n as nat, 0x41),
{
    push_param(w, _nz(n), 0x41);
}

/// CUD: cursor down.
pub fn cud(w: &mut Vec<u8>, n: usize)
    ensures
        final(w)@ == old(w)@ + count_seq(n as nat, 0x42),
{
    push_param(w, _nz(n), 0x42);
}

/// CUF: cursor forward.
pub fn cuf(w: &mut Vec<u8>, n: usize)
    ensures
        final(w)@ == old(w)@ + count_seq(n as nat, 0x43),
{
    push_param(w, _nz(n), 0x43);
}

/// CUB: cursor back.
pub fn cub(w: &mut Vec<u8>, n: usize)
    ensures
        final(w)@ == old(w)@ + count_seq(n as nat, 0x44),
{
    push_param(w, _nz(n), 0x44);
}

/// CNL: cursor to the start of the line `n` lines down.
pub fn cnl(w: &mut Vec<u8>, n: usize)
    ensures
        final(w)@ == old(w)@ + count_seq(n as nat, 0x45),
{
    push_param(w, _nz(n), 0x45);
}

/// CPL: cursor to the start of the line `n` lines up.
pub fn cpl(w: &mut Vec<u8>, n: usize)
    ensures
        final(w)@ == old(w)@ + count_seq(n as nat, 0x46),
{
    push_param(w, _nz(n), 0x46);
}

/// CHA: cursor to column `n` of the current line.
pub fn cha(w: &mut Vec<u8>, n: usize)
    ensures
        final(w)@ == old(w)@ + count_seq(n as nat, 0x47),
{
    push_param(w, _nz(n), 0x47);
}

/// CUP: cursor to `row`, `col` (both counted from one).
pub fn cup(w: &mut Vec<u8>, row: usize, col: usize)
    ensures
        final(w)@ == old(w)@ + cup_seq(row as nat, col as nat),
{
    push_csi(w);
    push_decimal(w, _nz(row));
    w.push(0x3b);
    push_decimal(w, _nz(col));
    w.push(0x48);
    assert(w@ =~= old(w)@ + cup_seq(row as nat, col as nat));
}

/// SU: scroll the page up by `n` lines.
pub fn su(w: &mut Vec<u8>, n: usize)
    ensures
        final(w)@ == old(w)@ + count_seq(n as nat, 0x53),
{
    push_param(w, _nz(n), 0x53);
}

/// SD: scroll the page down by `n` lines.
pub fn sd(w: &mut Vec<u8>, n: usize)
    ensures
        final(w)@ == old(w)@ + count_seq(n as nat, 0x54),
{
    push_param(w, _nz(n), 0x54);
}

/// The parameters of an extended color, before the final `m`.
pub open spec fn sgr_color_params(c: SgrColor) -> Seq<u8> {
    match c {
        SgrColor::FgColor8bit(i) => seq![0x33u8, 0x38u8, 0x3bu8, 0x35u8, 0x3bu8] + dec(i as nat),
        SgrColor::FgColor24bit((r, g, b)) => seq![0x33u8, 0x38u8, 0x3bu8, 0x32u8, 0x3bu8] + dec(
            r as nat,
        ) + seq![0x3bu8] + dec(g as nat) + seq![0x3bu8] + dec(b as nat),
        SgrColor::BgColor8bit(i) => seq![0x34u8, 0x38u8, 0x3bu8, 0x35u8, 0x3bu8] + dec(i as nat),
        SgrColor::BgColor24bit((r, g, b)) => seq![0x34u8, 0x38u8, 0x3bu8, 0x32u8, 0x3bu8] + dec(
            r as nat,
        ) + seq![0x3bu8] + dec(g as nat) + seq![0x3bu8] + dec(b as nat),
    }
}

/// ED with a raw mode `m`: modes 0 to 3 give `m J`; any other mode writes
/// nothing.
pub fn erase_display(w: &mut Vec<u8>, m: usize)
    ensures
        m <= 3 ==> final(w)@ == old(w)@ + param_seq(m as nat, 0x4a),
        m > 3 ==> final(w)@ == old(w)@,
{
    if m <= 3 {
        push_param(w, m, 0x4a);
    }
}

/// EL with a raw mode `m`: modes 0 to 2 give `m K`; any other mode writes
/// nothing.
pub fn erase_line(w: &mut Vec<u8>, m: usize)
    ensures
        m <= 2 ==> final(w)@ == old(w)@ + param_seq(m as nat, 0x4b),
        m > 2 ==> final(w)@ == old(w)@,
{
    if m <= 2 {
        push_param(w, m, 0x4b);
    }
}

/// ED: erase in display.
/// `FromCurToEos` clears from the cursor to the end of the screen,
/// `FromCurToBos` from the cursor to the beginning of the screen,
/// `EntireScreen` the whole screen, and
/// `EntireScreenAndDeleteAllScrollBuffer` the whole screen and the lines
/// saved in the scrollback buffer.
pub fn ed(w: &mut Vec<u8>, n: EdClear)
    ensures
        final(w)@ == old(w)@ + param_seq(n.spec_code(), 0x4a),
{
    erase_display(w, n.code());
}

/// EL: erase in line.
/// `FromCurToEol` clears from the cursor to the end of the line,
/// `FromCurToBol` from the cursor to the beginning of the line, and
/// `EntireLine` the whole line. The cursor does not move.
pub fn el(w: &mut Vec<u8>, n: ElClear)
    ensures
        final(w)@ == old(w)@ + param_seq(n.spec_code(), 0x4b),
{
    erase_line(w, n.code());
}

/// SGR: select graphic rendition.
pub fn sgr(w: &mut Vec<u8>, c: SgrCode)
    ensures
        final(w)@ == old(w)@ + param_seq(c.spec_code(), 0x6d),
{
    push_param(w, c.code(), 0x6d);
}

/// Pushes `lead 8 ; kind ;`: `38;5;`, `38;2;`, `48;5;` or `48;2;`.
fn push_color_intro(w: &mut Vec<u8>, lead: u8, kind: u8)
    ensures
        final(w)@ == old(w)@ + seq![lead, 0x38u8, 0x3bu8, kind, 0x3bu8],
{
    w.push(lead);
    w.push(0x38);
    w.push(0x3b);
    w.push(kind);
    w.push(0x3b);
    assert(w@ =~= old(w)@ + seq![lead, 0x38u8, 0x3bu8, kind, 0x3bu8]);
}

fn push_rgb(w: &mut Vec<u8>, r: u8, g: u8, b: u8)
    ensures
        final(w)@ == old(w)@ + dec(r as nat) + seq![0x3bu8] + dec(g as nat) + seq![0x3bu8] + dec(
            b as nat,
        ),
{
    push_decimal(w, r as usize);
    w.push(0x3b);
    push_decimal(w, g as usize);
    w.push(0x3b);
    push_decimal(w, b as usize);
    assert(w@ =~= old(w)@ + dec(r as nat) + seq![0x3bu8] + dec(g as nat) + seq![0x3bu8] + dec(
        b as nat,
    ));
}

/// SGR with an extended color: `38;5;i m` or `38;2;r;g;b m` for the
/// foreground, `48;...` for the background.
pub fn sgr_color(w: &mut Vec<u8>, c: SgrColor)
    ensures
        final(w)@ == old(w)@ + csi_seq(sgr_color_params(c).push(0x6d)),
{
    let ghost start = w@;
    push_csi(w);
    match c {
        SgrColor::FgColor8bit(i) => {
            push_color_intro(w, 0x33, 0x35);
            push_decimal(w, i as usize);
        },
        SgrColor::FgColor24bit((r, g, b)) => {
            push_color_intro(w, 0x33, 0x32);
            push_rgb(w, r, g, b);
        },
        SgrColor::BgColor8bit(i) => {
            push_color_intro(w, 0x34, 0x35);
            push_decimal(w, i as usize);
        },
        SgrColor::BgColor24bit((r, g, b)) => {
            push_color_intro(w, 0x34, 0x32);
            push_rgb(w, r, g, b);
        },
    }
    w.push(0x6d);
    assert(w@ =~= start + csi_seq(sgr_color_params(c).push(0x6d)));
}

/// DSR: device status report. The terminal answers with the cursor's
/// position, `ESC [ row ; col R`.
pub fn dsr_request(w: &mut Vec<u8>)
    ensures
        final(w)@ == old(w)@ + csi_seq(seq![0x36u8, 0x6eu8]),
{
    push_csi(w);
    w.push(0x36);
    w.push(0x6e);
    assert(w@ =~= old(w)@ + csi_seq(seq![0x36u8, 0x6eu8]));
}

/// SCP: save cursor position.
pub fn scp(w: &mut Vec<u8>)
    ensures
        final(w)@ == old(w)@ + csi_seq(seq![0x73u8]),
{
    push_csi(w);
    w.push(0x73);
    assert(w@ =~= old(w)@ + csi_seq(seq![0x73u8]));
}

/// RCP: restore cursor position.
pub fn rcp(w: &mut Vec<u8>)
    ensures
        final(w)@ == old(w)@ + csi_seq(seq![0x75u8]),
{
    push_csi(w);
    w.push(0x75);
    assert(w@ =~= old(w)@ + csi_seq(seq![0x75u8]));
}

/// SM: set mode `n`.
pub fn sm(w: &mut Vec<u8>, n: usize)
    ensures
        final(w)@ == old(w)@ + param_seq(n as nat, 0x68),
{
    push_param(w, n, 0x68);
}

/// RM: reset mode `n`.
pub fn rm(w: &mut Vec<u8>, n: usize)
    ensures
        final(w)@ == old(w)@ + param_seq(n as nat, 0x6c),
{
    push_param(w, n, 0x6c);
}

/// The cursor-style sequence `s SP q`.
pub open spec fn style_seq(s: nat) -> Seq<u8> {
    csi_seq(dec(s) + seq![0x20u8, 0x71u8])
}

/// DECSCUSR with a raw style `s`: styles 1 to 6 give `s SP q`; any other
/// style writes nothing.
pub fn cursor_style(w: &mut Vec<u8>, s: usize)
    ensures
        1 <= s <= 6 ==> final(w)@ == old(w)@ + style_seq(s as nat),
        !(1 <= s <= 6) ==> final(w)@ == old(w)@,
{
    if 1 <= s && s <= 6 {
        push_csi(w);
        push_decimal(w, s);
        w.push(0x20);
        w.push(0x71);
        assert(w@ =~= old(w)@ + style_seq(s as nat));
    }
}

/// DECSCUSR: set cursor style.
pub fn decscusr(w: &mut Vec<u8>, s: DecscusrStyle)
    ensures
        final(w)@ == old(w)@ + style_seq(s.spec_code()),
{
    cursor_style(w, s.code());
}

} // verus!
