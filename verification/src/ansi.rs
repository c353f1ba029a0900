//! ANSI SGR styling for outgoing lines: a foreground/background colour pair
//! wrapped around a piece of text, with an explicit reset after it.

use vstd::prelude::*;
use crate::text::dec_digits;
use crate::text::u64_to_string;

verus! {

#[derive(Clone, Copy, Debug, PartialEq, Eq, Structural)]
pub enum AnsiColor {
    Black,
    Red,
    Green,
    Yellow,
    Blue,
    Magenta,
    Cyan,
    White,
    Default,
}

#[derive(Clone, Copy, Debug, PartialEq, Eq, Structural)]
pub struct AnsiStyle {
    pub bg: Option<AnsiColor>,
    pub fg: Option<AnsiColor>,
}

/// The SGR foreground code of a colour choice; an absent choice keeps the
/// terminal's default foreground.
pub open spec fn fg_code(c: Option<AnsiColor>) -> int {
    match c {
        Some(AnsiColor::Black) => 30,
        Some(AnsiColor::Red) => 31,
        Some(AnsiColor::Green) => 32,
        Some(AnsiColor::Yellow) => 33,
        Some(AnsiColor::Blue) => 34,
        Some(AnsiColor::Magenta) => 35,
        Some(AnsiColor::Cyan) => 36,
        Some(AnsiColor::White) => 37,
        Some(AnsiColor::Default) => 39,
        None => 39,
    }
}

/// The SGR background code of a colour choice.
pub open spec fn bg_code(c: Option<AnsiColor>) -> int {
    match c {
        Some(AnsiColor::Black) => 40,
        Some(AnsiColor::Red) => 41,
        Some(AnsiColor::Green) => 42,
        Some(AnsiColor::Yellow) => 43,
        Some(AnsiColor::Blue) => 44,
        Some(AnsiColor::Magenta) => 45,
        Some(AnsiColor::Cyan) => 46,
        Some(AnsiColor::White) => 47,
        Some(AnsiColor::Default) => 49,
        None => 49,
    }
}

/// `text` wrapped in an SGR colour sequence and followed by a reset to
/// white on black.
pub open spec fn styled(fg: int, bg: int, text: Seq<char>) -> Seq<char> {
    seq!['\u{1b}', '['] + dec_digits(fg as nat) + seq![';'] + dec_digits(bg as nat) + seq!['m']
        + text + seq!['\u{1b}', '[', '3', '7', ';', '4', '0', 'm']
}

impl AnsiStyle {
    pub fn new(fg: Option<AnsiColor>, bg: Option<AnsiColor>) -> (r: Self)
        ensures
            r == (AnsiStyle { bg, fg }),
    {
        Self { bg, fg }
    }

    /// Wraps `text` in this style's colour codes.
    pub fn apply(&self, text: &str) -> (r: String)
        ensures
            r@ == styled(fg_code(self.fg), bg_code(self.bg), text@),
    {
        let fg: u64 = match self.fg {
            Some(AnsiColor::Black) => 30,
            Some(AnsiColor::Red) => 31,
            Some(AnsiColor::Green) => 32,
            Some(AnsiColor::Yellow) => 33,
            Some(AnsiColor::Blue) => 34,
            Some(AnsiColor::Magenta) => 35,
            Some(AnsiColor::Cyan) => 36,
            Some(AnsiColor::White) => 37,
            Some(AnsiColor::Default) => 39,
            None => 39,
        };
        let bg: u64 = match self.bg {
            Some(AnsiColor::Black) => 40,
            Some(AnsiColor::Red) => 41,
            Some(AnsiColor::Green) => 42,
            Some(AnsiColor::Yellow) => 43,
            Some(AnsiColor::Blue) => 44,
            Some(AnsiColor::Magenta) => 45,
            Some(AnsiColor::Cyan) => 46,
            Some(AnsiColor::White) => 47,
            Some(AnsiColor::Default) => 49,
            None => 49,
        };
        let mut out = String::new();
        out.append("\u{1b}[");
        out.append(u64_to_string(fg).as_str());
        out.append(";");
        out.append(u64_to_string(bg).as_str());
        out.append("m");
        out.append(text);
        out.append("\u{1b}[37;40m");
        proof {
            reveal_strlit("\u{1b}[");
            reveal_strlit(";");
            reveal_strlit("m");
            reveal_strlit("\u{1b}[37;40m");
            assert(out@ =~= styled(fg_code(self.fg), bg_code(self.bg), text@));
        }
        out
    }
}

} // verus!
