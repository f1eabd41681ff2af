//! The lines that the program logs, and the level up to which it logs.

use vstd::prelude::*;
use vstd::string::*;
use crate::text::text_of;

verus! {

/// The sixteen colours of a terminal.
#[derive(Clone, Copy, PartialEq, Eq, Structural, Debug)]
pub enum AnsiColor {
    Black,
    Red,
    Green,
    Yellow,
    Blue,
    Magenta,
    Cyan,
    White,
    BrightBlack,
    BrightRed,
    BrightGreen,
    BrightYellow,
    BrightBlue,
    BrightMagenta,
    BrightCyan,
    BrightWhite,
}

impl AnsiColor {
    /// The number of the colour in the palette.
    pub open spec fn index(self) -> u8 {
        match self {
            AnsiColor::Black => 0,
            AnsiColor::Red => 1,
            AnsiColor::Green => 2,
            AnsiColor::Yellow => 3,
            AnsiColor::Blue => 4,
            AnsiColor::Magenta => 5,
            AnsiColor::Cyan => 6,
            AnsiColor::White => 7,
            AnsiColor::BrightBlack => 8,
            AnsiColor::BrightRed => 9,
            AnsiColor::BrightGreen => 10,
            AnsiColor::BrightYellow => 11,
            AnsiColor::BrightBlue => 12,
            AnsiColor::BrightMagenta => 13,
            AnsiColor::BrightCyan => 14,
            AnsiColor::BrightWhite => 15,
        }
    }

    /// The number of the colour in the palette.
    pub fn palette_index(self) -> (r: u8)
        ensures
            r == self.index(),
            r < 16,
    {
        match self {
            AnsiColor::Black => 0,
            AnsiColor::Red => 1,
            AnsiColor::Green => 2,
            AnsiColor::Yellow => 3,
            AnsiColor::Blue => 4,
            AnsiColor::Magenta => 5,
            AnsiColor::Cyan => 6,
            AnsiColor::White => 7,
            AnsiColor::BrightBlack => 8,
            AnsiColor::BrightRed => 9,
            AnsiColor::BrightGreen => 10,
            AnsiColor::BrightYellow => 11,
            AnsiColor::BrightBlue => 12,
            AnsiColor::BrightMagenta => 13,
            AnsiColor::BrightCyan => 14,
            AnsiColor::BrightWhite => 15,
        }
    }
}

/// The digit `n` as a character.
pub open spec fn digit(n: u8) -> char {
    (('0' as u8) + n) as char
}

/// The escape sequence that sets the foreground to the colour `index` of
/// the palette: `ESC [ 3 n m` for the eight plain colours, `ESC [ 9 n m` for
/// the eight bright ones.
pub open spec fn foreground(index: u8) -> Seq<char> {
    if index < 8 {
        seq!['\x1b', '[', '3', digit(index), 'm']
    } else {
        seq!['\x1b', '[', '9', digit((index - 8) as u8), 'm']
    }
}

/// The escape sequence that resets the terminal's style.
pub open spec fn reset() -> Seq<char> {
    seq!['\x1b', '[', '0', 'm']
}

/// `text` in the colour `color`: between the colour's escape sequence and a
/// reset, or bare where there is no colour.
pub open spec fn painted(color: Option<AnsiColor>, text: Seq<char>) -> Seq<char> {
    match color {
        Some(c) => foreground(c.index()) + text + reset(),
        None => text,
    }
}

/// Renders `text` between the two forms of an `anstyle::Style`: the plain
/// style with the foreground that `anstyle::Ansi256Color::into_ansi` gives
/// for `index`, formatted as `{style}` before the text and as `{style:#}`
/// after it. For one of the palette's first sixteen colours the style
/// renders as that colour's foreground escape sequence and its alternate
/// form as the reset sequence; without a colour both forms render as
/// nothing.
#[verifier::external_body]
fn render_painted(index: Option<u8>, text: &str) -> (r: String)
    requires
        index matches Some(i) ==> i < 16,
    ensures
        r@ == match index {
            Some(i) => foreground(i) + text@ + reset(),
            None => text@,
        },
{
    let ansi = index.map(anstyle::Ansi256Color).and_then(anstyle::Ansi256Color::into_ansi);
    let style = anstyle::Style::new().fg_color(ansi.map(anstyle::Color::Ansi));
    format!("{style}{text}{style:#}")
}

/// Paints `text` in `color` for a terminal.
pub fn paint(color: Option<AnsiColor>, text: &str) -> (r: String)
    ensures
        r@ == painted(color, text@),
{
    let index = match color {
        Some(c) => Some(c.palette_index()),
        None => None,
    };
    render_painted(index, text)
}

/// How grave a logged event is, the gravest first.
#[derive(Clone, Copy, PartialEq, Eq, Structural, Debug)]
pub enum Level {
    Error,
    Warn,
    Info,
    Debug,
    Trace,
}

/// The level up to which events are logged.
#[derive(Clone, Copy, PartialEq, Eq, Structural, Debug)]
pub enum LevelFilter {
    Off,
    Error,
    Warn,
    Info,
    Debug,
    Trace,
}

/// The logger's setting.
#[derive(Clone, Copy, PartialEq, Eq, Structural, Debug)]
pub struct Logger {
    pub max_level: LevelFilter,
}

/// The logger as the program starts it: it logs up to `Info`.
pub fn init() -> (logger: Logger)
    ensures
        logger.max_level == LevelFilter::Info,
{
    Logger { max_level: LevelFilter::Info }
}

/// Makes the logger log up to `Debug`.
pub fn enable_debug(logger: &mut Logger)
    ensures
        final(logger).max_level == LevelFilter::Debug,
{
    logger.max_level = LevelFilter::Debug;
}

/// The colour and the word that begin the line of an event; none for a
/// trace.
pub open spec fn heading(level: Level) -> Option<(AnsiColor, Seq<char>)> {
    match level {
        Level::Error => Some((AnsiColor::Red, "Error:"@)),
        Level::Warn => Some((AnsiColor::Yellow, "Warning:"@)),
        Level::Info => Some((AnsiColor::Green, "Info:"@)),
        Level::Debug => Some((AnsiColor::Blue, "Debug:"@)),
        Level::Trace => None,
    }
}

/// The line that is logged for an event: its painted heading, a space and
/// the message; for a trace the origin in square brackets in place of the
/// heading.
pub open spec fn line(level: Level, origin: Option<Seq<char>>, message: Seq<char>) -> Seq<
    char,
> {
    match heading(level) {
        Some((color, word)) => painted(Some(color), word) + " "@ + message,
        None => "["@ + (match origin {
            Some(m) => m,
            None => Seq::empty(),
        }) + "] "@ + message,
    }
}

impl Logger {
    /// Whether the logger takes events of `level`: it takes all that reach
    /// it.
    pub fn enabled(&self, level: Level) -> (r: bool)
        ensures
            r,
    {
        true
    }

    /// The line to write to standard error for an event.
    pub fn log(&self, level: Level, origin: Option<&str>, message: &str) -> (r: String)
        ensures
            r@ == line(level, text_of(origin), message@),
    {
        let mut out = match level {
            Level::Error => paint(Some(AnsiColor::Red), "Error:"),
            Level::Warn => paint(Some(AnsiColor::Yellow), "Warning:"),
            Level::Info => paint(Some(AnsiColor::Green), "Info:"),
            Level::Debug => paint(Some(AnsiColor::Blue), "Debug:"),
            Level::Trace => {
                let mut bracket = String::from_str("[");
                match origin {
                    Some(m) => {
                        bracket.append(m);
                    },
                    None => {
                        assert(bracket@ + Seq::<char>::empty() =~= bracket@);
                    },
                }
                bracket.append("]");
                bracket
            },
        };
        out.append(" ");
        out.append(message);
        proof {
            reveal_strlit("] ");
            reveal_strlit("]");
            reveal_strlit(" ");
            assert("]"@ + " "@ =~= "] "@);
        }
        assert(out@ =~= line(level, text_of(origin), message@));
        out
    }
}

} // verus!
