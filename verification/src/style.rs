//! The styles of the status line, and the escape sequences that paint them.

use owo_colors::OwoColorize;
use vstd::prelude::*;

verus! {

/// How a piece of the line is shown.
#[derive(Clone, Copy, Debug, PartialEq, Eq, Structural)]
pub enum Style {
    DimWhite,
    DimYellow,
    DimRed,
    DimGreen,
    /// Dimmed, in the terminal's own colour.
    Dim,
    /// As it is.
    Plain,
}

/// `text` between the sequence `set`, which sets a foreground colour, and the
/// one that sets the foreground back to its default.
pub open spec fn foreground(set: Seq<char>, text: Seq<char>) -> Seq<char> {
    set + text + "\x1b[39m"@
}

/// `text` between the sequence that dims and the one that resets every
/// attribute.
pub open spec fn dimmed_text(text: Seq<char>) -> Seq<char> {
    "\x1b[2m"@ + text + "\x1b[0m"@
}

/// `text` with the escape sequences of `style` around it. A colour is set
/// inside the dimming.
pub open spec fn painted(style: Style, text: Seq<char>) -> Seq<char> {
    match style {
        Style::DimWhite => dimmed_text(foreground("\x1b[37m"@, text)),
        Style::DimYellow => dimmed_text(foreground("\x1b[33m"@, text)),
        Style::DimRed => dimmed_text(foreground("\x1b[31m"@, text)),
        Style::DimGreen => dimmed_text(foreground("\x1b[32m"@, text)),
        Style::Dim => dimmed_text(text),
        Style::Plain => text,
    }
}

/// `OwoColorize::white`, displayed. Trusted: the display writes the sequence
/// for foreground 37, then `text`, then the sequence for the default
/// foreground.
#[verifier::external_body]
fn white(text: &str) -> (r: String)
    ensures
        r@ == "\x1b[37m"@ + text@ + "\x1b[39m"@,
{
    format!("{}", text.white())
}

/// `OwoColorize::yellow`, displayed. Trusted: the display writes the
/// sequence for foreground 33, then `text`, then the sequence for the
/// default foreground.
#[verifier::external_body]
fn yellow(text: &str) -> (r: String)
    ensures
        r@ == "\x1b[33m"@ + text@ + "\x1b[39m"@,
{
    format!("{}", text.yellow())
}

/// `OwoColorize::red`, displayed. Trusted: the display writes the sequence
/// for foreground 31, then `text`, then the sequence for the default
/// foreground.
#[verifier::external_body]
fn red(text: &str) -> (r: String)
    ensures
        r@ == "\x1b[31m"@ + text@ + "\x1b[39m"@,
{
    format!("{}", text.red())
}

/// `OwoColorize::green`, displayed. Trusted: the display writes the sequence
/// for foreground 32, then `text`, then the sequence for the default
/// foreground.
#[verifier::external_body]
fn green(text: &str) -> (r: String)
    ensures
        r@ == "\x1b[32m"@ + text@ + "\x1b[39m"@,
{
    format!("{}", text.green())
}

/// `OwoColorize::dimmed`, displayed. Trusted: the display writes the
/// sequence that dims, then `text`, then the sequence that resets every
/// attribute.
#[verifier::external_body]
fn dimmed(text: &str) -> (r: String)
    ensures
        r@ == "\x1b[2m"@ + text@ + "\x1b[0m"@,
{
    format!("{}", text.dimmed())
}

/// Paints `text` in `style`.
pub fn paint(style: Style, text: &str) -> (r: String)
    ensures
        r@ == painted(style, text@),
{
    match style {
        Style::DimWhite => dimmed(white(text).as_str()),
        Style::DimYellow => dimmed(yellow(text).as_str()),
        Style::DimRed => dimmed(red(text).as_str()),
        Style::DimGreen => dimmed(green(text).as_str()),
        Style::Dim => dimmed(text),
        Style::Plain => String::from_str(text),
    }
}

} // verus!
