//! Severity levels and their presentation: the severity-to-color mapping and
//! the five-character text labels used by the text display mode.

use vstd::prelude::*;

use crate::text::escape_free;

verus! {

/// Log severity, ordered from least severe (`Trace`) to most severe (`Error`).
#[derive(Clone, Copy, Debug, PartialEq, Eq, Structural)]
pub enum Severity {
    Trace,
    Debug,
    Info,
    Warn,
    Error,
}

/// The fixed palette a severity marker can be colored with.
#[derive(Clone, Copy, Debug, PartialEq, Eq, Structural)]
pub enum Color {
    Red,
    Yellow,
    Green,
    Cyan,
    Magenta,
}

/// Numeric position of a severity in the order: `Trace` is 0, `Error` is 4.
/// A level is at least as severe as another when its rank is at least as large.
pub open spec fn rank(level: Severity) -> nat {
    match level {
        Severity::Trace => 0,
        Severity::Debug => 1,
        Severity::Info => 2,
        Severity::Warn => 3,
        Severity::Error => 4,
    }
}

/// Executable form of [`rank`].
pub fn rank_of(level: Severity) -> (r: u8)
    ensures
        r as nat == rank(level),
{
    match level {
        Severity::Trace => 0,
        Severity::Debug => 1,
        Severity::Info => 2,
        Severity::Warn => 3,
        Severity::Error => 4,
    }
}

/// The color a severity is rendered with.
pub open spec fn color_spec(level: Severity) -> Color {
    match level {
        Severity::Error => Color::Red,
        Severity::Warn => Color::Yellow,
        Severity::Info => Color::Green,
        Severity::Debug => Color::Cyan,
        Severity::Trace => Color::Magenta,
    }
}

/// Maps a severity to its display color.
pub fn to_color(level: Severity) -> (r: Color)
    ensures
        r == color_spec(level),
{
    match level {
        Severity::Error => Color::Red,
        Severity::Warn => Color::Yellow,
        Severity::Info => Color::Green,
        Severity::Debug => Color::Cyan,
        Severity::Trace => Color::Magenta,
    }
}

/// The five-character text label of a severity; four-letter names carry a
/// leading space so that columns align.
pub open spec fn label_spec(level: Severity) -> Seq<char> {
    match level {
        Severity::Error => "ERROR"@,
        Severity::Warn => " WARN"@,
        Severity::Info => " INFO"@,
        Severity::Debug => "DEBUG"@,
        Severity::Trace => "TRACE"@,
    }
}

/// The ANSI sequence that sets the foreground to `c`: escape, `[`, the
/// color's two-digit code, `m`.
pub open spec fn ansi_style_of(c: Color) -> Seq<char> {
    match c {
        Color::Red => seq!['\u{1b}', '[', '3', '1', 'm'],
        Color::Yellow => seq!['\u{1b}', '[', '3', '3', 'm'],
        Color::Green => seq!['\u{1b}', '[', '3', '2', 'm'],
        Color::Cyan => seq!['\u{1b}', '[', '3', '6', 'm'],
        Color::Magenta => seq!['\u{1b}', '[', '3', '5', 'm'],
    }
}

/// `text` wrapped in the ANSI style sequence of `c` and the ANSI reset
/// sequence.
pub open spec fn ansi_wrapped(text: Seq<char>, c: Color) -> Seq<char> {
    ansi_style_of(c) + text + seq!['\u{1b}', '[', '0', 'm']
}

/// `r` is `text` either unchanged or wrapped in exactly the one ANSI style
/// prefix of `c` and the one ANSI reset suffix.
pub open spec fn colored_or_plain(r: Seq<char>, text: Seq<char>, c: Color) -> bool {
    r == text || r == ansi_wrapped(text, c)
}

/// Relies on `colored::Colorize::color` for `&str` and the `Display` of
/// `ColoredString`: `color` sets only the foreground, whose style sequence
/// is escape, `[`, the color's code, `m`; the rendered text is the input
/// either unchanged (when coloring is disabled for the process) or as that
/// style prefix, the input, and the reset sequence — an input free of the
/// escape character is never rewritten from within. Characters are only
/// added, never removed.
#[verifier::external_body]
pub(crate) fn colorize_str(text: &str, color: Color) -> (r: String)
    ensures
        r@.len() >= text@.len(),
        escape_free(text@) ==> colored_or_plain(r@, text@, color),
{
    let c = match color {
        Color::Red => colored::Color::Red,
        Color::Yellow => colored::Color::Yellow,
        Color::Green => colored::Color::Green,
        Color::Cyan => colored::Color::Cyan,
        Color::Magenta => colored::Color::Magenta,
    };
    colored::Colorize::color(text, c).to_string()
}

/// The severity's five-character label, in the severity's color: exactly
/// the label, either plain or wrapped in the level's color sequences.
pub fn to_display(level: Severity) -> (r: String)
    ensures
        colored_or_plain(r@, label_spec(level), color_spec(level)),
{
    let label = match level {
        Severity::Error => "ERROR",
        Severity::Warn => " WARN",
        Severity::Info => " INFO",
        Severity::Debug => "DEBUG",
        Severity::Trace => "TRACE",
    };
    proof {
        reveal_strlit("ERROR");
        reveal_strlit(" WARN");
        reveal_strlit(" INFO");
        reveal_strlit("DEBUG");
        reveal_strlit("TRACE");
        assert(label@ == label_spec(level));
        assert(label@.len() == 5);
        assert(escape_free(label@));
    }
    colorize_str(label, to_color(level))
}

/// Every severity label is exactly five characters long, and distinct
/// severities have distinct labels and distinct colors: the presentation
/// mappings are total, deterministic, and collision-free.
pub proof fn lemma_severity_presentation(l1: Severity, l2: Severity)
    ensures
        label_spec(l1).len() == 5,
        l1 != l2 ==> label_spec(l1) != label_spec(l2),
        l1 != l2 ==> color_spec(l1) != color_spec(l2),
{
    reveal_strlit("ERROR");
    reveal_strlit(" WARN");
    reveal_strlit(" INFO");
    reveal_strlit("DEBUG");
    reveal_strlit("TRACE");
    assert(label_spec(l1).len() == 5);
    if l1 != l2 && label_spec(l1) == label_spec(l2) {
        assert(label_spec(l1)[0] == label_spec(l2)[0]);
        assert(label_spec(l1)[1] == label_spec(l2)[1]);
        assert(false);
    }
}

} // verus!
