//! The rendering mechanism: a severity threshold plus a configuration, and
//! the four-stage pipeline that turns an accepted record into one line of
//! text.

use vstd::prelude::*;

use crate::config::Configuration;
use crate::config::DisplayMode;
use crate::severity::Severity;
use crate::severity::ansi_wrapped;
use crate::severity::color_spec;
use crate::severity::colored_or_plain;
use crate::severity::label_spec;
use crate::severity::rank;
use crate::severity::rank_of;
use crate::severity::to_color;
use crate::severity::to_display;
use crate::severity::colorize_str;
use crate::text::basename;
use crate::text::basename_spec;
use crate::text::decimal_spec;
use crate::text::escape_free;
use crate::text::is_digit;
use crate::text::repeat_char;
use crate::text::repeat_spec;
use crate::text::u32_to_decimal;

verus! {

/// A severity level whose default is the most verbose one, `Trace`.
pub struct DefaultingLevel(pub Severity);

impl Default for DefaultingLevel {
    /// The default level is `Trace`.
    fn default() -> (r: DefaultingLevel)
        ensures
            r.0 == Severity::Trace,
    {
        DefaultingLevel(Severity::Trace)
    }
}

impl From<Severity> for DefaultingLevel {
    fn from(lev: Severity) -> (r: DefaultingLevel) {
        DefaultingLevel(lev)
    }
}

impl vstd::std_specs::convert::FromSpecImpl<Severity> for DefaultingLevel {
    open spec fn obeys_from_spec() -> bool {
        true
    }

    open spec fn from_spec(lev: Severity) -> DefaultingLevel {
        DefaultingLevel(lev)
    }
}

impl DefaultingLevel {
    /// Renders exactly five copies of `what`, either plain or wrapped in
    /// this level's color sequences.
    pub fn colorize(&self, what: char) -> (r: String)
        ensures
            r@.len() >= 5,
            what != '\u{1b}' ==> colored_or_plain(r@, repeat_spec(what, 5), color_spec(self.0)),
    {
        let block = repeat_char(what, 5);
        proof {
            if what != '\u{1b}' {
                assert(escape_free(block@));
            }
        }
        colorize_str(block.as_str(), to_color(self.0))
    }
}

/// A log record as the renderer consumes it: a severity, an optional source
/// location, and an already-formatted message.
pub struct LogRecord {
    pub level: Severity,
    pub file: Option<String>,
    pub line: Option<u32>,
    pub message: String,
}

/// The sink: a minimum-severity threshold and a rendering configuration,
/// both fixed at construction.
pub struct LogMechanism(pub DefaultingLevel, pub Configuration);

impl Default for LogMechanism {
    /// The default sink: threshold `Trace`, default configuration.
    fn default() -> (r: LogMechanism)
        ensures
            r.threshold() == Severity::Trace,
            r.config().display_mode == DisplayMode::Bars,
            !r.config().wrap,
    {
        LogMechanism(DefaultingLevel::default(), Configuration::default())
    }
}

impl LogMechanism {
    /// The minimum severity a record must meet to be rendered.
    pub open spec fn threshold(self) -> Severity {
        self.0.0
    }

    /// The rendering configuration.
    pub open spec fn config(self) -> Configuration {
        self.1
    }

    /// A level passes the threshold when it is at least as severe.
    pub open spec fn enabled_spec(self, level: Severity) -> bool {
        rank(level) >= rank(self.threshold())
    }

    /// A sink with the given threshold and configuration.
    pub fn new(level: Severity, config: Configuration) -> (r: LogMechanism)
        ensures
            r.threshold() == level,
            r.config() == config,
    {
        LogMechanism(DefaultingLevel::from(level), config)
    }

    /// A sink with the given configuration and the default (most verbose)
    /// threshold.
    pub fn configured(conf: Configuration) -> (r: LogMechanism)
        ensures
            r.threshold() == Severity::Trace,
            r.config() == conf,
    {
        LogMechanism::new(Severity::Trace, conf)
    }

    /// A sink with the given threshold and the default configuration.
    pub fn level(level: Severity) -> (r: LogMechanism)
        ensures
            r.threshold() == level,
            r.config().display_mode == DisplayMode::Bars,
            !r.config().wrap,
    {
        Self::new(level, Configuration::default())
    }

    /// Whether a record at `level` would be rendered.
    pub fn enabled(&self, level: Severity) -> (r: bool)
        ensures
            r == self.enabled_spec(level),
    {
        rank_of(level) >= rank_of(self.0.0)
    }
}

/// File information accompanies only the diagnostic and failure levels:
/// Trace, Debug and Error. Info and Warn stay uncluttered.
pub open spec fn shows_file_info(level: Severity) -> bool {
    level == Severity::Trace || level == Severity::Debug || level == Severity::Error
}

/// Whether a record's level carries file information when present.
pub fn should_display_file_info(level: Severity) -> (r: bool)
    ensures
        r == shows_file_info(level),
{
    match level {
        Severity::Trace | Severity::Debug | Severity::Error => true,
        _ => false,
    }
}

/// The text of a rendered file-info segment: `(basename:line)` and a
/// trailing separator space.
pub open spec fn file_info_spec(file: Seq<char>, line: u32) -> Seq<char> {
    seq!['('] + basename_spec(file) + seq![':'] + decimal_spec(line as nat) + seq![')', ' ']
}

/// The file-info segment a record contributes to its line: the rendered
/// segment when the level shows file information and both file and line are
/// present, and nothing otherwise.
pub open spec fn info_segment_of(record: LogRecord) -> Seq<char> {
    if shows_file_info(record.level) {
        match (record.file, record.line) {
            (Some(f), Some(l)) => file_info_spec(f@, l),
            _ => Seq::<char>::empty(),
        }
    } else {
        Seq::<char>::empty()
    }
}

/// A whole rendered line: marker, space, time, space, file-info segment
/// (possibly empty, with its own trailing space), message, newline.
pub open spec fn line_of(marker: Seq<char>, time: Seq<char>, info: Seq<char>, message: Seq<char>) -> Seq<char> {
    marker + seq![' '] + time + seq![' '] + info + message + seq!['\n']
}

/// Concatenates the four stage fragments into one newline-terminated line.
pub fn compose_line(marker: &str, time: &str, info: &Option<String>, message: &str) -> (r: String)
    ensures
        r@ == line_of(
            marker@,
            time@,
            (match info {
                Some(seg) => seg@,
                None => Seq::<char>::empty(),
            }),
            message@,
        ),
{
    let mut s = String::from_str(marker);
    s.append(" ");
    s.append(time);
    s.append(" ");
    match info {
        Some(seg) => s.append(seg.as_str()),
        None => (),
    }
    s.append(message);
    s.append("\n");
    proof {
        reveal_strlit(" ");
        reveal_strlit("\n");
        assert(" "@ =~= seq![' ']);
        assert("\n"@ =~= seq!['\n']);
        assert(s@ =~= line_of(
            marker@,
            time@,
            (match info {
                Some(seg) => seg@,
                None => Seq::<char>::empty(),
            }),
            message@,
        ));
    }
    s
}

/// `t` has the shape `HH:MM`: five characters, two decimal digits on each
/// side of a colon.
pub open spec fn is_hhmm(t: Seq<char>) -> bool {
    t.len() == 5 && is_digit(t[0]) && is_digit(t[1]) && t[2] == ':' && is_digit(t[3]) && is_digit(
        t[4],
    )
}

/// The marker text the severity stage renders for a level: five block
/// glyphs in `Bars` mode, the level's five-character label in `Text` mode.
pub open spec fn marker_text_of(mode: DisplayMode, level: Severity) -> Seq<char> {
    match mode {
        DisplayMode::Bars => repeat_spec('\u{2588}', 5),
        DisplayMode::Text => label_spec(level),
    }
}

/// `line` is a rendering of `record` under `mode` at time `t`: the four
/// stage fragments in their fixed order — the mode's marker text for the
/// record's level (plain or wrapped in the level's color sequences), the
/// time, the record's file-info segment, its message — terminated by a
/// newline.
pub open spec fn is_rendering_of(
    line: Seq<char>,
    mode: DisplayMode,
    record: LogRecord,
    t: Seq<char>,
) -> bool {
    line == line_of(marker_text_of(mode, record.level), t, info_segment_of(record), record.message@)
        || line == line_of(
        ansi_wrapped(marker_text_of(mode, record.level), color_spec(record.level)),
        t,
        info_segment_of(record),
        record.message@,
    )
}

/// Relies on `chrono::Local::now` and `%H:%M` formatting: the current local
/// time as five characters, a zero-padded two-digit 24-hour hour and a
/// zero-padded two-digit minute around `:`.
#[verifier::external_body]
fn local_time_hhmm() -> (r: String)
    ensures
        is_hhmm(r@),
{
    chrono::Local::now().format("%H:%M").to_string()
}

impl LogMechanism {
    /// The severity stage: exactly the mode's marker text for the record's
    /// level — never suppressed, independent of the record's other fields —
    /// either plain or wrapped in the level's color sequences.
    pub fn display_stage(&self, record: &LogRecord) -> (r: String)
        ensures
            colored_or_plain(
                r@,
                marker_text_of(self.config().display_mode, record.level),
                color_spec(record.level),
            ),
    {
        match self.1.display_mode {
            DisplayMode::Bars => DefaultingLevel::from(record.level).colorize('\u{2588}'),
            DisplayMode::Text => to_display(record.level),
        }
    }

    /// The timestamp stage: the current local time as `HH:MM`, uncolored.
    pub fn time_stage(&self, _record: &LogRecord) -> (r: String)
        ensures
            is_hhmm(r@),
    {
        local_time_hhmm()
    }

    /// The message stage: the record's message, verbatim.
    pub fn message_stage(&self, record: &LogRecord) -> (r: String)
        ensures
            r@ == record.message@,
    {
        record.message.clone()
    }

    /// The file-info stage: `(basename:line)` when both the file and the
    /// line are present, and nothing when either is missing.
    pub fn file_info_stage(&self, record: &LogRecord) -> (r: Option<String>)
        ensures
            r is Some <==> (record.file is Some && record.line is Some),
            r matches Some(seg) ==> seg@ == file_info_spec(record.file->0@, record.line->0),
    {
        match (&record.file, &record.line) {
            (Some(file), Some(line)) => {
                let mut s = String::from_str("(");
                let base = basename(file.as_str());
                s.append(base.as_str());
                s.append(":");
                let digits = u32_to_decimal(*line);
                s.append(digits.as_str());
                s.append(") ");
                proof {
                    reveal_strlit("(");
                    reveal_strlit(":");
                    reveal_strlit(") ");
                    assert("("@ =~= seq!['(']);
                    assert(":"@ =~= seq![':']);
                    assert(") "@ =~= seq![')', ' ']);
                    assert(s@ =~= file_info_spec(record.file->0@, record.line->0));
                }
                Some(s)
            },
            _ => None,
        }
    }

    /// Renders a record into its output line, or into nothing when its level
    /// does not pass the threshold. The line renders the record under the
    /// configured display mode at some `HH:MM` time.
    pub fn log(&self, record: &LogRecord) -> (r: Option<String>)
        ensures
            r is Some <==> self.enabled_spec(record.level),
            r is Some ==> exists|t: Seq<char>|
                #![trigger is_hhmm(t)]
                is_hhmm(t) && is_rendering_of(r->0@, self.config().display_mode, *record, t),
    {
        if self.enabled(record.level) {
            let marker = self.display_stage(record);
            let time = self.time_stage(record);
            let info = if should_display_file_info(record.level) {
                self.file_info_stage(record)
            } else {
                None
            };
            let message = self.message_stage(record);
            let line = compose_line(marker.as_str(), time.as_str(), &info, message.as_str());
            proof {
                assert((match info {
                    Some(seg) => seg@,
                    None => Seq::<char>::empty(),
                }) == info_segment_of(*record));
                assert(line@ == line_of(marker@, time@, info_segment_of(*record), record.message@));
                assert(is_rendering_of(line@, self.config().display_mode, *record, time@));
            }
            Some(line)
        } else {
            None
        }
    }

    /// Flushing is a no-op: every line is handed out whole as soon as it is
    /// rendered.
    pub fn flush(&self) {
    }
}

/// Enabling is monotonic in severity: when a level is enabled, every level
/// at least as severe is enabled too.
pub proof fn lemma_enabled_monotonic(mech: LogMechanism, l1: Severity, l2: Severity)
    requires
        rank(l1) >= rank(l2),
        mech.enabled_spec(l2),
    ensures
        mech.enabled_spec(l1),
{
}

/// A record contributes a file-info segment to its line if and only if its
/// severity shows file information and both its file and its line are
/// present.
pub proof fn lemma_file_info_presence(record: LogRecord)
    ensures
        info_segment_of(record).len() > 0 <==> (shows_file_info(record.level) && record.file is Some
            && record.line is Some),
{
}

/// Switching the display mode is pure: two lines rendered from the same
/// time, file-info segment, and message agree on everything after their
/// severity markers, whatever the two markers are; and each line starts with
/// its own marker.
pub proof fn lemma_mode_switch_pure(
    m1: Seq<char>,
    m2: Seq<char>,
    t: Seq<char>,
    info: Seq<char>,
    msg: Seq<char>,
)
    ensures
        line_of(m1, t, info, msg).skip(m1.len() as int) == line_of(m2, t, info, msg).skip(
            m2.len() as int,
        ),
        line_of(m1, t, info, msg).take(m1.len() as int) == m1,
{
    assert(line_of(m1, t, info, msg).skip(m1.len() as int) =~= seq![' '] + t + seq![' '] + info
        + msg + seq!['\n']);
    assert(line_of(m2, t, info, msg).skip(m2.len() as int) =~= seq![' '] + t + seq![' '] + info
        + msg + seq!['\n']);
    assert(line_of(m1, t, info, msg).take(m1.len() as int) =~= m1);
}

} // verus!
