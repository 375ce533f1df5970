//! Rendering configuration: the display mode for the severity marker and the
//! (currently inert) line-wrap toggle, with a builder that fills unset
//! options with their defaults.

use vstd::prelude::*;

verus! {

/// How the severity stage of a line is rendered: five colored block glyphs,
/// or a five-character colored text label.
#[derive(Clone, Copy, Debug, PartialEq, Eq, Structural)]
pub enum DisplayMode {
    Bars,
    Text,
}

impl Default for DisplayMode {
    /// The default display mode is `Bars`.
    fn default() -> (r: Self)
        ensures
            r == DisplayMode::Bars,
    {
        DisplayMode::Bars
    }
}

/// Immutable description of how a log line should look.
///
/// `wrap` is a stored-but-inert option: the message stage emits the message
/// verbatim whatever its value.
#[derive(Clone, Copy, Debug, PartialEq, Eq, Structural)]
pub struct Configuration {
    pub display_mode: DisplayMode,
    pub wrap: bool,
}

impl Default for Configuration {
    /// The default configuration: `Bars` display mode, wrapping off.
    fn default() -> (r: Self)
        ensures
            r.display_mode == DisplayMode::Bars,
            !r.wrap,
    {
        Configuration { display_mode: DisplayMode::Bars, wrap: false }
    }
}

/// Fluent builder for [`Configuration`]: options left unset take the type's
/// defaults (`Bars`, no wrapping). Building never fails.
pub struct ConfigurationBuilder {
    pub display_mode: Option<DisplayMode>,
    pub wrap: Option<bool>,
}

impl Default for ConfigurationBuilder {
    /// A builder with no option set.
    fn default() -> (r: Self)
        ensures
            r.display_mode is None,
            r.wrap is None,
    {
        ConfigurationBuilder { display_mode: None, wrap: None }
    }
}

impl ConfigurationBuilder {
    /// Sets the display mode; the wrap option is left as it was.
    pub fn display_mode(self, mode: DisplayMode) -> (r: Self)
        ensures
            r.display_mode == Some(mode),
            r.wrap == self.wrap,
    {
        ConfigurationBuilder { display_mode: Some(mode), wrap: self.wrap }
    }

    /// Sets the wrap toggle; the display mode is left as it was.
    pub fn wrap(self, wrap: bool) -> (r: Self)
        ensures
            r.wrap == Some(wrap),
            r.display_mode == self.display_mode,
    {
        ConfigurationBuilder { display_mode: self.display_mode, wrap: Some(wrap) }
    }

    /// Freezes the builder into a [`Configuration`], filling each unset
    /// option with its default.
    pub fn build(self) -> (r: Configuration)
        ensures
            r.display_mode == (match self.display_mode {
                Some(m) => m,
                None => DisplayMode::Bars,
            }),
            r.wrap == (match self.wrap {
                Some(w) => w,
                None => false,
            }),
    {
        let display_mode = match self.display_mode {
            Some(m) => m,
            None => DisplayMode::Bars,
        };
        let wrap = match self.wrap {
            Some(w) => w,
            None => false,
        };
        Configuration { display_mode, wrap }
    }
}

} // verus!
