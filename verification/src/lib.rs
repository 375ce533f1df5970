//! A colorized console sink for structured log records.
//!
//! A [`mechanism::LogMechanism`] holds a minimum severity threshold and a
//! [`config::Configuration`]; records at or above the threshold are rendered
//! as one line of text: a colored severity marker, the current time, an
//! optional `(file:line)` segment, and the message.

pub mod config;
pub mod mechanism;
pub mod severity;
pub mod text;

pub use config::Configuration;
pub use config::ConfigurationBuilder;
pub use config::DisplayMode;
pub use mechanism::LogMechanism;
pub use mechanism::LogRecord;
pub use severity::Color;
pub use severity::Severity;
