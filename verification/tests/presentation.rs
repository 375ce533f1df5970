use barlog::Color;
use barlog::Configuration;
use barlog::ConfigurationBuilder;
use barlog::DisplayMode;
use barlog::Severity;
use barlog::severity::to_color;
use barlog::severity::to_display;
use barlog::text::basename;
use barlog::text::repeat_char;
use barlog::text::u32_to_decimal;

#[test]
fn color_mapping_is_the_fixed_palette() {
    assert_eq!(to_color(Severity::Error), Color::Red);
    assert_eq!(to_color(Severity::Warn), Color::Yellow);
    assert_eq!(to_color(Severity::Info), Color::Green);
    assert_eq!(to_color(Severity::Debug), Color::Cyan);
    assert_eq!(to_color(Severity::Trace), Color::Magenta);
}

#[test]
fn labels_are_five_characters_and_distinct() {
    colored::control::set_override(false);
    let labels = [
        to_display(Severity::Error),
        to_display(Severity::Warn),
        to_display(Severity::Info),
        to_display(Severity::Debug),
        to_display(Severity::Trace),
    ];
    assert_eq!(labels[0], "ERROR");
    assert_eq!(labels[1], " WARN");
    assert_eq!(labels[2], " INFO");
    assert_eq!(labels[3], "DEBUG");
    assert_eq!(labels[4], "TRACE");
    for (i, a) in labels.iter().enumerate() {
        assert_eq!(a.chars().count(), 5);
        for (j, b) in labels.iter().enumerate() {
            if i != j {
                assert_ne!(a, b);
            }
        }
    }
    colored::control::unset_override();
}

#[test]
fn forced_coloring_wraps_the_label_in_escapes() {
    colored::control::set_override(true);
    assert_eq!(to_display(Severity::Error), "\u{1b}[31mERROR\u{1b}[0m");
    assert_eq!(to_display(Severity::Warn), "\u{1b}[33m WARN\u{1b}[0m");
    assert_eq!(to_display(Severity::Info), "\u{1b}[32m INFO\u{1b}[0m");
    assert_eq!(to_display(Severity::Debug), "\u{1b}[36mDEBUG\u{1b}[0m");
    assert_eq!(to_display(Severity::Trace), "\u{1b}[35mTRACE\u{1b}[0m");
    colored::control::unset_override();
}

#[test]
fn basename_takes_the_final_path_segment() {
    assert_eq!(basename("a/b/c.rs"), "c.rs");
    assert_eq!(basename("c.rs"), "c.rs");
    assert_eq!(basename("src/a.rs"), "a.rs");
    assert_eq!(basename(""), "");
    assert_eq!(basename("a/b/"), "");
}

#[test]
fn basename_handles_multibyte_paths() {
    assert_eq!(basename("src/w\u{00e4}rter/log.rs"), "log.rs");
}

#[test]
fn repeat_char_builds_the_requested_run() {
    assert_eq!(repeat_char('x', 5), "xxxxx");
    assert_eq!(repeat_char('\u{2588}', 3), "\u{2588}\u{2588}\u{2588}");
    assert_eq!(repeat_char('y', 0), "");
}

#[test]
fn decimal_rendering_matches_expected_values() {
    assert_eq!(u32_to_decimal(0), "0");
    assert_eq!(u32_to_decimal(7), "7");
    assert_eq!(u32_to_decimal(10), "10");
    assert_eq!(u32_to_decimal(14073), "14073");
    assert_eq!(u32_to_decimal(u32::MAX), "4294967295");
}

#[test]
fn default_configuration_is_bars_without_wrapping() {
    let config = Configuration::default();
    assert_eq!(config.display_mode, DisplayMode::Bars);
    assert!(!config.wrap);
}

#[test]
fn builder_fills_unset_options_with_defaults() {
    let config = ConfigurationBuilder::default().build();
    assert_eq!(config.display_mode, DisplayMode::Bars);
    assert!(!config.wrap);
}

#[test]
fn builder_applies_partial_overrides() {
    let config = ConfigurationBuilder::default().display_mode(DisplayMode::Text).build();
    assert_eq!(config.display_mode, DisplayMode::Text);
    assert!(!config.wrap);

    let config = ConfigurationBuilder::default().wrap(true).build();
    assert_eq!(config.display_mode, DisplayMode::Bars);
    assert!(config.wrap);

    let config = ConfigurationBuilder::default()
        .display_mode(DisplayMode::Text)
        .wrap(true)
        .build();
    assert_eq!(config.display_mode, DisplayMode::Text);
    assert!(config.wrap);
}
