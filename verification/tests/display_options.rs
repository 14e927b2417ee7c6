//! Tests for the display-name option types and their defaults.

use codepointtrie::displaynames::DisplayNamesOptions;
use codepointtrie::displaynames::Fallback;
use codepointtrie::displaynames::LanguageDisplay;
use codepointtrie::displaynames::Style;

#[test]
fn options_default_to_code_and_dialect() {
    let options: DisplayNamesOptions = Default::default();
    assert_eq!(options.style, None);
    assert_eq!(options.fallback, Fallback::Code);
    assert_eq!(options.language_display, LanguageDisplay::Dialect);
}

#[test]
fn options_can_choose_a_style() {
    let mut options: DisplayNamesOptions = Default::default();
    options.style = Some(Style::Short);
    assert_eq!(options.style, Some(Style::Short));
    assert_ne!(Style::Short, Style::Narrow);
    assert_ne!(Style::Long, Style::Menu);
}

#[test]
fn enum_defaults_match_the_options_default() {
    assert_eq!(Fallback::default(), Fallback::Code);
    assert_eq!(LanguageDisplay::default(), LanguageDisplay::Dialect);
    assert_ne!(Fallback::Code, Fallback::NoFallback);
    assert_ne!(LanguageDisplay::Dialect, LanguageDisplay::Standard);
}
