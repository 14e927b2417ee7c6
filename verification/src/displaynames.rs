//! Options controlling how region or language codes are translated to
//! display names.

use vstd::prelude::*;

verus! {

/// A bag of options defining how region or language codes will be
/// translated.
#[derive(Copy, Debug, Eq, PartialEq, Clone, Structural)]
#[non_exhaustive]
pub struct DisplayNamesOptions {
    /// The optional formatting style to use for the display name.
    pub style: Option<Style>,
    /// The fallback return when the system does not have the requested
    /// display name; defaults to the code itself.
    pub fallback: Fallback,
    /// The language display kind; defaults to the dialect form.
    pub language_display: LanguageDisplay,
}

impl Default for DisplayNamesOptions {
    /// No style preference, fall back to the code, display the dialect form.
    fn default() -> (r: DisplayNamesOptions)
        ensures
            r.style is None,
            r.fallback is Code,
            r.language_display is Dialect,
    {
        DisplayNamesOptions {
            style: None,
            fallback: Fallback::Code,
            language_display: LanguageDisplay::Dialect,
        }
    }
}

/// The formatting style of a display name.
#[derive(Debug, Eq, PartialEq, Clone, Copy, Structural)]
#[non_exhaustive]
#[allow(missing_docs)]
pub enum Style {
    Narrow,
    Short,
    Long,
    Menu,
}

/// What to return when the system does not have the requested display name.
#[derive(Debug, Eq, PartialEq, Clone, Copy, Structural)]
#[non_exhaustive]
pub enum Fallback {
    /// Fall back to the BCP-47 code when the display name cannot be found.
    Code,
    /// Do not fall back; report an error when the display name cannot be
    /// found.
    NoFallback,
}

impl Default for Fallback {
    /// Falling back to the code is the default.
    fn default() -> (r: Fallback)
        ensures
            r is Code,
    {
        Fallback::Code
    }
}

/// The language display kind.
#[derive(Debug, Eq, PartialEq, Clone, Copy, Structural)]
#[non_exhaustive]
#[allow(missing_docs)]
pub enum LanguageDisplay {
    Dialect,
    Standard,
}

impl Default for LanguageDisplay {
    /// The dialect form is the default.
    fn default() -> (r: LanguageDisplay)
        ensures
            r is Dialect,
    {
        LanguageDisplay::Dialect
    }
}

} // verus!
