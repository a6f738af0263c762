//! What a host platform reports about the user's preferred language, as
//! plain values.

use vstd::prelude::*;

verus! {

/// The registry value `PreferredUILanguages` under one key, read both ways
/// in which Windows may store it.
#[derive(Clone, Debug)]
pub struct PreferredLanguages {
    /// The value read as an ordered list of strings, where that succeeded.
    pub list: Option<Vec<String>>,
    /// The value read as a single string, where that succeeded.
    pub text: Option<String>,
}

/// The mathematical content of a `PreferredLanguages`.
pub struct PreferredLanguagesView {
    pub list: Option<Seq<Seq<char>>>,
    pub text: Option<Seq<char>>,
}

impl PreferredLanguagesView {
    /// The language that the value names first: the first entry of a list
    /// that has one, the single string otherwise.
    pub open spec fn first_choice(self) -> Option<Seq<char>> {
        match self.list {
            Some(entries) if entries.len() > 0 => Some(entries[0]),
            _ => self.text,
        }
    }
}

impl View for PreferredLanguages {
    type V = PreferredLanguagesView;

    open spec fn view(&self) -> PreferredLanguagesView {
        PreferredLanguagesView { list: self.list.deep_view(), text: self.text.deep_view() }
    }
}

impl DeepView for PreferredLanguages {
    type V = PreferredLanguagesView;

    open spec fn deep_view(&self) -> PreferredLanguagesView {
        self.view()
    }
}

/// What the platform's own locale source gave. A key that could not be
/// opened, or a locale service that gave nothing, is `None`.
#[derive(Clone, Debug)]
pub enum PlatformLocale {
    /// Windows: the current user's registry keys `Control Panel\Desktop` and
    /// `Control Panel\Desktop\MuiCached`.
    Windows { desktop: Option<PreferredLanguages>, mui_cached: Option<PreferredLanguages> },
    /// macOS: the language code of the current locale.
    MacOs { language_code: Option<String> },
    /// Any other platform, which has no source of its own.
    Other,
}

/// The mathematical content of a `PlatformLocale`.
pub enum PlatformLocaleView {
    Windows { desktop: Option<PreferredLanguagesView>, mui_cached: Option<PreferredLanguagesView> },
    MacOs { language_code: Option<Seq<char>> },
    Other,
}

/// The language that the registry names: the first choice under `desktop`,
/// or else the one under `mui_cached`.
pub open spec fn registry_choice(
    desktop: Option<PreferredLanguagesView>,
    mui_cached: Option<PreferredLanguagesView>,
) -> Option<Seq<char>> {
    match desktop {
        Some(key) if key.first_choice() is Some => key.first_choice(),
        _ => match mui_cached {
            Some(key) => key.first_choice(),
            None => None,
        },
    }
}

impl PlatformLocaleView {
    /// The raw identifier that the platform's own source names, if any.
    pub open spec fn preferred_language(self) -> Option<Seq<char>> {
        match self {
            PlatformLocaleView::Windows { desktop, mui_cached } => registry_choice(
                desktop,
                mui_cached,
            ),
            PlatformLocaleView::MacOs { language_code } => language_code,
            PlatformLocaleView::Other => None,
        }
    }
}

impl View for PlatformLocale {
    type V = PlatformLocaleView;

    open spec fn view(&self) -> PlatformLocaleView {
        match self {
            PlatformLocale::Windows { desktop, mui_cached } => PlatformLocaleView::Windows {
                desktop: desktop.deep_view(),
                mui_cached: mui_cached.deep_view(),
            },
            PlatformLocale::MacOs { language_code } => PlatformLocaleView::MacOs {
                language_code: language_code.deep_view(),
            },
            PlatformLocale::Other => PlatformLocaleView::Other,
        }
    }
}

} // verus!
