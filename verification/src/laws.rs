//! Laws of detection that hold for every report and every value of `LANG`.

use vstd::prelude::*;
use crate::detect::{fallback_tag, system_tag};
use crate::platform::{PlatformLocaleView, PreferredLanguagesView};
use crate::tag::{en_tag, is_language_tag};

verus! {

/// Detection fails on no input: whatever the platform reported, and whether
/// or not `LANG` is set, the detected tag is one of the supported tags.
pub proof fn lemma_detection_is_total(platform: PlatformLocaleView, lang: Option<Seq<char>>)
    ensures
        is_language_tag(system_tag(platform, lang)),
{
}

/// Where the platform's own source names no language and `LANG` is unset,
/// the detected tag is English.
pub proof fn lemma_nothing_reported_is_english(platform: PlatformLocaleView)
    requires
        platform.preferred_language() is None,
    ensures
        system_tag(platform, None) == en_tag(),
{
}

/// On Windows, where each of the two registry keys is absent or names no
/// language, detection gives what the generic method gives for `LANG`.
pub proof fn lemma_windows_without_registry_falls_back(
    desktop: Option<PreferredLanguagesView>,
    mui_cached: Option<PreferredLanguagesView>,
    lang: Option<Seq<char>>,
)
    requires
        desktop matches Some(key) ==> key.first_choice() is None,
        mui_cached matches Some(key) ==> key.first_choice() is None,
    ensures
        system_tag(PlatformLocaleView::Windows { desktop, mui_cached }, lang) == fallback_tag(
            lang,
        ),
{
}

/// A registry key whose value reads neither as a list nor as a single string
/// names no language.
pub proof fn lemma_unreadable_key_names_nothing(key: PreferredLanguagesView)
    requires
        key.list is None,
        key.text is None,
    ensures
        key.first_choice() is None,
{
}

} // verus!
