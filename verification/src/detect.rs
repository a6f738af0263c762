//! Detection of the user's preferred language from what the platform
//! reported, with the `LANG` environment variable as the fallback.

use vstd::prelude::*;
use crate::platform::{PlatformLocale, PlatformLocaleView, PreferredLanguages, registry_choice};
use crate::tag::{en_tag, is_language_tag, map_language_code, normalized};
use crate::text::{language_part, language_part_of};

verus! {

/// The tag that the generic method gives for the value of `LANG`: the tag of
/// the variable's language part, English where the variable is unset.
pub open spec fn fallback_tag(lang: Option<Seq<char>>) -> Seq<char> {
    match lang {
        Some(value) => normalized(language_part_of(value)),
        None => en_tag(),
    }
}

/// The tag for a raw identifier that a platform source may have named: its
/// normalization, or the generic method's tag where the source named none.
pub open spec fn tag_of_choice(choice: Option<Seq<char>>, lang: Option<Seq<char>>) -> Seq<char> {
    match choice {
        Some(raw) => normalized(raw),
        None => fallback_tag(lang),
    }
}

/// The tag detected on a platform that reported `platform`, with `lang` the
/// value of `LANG`.
pub open spec fn system_tag(platform: PlatformLocaleView, lang: Option<Seq<char>>) -> Seq<char> {
    tag_of_choice(platform.preferred_language(), lang)
}

/// The generic method: the language of the `LANG` environment variable
/// (`lang[_territory][.encoding]`), with `lang` the variable's value or
/// `None` where it is unset.
pub fn detect_fallback_language(lang: Option<&str>) -> (tag: String)
    ensures
        tag@ == fallback_tag(lang.deep_view()),
        lang is None ==> tag@ == en_tag(),
        is_language_tag(tag@),
{
    broadcast use vstd::string::group_string_axioms;

    match lang {
        Some(value) => map_language_code(language_part(value)),
        None => {
            proof {
                reveal_strlit("en");
                assert("en"@ =~= en_tag());
            }
            "en".to_string()
        },
    }
}

/// The language that one registry key names first: the first entry of the
/// list where the value reads as a list that has one, else the value read as
/// a single string.
pub fn read_preferred_languages(key: &PreferredLanguages) -> (lang: Option<&str>)
    ensures
        lang.deep_view() == key@.first_choice(),
{
    if let Some(langs) = &key.list {
        if langs.len() > 0 {
            return Some(langs[0].as_str());
        }
    }
    if let Some(text) = &key.text {
        return Some(text.as_str());
    }
    None
}

/// Detection on Windows, from the two registry keys as they were read and the
/// value of `LANG`.
pub fn detect_windows_language(
    desktop: &Option<PreferredLanguages>,
    mui_cached: &Option<PreferredLanguages>,
    lang: Option<&str>,
) -> (tag: String)
    ensures
        tag@ == tag_of_choice(
            registry_choice(desktop.deep_view(), mui_cached.deep_view()),
            lang.deep_view(),
        ),
        is_language_tag(tag@),
{
    if let Some(key) = desktop {
        if let Some(raw) = read_preferred_languages(key) {
            return map_language_code(raw);
        }
    }
    if let Some(key) = mui_cached {
        if let Some(raw) = read_preferred_languages(key) {
            return map_language_code(raw);
        }
    }
    detect_fallback_language(lang)
}

/// Detection on macOS, from the language code of the current locale, where
/// the locale service gave one, and the value of `LANG`.
pub fn detect_macos_language(language_code: Option<&str>, lang: Option<&str>) -> (tag: String)
    ensures
        tag@ == tag_of_choice(language_code.deep_view(), lang.deep_view()),
        is_language_tag(tag@),
{
    match language_code {
        Some(raw) => map_language_code(raw),
        None => detect_fallback_language(lang),
    }
}

/// The user's preferred language as a supported tag, from what the platform
/// reported and the value of `LANG`. Whatever was reported, a tag comes back:
/// a source that gave nothing leaves the choice to the next one, and English
/// is the last resort.
pub fn detect_system_language(platform: &PlatformLocale, lang: Option<&str>) -> (tag: String)
    ensures
        tag@ == system_tag(platform@, lang.deep_view()),
        is_language_tag(tag@),
{
    match platform {
        PlatformLocale::Windows { desktop, mui_cached } => detect_windows_language(
            desktop,
            mui_cached,
            lang,
        ),
        PlatformLocale::MacOs { language_code } => {
            let code = match language_code {
                Some(code) => Some(code.as_str()),
                None => None,
            };
            detect_macos_language(code, lang)
        },
        PlatformLocale::Other => detect_fallback_language(lang),
    }
}

/// The detected language as the application's command returns it. The error
/// side of the result is never used.
pub fn get_system_language(platform: &PlatformLocale, lang: Option<&str>) -> (result: Result<
    String,
    String,
>)
    ensures
        result is Ok,
        result->Ok_0@ == system_tag(platform@, lang.deep_view()),
        is_language_tag(result->Ok_0@),
{
    let system_lang = detect_system_language(platform, lang);
    Ok(system_lang)
}

} // verus!
