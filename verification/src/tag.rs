//! The language tags that the application supports, and the rule that
//! reduces a raw locale identifier to one of them.

use vstd::prelude::*;
use crate::text::{lowercase_of, starts_with};

verus! {

/// The tag of English, which is also the tag used when nothing better is
/// known.
pub open spec fn en_tag() -> Seq<char> {
    seq!['e', 'n']
}

/// The tag of Simplified Chinese.
pub open spec fn zh_cn_tag() -> Seq<char> {
    seq!['z', 'h', '-', 'C', 'N']
}

/// Whether `tag` is one of the supported language tags.
pub open spec fn is_language_tag(tag: Seq<char>) -> bool {
    tag == en_tag() || tag == zh_cn_tag()
}

/// The opening of a lowercased identifier that selects Simplified Chinese.
pub open spec fn zh_prefix() -> Seq<char> {
    seq!['z', 'h']
}

/// The opening of a lowercased identifier that selects English.
pub open spec fn en_prefix() -> Seq<char> {
    seq!['e', 'n']
}

/// The tag that a lowercased identifier selects: by its opening where that
/// is a known one, English otherwise.
pub open spec fn tag_of_lowercased(lower: Seq<char>) -> Seq<char> {
    if zh_prefix().is_prefix_of(lower) {
        zh_cn_tag()
    } else if en_prefix().is_prefix_of(lower) {
        en_tag()
    } else {
        en_tag()
    }
}

/// The tag that a raw locale identifier is reduced to: the one that its
/// lowercase form selects.
pub open spec fn normalized(raw: Seq<char>) -> Seq<char> {
    tag_of_lowercased(lowercase_of(raw))
}

/// Picks the tag for an identifier that is already in lowercase.
pub fn match_language_prefix(lower: &str) -> (tag: String)
    ensures
        tag@ == tag_of_lowercased(lower@),
        zh_prefix().is_prefix_of(lower@) ==> tag@ == zh_cn_tag(),
        en_prefix().is_prefix_of(lower@) ==> tag@ == en_tag(),
        !zh_prefix().is_prefix_of(lower@) && !en_prefix().is_prefix_of(lower@) ==> tag@
            == en_tag(),
        is_language_tag(tag@),
{
    broadcast use vstd::string::group_string_axioms;

    proof {
        reveal_strlit("zh");
        reveal_strlit("en");
        reveal_strlit("zh-CN");
        assert("zh"@ =~= zh_prefix());
        assert("en"@ =~= en_prefix());
        assert("zh-CN"@ =~= zh_cn_tag());
    }
    if starts_with(lower, "zh") {
        return "zh-CN".to_string();
    }
    if starts_with(lower, "en") {
        return "en".to_string();
    }
    "en".to_string()
}

/// Reduces a raw locale identifier such as `en-US` or `zh_CN` to a supported
/// tag, matching its opening without regard to case.
pub fn map_language_code(lang: &str) -> (tag: String)
    ensures
        tag@ == normalized(lang@),
        zh_prefix().is_prefix_of(lowercase_of(lang@)) ==> tag@ == zh_cn_tag(),
        en_prefix().is_prefix_of(lowercase_of(lang@)) ==> tag@ == en_tag(),
        !zh_prefix().is_prefix_of(lowercase_of(lang@)) && !en_prefix().is_prefix_of(
            lowercase_of(lang@),
        ) ==> tag@ == en_tag(),
        is_language_tag(tag@),
{
    let lang_lower = lang.to_lowercase();
    match_language_prefix(lang_lower.as_str())
}

} // verus!
