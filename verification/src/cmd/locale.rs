//! The language of the program's own messages.

use vstd::prelude::*;

verus! {

/// A language in which the program's help can be shown.
#[derive(Debug, Clone, Copy, PartialEq, Eq, Hash, Structural)]
pub enum SupportedLang {
    En,
    ZhHans,
}

impl Default for SupportedLang {
    /// The default language, English.
    fn default() -> (r: SupportedLang)
        ensures
            r == SupportedLang::En,
    {
        SupportedLang::En
    }
}

/// The result of `str::to_lowercase` on a string.
pub uninterp spec fn lowercase(s: Seq<char>) -> Seq<char>;

/// `str::to_lowercase`: its result is named by `lowercase` and not stated further here.
#[verifier::external_body]
pub(crate) fn to_lowercase(s: &str) -> (r: String)
    ensures
        r@ == lowercase(s@),
{
    s.to_lowercase()
}

/// The language of a locale tag such as `zh-CN` or `en_US`: Simplified
/// Chinese where the tag, in lower case, starts with `zh`, else English.
pub open spec fn spec_lang_of_locale(locale: Seq<char>) -> SupportedLang {
    let lower = lowercase(locale);
    if lower.len() >= 2 && lower[0] == 'z' && lower[1] == 'h' {
        SupportedLang::ZhHans
    } else {
        SupportedLang::En
    }
}

impl SupportedLang {
    /// The language of a locale tag: `en…` gives English, `zh…` Simplified
    /// Chinese, anything else the default.
    pub fn from(locale: &str) -> (r: SupportedLang)
        ensures
            r == spec_lang_of_locale(locale@),
    {
        let lower = to_lowercase(locale);
        let mut first: Option<char> = None;
        let mut second: Option<char> = None;
        for c in it: lower.as_str().chars()
            invariant
                it.seq() == lower@,
                it.index() >= 1 ==> first == Some(lower@[0]),
                it.index() < 1 ==> first is None,
                it.index() >= 2 ==> second == Some(lower@[1]),
                it.index() < 2 ==> second is None,
        {
            if first.is_none() {
                first = Some(c);
            } else if second.is_none() {
                second = Some(c);
            }
        }
        match (first, second) {
            (Some('e'), Some('n')) => SupportedLang::En,
            (Some('z'), Some('h')) => SupportedLang::ZhHans,
            _ => SupportedLang::default(),
        }
    }
}

/// The language of the program: that of the system's locale where the
/// system reports one, else the default.
pub fn lang(locale: Option<&str>) -> (r: SupportedLang)
    ensures
        r == match locale {
            Some(l) => spec_lang_of_locale(l@),
            None => SupportedLang::En,
        },
{
    match locale {
        Some(l) => SupportedLang::from(l),
        None => SupportedLang::default(),
    }
}

} // verus!
