//! Switching the interface language by hand, and the redirects it may follow.
use vstd::prelude::*;
use vstd::string::StringSliceAdditionalSpecFns;
use vstd::utf8::encode_utf8;

use crate::i18n::{language_code, language_for_code, localized_text, I18n, Language};

verus! {

/// A redirect target that stays on this site: it starts with one `/` but not
/// two, holds no backslash, no `://` and no control byte.
pub open spec fn safe_redirect_bytes(b: Seq<u8>) -> bool {
    &&& b.len() > 0 && b[0] == 47
    &&& !(b.len() >= 2 && b[1] == 47)
    &&& forall|i: int| 0 <= i < b.len() ==> #[trigger] b[i] != 92
    &&& forall|i: int|
        0 <= i && i + 2 < b.len() ==> !(#[trigger] b[i] == 58 && b[i + 1] == 47 && b[i + 2] == 47)
    &&& forall|i: int| 0 <= i < b.len() ==> #[trigger] b[i] >= 32 && b[i] != 127
}

/// Whether `path` is a redirect target that stays on this site.
pub fn is_safe_redirect(path: &str) -> (r: bool)
    ensures
        r == safe_redirect_bytes(path.spec_bytes()),
{
    let b = path.as_bytes();
    let n = b.len();
    if n == 0 || b[0] != 47 {
        return false;
    }
    if n >= 2 && b[1] == 47 {
        return false;
    }
    for i in 0..n
        invariant
            n == b@.len(),
            b@ == path.spec_bytes(),
            n > 0 && b@[0] == 47,
            !(n >= 2 && b@[1] == 47),
            forall|k: int| 0 <= k < i ==> #[trigger] b@[k] != 92,
            forall|k: int|
                0 <= k < i && k + 2 < n ==> !(#[trigger] b@[k] == 58 && b@[k + 1] == 47 && b@[k
                    + 2] == 47),
            forall|k: int| 0 <= k < i ==> #[trigger] b@[k] >= 32 && b@[k] != 127,
    {
        let c = b[i];
        if c == 92 || c < 32 || c == 127 {
            return false;
        }
        if n - i > 2 && c == 58 && b[i + 1] == 47 && b[i + 2] == 47 {
            return false;
        }
    }
    true
}

/// The query of a language switch: where to go back to.
pub struct LanguageQuery {
    pub next: Option<String>,
}

/// The answer to a request to switch the language.
pub enum LanguageSwitch {
    /// The language is not one this interface has: a bad request with this message.
    Unsupported { message: &'static str },
    /// Remember the language in the cookie and go to `location`.
    Redirect { location: String, cookie_value: &'static str },
}

/// Where a switch goes back to: `next` where it is a safe redirect, else `/`.
pub open spec fn switch_location(next: Option<String>) -> Seq<char> {
    match next {
        Some(path) => if safe_redirect_bytes(encode_utf8(path@)) {
            path@
        } else {
            "/"@
        },
        None => "/"@,
    }
}

/// Answers a request to switch to the language named `language_code` and go
/// back to `query.next`: a bad request where the language is unknown, else a
/// redirect that only ever leads to a safe path on this site.
pub fn switch_language(i18n: I18n, language_code_text: &str, query: &LanguageQuery) -> (r:
    LanguageSwitch)
    ensures
        match language_for_code(language_code_text@) {
            None => r matches LanguageSwitch::Unsupported { message } && message@
                == localized_text(i18n.language, "invalid_locale"@),
            Some(language) => r matches LanguageSwitch::Redirect { location, cookie_value }
                && cookie_value@ == language_code(language) && location@ == switch_location(
                query.next,
            ),
        },
{
    let language = match Language::from_code(language_code_text) {
        Some(language) => language,
        None => {
            return LanguageSwitch::Unsupported { message: i18n.text("invalid_locale") };
        },
    };
    let location = match &query.next {
        Some(path) => {
            if is_safe_redirect(path.as_str()) {
                path.clone()
            } else {
                "/".to_owned()
            }
        },
        None => "/".to_owned(),
    };
    LanguageSwitch::Redirect { location, cookie_value: language.code() }
}

} // verus!
