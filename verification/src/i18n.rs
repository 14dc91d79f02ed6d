//! The language of the interface: which one a visitor gets, and the texts,
//! relative times and links that depend on it.
use vstd::prelude::*;
use vstd::string::StringSliceAdditionalSpecFns;

use crate::text::{
    ascii_lowercase, before_char, chars_of, decimal, find_char, hex_digit, hex_digit_upper,
    lemma_split_on_first, lowercase_range, push_char, push_decimal, push_str, split_on, str_eq,
    string_from_range, subvec, trim, trim_bounds,
};
use crate::texts::{chinese_text, chinese_text_of, english_text, english_text_of};

verus! {

/// The cookie that remembers a language chosen by hand.
pub const LANGUAGE_COOKIE: &'static str = "microbin_lang";

#[derive(Clone, Copy, Debug, PartialEq, Eq, Structural)]
pub enum Language {
    English,
    SimplifiedChinese,
}

/// The code that names a language in cookies and links.
pub open spec fn language_code(language: Language) -> Seq<char> {
    match language {
        Language::English => "en"@,
        Language::SimplifiedChinese => "zh-CN"@,
    }
}

/// The language that a code names, if it names one.
pub open spec fn language_for_code(code: Seq<char>) -> Option<Language> {
    if code == "en"@ || code == "en-US"@ || code == "en-GB"@ {
        Some(Language::English)
    } else if code == "zh"@ || code == "zh-CN"@ || code == "zh-Hans"@ {
        Some(Language::SimplifiedChinese)
    } else {
        None
    }
}

/// The language tag of one item of an `Accept-Language` header:
/// the part before any `;`, trimmed and in ASCII lower case.
pub open spec fn language_tag(item: Seq<char>) -> Seq<char> {
    ascii_lowercase(trim(before_char(item, ';')))
}

/// The language that a lower-case tag stands for, if this interface has it.
pub open spec fn tag_language(tag: Seq<char>) -> Option<Language> {
    if tag == "zh"@ || tag == "zh-cn"@ || tag == "zh-hans"@ || tag == "zh-sg"@ {
        Some(Language::SimplifiedChinese)
    } else if tag == "en"@ || "en-"@.is_prefix_of(tag) {
        Some(Language::English)
    } else {
        None
    }
}

/// The language of the first item that names a language this interface has.
pub open spec fn first_recognized(items: Seq<Seq<char>>) -> Option<Language>
    decreases items.len(),
{
    if items.len() == 0 {
        None
    } else {
        match tag_language(language_tag(items[0])) {
            Some(language) => Some(language),
            None => first_recognized(items.drop_first()),
        }
    }
}

/// The language that an `Accept-Language` header asks for: the first of its
/// comma-separated items, in the order written, that names one this interface has.
pub open spec fn accept_language_preference(header: Seq<char>) -> Option<Language> {
    first_recognized(split_on(header, ','))
}

/// The language a visitor gets: the one the cookie names, else the one the
/// browser asks for, else English.
pub open spec fn preferred_language(cookie: Option<Seq<char>>, header: Option<Seq<char>>) -> Language {
    let from_cookie = match cookie {
        Some(c) => language_for_code(c),
        None => None,
    };
    let from_header = match header {
        Some(h) => accept_language_preference(h),
        None => None,
    };
    match from_cookie {
        Some(language) => language,
        None => match from_header {
            Some(language) => language,
            None => Language::English,
        },
    }
}

/// The text for `key` in `language`.
pub open spec fn localized_text(language: Language, key: Seq<char>) -> Seq<char> {
    match language {
        Language::English => english_text(key),
        Language::SimplifiedChinese => chinese_text(key),
    }
}

/// "`value` `unit`s ago", in `language`.
pub open spec fn plural_text(
    language: Language,
    value: nat,
    english_unit: Seq<char>,
    chinese_unit: Seq<char>,
) -> Seq<char> {
    match language {
        Language::SimplifiedChinese => decimal(value) + chinese_unit + "前"@,
        Language::English => decimal(value) + " "@ + english_unit + (if value == 1 {
            ""@
        } else {
            "s"@
        }) + " ago"@,
    }
}

/// How long ago something happened, `elapsed` seconds back (a negative span counts as none):
/// whole days from two days on, else whole hours from two hours on, else whole
/// minutes from two minutes on, else seconds from two seconds on, else "just now".
pub open spec fn relative_time_text(language: Language, elapsed: int) -> Seq<char> {
    let e: int = if elapsed < 0 {
        0
    } else {
        elapsed
    };
    if e >= 2 * 86400 {
        plural_text(language, (e / 86400) as nat, "day"@, "天"@)
    } else if e >= 2 * 3600 {
        plural_text(language, (e / 3600) as nat, "hour"@, "小时"@)
    } else if e >= 2 * 60 {
        plural_text(language, (e / 60) as nat, "minute"@, "分钟"@)
    } else if e >= 2 {
        plural_text(language, e as nat, "second"@, "秒"@)
    } else {
        localized_text(language, "just_now"@)
    }
}

/// "Read `count` times, last `relative time`", in `language`.
pub open spec fn read_summary_text(language: Language, count: nat, elapsed: int) -> Seq<char> {
    match language {
        Language::SimplifiedChinese => "已阅读 "@ + decimal(count) + " 次，最后阅读于"@
            + relative_time_text(language, elapsed),
        Language::English => "Read "@ + decimal(count) + " time"@ + (if count == 1 {
            ""@
        } else {
            "s"@
        }) + ", last "@ + relative_time_text(language, elapsed),
    }
}

/// The name shown for a server status in `language`.
pub open spec fn status_text(language: Language, status: Seq<char>) -> Seq<char> {
    match language {
        Language::SimplifiedChinese => if status == "WARNING"@ {
            "警告"@
        } else if status == "OK"@ {
            "正常"@
        } else {
            "UNKNOWN"@
        },
        Language::English => if status == "WARNING"@ {
            "WARNING"@
        } else if status == "OK"@ {
            "OK"@
        } else {
            "UNKNOWN"@
        },
    }
}

/// Bytes that stand for themselves in an encoded path: ASCII letters and
/// digits, `-`, `_`, `.`, `~` and `/`.
pub open spec fn is_path_safe_byte(b: u8) -> bool {
    ||| (48 <= b && b <= 57)
    ||| (65 <= b && b <= 90)
    ||| (97 <= b && b <= 122)
    ||| b == 45
    ||| b == 95
    ||| b == 46
    ||| b == 126
    ||| b == 47
}

/// One byte, encoded: itself where it is safe, else `%` and two upper-case hex digits.
pub open spec fn encode_path_byte(b: u8) -> Seq<char> {
    if is_path_safe_byte(b) {
        seq![b as char]
    } else {
        seq!['%', hex_digit_upper((b / 16) as nat), hex_digit_upper((b % 16) as nat)]
    }
}

/// The bytes of a path, each encoded in turn.
pub open spec fn percent_encoded(bytes: Seq<u8>) -> Seq<char>
    decreases bytes.len(),
{
    if bytes.len() == 0 {
        Seq::empty()
    } else {
        percent_encoded(bytes.drop_last()) + encode_path_byte(bytes.last())
    }
}

/// The link that switches to `language` and comes back to `current_path`.
pub open spec fn switch_url_text(language: Seq<char>, current_path: &str) -> Seq<char> {
    "/language/"@ + language + "?next="@ + percent_encoded(current_path.spec_bytes())
}

impl Language {
    pub fn code(self) -> (r: &'static str)
        ensures
            r@ == language_code(self),
    {
        match self {
            Self::English => "en",
            Self::SimplifiedChinese => "zh-CN",
        }
    }

    pub fn from_code(code: &str) -> (r: Option<Self>)
        ensures
            r == language_for_code(code@),
    {
        if str_eq(code, "en") || str_eq(code, "en-US") || str_eq(code, "en-GB") {
            Some(Self::English)
        } else if str_eq(code, "zh") || str_eq(code, "zh-CN") || str_eq(code, "zh-Hans") {
            Some(Self::SimplifiedChinese)
        } else {
            None
        }
    }

    /// The language that an `Accept-Language` header asks for, if this interface has it.
    pub fn from_accept_language(value: &str) -> (r: Option<Self>)
        ensures
            r == accept_language_preference(value@),
    {
        let v = chars_of(value);
        let mut start: usize = 0;
        assert(v@.skip(0) == v@);
        loop
            invariant
                start <= v.len(),
                v@ == value@,
                accept_language_preference(v@) == first_recognized(
                    split_on(v@.skip(start as int), ','),
                ),
            decreases v.len() - start,
        {
            let j = find_char(&v, start, ',');
            let ghost rest = v@.skip(start as int);
            proof {
                lemma_split_on_first(rest, ',', j - start);
                assert(rest.take(j - start) == v@.subrange(start as int, j as int));
                if j == v.len() {
                    assert(rest.take(j - start) == rest);
                }
                assert(split_on(rest, ',')[0] == v@.subrange(start as int, j as int));
            }
            let found = item_language(&v, start, j);
            if found.is_some() {
                return found;
            }
            if j == v.len() {
                assert(split_on(rest, ',').drop_first().len() == 0);
                assert(first_recognized(split_on(rest, ',').drop_first()) == None::<Language>);
                return None;
            }
            proof {
                assert(rest.skip(j - start + 1) == v@.skip(j + 1));
                let items = split_on(rest, ',');
                assert(items.drop_first() == split_on(v@.skip(j + 1), ','));
            }
            start = j + 1;
        }
    }
}

/// The language that the item `v[from..to]` of a header names, if this interface has it.
fn item_language(v: &Vec<char>, from: usize, to: usize) -> (r: Option<Language>)
    requires
        from <= to <= v.len(),
    ensures
        r == tag_language(language_tag(v@.subrange(from as int, to as int))),
{
    let item = subvec(v, from, to);
    let semicolon = find_char(&item, 0, ';');
    proof {
        lemma_split_on_first(item@, ';', semicolon as int);
    }
    let before = subvec(&item, 0, semicolon);
    assert(before@ == before_char(item@, ';'));
    let (s, e) = trim_bounds(&before);
    let tag = lowercase_range(&before, s, e);
    assert(tag@ == language_tag(item@));
    let tag_text = string_from_range(&tag, 0, tag.len());
    assert(tag@.subrange(0, tag@.len() as int) == tag@);
    let t = tag_text.as_str();
    if str_eq(t, "zh") || str_eq(t, "zh-cn") || str_eq(t, "zh-hans") || str_eq(t, "zh-sg") {
        Some(Language::SimplifiedChinese)
    } else if str_eq(t, "en") {
        Some(Language::English)
    } else {
        proof {
            reveal_strlit("en-");
        }
        let prefixed = tag.len() >= 3 && tag[0] == 'e' && tag[1] == 'n' && tag[2] == '-';
        if prefixed {
            assert("en-"@ =~= tag@.subrange(0, 3));
            Some(Language::English)
        } else {
            assert(!"en-"@.is_prefix_of(tag@));
            None
        }
    }
}

#[derive(Clone, Copy, Debug)]
pub struct I18n {
    pub language: Language,
}

impl I18n {
    /// The interface language for a visitor, from the language cookie (if any)
    /// and the `Accept-Language` header (if any): the cookie wins, then the
    /// header, then English.
    pub fn from_preferences(cookie: Option<&str>, accept_language: Option<&str>) -> (r: Self)
        ensures
            r.language == preferred_language(
                match cookie {
                    Some(c) => Some(c@),
                    None => None,
                },
                match accept_language {
                    Some(h) => Some(h@),
                    None => None,
                },
            ),
    {
        let from_cookie = match cookie {
            Some(c) => Language::from_code(c),
            None => None,
        };
        let language = match from_cookie {
            Some(language) => language,
            None => {
                let from_header = match accept_language {
                    Some(h) => Language::from_accept_language(h),
                    None => None,
                };
                match from_header {
                    Some(language) => language,
                    None => Language::English,
                }
            },
        };
        I18n { language }
    }

    /// The text for `key` in this language.
    pub fn text(self, key: &str) -> (r: &'static str)
        ensures
            r@ == localized_text(self.language, key@),
    {
        match self.language {
            Language::SimplifiedChinese => chinese_text_of(key),
            Language::English => english_text_of(key),
        }
    }

    /// How long ago something happened that is `elapsed_seconds` old.
    pub fn relative_time(self, elapsed_seconds: i64) -> (r: String)
        ensures
            r@ == relative_time_text(self.language, elapsed_seconds as int),
    {
        let elapsed_seconds: i64 = if elapsed_seconds < 0 {
            0
        } else {
            elapsed_seconds
        };
        if elapsed_seconds >= 2 * 86400 {
            return self.plural(elapsed_seconds / 86400, "day", "天");
        }
        if elapsed_seconds >= 2 * 3600 {
            return self.plural(elapsed_seconds / 3600, "hour", "小时");
        }
        if elapsed_seconds >= 2 * 60 {
            return self.plural(elapsed_seconds / 60, "minute", "分钟");
        }
        if elapsed_seconds >= 2 {
            return self.plural(elapsed_seconds, "second", "秒");
        }
        let mut r = String::new();
        push_str(&mut r, self.text("just_now"));
        r
    }

    fn plural(self, value: i64, english_unit: &str, chinese_unit: &str) -> (r: String)
        requires
            value >= 0,
        ensures
            r@ == plural_text(self.language, value as nat, english_unit@, chinese_unit@),
    {
        let mut r = String::new();
        push_decimal(&mut r, value as u64);
        match self.language {
            Language::SimplifiedChinese => {
                push_str(&mut r, chinese_unit);
                push_str(&mut r, "前");
            },
            Language::English => {
                push_str(&mut r, " ");
                push_str(&mut r, english_unit);
                if value == 1 {
                    push_str(&mut r, "");
                } else {
                    push_str(&mut r, "s");
                }
                push_str(&mut r, " ago");
            },
        }
        r
    }

    /// How often something was read and how long ago the last time was.
    pub fn read_summary(self, count: &u64, elapsed_seconds: &i64) -> (r: String)
        ensures
            r@ == read_summary_text(self.language, *count as nat, *elapsed_seconds as int),
    {
        let mut r = String::new();
        match self.language {
            Language::SimplifiedChinese => {
                push_str(&mut r, "已阅读 ");
                push_decimal(&mut r, *count);
                push_str(&mut r, " 次，最后阅读于");
            },
            Language::English => {
                push_str(&mut r, "Read ");
                push_decimal(&mut r, *count);
                push_str(&mut r, " time");
                if *count == 1 {
                    push_str(&mut r, "");
                } else {
                    push_str(&mut r, "s");
                }
                push_str(&mut r, ", last ");
            },
        }
        let when = self.relative_time(*elapsed_seconds);
        push_str(&mut r, when.as_str());
        r
    }

    /// The name of a server status (`"OK"`, `"WARNING"`) in this language.
    pub fn status(self, status: &str) -> (r: &'static str)
        ensures
            r@ == status_text(self.language, status@),
    {
        match self.language {
            Language::SimplifiedChinese => {
                if str_eq(status, "WARNING") {
                    "警告"
                } else if str_eq(status, "OK") {
                    "正常"
                } else {
                    "UNKNOWN"
                }
            },
            Language::English => {
                if str_eq(status, "WARNING") {
                    "WARNING"
                } else if str_eq(status, "OK") {
                    "OK"
                } else {
                    "UNKNOWN"
                }
            },
        }
    }

    /// The link that switches to `language` and comes back to `current_path`.
    pub fn switch_url(self, language: &str, current_path: &str) -> (r: String)
        ensures
            r@ == switch_url_text(language@, current_path),
    {
        let mut r = String::new();
        push_str(&mut r, "/language/");
        push_str(&mut r, language);
        push_str(&mut r, "?next=");
        let encoded = percent_encode_path(current_path);
        push_str(&mut r, encoded.as_str());
        r
    }

    /// The value of the `lang` attribute of the page.
    pub fn html_lang(self) -> (r: &'static str)
        ensures
            r@ == language_code(self.language),
    {
        match self.language {
            Language::English => "en",
            Language::SimplifiedChinese => "zh-CN",
        }
    }

    pub fn is_english(self) -> (r: bool)
        ensures
            r == (self.language == Language::English),
    {
        self.language == Language::English
    }

    pub fn is_simplified_chinese(self) -> (r: bool)
        ensures
            r == (self.language == Language::SimplifiedChinese),
    {
        self.language == Language::SimplifiedChinese
    }
}

/// Encodes a path so that it can stand as the value of a query parameter.
pub fn percent_encode_path(path: &str) -> (r: String)
    ensures
        r@ == percent_encoded(path.spec_bytes()),
{
    let bytes = path.as_bytes();
    let mut r = String::new();
    let n = bytes.len();
    assert(bytes@.take(0) == Seq::<u8>::empty());
    for i in 0..n
        invariant
            n == bytes@.len(),
            bytes@ == path.spec_bytes(),
            r@ == percent_encoded(bytes@.take(i as int)),
    {
        let b = bytes[i];
        let safe = (48 <= b && b <= 57) || (65 <= b && b <= 90) || (97 <= b && b <= 122) || b == 45
            || b == 95 || b == 46 || b == 126 || b == 47;
        if safe {
            push_char(&mut r, b as char);
        } else {
            push_char(&mut r, '%');
            push_char(&mut r, hex_digit(b / 16));
            push_char(&mut r, hex_digit(b % 16));
        }
        assert(bytes@.take(i + 1).drop_last() == bytes@.take(i as int));
        assert(r@ == percent_encoded(bytes@.take(i + 1)));
    }
    assert(bytes@.take(n as int) == bytes@);
    r
}

/// The path (with its query) of the current page, or `/` where the request has none.
pub fn path_or_root(path_and_query: Option<&str>) -> (r: String)
    ensures
        r@ == match path_and_query {
            Some(p) => p@,
            None => "/"@,
        },
{
    match path_and_query {
        Some(p) => p.to_owned(),
        None => "/".to_owned(),
    }
}

} // verus!
