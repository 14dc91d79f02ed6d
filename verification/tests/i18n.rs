use microbin::i18n::{percent_encode_path, path_or_root, I18n, Language, LANGUAGE_COOKIE};

#[test]
fn parses_supported_languages() {
    assert_eq!(Language::from_code("zh-CN"), Some(Language::SimplifiedChinese));
    assert_eq!(Language::from_code("en"), Some(Language::English));
    assert_eq!(Language::from_code("fr"), None);
}

#[test]
fn prefers_cookie_over_browser_language() {
    let i18n = I18n::from_preferences(Some("en"), Some("zh-CN, en;q=0.8"));
    assert_eq!(i18n.language, Language::English);
}

#[test]
fn detects_simplified_chinese_from_browser_language() {
    let i18n = I18n::from_preferences(None, Some("zh-CN,zh;q=0.9,en;q=0.8"));
    assert_eq!(i18n.language, Language::SimplifiedChinese);
}

#[test]
fn encodes_query_delimiters_in_current_path() {
    assert_eq!(percent_encode_path("/pasta/key?view=raw"), "/pasta/key%3Fview%3Draw");
}

#[test]
fn localizes_relative_time() {
    assert_eq!(I18n { language: Language::English }.relative_time(1), "just now");
    assert_eq!(I18n { language: Language::SimplifiedChinese }.relative_time(120), "2分钟前");
}

#[test]
fn language_codes_round_trip() {
    for language in [Language::English, Language::SimplifiedChinese] {
        assert_eq!(Language::from_code(language.code()), Some(language));
        assert_eq!(I18n { language }.html_lang(), language.code());
    }
    assert_eq!(Language::from_code("en-US"), Some(Language::English));
    assert_eq!(Language::from_code("en-GB"), Some(Language::English));
    assert_eq!(Language::from_code("zh"), Some(Language::SimplifiedChinese));
    assert_eq!(Language::from_code("zh-Hans"), Some(Language::SimplifiedChinese));
    assert_eq!(Language::from_code("EN"), None);
    assert_eq!(Language::from_code(""), None);
}

#[test]
fn accept_language_takes_first_known_item() {
    assert_eq!(Language::from_accept_language("fr-FR, de;q=0.9, en-US;q=0.8"), Some(Language::English));
    assert_eq!(Language::from_accept_language("  ZH-Hans ;q=1, en"), Some(Language::SimplifiedChinese));
    assert_eq!(Language::from_accept_language("zh-SG"), Some(Language::SimplifiedChinese));
    assert_eq!(Language::from_accept_language("zh-tw, fr"), None);
    assert_eq!(Language::from_accept_language("english"), None);
    assert_eq!(Language::from_accept_language("en"), Some(Language::English));
    assert_eq!(Language::from_accept_language(",,en-AU"), Some(Language::English));
    assert_eq!(Language::from_accept_language(""), None);
    assert_eq!(Language::from_accept_language("\u{3000}zh\u{a0};q=0.5"), Some(Language::SimplifiedChinese));
}

#[test]
fn cookie_wins_and_english_is_default() {
    assert_eq!(I18n::from_preferences(Some("zh"), Some("en")).language, Language::SimplifiedChinese);
    assert_eq!(I18n::from_preferences(Some("fr"), Some("zh-cn")).language, Language::SimplifiedChinese);
    assert_eq!(I18n::from_preferences(Some("fr"), Some("fr")).language, Language::English);
    assert_eq!(I18n::from_preferences(None, None).language, Language::English);
    assert_eq!(LANGUAGE_COOKIE, "microbin_lang");
}

#[test]
fn texts_by_language() {
    let en = I18n { language: Language::English };
    let zh = I18n { language: Language::SimplifiedChinese };
    assert_eq!(en.text("new"), "New");
    assert_eq!(zh.text("new"), "新建");
    assert_eq!(en.text("confirm_remove"), "Are you sure you want to remove this pasta?");
    assert_eq!(zh.text("pasta_not_found"), "未找到 Pasta！:-(");
    assert_eq!(en.text("no_such_key"), "");
    assert_eq!(zh.text("no_such_key"), "");
    assert_eq!(zh.text(""), "");
    assert!(en.is_english() && !en.is_simplified_chinese());
    assert!(zh.is_simplified_chinese() && !zh.is_english());
}

#[test]
fn relative_times() {
    let en = I18n { language: Language::English };
    let zh = I18n { language: Language::SimplifiedChinese };
    assert_eq!(en.relative_time(-50), "just now");
    assert_eq!(en.relative_time(2), "2 seconds ago");
    assert_eq!(en.relative_time(119), "119 seconds ago");
    assert_eq!(en.relative_time(120), "2 minutes ago");
    assert_eq!(en.relative_time(7199), "119 minutes ago");
    assert_eq!(en.relative_time(7200), "2 hours ago");
    assert_eq!(en.relative_time(2 * 86400 - 1), "47 hours ago");
    assert_eq!(en.relative_time(2 * 86400), "2 days ago");
    assert_eq!(zh.relative_time(3 * 86400 + 5), "3天前");
    assert_eq!(zh.relative_time(10), "10秒前");
    assert_eq!(zh.relative_time(0), "刚刚");
    assert_eq!(en.relative_time(i64::MAX), "106751991167300 days ago");
}

#[test]
fn read_summaries() {
    let en = I18n { language: Language::English };
    let zh = I18n { language: Language::SimplifiedChinese };
    assert_eq!(en.read_summary(&1, &0), "Read 1 time, last just now");
    assert_eq!(en.read_summary(&0, &300), "Read 0 times, last 5 minutes ago");
    assert_eq!(en.read_summary(&u64::MAX, &7200), "Read 18446744073709551615 times, last 2 hours ago");
    assert_eq!(zh.read_summary(&3, &90), "已阅读 3 次，最后阅读于90秒前");
}

#[test]
fn statuses() {
    let en = I18n { language: Language::English };
    let zh = I18n { language: Language::SimplifiedChinese };
    assert_eq!(en.status("OK"), "OK");
    assert_eq!(en.status("WARNING"), "WARNING");
    assert_eq!(en.status("ok"), "UNKNOWN");
    assert_eq!(zh.status("OK"), "正常");
    assert_eq!(zh.status("WARNING"), "警告");
    assert_eq!(zh.status(""), "UNKNOWN");
}

#[test]
fn switch_urls_and_paths() {
    let en = I18n { language: Language::English };
    assert_eq!(
        en.switch_url("zh-CN", "/pasta/a b?x=1&y=2#z"),
        "/language/zh-CN?next=/pasta/a%20b%3Fx%3D1%26y%3D2%23z"
    );
    assert_eq!(percent_encode_path("AZaz09-_.~/"), "AZaz09-_.~/");
    assert_eq!(percent_encode_path("é"), "%C3%A9");
    assert_eq!(percent_encode_path(""), "");
    assert_eq!(path_or_root(Some("/info")), "/info");
    assert_eq!(path_or_root(None), "/");
}

fn decode(s: &str) -> Vec<u8> {
    let b = s.as_bytes();
    let mut out = Vec::new();
    let mut i = 0;
    while i < b.len() {
        if b[i] == b'%' && i + 2 < b.len() {
            let hex = std::str::from_utf8(&b[i + 1..i + 3]).unwrap();
            out.push(u8::from_str_radix(hex, 16).unwrap());
            i += 3;
        } else {
            out.push(b[i]);
            i += 1;
        }
    }
    out
}

#[test]
fn encoded_paths_decode_back_and_hold_no_delimiters() {
    for path in ["/pasta/ant?view=raw", "/a%b/ü/日本#frag&x=y", "", "/%41"] {
        let encoded = percent_encode_path(path);
        assert_eq!(decode(&encoded), path.as_bytes());
        assert!(encoded
            .chars()
            .all(|c| c.is_ascii_alphanumeric() || "-_.~/%".contains(c)));
    }
}
