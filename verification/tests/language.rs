use microbin::language::{is_safe_redirect, switch_language, LanguageQuery, LanguageSwitch};
use microbin::i18n::{I18n, Language};

#[test]
fn accepts_same_origin_relative_paths() {
    assert!(is_safe_redirect("/pasta/ant"));
    assert!(is_safe_redirect("/pasta/ant?view=raw"));
}

#[test]
fn rejects_external_redirects() {
    assert!(!is_safe_redirect("//example.com"));
    assert!(!is_safe_redirect("https://example.com"));
    assert!(!is_safe_redirect("/\\\\example.com"));
}

#[test]
fn rejects_other_unsafe_redirects() {
    assert!(!is_safe_redirect(""));
    assert!(!is_safe_redirect("pasta/ant"));
    assert!(!is_safe_redirect("/go?to=http://evil"));
    assert!(!is_safe_redirect("/a\nb"));
    assert!(!is_safe_redirect("/a\u{7f}"));
    assert!(is_safe_redirect("/"));
    assert!(is_safe_redirect("/a:/b"));
    assert!(is_safe_redirect("/日本"));
}

fn query(next: Option<&str>) -> LanguageQuery {
    LanguageQuery { next: next.map(|s| s.to_owned()) }
}

#[test]
fn switching_language_redirects_only_to_safe_paths() {
    let i18n = I18n { language: Language::English };
    match switch_language(i18n, "zh-CN", &query(Some("/pasta/ant?view=raw"))) {
        LanguageSwitch::Redirect { location, cookie_value } => {
            assert_eq!(location, "/pasta/ant?view=raw");
            assert_eq!(cookie_value, "zh-CN");
        }
        LanguageSwitch::Unsupported { .. } => panic!("expected a redirect"),
    }
    match switch_language(i18n, "en-GB", &query(Some("//evil.example"))) {
        LanguageSwitch::Redirect { location, cookie_value } => {
            assert_eq!(location, "/");
            assert_eq!(cookie_value, "en");
        }
        LanguageSwitch::Unsupported { .. } => panic!("expected a redirect"),
    }
    match switch_language(i18n, "zh", &query(None)) {
        LanguageSwitch::Redirect { location, cookie_value } => {
            assert_eq!(location, "/");
            assert_eq!(cookie_value, "zh-CN");
        }
        LanguageSwitch::Unsupported { .. } => panic!("expected a redirect"),
    }
}

#[test]
fn unknown_language_is_refused() {
    let zh = I18n { language: Language::SimplifiedChinese };
    match switch_language(zh, "fr", &query(Some("/"))) {
        LanguageSwitch::Unsupported { message } => assert_eq!(message, "不支持的语言。"),
        LanguageSwitch::Redirect { .. } => panic!("expected a refusal"),
    }
    let en = I18n { language: Language::English };
    match switch_language(en, "", &query(None)) {
        LanguageSwitch::Unsupported { message } => assert_eq!(message, "Unsupported language."),
        LanguageSwitch::Redirect { .. } => panic!("expected a refusal"),
    }
}

#[test]
fn a_switch_is_remembered_by_its_cookie() {
    let en = I18n { language: Language::English };
    for code in ["zh", "zh-Hans", "en-US"] {
        if let LanguageSwitch::Redirect { cookie_value, .. } = switch_language(en, code, &query(None)) {
            let chosen = I18n::from_preferences(Some(cookie_value), Some("fr, en;q=0.5, zh"));
            assert_eq!(Some(chosen.language), Language::from_code(code));
        } else {
            panic!("expected a redirect");
        }
    }
}
