use microbin::create::PastaDraft;
use microbin::i18n::{I18n, Language};
use microbin::pasta::{find_by_key, Pasta};
use microbin::service::{
    apply_edit, credentials_accepted, list_location, pasta_location, redirect_home_if, lookup_for_edit, qr_target, read_raw, register_view,
    remove_by_key, server_status, EditLookup,
};

fn encode(id: u64) -> String {
    format!("key-{}", id)
}

fn pasta(id: u64, editable: bool, content: &str, pasta_type: &str) -> Pasta {
    let mut p = PastaDraft::new(id, 0).pasta;
    p.editable = editable;
    p.content = content.to_owned();
    p.pasta_type = pasta_type.to_owned();
    p
}

fn sample() -> Vec<Pasta> {
    vec![
        pasta(1, true, "one", "text"),
        pasta(2, false, "https://example.com", "url"),
        pasta(3, true, "three", "text"),
    ]
}

#[test]
fn edit_lookup() {
    let pastas = sample();
    assert_eq!(lookup_for_edit(&pastas, "key-1", &encode), EditLookup::Editable(0));
    assert_eq!(lookup_for_edit(&pastas, "key-2", &encode), EditLookup::Locked);
    assert_eq!(lookup_for_edit(&pastas, "key-9", &encode), EditLookup::Missing);
}

#[test]
fn only_editable_pastas_change() {
    let mut pastas = sample();
    assert_eq!(apply_edit(&mut pastas, "key-3", "new".to_owned(), &encode), Some(2));
    assert_eq!(pastas[2].content, "new");
    assert_eq!(apply_edit(&mut pastas, "key-2", "new".to_owned(), &encode), None);
    assert_eq!(pastas[1].content, "https://example.com");
    assert_eq!(apply_edit(&mut pastas, "nope", "new".to_owned(), &encode), None);
    assert_eq!(pastas[0].content, "one");
}

#[test]
fn reads_are_counted() {
    let mut pastas = sample();
    assert_eq!(register_view(&mut pastas, "key-2", &encode), Some(1));
    assert_eq!(register_view(&mut pastas, "key-2", &encode), Some(1));
    assert_eq!(pastas[1].read_count, 2);
    assert_eq!(pastas[0].read_count, 0);
    assert_eq!(register_view(&mut pastas, "absent", &encode), None);
    pastas[1].mark_read_at(77);
    assert_eq!(pastas[1].last_read, 77);
    assert_eq!(pastas[1].redirect_location(), Some("https://example.com".to_owned()));
    assert_eq!(pastas[0].redirect_location(), None);
}

#[test]
fn raw_reads() {
    let mut pastas = sample();
    let en = I18n { language: Language::English };
    assert_eq!(read_raw(&mut pastas, "key-1", 99, en, &encode), "one");
    assert_eq!((pastas[0].read_count, pastas[0].last_read), (1, 99));
    assert_eq!(read_raw(&mut pastas, "gone", 99, en, &encode), "Pasta not found! :-(");
    let zh = I18n { language: Language::SimplifiedChinese };
    assert_eq!(read_raw(&mut pastas, "gone", 99, zh, &encode), "未找到 Pasta！:-(");
}

#[test]
fn qr_targets() {
    assert_eq!(qr_target("https://p.example", "ant", "url"), "https://p.example/url/ant");
    assert_eq!(qr_target("https://p.example", "ant", "text"), "https://p.example/pasta/ant");
    assert_eq!(qr_target("", "k", ""), "/pasta/k");
}

#[test]
fn removal_frees_the_key() {
    let mut pastas = sample();
    let removed = remove_by_key(&mut pastas, "key-2", &encode).unwrap();
    assert_eq!(removed.id, 2);
    assert_eq!(pastas.len(), 2);
    assert_eq!(find_by_key(&pastas, "key-2", &encode), None);
    assert_eq!(find_by_key(&pastas, "key-3", &encode), Some(1));
    assert!(remove_by_key(&mut pastas, "key-2", &encode).is_none());
    assert_eq!(pastas.len(), 2);
}

#[test]
fn server_status_reports_missing_public_path() {
    assert_eq!(server_status(""), ("WARNING", "warning_no_public_url"));
    assert_eq!(server_status("https://p.example"), ("OK", ""));
}

#[test]
fn logins() {
    assert!(credentials_accepted("admin", Some("pw"), "admin", Some("pw")));
    assert!(!credentials_accepted("admin", Some("pw"), "admin", Some("PW")));
    assert!(!credentials_accepted("admin", Some("pw"), "admin", None));
    assert!(credentials_accepted("admin", None, "admin", None));
    assert!(credentials_accepted("admin", None, "admin", Some("anything")));
    assert!(!credentials_accepted("admin", None, "root", None));
}

#[test]
fn an_edit_is_what_a_raw_read_gives_back() {
    let mut pastas = sample();
    let en = I18n { language: Language::English };
    assert_eq!(apply_edit(&mut pastas, "key-1", "edited text".to_owned(), &encode), Some(0));
    assert_eq!(read_raw(&mut pastas, "key-1", 5, en, &encode), "edited text");
}

#[test]
fn redirects_record_the_read_only_for_urls() {
    let mut pastas = sample();
    assert_eq!(pastas[1].follow_redirect(42), Some("https://example.com".to_owned()));
    assert_eq!(pastas[1].last_read, 42);
    assert_eq!(pastas[0].follow_redirect(42), None);
    assert_eq!(pastas[0].last_read, 0);
}

#[test]
fn locations() {
    assert_eq!(redirect_home_if(true, "https://p.example"), Some("https://p.example/".to_owned()));
    assert_eq!(redirect_home_if(false, "https://p.example"), None);
    assert_eq!(redirect_home_if(true, ""), Some("/".to_owned()));
    assert_eq!(pasta_location("https://p.example", "ant"), "https://p.example/pasta/ant");
    assert_eq!(list_location(""), "/pastalist");
}
