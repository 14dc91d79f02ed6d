use chrono::TimeZone;
use microbin::pasta::{
    clock_text, days_since, elapsed_seconds, escape_for_template, find_by_key, generated_key,
    is_valid_custom_key, key_is_available, normalize_custom_key, time_ago, Pasta, PastaFile,
    LOCAL_TIME_MAX, LOCAL_TIME_MIN,
};

fn pasta(id: u64, custom_key: Option<&str>) -> Pasta {
    Pasta {
        id,
        custom_key: custom_key.map(str::to_owned),
        content: String::new(),
        file: None,
        extension: String::new(),
        private: false,
        editable: false,
        created: 0,
        expiration: 0,
        last_read: 0,
        read_count: 0,
        burn_after_reads: 0,
        pasta_type: "text".to_owned(),
    }
}

fn encode(id: u64) -> String {
    format!("key-{}", id)
}

#[test]
fn validates_custom_keys() {
    assert_eq!(normalize_custom_key("  my-note ").unwrap(), Some("my-note".to_owned()));
    assert_eq!(normalize_custom_key("").unwrap(), None);
    assert!(normalize_custom_key("ABCD").is_err());
    assert!(normalize_custom_key("ab").is_err());
    assert!(normalize_custom_key("a/b").is_err());
    assert!(normalize_custom_key(&"a".repeat(65)).is_err());
}

#[test]
fn checks_custom_and_generated_key_collisions() {
    let pastas = vec![pasta(12, Some("my-note")), pasta(13, Some("old-key"))];
    assert_eq!(pastas[0].public_key(&encode), "my-note");
    assert!(!key_is_available(&pastas, "my-note", &encode));
    assert!(key_is_available(&pastas, "another-note", &encode));
}

#[test]
fn custom_key_rules() {
    assert!(is_valid_custom_key("abc"));
    assert!(is_valid_custom_key("a-b_c-0123456789"));
    assert!(is_valid_custom_key(&"z".repeat(64)));
    assert!(!is_valid_custom_key(&"z".repeat(65)));
    assert!(!is_valid_custom_key("ab"));
    assert!(!is_valid_custom_key("abé"));
    assert!(!is_valid_custom_key("ab c"));
    assert_eq!(normalize_custom_key(" \t\n ").unwrap(), None);
    assert_eq!(normalize_custom_key("\u{3000}key-1\u{a0}").unwrap(), Some("key-1".to_owned()));
    assert_eq!(normalize_custom_key("a b c").unwrap_err(), "invalid_key");
    let once = normalize_custom_key("  twice-trimmed  ").unwrap().unwrap();
    assert_eq!(normalize_custom_key(&once).unwrap(), Some(once.clone()));
}

#[test]
fn public_keys_and_lookup() {
    let pastas = vec![
        pasta(1, None),
        pasta(2, Some("Bad Key")),
        pasta(3, Some("good-key")),
        pasta(4, Some("good-key")),
    ];
    assert_eq!(pastas[0].public_key(&encode), "key-1");
    assert_eq!(pastas[1].public_key(&encode), "key-2");
    assert_eq!(pastas[1].id_as_animals(&encode), "key-2");
    assert_eq!(find_by_key(&pastas, "key-1", &encode), Some(0));
    assert_eq!(find_by_key(&pastas, "key-2", &encode), Some(1));
    assert_eq!(find_by_key(&pastas, "good-key", &encode), Some(2));
    assert_eq!(find_by_key(&pastas, "key-3", &encode), None);
    assert_eq!(find_by_key(&[], "key-1", &encode), None);
    assert!(key_is_available(&pastas, "Bad Key", &encode));
}

#[test]
fn generated_keys_follow_the_configuration() {
    let hashids = |id: u64| format!("h{}", id);
    let animals = |id: u64| format!("animal{}", id);
    assert_eq!(generated_key(7, true, &hashids, &animals), "h7");
    assert_eq!(generated_key(7, false, &hashids, &animals), "animal7");
}

#[test]
fn attachments_are_named_after_the_final_component() {
    let file = PastaFile::from_unsanitized("uploads/my report v2.txt").unwrap();
    assert_eq!(file.name(), "my_report_v2.txt");
    assert_eq!(file.size, 0);
    assert_eq!(PastaFile::from_unsanitized("a b").unwrap().name, "a_b");
    assert!(PastaFile::from_unsanitized("dir/..").is_err());
    assert_eq!(PastaFile::from_unsanitized("/").err(), Some("Path did not contain a file name"));
    assert_eq!(PastaFile::from_final_component(Some("x y z")).unwrap().name, "x_y_z");
    assert!(PastaFile::from_final_component(None).is_err());
}

#[test]
fn content_is_escaped_for_templates_and_html() {
    let mut p = pasta(1, None);
    p.content = "<b>`${x}` & </b>".to_owned();
    assert_eq!(p.content_escaped(), "&lt;b&gt;\\`\\${x}\\` &amp; &lt;/b&gt;");
    assert_eq!(escape_for_template("a`b$c"), "a\\`b\\$c");
    p.content = "plain".to_owned();
    assert_eq!(p.content_escaped(), "plain");
}

#[test]
fn clock_stamps() {
    assert_eq!(clock_text(1, 2, 3, 4), "01-02 03:04");
    assert_eq!(clock_text(12, 31, 23, 59), "12-31 23:59");
    let mut p = pasta(1, None);
    p.created = 1_700_000_000;
    let stamp = p.created_as_string();
    assert_eq!(stamp.len(), 11);
    assert!(stamp.chars().enumerate().all(|(i, c)| match i {
        2 => c == '-',
        5 => c == ' ',
        8 => c == ':',
        _ => c.is_ascii_digit(),
    }));
    assert_eq!(p.expiration_as_string(), "Never");
    p.expiration = LOCAL_TIME_MAX;
    assert_eq!(p.expiration_as_string().len(), 11);
    p.expiration = LOCAL_TIME_MIN;
    assert_eq!(p.expiration_as_string().len(), 11);
}

#[test]
fn elapsed_times() {
    assert_eq!(elapsed_seconds(100, 40), 60);
    assert_eq!(elapsed_seconds(40, 100), 0);
    assert_eq!(elapsed_seconds(i64::MAX, i64::MIN), i64::MAX);
    assert_eq!(days_since(3 * 86400 + 5, 0), 3);
    assert_eq!(days_since(0, 3 * 86400 + 5), 65533);
    assert_eq!(days_since(86399, 0), 0);
    assert_eq!(days_since(65537 * 86400, 0), 1);
    assert_eq!(time_ago(0), "just now");
    assert_eq!(time_ago(1), "just now");
    assert_eq!(time_ago(2), "2 seconds ago");
    assert_eq!(time_ago(150), "2 minutes ago");
    assert_eq!(time_ago(3 * 3600), "3 hours ago");
    assert_eq!(time_ago(86400 + 3600), "25 hours ago");
    assert_eq!(time_ago(5 * 86400), "5 days ago");
    assert_eq!(time_ago(65536 * 86400), "just now");
    assert_eq!(time_ago(65538 * 86400), "2 days ago");
}

#[test]
fn reading_the_clock() {
    let mut p = pasta(1, None);
    p.last_read = 0;
    assert!(p.last_read_elapsed_seconds() > 1_600_000_000);
    assert!(p.last_read_days_ago() > 18_000);
    assert!(p.last_read_time_ago_as_string().ends_with(" days ago"));
    p.last_read = i64::MAX;
    assert_eq!(p.last_read_elapsed_seconds(), 0);
    assert_eq!(p.last_read_time_ago_as_string(), "just now");
}

#[test]
fn local_time_bounds_match_chrono() {
    assert!(chrono::DateTime::from_timestamp(LOCAL_TIME_MIN, 0).is_some());
    assert!(chrono::DateTime::from_timestamp(LOCAL_TIME_MIN - 1, 0).is_none());
    assert!(chrono::DateTime::from_timestamp(LOCAL_TIME_MAX, 0).is_some());
    assert!(chrono::DateTime::from_timestamp(LOCAL_TIME_MAX + 1, 0).is_none());
    assert!(chrono::Local.timestamp_opt(LOCAL_TIME_MIN, 0).single().is_some());
    assert!(chrono::Local.timestamp_opt(LOCAL_TIME_MAX, 0).single().is_some());
}

#[test]
fn stamps_are_the_local_time_of_the_pasta() {
    for t in [0i64, 1_700_000_000, -86_400 * 365 * 500 - 17, 951_782_400, LOCAL_TIME_MIN, LOCAL_TIME_MAX] {
        let mut p = pasta(1, None);
        p.created = t;
        p.expiration = t;
        let expected = chrono::Local.timestamp_opt(t, 0).unwrap().format("%m-%d %H:%M").to_string();
        assert_eq!(p.created_as_string(), expected);
        if t != 0 {
            assert_eq!(p.expiration_as_string(), expected);
        }
    }
}

#[test]
fn file_names_follow_path_components() {
    assert_eq!(PastaFile::from_unsanitized("a//b/").unwrap().name, "b");
    assert_eq!(PastaFile::from_unsanitized("a/b/.").unwrap().name, "b");
    assert_eq!(PastaFile::from_unsanitized("../x y").unwrap().name, "x_y");
    assert!(PastaFile::from_unsanitized("./").is_err());
    assert!(PastaFile::from_unsanitized(".").is_err());
    assert!(PastaFile::from_unsanitized("").is_err());
    assert!(PastaFile::from_unsanitized("a/b/..").is_err());
}
