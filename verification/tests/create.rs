use microbin::create::{
    draw_id, plan_create, CreatePlan, burn_after_reads_for, check_custom_key, expiration_for, form_field, id_is_free, publish,
    staged_files_move, upload_target, FormField, KeyRejection, PastaDraft,
};
use microbin::pasta::{find_by_key, Pasta, PastaFile};

fn encode(id: u64) -> String {
    format!("key-{}", id)
}

fn existing(id: u64, custom_key: Option<&str>) -> Pasta {
    let mut draft = PastaDraft::new(id, 0);
    draft.pasta.custom_key = custom_key.map(str::to_owned);
    draft.pasta
}

#[test]
fn new_drafts_have_the_defaults() {
    let d = PastaDraft::new(42, 1000);
    assert_eq!(d.pasta.id, 42);
    assert_eq!(d.pasta.custom_key, None);
    assert_eq!(d.pasta.content, "No Text Content");
    assert!(d.pasta.file.is_none());
    assert_eq!(d.pasta.extension, "");
    assert!(!d.pasta.private && !d.pasta.editable);
    assert_eq!((d.pasta.created, d.pasta.last_read, d.pasta.expiration), (1000, 1000, 0));
    assert_eq!((d.pasta.read_count, d.pasta.burn_after_reads), (0, 0));
    assert_eq!(d.pasta.pasta_type, "");
    assert_eq!((d.custom_key_input.as_str(), d.content_input.as_str()), ("", ""));
}

#[test]
fn expiration_choices() {
    let now = 1_000_000;
    assert_eq!(expiration_for("1min", now, false), now + 60);
    assert_eq!(expiration_for("10min", now, false), now + 600);
    assert_eq!(expiration_for("1hour", now, false), now + 3600);
    assert_eq!(expiration_for("24hour", now, false), now + 86400);
    assert_eq!(expiration_for("3days", now, false), now + 259200);
    assert_eq!(expiration_for("1week", now, false), now + 604800);
    assert_eq!(expiration_for("never", now, false), 0);
    assert_eq!(expiration_for("never", now, true), now + 604800);
    assert_eq!(expiration_for("soon", now, false), now + 604800);
}

#[test]
fn burn_after_choices() {
    assert_eq!(burn_after_reads_for("1"), 2);
    assert_eq!(burn_after_reads_for("10"), 10);
    assert_eq!(burn_after_reads_for("100"), 100);
    assert_eq!(burn_after_reads_for("1000"), 1000);
    assert_eq!(burn_after_reads_for("10000"), 10000);
    assert_eq!(burn_after_reads_for("0"), 0);
    assert_eq!(burn_after_reads_for("7"), 0);
}

#[test]
fn form_fields_fill_the_draft() {
    let mut d = PastaDraft::new(1, 500);
    d.mark_editable();
    d.mark_private();
    d.push_custom_key_chunk(" my-");
    d.push_custom_key_chunk("key ");
    d.apply_expiration_chunk("1hour", 500, false);
    d.apply_burn_after_chunk("1");
    d.set_extension("rs");
    d.finish_content(false);
    assert_eq!(d.pasta.content, "No Text Content");
    assert_eq!(d.pasta.pasta_type, "");
    d.push_content_chunk("https://");
    d.push_content_chunk("example.com");
    d.finish_content(true);
    assert!(d.pasta.editable && d.pasta.private);
    assert_eq!(d.custom_key_input, " my-key ");
    assert_eq!(d.pasta.expiration, 4100);
    assert_eq!(d.pasta.burn_after_reads, 2);
    assert_eq!(d.pasta.extension, "rs");
    assert_eq!(d.pasta.content, "https://example.com");
    assert_eq!(d.pasta.pasta_type, "url");
    d.attach_file(PastaFile::from_final_component(Some("notes.txt")).unwrap());
    assert_eq!(d.pasta.pasta_type, "text");
    assert_eq!(d.pasta.file.as_ref().unwrap().name, "notes.txt");
    let mut t = PastaDraft::new(2, 0);
    t.push_content_chunk("hello");
    t.finish_content(false);
    assert_eq!(t.pasta.pasta_type, "text");
}

#[test]
fn custom_keys_are_checked_against_the_collection() {
    let pastas = vec![existing(1, Some("taken")), existing(2, None)];
    assert_eq!(check_custom_key("   ", &pastas, &encode), Ok(None));
    assert_eq!(check_custom_key("No Good", &pastas, &encode), Err(KeyRejection::InvalidKey));
    assert_eq!(check_custom_key(" taken ", &pastas, &encode), Err(KeyRejection::DuplicateKey));
    assert_eq!(check_custom_key("key-2", &pastas, &encode), Err(KeyRejection::DuplicateKey));
    assert_eq!(check_custom_key(" fresh ", &pastas, &encode), Ok(Some("fresh".to_owned())));
    assert_eq!(KeyRejection::InvalidKey.message_key(), "invalid_key");
    assert_eq!(KeyRejection::InvalidKey.status_code(), 422);
    assert_eq!(KeyRejection::DuplicateKey.message_key(), "duplicate_key");
    assert_eq!(KeyRejection::DuplicateKey.status_code(), 409);
}

#[test]
fn ids_must_be_unused_in_id_and_key() {
    let pastas = vec![existing(1, None), existing(9, Some("key-5"))];
    assert!(!id_is_free(&pastas, 1, &encode));
    assert!(!id_is_free(&pastas, 9, &encode));
    assert!(!id_is_free(&pastas, 5, &encode));
    assert!(id_is_free(&pastas, 6, &encode));
    assert!(id_is_free(&[], 0, &encode));
}

#[test]
fn a_published_pasta_is_found_by_its_key() {
    let mut pastas = vec![existing(1, None)];
    let key = publish(&mut pastas, PastaDraft::new(2, 0).pasta, Some("fresh".to_owned()), &encode);
    assert_eq!(key, "fresh");
    assert_eq!(pastas.len(), 2);
    assert_eq!(find_by_key(&pastas, "fresh", &encode), Some(1));
    let key = publish(&mut pastas, PastaDraft::new(3, 0).pasta, None, &encode);
    assert_eq!(key, "key-3");
    assert_eq!(find_by_key(&pastas, "key-3", &encode), Some(2));
}

#[test]
fn form_fields_by_name() {
    assert_eq!(form_field("editable"), FormField::Editable);
    assert_eq!(form_field("private"), FormField::Private);
    assert_eq!(form_field("custom_key"), FormField::CustomKey);
    assert_eq!(form_field("expiration"), FormField::Expiration);
    assert_eq!(form_field("burn_after"), FormField::BurnAfter);
    assert_eq!(form_field("content"), FormField::Content);
    assert_eq!(form_field("syntax-highlight"), FormField::SyntaxHighlight);
    assert_eq!(form_field("file"), FormField::File);
    assert_eq!(form_field("syntax_highlight"), FormField::Unknown);
    assert_eq!(form_field(""), FormField::Unknown);
}

#[test]
fn uploads() {
    assert!(upload_target(true, Some("a.txt")).is_none());
    assert!(upload_target(false, None).is_none());
    assert!(upload_target(false, Some("")).is_none());
    assert!(upload_target(false, Some("..")).is_none());
    let file = upload_target(false, Some("C dir/my file.txt")).unwrap();
    assert_eq!(file.name, "my_file.txt");
    assert_eq!(file.size, 0);
}

#[test]
fn staged_files() {
    assert!(staged_files_move(Some("mine"), "key-1", true));
    assert!(!staged_files_move(Some("key-1"), "key-1", true));
    assert!(!staged_files_move(Some("mine"), "key-1", false));
    assert!(!staged_files_move(None, "key-1", true));
}

#[test]
fn create_plans() {
    let pastas = vec![existing(1, Some("taken")), existing(2, None)];
    let mut d = PastaDraft::new(7, 0);
    match plan_create(&d, "key-7", &pastas, &encode) {
        CreatePlan::Store { custom_key, move_files } => {
            assert_eq!(custom_key, None);
            assert!(!move_files);
        }
        CreatePlan::Refuse(_) => panic!("expected a store"),
    }
    d.push_custom_key_chunk(" taken");
    assert!(matches!(plan_create(&d, "key-7", &pastas, &encode), CreatePlan::Refuse(KeyRejection::DuplicateKey)));
    let mut bad = PastaDraft::new(7, 0);
    bad.push_custom_key_chunk("Bad!");
    assert!(matches!(plan_create(&bad, "key-7", &pastas, &encode), CreatePlan::Refuse(KeyRejection::InvalidKey)));
    let mut good = PastaDraft::new(7, 0);
    good.push_custom_key_chunk("mine");
    good.attach_file(PastaFile::from_final_component(Some("f.txt")).unwrap());
    match plan_create(&good, "key-7", &pastas, &encode) {
        CreatePlan::Store { custom_key, move_files } => {
            assert_eq!(custom_key, Some("mine".to_owned()));
            assert!(move_files);
        }
        CreatePlan::Refuse(_) => panic!("expected a store"),
    }
}

#[test]
fn drawn_ids_are_sixteen_bit() {
    let draws: Vec<u64> = (0..2000).map(|_| draw_id()).collect();
    assert!(draws.iter().all(|&id| id < 65536));
    assert!(draws.iter().any(|&id| id != draws[0]));
    let d = PastaDraft::new(65535, 0);
    assert_eq!(d.pasta.id, 65535);
}
