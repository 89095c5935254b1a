use imap_mailbox::flags::{available_flags, flag_names, store_command};
use imap_mailbox::types::Flag;

#[test]
fn listing_contains_standard_tokens_when_server_reports_none() {
    let server: Vec<Flag> = Vec::new();
    let flags = available_flags(&server);
    assert_eq!(
        flags,
        vec!["\\Seen", "\\Answered", "\\Flagged", "\\Deleted", "\\Draft"]
    );
}

#[test]
fn listing_appends_custom_tokens_without_duplicates() {
    let server = vec![
        Flag::Custom("\\Seen".to_string()),
        Flag::Custom("Work".to_string()),
        Flag::MayCreate,
        Flag::Custom("Work".to_string()),
        Flag::Recent,
    ];
    let flags = available_flags(&server);
    assert_eq!(
        flags,
        vec!["\\Seen", "\\Answered", "\\Flagged", "\\Deleted", "\\Draft", "Work", "\\Recent"]
    );
}

#[test]
fn flag_names_map_to_canonical_spellings() {
    let set = vec![
        Flag::Seen,
        Flag::Answered,
        Flag::Flagged,
        Flag::Deleted,
        Flag::Draft,
        Flag::Recent,
        Flag::MayCreate,
        Flag::Custom("Urgent".to_string()),
    ];
    let names = flag_names(&set);
    assert_eq!(
        names,
        vec!["\\Seen", "\\Answered", "\\Flagged", "\\Deleted", "\\Draft", "\\Recent", "Urgent"]
    );
}

#[test]
fn store_command_adds_or_removes_exactly_one_flag() {
    assert_eq!(store_command("\\Seen", true), "+FLAGS (\\Seen)");
    assert_eq!(store_command("\\Seen", false), "-FLAGS (\\Seen)");
    assert_eq!(store_command("Work", true), "+FLAGS (Work)");
}
