use imap_mailbox::search::{metadata_of, metadata_rows, select_uids};
use imap_mailbox::types::EmailInfo;

#[test]
fn search_orders_newest_first_with_limit() {
    let uids = vec![3u32, 7, 1, 9];
    let picked = select_uids(&uids, Some(2));
    assert_eq!(picked, vec![9u32, 7]);
}

#[test]
fn search_orders_newest_first_without_limit() {
    let uids = vec![5u32, 2, 8, 2, 6];
    let picked = select_uids(&uids, None);
    assert_eq!(picked, vec![8u32, 6, 5, 2, 2]);
}

#[test]
fn limit_larger_than_matches_keeps_all() {
    let uids = vec![4u32, 10];
    let picked = select_uids(&uids, Some(50));
    assert_eq!(picked, vec![10u32, 4]);
}

#[test]
fn empty_match_set_stays_empty() {
    let uids: Vec<u32> = Vec::new();
    assert_eq!(select_uids(&uids, Some(3)), Vec::<u32>::new());
}

#[test]
fn metadata_parses_rfc2822_date() {
    let info = EmailInfo {
        uid: 42,
        subject: Some("Hi".to_string()),
        from: Some("a@b.example".to_string()),
        date: Some("Tue, 1 Jul 2003 10:52:37 +0200".to_string()),
    };
    let m = metadata_of(&info, 999);
    assert_eq!(m.email_id, "42");
    assert_eq!(m.subject, "Hi");
    assert_eq!(m.sender, "a@b.example");
    assert_eq!(m.received_time, 1057049557);
}

#[test]
fn metadata_falls_back_to_now_on_bad_date() {
    let info = EmailInfo {
        uid: 7,
        subject: None,
        from: None,
        date: Some("not a real date".to_string()),
    };
    let m = metadata_of(&info, 123456);
    assert_eq!(m.email_id, "7");
    assert_eq!(m.subject, "");
    assert_eq!(m.sender, "");
    assert_eq!(m.received_time, 123456);
}

#[test]
fn metadata_falls_back_to_now_on_missing_date() {
    let info = EmailInfo { uid: 1, subject: None, from: None, date: None };
    let m = metadata_of(&info, 55);
    assert_eq!(m.received_time, 55);
}

#[test]
fn metadata_rows_keep_input_order() {
    let infos = vec![
        EmailInfo { uid: 9, subject: Some("x".to_string()), from: None, date: None },
        EmailInfo { uid: 3, subject: Some("y".to_string()), from: None, date: None },
    ];
    let rows = metadata_rows(&infos, 10);
    assert_eq!(rows.len(), 2);
    assert_eq!(rows[0].email_id, "9");
    assert_eq!(rows[1].email_id, "3");
}
