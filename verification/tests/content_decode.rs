use imap_mailbox::content::{attachment_from_bytes, decode_email};

fn sample_message() -> Vec<u8> {
    let msg = "From: Alice Example <alice@example.com>\r\nTo: bob@example.com, Carol <carol@example.com>\r\nCc: dave@example.com\r\nSubject: Monthly report\r\nDate: Thu, 1 Jan 2015 00:00:00 +0000\r\nMIME-Version: 1.0\r\nContent-Type: multipart/mixed; boundary=\"XYZ\"\r\n\r\n--XYZ\r\nContent-Type: text/plain; charset=\"utf-8\"\r\n\r\nHello body\r\n--XYZ\r\nContent-Type: application/pdf; name=\"Report.pdf\"\r\nContent-Disposition: attachment; filename=\"Report.pdf\"\r\nContent-Transfer-Encoding: base64\r\n\r\nJVBERi0xLjQ=\r\n--XYZ--\r\n";
    msg.as_bytes().to_vec()
}

fn no_date_message() -> Vec<u8> {
    let msg = "From: x@y.example\r\nSubject: Undated\r\nContent-Type: text/plain\r\n\r\ntext here\r\n";
    msg.as_bytes().to_vec()
}

#[test]
fn decode_extracts_all_fields() {
    let raw = sample_message();
    let c = decode_email(Some(&raw), "17", 999);
    assert_eq!(c.email_id, "17");
    assert_eq!(c.subject, "Monthly report");
    assert_eq!(c.sender, "alice@example.com");
    assert_eq!(c.recipients, vec!["bob@example.com", "carol@example.com"]);
    assert_eq!(c.cc_recipients, vec!["dave@example.com"]);
    assert_eq!(c.body.trim_end(), "Hello body");
    assert_eq!(c.attachments, vec!["Report.pdf"]);
    assert_eq!(c.received_time, 1420070400);
}

#[test]
fn decode_missing_date_uses_now() {
    let raw = no_date_message();
    let c = decode_email(Some(&raw), "5", 777);
    assert_eq!(c.subject, "Undated");
    assert_eq!(c.received_time, 777);
    assert_ne!(c.received_time, 0);
}

#[test]
fn decode_unparsable_date_uses_now() {
    let msg = "From: x@y.example\r\nSubject: Odd\r\nDate: definitely not a date\r\nContent-Type: text/plain\r\n\r\nhi\r\n";
    let raw = msg.as_bytes().to_vec();
    let c = decode_email(Some(&raw), "6", 31337);
    assert_eq!(c.received_time, 31337);
}

#[test]
fn decode_without_bytes_yields_empty_record() {
    let c = decode_email(None, "9", 42);
    assert_eq!(c.email_id, "9");
    assert_eq!(c.subject, "");
    assert_eq!(c.sender, "");
    assert!(c.recipients.is_empty());
    assert!(c.cc_recipients.is_empty());
    assert_eq!(c.body, "");
    assert!(c.attachments.is_empty());
    assert_eq!(c.received_time, 42);
}

#[test]
fn attachment_name_match_is_case_sensitive() {
    let raw = sample_message();
    let missed = attachment_from_bytes(Some(&raw), "report.pdf");
    assert!(missed.is_none());
}

#[test]
fn attachment_exact_match_returns_payload() {
    let raw = sample_message();
    let hit = attachment_from_bytes(Some(&raw), "Report.pdf").expect("attachment present");
    assert_eq!(hit.name, "Report.pdf");
    assert_eq!(hit.content_type, "application/pdf");
    assert_eq!(hit.data, b"%PDF-1.4".to_vec());
}

#[test]
fn attachment_absent_name_is_no_payload() {
    let raw = sample_message();
    assert!(attachment_from_bytes(Some(&raw), "Other.txt").is_none());
    assert!(attachment_from_bytes(None, "Report.pdf").is_none());
}

#[test]
fn decode_prefers_text_body_over_html() {
    let msg = "From: a@b.example\r\nSubject: Two bodies\r\nContent-Type: multipart/alternative; boundary=\"AB\"\r\n\r\n--AB\r\nContent-Type: text/html\r\n\r\n<p>rich</p>\r\n--AB\r\nContent-Type: text/plain\r\n\r\nplain wins\r\n--AB--\r\n";
    let raw = msg.as_bytes().to_vec();
    let c = decode_email(Some(&raw), "1", 0);
    assert_eq!(c.body.trim_end(), "plain wins");
}

#[test]
fn decode_falls_back_to_html_body() {
    let msg = "From: a@b.example\r\nSubject: Only html\r\nContent-Type: text/html\r\n\r\n<p>only rich</p>\r\n";
    let raw = msg.as_bytes().to_vec();
    let c = decode_email(Some(&raw), "2", 0);
    assert!(c.body.contains("only rich"));
}
