use imap_mailbox::client::{
    connection_timeout_error, content_or_not_found, mailbox_names, not_connected_error,
    ImapClient,
};
use imap_mailbox::config::{default_port, parse_bool, Config, ImapConfig, ServerConfig};
use imap_mailbox::headers::{extract_header, is_blank};
use imap_mailbox::types::{ImapError, ImapSettings};

#[test]
fn parse_bool_accepts_true_one_and_yes() {
    assert!(parse_bool("true"));
    assert!(parse_bool("TRUE"));
    assert!(parse_bool("Yes"));
    assert!(parse_bool("1"));
    assert!(!parse_bool("false"));
    assert!(!parse_bool("0"));
    assert!(!parse_bool(""));
    assert!(!parse_bool("yep"));
}

#[test]
fn default_port_follows_tls_mode() {
    assert_eq!(default_port(true), 993);
    assert_eq!(default_port(false), 1143);
}

#[test]
fn settings_constructors_fill_fields() {
    let s = ImapSettings::new(
        "user".to_string(),
        "pw".to_string(),
        "mail.example".to_string(),
        993,
        true,
    );
    assert_eq!(s.host, "mail.example");
    assert_eq!(s.port, 993);
    assert!(s.use_tls);
    assert!(s.skip_tls_verify);
    let t = ImapSettings::new_with_tls_options(
        "u".to_string(),
        "p".to_string(),
        "h".to_string(),
        1143,
        false,
        false,
    );
    assert!(!t.skip_tls_verify);
}

#[test]
fn settings_default_is_local_bridge() {
    let s = ImapSettings::default();
    assert_eq!(s.host, "127.0.0.1");
    assert_eq!(s.port, 1143);
    assert!(!s.use_tls);
    assert!(s.skip_tls_verify);
    assert_eq!(s.user, "");
}

#[test]
fn config_converts_to_settings() {
    let cfg = Config {
        imap: ImapConfig {
            host: "h.example".to_string(),
            port: 2993,
            user: "me".to_string(),
            password: "sekret".to_string(),
            use_tls: true,
            skip_tls_verify: false,
        },
        server: ServerConfig {
            transport: "stdio".to_string(),
            http_bind: "127.0.0.1:8080".to_string(),
            auth_token: None,
            sse_keepalive: true,
        },
    };
    let s = cfg.to_imap_settings();
    assert_eq!(s.host, "h.example");
    assert_eq!(s.port, 2993);
    assert_eq!(s.user, "me");
    assert_eq!(s.password, "sekret");
    assert!(s.use_tls);
    assert!(!s.skip_tls_verify);
}

#[test]
fn client_has_thirty_second_deadline() {
    let c = ImapClient::new(ImapSettings::default()).expect("client");
    assert_eq!(c.connection_timeout_secs, 30);
}

#[test]
fn timeout_error_names_endpoint_and_bound() {
    let e = connection_timeout_error("mail.example", 993, 30);
    assert_eq!(
        e.message(),
        "Connection timeout: Connection to mail.example:993 timed out after 30s"
    );
}

#[test]
fn error_messages_carry_context() {
    assert_eq!(
        ImapError::MailboxSelect("Archive".to_string(), "no such mailbox".to_string()).message(),
        "Failed to select mailbox 'Archive': no such mailbox"
    );
    assert_eq!(
        ImapError::SearchFailed("ALL".to_string(), "syntax".to_string()).message(),
        "Failed to search with query 'ALL': syntax"
    );
    assert_eq!(
        ImapError::FlagOperation("denied".to_string()).message(),
        "Flag operation failed: denied"
    );
    assert_eq!(
        ImapError::Login("bad credentials".to_string()).message(),
        "IMAP login failed: bad credentials"
    );
    assert_eq!(
        ImapError::TlsSetup("handshake".to_string()).message(),
        "TLS setup error: handshake"
    );
    assert_eq!(
        ImapError::Connection("refused".to_string()).message(),
        "IMAP connection error: refused"
    );
    assert_eq!(ImapError::MessageNotFound.message(), "Message not found");
    assert_eq!(
        ImapError::StartTlsNotSupported.message(),
        "Server does not support STARTTLS"
    );
    assert_eq!(ImapError::Io("broken pipe".to_string()).message(), "I/O error: broken pipe");
    assert_eq!(
        ImapError::Utf8("stray byte".to_string()).message(),
        "Invalid UTF-8 in message body"
    );
}

#[test]
fn not_connected_is_a_login_error() {
    let e = not_connected_error();
    assert_eq!(e.message(), "IMAP login failed: Not connected");
}

#[test]
fn listing_skips_malformed_entries() {
    let entries = vec![
        Ok("INBOX".to_string()),
        Err("garbled".to_string()),
        Ok("Archive".to_string()),
    ];
    assert_eq!(mailbox_names(entries), vec!["INBOX", "Archive"]);
    let none: Vec<Result<String, String>> = Vec::new();
    assert_eq!(mailbox_names(none), Vec::<String>::new());
}

#[test]
fn absent_content_maps_to_not_found() {
    match content_or_not_found(None) {
        Err(ImapError::MessageNotFound) => {}
        _ => panic!("expected the not-found error"),
    }
}

#[test]
fn extract_header_finds_first_matching_line() {
    let block = "Subject: Hello there\r\nFrom: a@b.example\r\nDate: x\r\n";
    assert_eq!(extract_header(block, "Subject:").as_deref(), Some("Hello there"));
    assert_eq!(extract_header(block, "From:").as_deref(), Some("a@b.example"));
    assert_eq!(extract_header(block, "Missing:"), None);
}

#[test]
fn extract_header_trims_value() {
    let block = "Subject:    padded value   \r\nOther: x\r\n";
    assert_eq!(extract_header(block, "Subject:").as_deref(), Some("padded value"));
}

#[test]
fn is_blank_sees_through_whitespace() {
    assert!(is_blank(""));
    assert!(is_blank("   \t \r\n"));
    assert!(!is_blank(" a "));
}
