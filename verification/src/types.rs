//! Domain types of the mailbox library: connection settings, search and
//! content records, flags, move outcomes, and the error taxonomy.

use vstd::prelude::*;

verus! {

/// Raw header fields of one message, as read during a search.
#[derive(Debug, Clone)]
pub struct EmailInfo {
    pub uid: u32,
    pub subject: Option<String>,
    pub from: Option<String>,
    pub date: Option<String>,
}

/// One row of a search result.
#[derive(Debug, Clone)]
pub struct EmailMetadata {
    pub email_id: String,
    pub sender: String,
    pub subject: String,
    /// Unix timestamp (seconds) of the Date header, or of the moment the
    /// row was produced when that header is missing or unparsable.
    pub received_time: i64,
}

/// A fully decoded message.
#[derive(Debug, Clone)]
pub struct EmailContent {
    pub email_id: String,
    pub sender: String,
    pub recipients: Vec<String>,
    pub cc_recipients: Vec<String>,
    pub subject: String,
    pub body: String,
    pub attachments: Vec<String>,
    /// Unix timestamp (seconds); defaults to the decode-time clock when the
    /// Date header is missing or invalid.
    pub received_time: i64,
}

/// One attachment with its payload.
#[derive(Debug, Clone)]
pub struct AttachmentData {
    pub name: String,
    pub content_type: String,
    pub data: Vec<u8>,
}

/// Per-message outcome of a batch move.
#[derive(Debug, Clone)]
pub struct MoveEmailStatus {
    pub email_id: String,
    pub success: bool,
    pub error: Option<String>,
}

/// A message flag, as a closed set of variants rather than a free-form
/// token. `MayCreate` is the server's may-create-new-flags marker, which
/// is never reported to callers.
#[derive(Debug, Clone)]
pub enum Flag {
    Seen,
    Answered,
    Flagged,
    Deleted,
    Draft,
    Recent,
    MayCreate,
    Custom(String),
}

/// The error taxonomy of the library. Every variant carries enough context
/// (mailbox name, query string, detail text) for an actionable message.
#[derive(Debug, Clone)]
pub enum ImapError {
    Connection(String),
    Login(String),
    TlsSetup(String),
    Io(String),
    Utf8(String),
    MessageNotFound,
    StartTlsNotSupported,
    ConnectionTimeout(String),
    MailboxSelect(String, String),
    SearchFailed(String, String),
    FlagOperation(String),
}

/// The rendered message of each error variant.
pub open spec fn error_message(e: ImapError) -> Seq<char> {
    match e {
        ImapError::Connection(d) => "IMAP connection error: "@ + d@,
        ImapError::Login(d) => "IMAP login failed: "@ + d@,
        ImapError::TlsSetup(d) => "TLS setup error: "@ + d@,
        ImapError::Io(d) => "I/O error: "@ + d@,
        ImapError::Utf8(d) => "Invalid UTF-8 in message body"@,
        ImapError::MessageNotFound => "Message not found"@,
        ImapError::StartTlsNotSupported => "Server does not support STARTTLS"@,
        ImapError::ConnectionTimeout(d) => "Connection timeout: "@ + d@,
        ImapError::MailboxSelect(m, d) => "Failed to select mailbox '"@ + m@ + "': "@ + d@,
        ImapError::SearchFailed(q, d) => "Failed to search with query '"@ + q@ + "': "@ + d@,
        ImapError::FlagOperation(d) => "Flag operation failed: "@ + d@,
    }
}

impl ImapError {
    /// The human-readable message of this error.
    pub fn message(&self) -> (r: String)
        ensures
            r@ == error_message(*self),
    {
        match self {
            ImapError::Connection(d) => {
                let mut s = String::from_str("IMAP connection error: ");
                s.append(d.as_str());
                s
            },
            ImapError::Login(d) => {
                let mut s = String::from_str("IMAP login failed: ");
                s.append(d.as_str());
                s
            },
            ImapError::TlsSetup(d) => {
                let mut s = String::from_str("TLS setup error: ");
                s.append(d.as_str());
                s
            },
            ImapError::Io(d) => {
                let mut s = String::from_str("I/O error: ");
                s.append(d.as_str());
                s
            },
            ImapError::Utf8(_) => String::from_str("Invalid UTF-8 in message body"),
            ImapError::MessageNotFound => String::from_str("Message not found"),
            ImapError::StartTlsNotSupported => String::from_str(
                "Server does not support STARTTLS",
            ),
            ImapError::ConnectionTimeout(d) => {
                let mut s = String::from_str("Connection timeout: ");
                s.append(d.as_str());
                s
            },
            ImapError::MailboxSelect(m, d) => {
                let mut s = String::from_str("Failed to select mailbox '");
                s.append(m.as_str());
                s.append("': ");
                s.append(d.as_str());
                s
            },
            ImapError::SearchFailed(q, d) => {
                let mut s = String::from_str("Failed to search with query '");
                s.append(q.as_str());
                s.append("': ");
                s.append(d.as_str());
                s
            },
            ImapError::FlagOperation(d) => {
                let mut s = String::from_str("Flag operation failed: ");
                s.append(d.as_str());
                s
            },
        }
    }
}

/// Immutable connection parameters for one mailbox account.
///
/// `port` and `use_tls` are independent at the data level; any defaulting
/// of one from the other is a caller concern.
#[derive(Debug, Clone)]
pub struct ImapSettings {
    pub host: String,
    pub port: u16,
    pub user: String,
    pub password: String,
    pub use_tls: bool,
    pub skip_tls_verify: bool,
}

impl ImapSettings {
    /// Settings with certificate verification skipped, as the permissive
    /// constructor of this library.
    pub fn new(user: String, password: String, host: String, port: u16, use_tls: bool) -> (r:
        Self)
        ensures
            r.user == user,
            r.password == password,
            r.host == host,
            r.port == port,
            r.use_tls == use_tls,
            r.skip_tls_verify == true,
    {
        Self::new_with_tls_options(user, password, host, port, use_tls, true)
    }

    pub fn new_with_tls_options(
        user: String,
        password: String,
        host: String,
        port: u16,
        use_tls: bool,
        skip_tls_verify: bool,
    ) -> (r: Self)
        ensures
            r.user == user,
            r.password == password,
            r.host == host,
            r.port == port,
            r.use_tls == use_tls,
            r.skip_tls_verify == skip_tls_verify,
    {
        ImapSettings { host, port, user, password, use_tls, skip_tls_verify }
    }
}

impl Default for ImapSettings {
    /// A local plaintext-capable default: loopback host, bridge-style port,
    /// empty credentials, STARTTLS mode, verification skipped.
    fn default() -> (r: Self)
        ensures
            r.host@ == "127.0.0.1"@,
            r.port == 1143,
            r.user@ == Seq::<char>::empty(),
            r.password@ == Seq::<char>::empty(),
            r.use_tls == false,
            r.skip_tls_verify == true,
    {
        ImapSettings {
            host: String::from_str("127.0.0.1"),
            port: 1143,
            user: String::new(),
            password: String::new(),
            use_tls: false,
            skip_tls_verify: true,
        }
    }
}

} // verus!
