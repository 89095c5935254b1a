//! Configuration values and the small decisions made while loading them:
//! boolean parsing and the default port for each TLS mode. Reading the
//! environment itself is a caller concern.

use vstd::prelude::*;
use crate::text::{eq_ignore_ascii, lower_seq};
use crate::types::ImapSettings;

verus! {

/// Mailbox connection configuration.
#[derive(Debug, Clone)]
pub struct ImapConfig {
    pub host: String,
    pub port: u16,
    pub user: String,
    pub password: String,
    pub use_tls: bool,
    pub skip_tls_verify: bool,
}

/// Serving configuration of the surrounding tool layer.
#[derive(Debug, Clone)]
pub struct ServerConfig {
    /// Transport mode: "stdio" or "http".
    pub transport: String,
    /// Bind address used when serving over HTTP.
    pub http_bind: String,
    /// Bearer token required when serving over HTTP.
    pub auth_token: Option<String>,
    /// Whether keep-alive pings are sent on the event stream.
    pub sse_keepalive: bool,
}

/// The complete configuration.
#[derive(Debug, Clone)]
pub struct Config {
    pub imap: ImapConfig,
    pub server: ServerConfig,
}

/// Whether a configuration string means "yes": `true`, `1` or `yes`,
/// compared ignoring ASCII case.
pub open spec fn bool_of(s: Seq<char>) -> bool {
    lower_seq(s) == "true"@ || lower_seq(s) == "1"@ || lower_seq(s) == "yes"@
}

/// Parses a configuration boolean: `true`, `1` and `yes` in any ASCII
/// case are true, everything else is false.
pub fn parse_bool(s: &str) -> (r: bool)
    ensures
        r == bool_of(s@),
{
    proof {
        reveal_strlit("true");
        reveal_strlit("1");
        reveal_strlit("yes");
        assert(lower_seq("true"@) =~= "true"@);
        assert(lower_seq("1"@) =~= "1"@);
        assert(lower_seq("yes"@) =~= "yes"@);
    }
    eq_ignore_ascii(s, "true") || eq_ignore_ascii(s, "1") || eq_ignore_ascii(s, "yes")
}

/// The default port of each TLS mode: the TLS port when connecting with
/// direct TLS, the local bridge port otherwise.
pub fn default_port(use_tls: bool) -> (r: u16)
    ensures
        r == if use_tls {
            993u16
        } else {
            1143u16
        },
{
    if use_tls {
        993
    } else {
        1143
    }
}

impl ImapConfig {
    /// The connection settings this configuration names.
    pub fn to_imap_settings(&self) -> (r: ImapSettings)
        ensures
            r.host == self.host,
            r.port == self.port,
            r.user == self.user,
            r.password == self.password,
            r.use_tls == self.use_tls,
            r.skip_tls_verify == self.skip_tls_verify,
    {
        ImapSettings {
            host: self.host.clone(),
            port: self.port,
            user: self.user.clone(),
            password: self.password.clone(),
            use_tls: self.use_tls,
            skip_tls_verify: self.skip_tls_verify,
        }
    }
}

impl Config {
    /// The connection settings this configuration names.
    pub fn to_imap_settings(&self) -> (r: ImapSettings)
        ensures
            r.host == self.imap.host,
            r.port == self.imap.port,
            r.user == self.imap.user,
            r.password == self.imap.password,
            r.use_tls == self.imap.use_tls,
            r.skip_tls_verify == self.imap.skip_tls_verify,
    {
        self.imap.to_imap_settings()
    }
}

} // verus!
