//! Session-level decisions that need no network: the client's fixed
//! establishment deadline, the errors it reports, and the shaping of a
//! mailbox listing.

use vstd::prelude::*;
use crate::text::{dec_rep, strs_view, u64_to_dec};
use crate::types::{EmailContent, ImapError, ImapSettings};

verus! {

/// The connection parameters of one account, with the fixed establishment
/// deadline. The protocol exchanges themselves are driven outside; every
/// decision they need is a function of this state and plain values.
#[derive(Debug)]
pub struct ImapClient {
    pub settings: ImapSettings,
    pub connection_timeout_secs: u64,
}

impl ImapClient {
    /// A client for the given settings, with the 30-second establishment
    /// deadline.
    pub fn new(settings: ImapSettings) -> (r: Result<Self, ImapError>)
        ensures
            r matches Ok(c) && c.settings == settings && c.connection_timeout_secs == 30,
    {
        Ok(ImapClient { settings, connection_timeout_secs: 30 })
    }
}

/// The message of the establishment-deadline error:
/// `Connection to host:port timed out after Ns`.
pub open spec fn timeout_message(host: Seq<char>, port: u16, secs: u64) -> Seq<char> {
    "Connection to "@ + host + ":"@ + dec_rep(port as nat) + " timed out after "@ + dec_rep(
        secs as nat,
    ) + "s"@
}

/// The error reported when establishment exceeds its deadline, naming the
/// endpoint and the elapsed bound.
pub fn connection_timeout_error(host: &str, port: u16, secs: u64) -> (r: ImapError)
    ensures
        r matches ImapError::ConnectionTimeout(d) && d@ == timeout_message(host@, port, secs),
{
    let mut s = String::from_str("Connection to ");
    s.append(host);
    s.append(":");
    let port_dec = u64_to_dec(port as u64);
    s.append(port_dec.as_str());
    s.append(" timed out after ");
    let secs_dec = u64_to_dec(secs);
    s.append(secs_dec.as_str());
    s.append("s");
    ImapError::ConnectionTimeout(s)
}

/// The error reported by an operation invoked without a connected client.
pub fn not_connected_error() -> (r: ImapError)
    ensures
        r matches ImapError::Login(d) && d@ == "Not connected"@,
{
    ImapError::Login(String::from_str("Not connected"))
}

/// The names of the listing entries the server returned well-formed, in
/// order; a malformed entry is skipped, never aborting the listing.
pub open spec fn listed_names(entries: Seq<Result<String, String>>) -> Seq<Seq<char>>
    decreases entries.len(),
{
    if entries.len() == 0 {
        Seq::empty()
    } else {
        let rest = listed_names(entries.drop_first());
        match entries[0] {
            Ok(n) => seq![n@] + rest,
            Err(_) => rest,
        }
    }
}

/// Shapes a mailbox listing: each well-formed entry's name, in order;
/// malformed entries are dropped. An empty listing is a result, not an
/// error.
pub fn mailbox_names(entries: Vec<Result<String, String>>) -> (r: Vec<String>)
    ensures
        strs_view(r@) == listed_names(entries@),
{
    let ghost ev = entries@;
    let mut out: Vec<String> = Vec::new();
    let mut i: usize = 0;
    proof {
        assert(ev.skip(0) =~= ev);
        assert(strs_view(out@) =~= Seq::<Seq<char>>::empty());
        assert(Seq::<Seq<char>>::empty() + listed_names(ev) =~= listed_names(ev));
    }
    while i < entries.len()
        invariant
            i <= entries.len(),
            ev == entries@,
            listed_names(ev) == strs_view(out@) + listed_names(ev.skip(i as int)),
        decreases entries.len() - i,
    {
        let ghost pre = strs_view(out@);
        proof {
            assert(ev.skip(i as int)[0] == ev[i as int]);
            assert(ev.skip(i as int).drop_first() =~= ev.skip(i as int + 1));
        }
        match &entries[i] {
            Ok(n) => {
                let ghost nv = n@;
                out.push(n.clone());
                proof {
                    assert(strs_view(out@) =~= pre.push(nv));
                    assert(seq![nv] + listed_names(ev.skip(i as int + 1)) =~= listed_names(
                        ev.skip(i as int),
                    ));
                    assert(pre.push(nv) + listed_names(ev.skip(i as int + 1)) =~= pre
                        + listed_names(ev.skip(i as int)));
                }
            },
            Err(_) => {
            },
        }
        i = i + 1;
    }
    proof {
        assert(listed_names(ev.skip(ev.len() as int)) =~= Seq::<Seq<char>>::empty());
        assert(strs_view(out@) + Seq::<Seq<char>>::empty() =~= strs_view(out@));
    }
    out
}

/// Turns a fetched-or-absent content record into the caller-facing
/// result: an absent record is reported as the message not being found.
pub fn content_or_not_found(content: Option<EmailContent>) -> (r: Result<EmailContent, ImapError>)
    ensures
        match content {
            Some(c) => r matches Ok(out) && out == c,
            None => r matches Err(e) && e is MessageNotFound,
        },
{
    match content {
        Some(c) => Ok(c),
        None => Err(ImapError::MessageNotFound),
    }
}

} // verus!
