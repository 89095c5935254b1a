//! The content decoder: raw MIME bytes become structured fields. An
//! outside MIME parser extracts the raw pieces behind trusted wrappers;
//! every decision — which body is preferred, who counts as the sender,
//! how an attachment is matched by name, how a content type is
//! reconstructed, and when the received time falls back to the decode
//! clock — is made in verified code.

use vstd::prelude::*;
use mail_parser::MimeHeaders;
use crate::text::{opt_str_view, strs_view};
use crate::time::{civil_epoch, utc_epoch};
use crate::types::{AttachmentData, EmailContent};

verus! {

/// One MIME part flagged as an attachment, reduced to plain values.
#[derive(Debug, Clone)]
pub struct MimeAttachment {
    pub name: Option<String>,
    pub ctype: Option<String>,
    pub subtype: Option<String>,
    pub data: Vec<u8>,
}

/// The civil date-time fields of a message's Date header.
#[derive(Debug, Clone, Copy)]
pub struct MimeDate {
    pub year: u16,
    pub month: u8,
    pub day: u8,
    pub hour: u8,
    pub minute: u8,
    pub second: u8,
}

/// The plain view of one attachment: name, type, subtype, payload.
pub type AttView = (Option<Seq<char>>, Option<Seq<char>>, Option<Seq<char>>, Seq<u8>);

/// The plain view of an address list: one optional address per entry.
pub type AddrsView = Option<Seq<Option<Seq<char>>>>;

pub open spec fn att_view(a: MimeAttachment) -> AttView {
    (opt_str_view(a.name), opt_str_view(a.ctype), opt_str_view(a.subtype), a.data@)
}

/// The plain views of a list of attachment parts.
pub open spec fn atts_view(v: Seq<MimeAttachment>) -> Seq<AttView> {
    v.map_values(|a: MimeAttachment| att_view(a))
}

/// The plain views of a list of optional addresses.
pub open spec fn addr_opts_view(v: Seq<Option<String>>) -> Seq<Option<Seq<char>>> {
    v.map_values(|x: Option<String>| opt_str_view(x))
}

pub open spec fn addrs_view(o: Option<Vec<Option<String>>>) -> AddrsView {
    match o {
        Some(v) => Some(addr_opts_view(v@)),
        None => None,
    }
}

pub open spec fn date_view(o: Option<MimeDate>) -> Option<(u16, u8, u8, u8, u8, u8)> {
    match o {
        Some(d) => Some((d.year, d.month, d.day, d.hour, d.minute, d.second)),
        None => None,
    }
}

/// The subject of the message the bytes parse into, if any; a function of
/// the bytes alone.
pub uninterp spec fn mime_subject_of(raw: Seq<u8>) -> Option<Seq<char>>;

/// The From address list, when the From header is a plain address list;
/// a function of the bytes alone.
pub uninterp spec fn mime_from_of(raw: Seq<u8>) -> AddrsView;

/// The To address list, when the To header is a plain address list.
pub uninterp spec fn mime_to_of(raw: Seq<u8>) -> AddrsView;

/// The Cc address list, when the Cc header is a plain address list.
pub uninterp spec fn mime_cc_of(raw: Seq<u8>) -> AddrsView;

/// The text of the first plain-text body part, if any.
pub uninterp spec fn mime_text_of(raw: Seq<u8>) -> Option<Seq<char>>;

/// The text of the first HTML body part, if any.
pub uninterp spec fn mime_html_of(raw: Seq<u8>) -> Option<Seq<char>>;

/// The attachment parts, in order, as plain values.
pub uninterp spec fn mime_attachments_of(raw: Seq<u8>) -> Seq<AttView>;

/// The civil fields of the Date header, if present and parsable.
pub uninterp spec fn mime_date_of(raw: Seq<u8>) -> Option<(u16, u8, u8, u8, u8, u8)>;

/// Relies on mail-parser's `MessageParser::parse` and `Message::subject`:
/// both are functions of the bytes alone.
#[verifier::external_body]
fn mime_subject(raw: &[u8]) -> (r: Option<String>)
    ensures
        opt_str_view(r) == mime_subject_of(raw@),
{
    mail_parser::MessageParser::default().parse(raw).and_then(
        |m| m.subject().map(|s| s.to_string()),
    )
}

/// Relies on mail-parser's `MessageParser::parse` and `Message::from`:
/// both are functions of the bytes alone. Yields the addresses only when
/// the header holds a plain list (not groups), one optional address per
/// entry, in header order.
#[verifier::external_body]
fn mime_from_addrs(raw: &[u8]) -> (r: Option<Vec<Option<String>>>)
    ensures
        addrs_view(r) == mime_from_of(raw@),
{
    match mail_parser::MessageParser::default().parse(raw) {
        Some(m) => match m.from() {
            Some(mail_parser::Address::List(list)) => Some(
                list.iter().map(|a| a.address.as_ref().map(|s| s.to_string())).collect(),
            ),
            _ => None,
        },
        None => None,
    }
}

/// Relies on mail-parser's `MessageParser::parse` and `Message::to`, as
/// the From wrapper does.
#[verifier::external_body]
fn mime_to_addrs(raw: &[u8]) -> (r: Option<Vec<Option<String>>>)
    ensures
        addrs_view(r) == mime_to_of(raw@),
{
    match mail_parser::MessageParser::default().parse(raw) {
        Some(m) => match m.to() {
            Some(mail_parser::Address::List(list)) => Some(
                list.iter().map(|a| a.address.as_ref().map(|s| s.to_string())).collect(),
            ),
            _ => None,
        },
        None => None,
    }
}

/// Relies on mail-parser's `MessageParser::parse` and `Message::cc`, as
/// the From wrapper does.
#[verifier::external_body]
fn mime_cc_addrs(raw: &[u8]) -> (r: Option<Vec<Option<String>>>)
    ensures
        addrs_view(r) == mime_cc_of(raw@),
{
    match mail_parser::MessageParser::default().parse(raw) {
        Some(m) => match m.cc() {
            Some(mail_parser::Address::List(list)) => Some(
                list.iter().map(|a| a.address.as_ref().map(|s| s.to_string())).collect(),
            ),
            _ => None,
        },
        None => None,
    }
}

/// Relies on mail-parser's `MessageParser::parse` and
/// `Message::text_bodies`: the first plain-text part's contents, read
/// through a lossy UTF-8 conversion — a function of the bytes alone.
#[verifier::external_body]
fn mime_text_body(raw: &[u8]) -> (r: Option<String>)
    ensures
        opt_str_view(r) == mime_text_of(raw@),
{
    mail_parser::MessageParser::default().parse(raw).and_then(
        |m| m.text_bodies().next().map(|p| String::from_utf8_lossy(p.contents()).to_string()),
    )
}

/// Relies on mail-parser's `MessageParser::parse` and
/// `Message::html_bodies`, as the text-body wrapper does.
#[verifier::external_body]
fn mime_html_body(raw: &[u8]) -> (r: Option<String>)
    ensures
        opt_str_view(r) == mime_html_of(raw@),
{
    mail_parser::MessageParser::default().parse(raw).and_then(
        |m| m.html_bodies().next().map(|p| String::from_utf8_lossy(p.contents()).to_string()),
    )
}

/// Relies on mail-parser's `MessageParser::parse`, `Message::attachments`
/// and the `MimeHeaders` accessors `attachment_name` and `content_type`:
/// all functions of the bytes alone. Each part is carried over one for
/// one, in order.
#[verifier::external_body]
fn mime_attachment_parts(raw: &[u8]) -> (r: Vec<MimeAttachment>)
    ensures
        atts_view(r@) == mime_attachments_of(raw@),
{
    let mut out = Vec::new();
    if let Some(m) = mail_parser::MessageParser::default().parse(raw) {
        for a in m.attachments() {
            out.push(MimeAttachment {
                name: a.attachment_name().map(|s| s.to_string()),
                ctype: a.content_type().map(|c| c.c_type.to_string()),
                subtype: a.content_type().and_then(
                    |c| c.c_subtype.as_ref().map(|s| s.to_string()),
                ),
                data: a.contents().to_vec(),
            });
        }
    }
    out
}

/// Relies on mail-parser's `MessageParser::parse` and `Message::date`:
/// the header's civil fields, functions of the bytes alone.
#[verifier::external_body]
fn mime_date(raw: &[u8]) -> (r: Option<MimeDate>)
    ensures
        date_view(r) == mime_date_of(raw@),
{
    mail_parser::MessageParser::default().parse(raw).and_then(
        |m| m.date().map(
            |d| MimeDate {
                year: d.year,
                month: d.month,
                day: d.day,
                hour: d.hour,
                minute: d.minute,
                second: d.second,
            },
        ),
    )
}

/// The addresses actually present in an address list, in order.
pub open spec fn filtered_addrs(addrs: Seq<Option<Seq<char>>>) -> Seq<Seq<char>>
    decreases addrs.len(),
{
    if addrs.len() == 0 {
        Seq::empty()
    } else {
        let rest = filtered_addrs(addrs.drop_first());
        match addrs[0] {
            Some(a) => seq![a] + rest,
            None => rest,
        }
    }
}

fn collect_addrs(list: &Vec<Option<String>>) -> (r: Vec<String>)
    ensures
        strs_view(r@) == filtered_addrs(addr_opts_view(list@)),
{
    let ghost lv = addr_opts_view(list@);
    let mut out: Vec<String> = Vec::new();
    let mut i: usize = 0;
    proof {
        assert(lv.skip(0) =~= lv);
        assert(strs_view(out@) =~= Seq::<Seq<char>>::empty());
        assert(Seq::<Seq<char>>::empty() + filtered_addrs(lv) =~= filtered_addrs(lv));
    }
    while i < list.len()
        invariant
            i <= list.len(),
            lv == addr_opts_view(list@),
            lv.len() == list@.len(),
            filtered_addrs(lv) == strs_view(out@) + filtered_addrs(lv.skip(i as int)),
        decreases list.len() - i,
    {
        let ghost pre = strs_view(out@);
        proof {
            assert(lv.skip(i as int)[0] == lv[i as int]);
            assert(lv.skip(i as int).drop_first() =~= lv.skip(i as int + 1));
        }
        match &list[i] {
            Some(a) => {
                let ghost av = a@;
                out.push(a.clone());
                proof {
                    assert(strs_view(out@) =~= pre.push(av));
                    assert(seq![av] + filtered_addrs(lv.skip(i as int + 1)) =~= filtered_addrs(
                        lv.skip(i as int),
                    ));
                    assert(pre.push(av) + filtered_addrs(lv.skip(i as int + 1)) =~= pre
                        + filtered_addrs(lv.skip(i as int)));
                }
            },
            None => {
            },
        }
        i = i + 1;
    }
    proof {
        assert(filtered_addrs(lv.skip(lv.len() as int)) =~= Seq::<Seq<char>>::empty());
        assert(strs_view(out@) + Seq::<Seq<char>>::empty() =~= strs_view(out@));
    }
    out
}

/// The names of the attachment parts that carry one, in order.
pub open spec fn attachment_names(atts: Seq<AttView>) -> Seq<Seq<char>>
    decreases atts.len(),
{
    if atts.len() == 0 {
        Seq::empty()
    } else {
        let rest = attachment_names(atts.drop_first());
        match atts[0].0 {
            Some(n) => seq![n] + rest,
            None => rest,
        }
    }
}

fn collect_attachment_names(atts: &Vec<MimeAttachment>) -> (r: Vec<String>)
    ensures
        strs_view(r@) == attachment_names(atts_view(atts@)),
{
    let ghost av = atts_view(atts@);
    let mut out: Vec<String> = Vec::new();
    let mut i: usize = 0;
    proof {
        assert(av.skip(0) =~= av);
        assert(strs_view(out@) =~= Seq::<Seq<char>>::empty());
        assert(Seq::<Seq<char>>::empty() + attachment_names(av) =~= attachment_names(av));
    }
    while i < atts.len()
        invariant
            i <= atts.len(),
            av == atts_view(atts@),
            av.len() == atts@.len(),
            attachment_names(av) == strs_view(out@) + attachment_names(av.skip(i as int)),
        decreases atts.len() - i,
    {
        let ghost pre = strs_view(out@);
        proof {
            assert(av.skip(i as int)[0] == av[i as int]);
            assert(av.skip(i as int).drop_first() =~= av.skip(i as int + 1));
        }
        match &atts[i].name {
            Some(n) => {
                let ghost nv = n@;
                out.push(n.clone());
                proof {
                    assert(strs_view(out@) =~= pre.push(nv));
                    assert(seq![nv] + attachment_names(av.skip(i as int + 1)) =~= attachment_names(
                        av.skip(i as int),
                    ));
                    assert(pre.push(nv) + attachment_names(av.skip(i as int + 1)) =~= pre
                        + attachment_names(av.skip(i as int)));
                }
            },
            None => {
            },
        }
        i = i + 1;
    }
    proof {
        assert(attachment_names(av.skip(av.len() as int)) =~= Seq::<Seq<char>>::empty());
        assert(strs_view(out@) + Seq::<Seq<char>>::empty() =~= strs_view(out@));
    }
    out
}

/// The sender: the first entry of the From list, when the list is present
/// and its first entry carries an address; empty otherwise.
pub open spec fn sender_of(from: AddrsView) -> Seq<char> {
    match from {
        Some(list) => if list.len() > 0 {
            match list[0] {
                Some(a) => a,
                None => Seq::empty(),
            }
        } else {
            Seq::empty()
        },
        None => Seq::empty(),
    }
}

/// The body: the first plain-text part, else the first HTML part, else
/// empty.
pub open spec fn body_of(text: Option<Seq<char>>, html: Option<Seq<char>>) -> Seq<char> {
    match text {
        Some(t) => t,
        None => match html {
            Some(h) => h,
            None => Seq::empty(),
        },
    }
}

/// The received time: the Date header's civil fields mapped to epoch
/// seconds, falling back to `now` when the header is missing, unparsable,
/// or names no valid instant.
pub open spec fn received_of(date: Option<(u16, u8, u8, u8, u8, u8)>, now: i64) -> i64 {
    match date {
        Some(d) => match civil_epoch(d.0, d.1, d.2, d.3, d.4, d.5) {
            Some(t) => t,
            None => now,
        },
        None => now,
    }
}

/// How a decoded record relates to the raw bytes it came from, with `now`
/// the fallback received time. With no bytes at all, every field is empty
/// and the received time is `now` — fetching never fails for a vanished
/// message.
pub open spec fn content_rel(raw: Option<Seq<u8>>, id: Seq<char>, now: i64, c: EmailContent) -> bool {
    match raw {
        Some(b) => {
            &&& c.email_id@ == id
            &&& c.subject@ == match mime_subject_of(b) {
                Some(s) => s,
                None => Seq::<char>::empty(),
            }
            &&& c.sender@ == sender_of(mime_from_of(b))
            &&& strs_view(c.recipients@) == match mime_to_of(b) {
                Some(l) => filtered_addrs(l),
                None => Seq::<Seq<char>>::empty(),
            }
            &&& strs_view(c.cc_recipients@) == match mime_cc_of(b) {
                Some(l) => filtered_addrs(l),
                None => Seq::<Seq<char>>::empty(),
            }
            &&& c.body@ == body_of(mime_text_of(b), mime_html_of(b))
            &&& strs_view(c.attachments@) == attachment_names(mime_attachments_of(b))
            &&& c.received_time == received_of(mime_date_of(b), now)
        },
        None => {
            &&& c.email_id@ == id
            &&& c.subject@ == Seq::<char>::empty()
            &&& c.sender@ == Seq::<char>::empty()
            &&& c.recipients@ == Seq::<String>::empty()
            &&& c.cc_recipients@ == Seq::<String>::empty()
            &&& c.body@ == Seq::<char>::empty()
            &&& c.attachments@ == Seq::<String>::empty()
            &&& c.received_time == now
        },
    }
}

/// Decodes a fetched message into its content record. `raw` is the full
/// raw message when the fetch produced one; `now` is the decode-time
/// clock, used whenever the Date header yields no valid instant. Always
/// yields a record, never an error.
pub fn decode_email(raw: Option<&[u8]>, id: &str, now: i64) -> (r: EmailContent)
    ensures
        content_rel(
            match raw {
                Some(b) => Some(b@),
                None => None,
            },
            id@,
            now,
            r,
        ),
{
    let email_id = String::from_str(id);
    match raw {
        Some(b) => {
            let subject = match mime_subject(b) {
                Some(s) => s,
                None => String::new(),
            };
            let sender = match mime_from_addrs(b) {
                Some(list) => {
                    if list.len() > 0 {
                        match &list[0] {
                            Some(a) => a.clone(),
                            None => String::new(),
                        }
                    } else {
                        String::new()
                    }
                },
                None => String::new(),
            };
            let recipients = match mime_to_addrs(b) {
                Some(list) => collect_addrs(&list),
                None => {
                    let empty_list: Vec<String> = Vec::new();
                    proof {
                        assert(strs_view(empty_list@) =~= Seq::<Seq<char>>::empty());
                    }
                    empty_list
                },
            };
            let cc_recipients = match mime_cc_addrs(b) {
                Some(list) => collect_addrs(&list),
                None => {
                    let empty_list: Vec<String> = Vec::new();
                    proof {
                        assert(strs_view(empty_list@) =~= Seq::<Seq<char>>::empty());
                    }
                    empty_list
                },
            };
            let body = match mime_text_body(b) {
                Some(t) => t,
                None => match mime_html_body(b) {
                    Some(h) => h,
                    None => String::new(),
                },
            };
            let parts = mime_attachment_parts(b);
            let attachments = collect_attachment_names(&parts);
            let received_time: i64 = match mime_date(b) {
                Some(d) => match utc_epoch(d.year, d.month, d.day, d.hour, d.minute, d.second) {
                    Some(t) => t,
                    None => now,
                },
                None => now,
            };
            EmailContent {
                email_id,
                sender,
                recipients,
                cc_recipients,
                subject,
                body,
                attachments,
                received_time,
            }
        },
        None => EmailContent {
            email_id,
            sender: String::new(),
            recipients: Vec::new(),
            cc_recipients: Vec::new(),
            subject: String::new(),
            body: String::new(),
            attachments: Vec::new(),
            received_time: now,
        },
    }
}

/// The content type of an attachment: `type/subtype`, the subtype
/// defaulting to `octet-stream`, the whole defaulting to
/// `application/octet-stream` when no type was declared.
pub open spec fn content_type_of(ct: Option<Seq<char>>, cst: Option<Seq<char>>) -> Seq<char> {
    match ct {
        Some(t) => t + "/"@ + match cst {
            Some(s) => s,
            None => "octet-stream"@,
        },
        None => "application/octet-stream"@,
    }
}

fn build_content_type(ct: &Option<String>, cst: &Option<String>) -> (r: String)
    ensures
        r@ == content_type_of(opt_str_view(*ct), opt_str_view(*cst)),
{
    match ct {
        Some(t) => {
            let mut s = t.clone();
            s.append("/");
            match cst {
                Some(sub) => s.append(sub.as_str()),
                None => s.append("octet-stream"),
            }
            s
        },
        None => String::from_str("application/octet-stream"),
    }
}

/// The first attachment whose name equals `name` exactly — the match is
/// case-sensitive — with its reconstructed content type and payload.
pub open spec fn attachment_payload(atts: Seq<AttView>, name: Seq<char>) -> Option<
    (Seq<char>, Seq<char>, Seq<u8>),
>
    decreases atts.len(),
{
    if atts.len() == 0 {
        None
    } else if atts[0].0 == Some(name) {
        Some((name, content_type_of(atts[0].1, atts[0].2), atts[0].3))
    } else {
        attachment_payload(atts.drop_first(), name)
    }
}

/// Finds the attachment named exactly `name` among decoded parts. A
/// near-miss in case is no match; no match is "no payload", not an error.
pub fn find_attachment(atts: &Vec<MimeAttachment>, name: &str) -> (r: Option<AttachmentData>)
    ensures
        match r {
            Some(a) => attachment_payload(atts_view(atts@), name@) == Some(
                (a.name@, a.content_type@, a.data@),
            ),
            None => attachment_payload(atts_view(atts@), name@) is None,
        },
{
    let ghost av = atts_view(atts@);
    let mut i: usize = 0;
    proof {
        assert(av.skip(0) =~= av);
    }
    while i < atts.len()
        invariant
            i <= atts.len(),
            av == atts_view(atts@),
            av.len() == atts@.len(),
            attachment_payload(av, name@) == attachment_payload(av.skip(i as int), name@),
        decreases atts.len() - i,
    {
        proof {
            assert(av.skip(i as int)[0] == av[i as int]);
            assert(av.skip(i as int).drop_first() =~= av.skip(i as int + 1));
        }
        let matched = match &atts[i].name {
            Some(n) => crate::text::str_eq(n.as_str(), name),
            None => false,
        };
        if matched {
            let a = &atts[i];
            let content_type = build_content_type(&a.ctype, &a.subtype);
            let data = clone_bytes(&a.data);
            return Some(AttachmentData { name: String::from_str(name), content_type, data });
        }
        i = i + 1;
    }
    proof {
        assert(av.skip(av.len() as int) =~= Seq::<AttView>::empty());
    }
    None
}

fn clone_bytes(v: &Vec<u8>) -> (r: Vec<u8>)
    ensures
        r@ == v@,
{
    let mut out: Vec<u8> = Vec::new();
    let mut i: usize = 0;
    while i < v.len()
        invariant
            i <= v.len(),
            out@ == v@.take(i as int),
        decreases v.len() - i,
    {
        out.push(v[i]);
        proof {
            assert(v@.take(i as int + 1) =~= v@.take(i as int).push(v@[i as int]));
        }
        i = i + 1;
    }
    proof {
        assert(v@.take(v@.len() as int) =~= v@);
    }
    out
}

/// Decodes a fetched message and extracts the attachment named exactly
/// `attachment_name`, if the message holds one.
pub fn attachment_from_bytes(raw: Option<&[u8]>, attachment_name: &str) -> (r: Option<
    AttachmentData,
>)
    ensures
        match raw {
            Some(b) => match r {
                Some(a) => attachment_payload(mime_attachments_of(b@), attachment_name@) == Some(
                    (a.name@, a.content_type@, a.data@),
                ),
                None => attachment_payload(mime_attachments_of(b@), attachment_name@) is None,
            },
            None => r is None,
        },
{
    match raw {
        Some(b) => {
            let parts = mime_attachment_parts(b);
            find_attachment(&parts, attachment_name)
        },
        None => None,
    }
}

} // verus!
