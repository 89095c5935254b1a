//! Reading header fields out of a fetched header block: the block is
//! scanned line by line (lines end at a newline, with a trailing carriage
//! return stripped), the first line starting with the requested field name
//! is taken, and the remainder of that line is trimmed.

use vstd::prelude::*;
use crate::text::opt_str_view;
use crate::types::EmailInfo;

verus! {

/// A whitespace character as trimming understands it: a space, or one of
/// the ASCII control characters tab through carriage return.
pub open spec fn is_space(c: char) -> bool {
    c == ' ' || ('\u{09}' <= c && c <= '\u{0D}')
}

fn is_space_exec(c: char) -> (r: bool)
    ensures
        r == is_space(c),
{
    c == ' ' || ('\u{09}' <= c && c <= '\u{0D}')
}

/// The index of the first newline, or the length if there is none.
pub open spec fn first_nl(s: Seq<char>) -> nat
    decreases s.len(),
{
    if s.len() == 0 {
        0
    } else if s[0] == '\n' {
        0
    } else {
        1 + first_nl(s.drop_first())
    }
}

proof fn lemma_first_nl(s: Seq<char>)
    ensures
        first_nl(s) <= s.len(),
        first_nl(s) < s.len() ==> s[first_nl(s) as int] == '\n',
        forall|j: int| 0 <= j < first_nl(s) ==> s[j] != '\n',
    decreases s.len(),
{
    if s.len() > 0 && s[0] != '\n' {
        lemma_first_nl(s.drop_first());
        if first_nl(s) < s.len() {
            assert(s.drop_first()[first_nl(s.drop_first()) as int] == s[first_nl(s) as int]);
        }
        assert forall|j: int| 0 <= j < first_nl(s) implies s[j] != '\n' by {
            if j > 0 {
                assert(s.drop_first()[j - 1] == s[j]);
            }
        }
    }
}

/// A line with one trailing carriage return removed.
pub open spec fn strip_cr(l: Seq<char>) -> Seq<char> {
    if l.len() > 0 && l.last() == '\r' {
        l.drop_last()
    } else {
        l
    }
}

/// Whether `p` is a prefix of `s`.
pub open spec fn is_prefix(p: Seq<char>, s: Seq<char>) -> bool {
    p.len() <= s.len() && forall|k: int| 0 <= k < p.len() ==> s[k] == p[k]
}

/// Leading whitespace removed.
pub open spec fn trim_start_spec(s: Seq<char>) -> Seq<char>
    decreases s.len(),
{
    if s.len() > 0 && is_space(s[0]) {
        trim_start_spec(s.drop_first())
    } else {
        s
    }
}

/// Trailing whitespace removed.
pub open spec fn trim_end_spec(s: Seq<char>) -> Seq<char>
    decreases s.len(),
{
    if s.len() > 0 && is_space(s.last()) {
        trim_end_spec(s.drop_last())
    } else {
        s
    }
}

/// Whitespace removed from both ends.
pub open spec fn trim_spec(s: Seq<char>) -> Seq<char> {
    trim_end_spec(trim_start_spec(s))
}

/// The value of the first line of `s` that starts with `field`: the rest
/// of that line, trimmed. Nothing if no line starts with `field`.
pub open spec fn header_lookup(s: Seq<char>, field: Seq<char>) -> Option<Seq<char>>
    decreases s.len(),
{
    if s.len() == 0 {
        None
    } else {
        let k = first_nl(s);
        let line = strip_cr(s.take(k as int));
        if is_prefix(field, line) {
            Some(trim_spec(line.skip(field.len() as int)))
        } else if k >= s.len() {
            None
        } else {
            header_lookup(s.skip(k as int + 1), field)
        }
    }
}

fn find_nl(data: &str) -> (k: usize)
    ensures
        k == first_nl(data@),
        k <= data@.len(),
{
    let n = data.unicode_len();
    let mut i: usize = 0;
    while i < n && data.get_char(i) != '\n'
        invariant
            i <= n,
            n == data@.len(),
            forall|j: int| 0 <= j < i ==> data@[j] != '\n',
        decreases n - i,
    {
        i = i + 1;
    }
    proof {
        lemma_first_nl(data@);
        let p = first_nl(data@);
        if i < n {
            if p < i {
                assert(data@[p as int] == '\n');
                assert(false);
            }
            if p > i {
                assert(data@[i as int] != '\n');
                assert(false);
            }
        } else {
            if p < n {
                assert(data@[p as int] == '\n');
                assert(false);
            }
        }
    }
    i
}

fn starts_with_chars(s: &str, p: &str) -> (r: bool)
    ensures
        r == is_prefix(p@, s@),
{
    let pl = p.unicode_len();
    let sl = s.unicode_len();
    if pl > sl {
        return false;
    }
    let mut i: usize = 0;
    while i < pl
        invariant
            pl <= sl,
            i <= pl,
            pl == p@.len(),
            sl == s@.len(),
            forall|j: int| 0 <= j < i ==> s@[j] == p@[j],
        decreases pl - i,
    {
        if s.get_char(i) != p.get_char(i) {
            return false;
        }
        i = i + 1;
    }
    true
}

fn trim_str(s: &str) -> (r: String)
    ensures
        r@ == trim_spec(s@),
{
    let n = s.unicode_len();
    let mut i: usize = 0;
    proof {
        assert(s@.skip(0) =~= s@);
    }
    while i < n && is_space_exec(s.get_char(i))
        invariant
            i <= n,
            n == s@.len(),
            trim_start_spec(s@) == trim_start_spec(s@.skip(i as int)),
        decreases n - i,
    {
        proof {
            assert(s@.skip(i as int)[0] == s@[i as int]);
            assert(s@.skip(i as int).drop_first() =~= s@.skip(i as int + 1));
        }
        i = i + 1;
    }
    proof {
        if i == n {
            assert(s@.skip(i as int) =~= Seq::<char>::empty());
        }
        assert(trim_start_spec(s@) == s@.skip(i as int));
        assert(s@.subrange(i as int, n as int) =~= s@.skip(i as int));
    }
    let mut j: usize = n;
    while j > i && is_space_exec(s.get_char(j - 1))
        invariant
            i <= j <= n,
            n == s@.len(),
            trim_end_spec(s@.subrange(i as int, n as int)) == trim_end_spec(
                s@.subrange(i as int, j as int),
            ),
        decreases j,
    {
        proof {
            assert(s@.subrange(i as int, j as int).last() == s@[j as int - 1]);
            assert(s@.subrange(i as int, j as int).drop_last() =~= s@.subrange(
                i as int,
                j as int - 1,
            ));
        }
        j = j - 1;
    }
    proof {
        if j == i {
            assert(s@.subrange(i as int, j as int) =~= Seq::<char>::empty());
        }
        assert(trim_end_spec(s@.subrange(i as int, n as int)) == s@.subrange(i as int, j as int));
    }
    let out = s.substring_char(i, j);
    String::from_str(out)
}

/// Finds the first header line starting with `field` and yields the rest
/// of that line, trimmed.
pub fn extract_header(data: &str, field: &str) -> (r: Option<String>)
    ensures
        opt_str_view(r) == header_lookup(data@, field@),
    decreases data@.len(),
{
    let n = data.unicode_len();
    if n == 0 {
        return None;
    }
    let k = find_nl(data);
    let line_end = if k > 0 && data.get_char(k - 1) == '\r' {
        k - 1
    } else {
        k
    };
    let line = data.substring_char(0, line_end);
    proof {
        let tk = data@.take(k as int);
        if k > 0 && data@[k as int - 1] == '\r' {
            assert(tk.last() == data@[k as int - 1]);
            assert(tk.drop_last() =~= data@.subrange(0, k as int - 1));
            assert(line@ =~= strip_cr(tk));
        } else {
            if k > 0 {
                assert(tk.last() == data@[k as int - 1]);
            }
            assert(line@ =~= strip_cr(tk));
        }
    }
    if starts_with_chars(line, field) {
        let fl = field.unicode_len();
        let ll = line.unicode_len();
        let tail = line.substring_char(fl, ll);
        proof {
            assert(tail@ =~= line@.skip(fl as int));
        }
        let trimmed = trim_str(tail);
        return Some(trimmed);
    }
    if k >= n {
        return None;
    }
    let rest = data.substring_char(k + 1, n);
    proof {
        assert(rest@ =~= data@.skip(k as int + 1));
    }
    extract_header(rest, field)
}

/// Whether a string is empty after trimming — the test rejecting blank
/// arguments.
pub fn is_blank(s: &str) -> (r: bool)
    ensures
        r == (trim_spec(s@).len() == 0),
{
    let t = trim_str(s);
    t.as_str().is_empty()
}

/// Builds one search row's raw fields from a fetched header block: the
/// reported identifier when the fetch carried one, else the requested
/// one, and the Subject, From and Date header values.
pub fn email_info_from_header(uid: u32, reported_uid: Option<u32>, header: &str) -> (r: EmailInfo)
    ensures
        r.uid == match reported_uid {
            Some(u) => u,
            None => uid,
        },
        opt_str_view(r.subject) == header_lookup(header@, "Subject:"@),
        opt_str_view(r.from) == header_lookup(header@, "From:"@),
        opt_str_view(r.date) == header_lookup(header@, "Date:"@),
{
    let subject = extract_header(header, "Subject:");
    let from = extract_header(header, "From:");
    let date = extract_header(header, "Date:");
    EmailInfo {
        uid: match reported_uid {
            Some(u) => u,
            None => uid,
        },
        subject,
        from,
        date,
    }
}

} // verus!
