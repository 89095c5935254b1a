//! Search-result shaping: matched identifiers are ordered newest-first
//! (descending) and truncated to a caller-given limit, then each surviving
//! row's header fields are translated into a metadata record.

use vstd::prelude::*;
use vstd::seq_lib::group_to_multiset_ensures;
use crate::text::dec_rep;
use crate::time::{parse_rfc2822_epoch, rfc2822_epoch};
use crate::types::{EmailInfo, EmailMetadata};

verus! {

/// The position at which `v` is inserted into `s` to keep a descending
/// order: the first index whose element is not above `v`, or the length.
pub open spec fn insert_pos(s: Seq<u32>, v: u32) -> nat
    decreases s.len(),
{
    if s.len() == 0 {
        0
    } else if v >= s[0] {
        0
    } else {
        1 + insert_pos(s.drop_first(), v)
    }
}

/// `s` with `v` inserted at its descending-order position.
pub open spec fn insert_desc(s: Seq<u32>, v: u32) -> Seq<u32> {
    s.insert(insert_pos(s, v) as int, v)
}

/// Descending insertion sort.
pub open spec fn sort_desc(s: Seq<u32>) -> Seq<u32>
    decreases s.len(),
{
    if s.len() == 0 {
        Seq::empty()
    } else {
        insert_desc(sort_desc(s.drop_last()), s.last())
    }
}

/// Ordered newest-first: no element is below a later one.
pub open spec fn sorted_desc(s: Seq<u32>) -> bool {
    forall|i: int, j: int| 0 <= i <= j < s.len() ==> s[i] >= s[j]
}

/// Truncation to `limit` elements, when a limit is given.
pub open spec fn apply_limit(s: Seq<u32>, limit: Option<usize>) -> Seq<u32> {
    match limit {
        Some(l) => if l < s.len() {
            s.take(l as int)
        } else {
            s
        },
        None => s,
    }
}

proof fn lemma_insert_pos(s: Seq<u32>, v: u32)
    ensures
        insert_pos(s, v) <= s.len(),
        insert_pos(s, v) < s.len() ==> v >= s[insert_pos(s, v) as int],
        forall|k: int| 0 <= k < insert_pos(s, v) ==> v < s[k],
    decreases s.len(),
{
    if s.len() > 0 && v < s[0] {
        lemma_insert_pos(s.drop_first(), v);
        assert forall|k: int| 0 <= k < insert_pos(s, v) implies v < s[k] by {
            if k > 0 {
                assert(s.drop_first()[k - 1] == s[k]);
            }
        }
    }
}

proof fn lemma_insert_desc_sorted(s: Seq<u32>, v: u32)
    requires
        sorted_desc(s),
    ensures
        sorted_desc(insert_desc(s, v)),
{
    lemma_insert_pos(s, v);
    let p = insert_pos(s, v) as int;
    s.insert_ensures(p, v);
    let t = insert_desc(s, v);
    assert forall|i: int, j: int| 0 <= i <= j < t.len() implies t[i] >= t[j] by {
        if i > p {
            assert(s.insert(p, v)[(i - 1) + 1] == s[i - 1]);
        }
        if j > p {
            assert(s.insert(p, v)[(j - 1) + 1] == s[j - 1]);
        }
        if i < p && j == p {
            assert(v < s[i]);
        }
        if i == p && j > p {
            assert(p < s.len());
            assert(v >= s[p]);
            assert(s[p] >= s[j - 1]);
        }
    }
}

/// The newest-first ordering law: a descending sort is indeed ordered
/// descending.
pub proof fn lemma_sort_desc_sorted(s: Seq<u32>)
    ensures
        sorted_desc(sort_desc(s)),
    decreases s.len(),
{
    if s.len() > 0 {
        lemma_sort_desc_sorted(s.drop_last());
        lemma_insert_desc_sorted(sort_desc(s.drop_last()), s.last());
    }
}

/// The permutation law: a descending sort keeps exactly the elements of
/// its input, multiplicities included.
pub proof fn lemma_sort_desc_multiset(s: Seq<u32>)
    ensures
        sort_desc(s).to_multiset() == s.to_multiset(),
    decreases s.len(),
{
    broadcast use group_to_multiset_ensures;
    broadcast use vstd::seq_lib::to_multiset_insert;

    if s.len() == 0 {
        assert(s =~= Seq::<u32>::empty());
    } else {
        let rest = s.drop_last();
        lemma_sort_desc_multiset(rest);
        let t = sort_desc(rest);
        lemma_insert_pos(t, s.last());
        assert(t.insert(insert_pos(t, s.last()) as int, s.last()).to_multiset()
            =~= t.to_multiset().insert(s.last()));
        assert(rest.push(s.last()) =~= s);
        assert(rest.push(s.last()).to_multiset() =~= rest.to_multiset().insert(s.last()));
        assert(sort_desc(s).to_multiset() =~= s.to_multiset());
    }
}

/// Sortedness survives truncation.
pub proof fn lemma_apply_limit_sorted(s: Seq<u32>, limit: Option<usize>)
    requires
        sorted_desc(s),
    ensures
        sorted_desc(apply_limit(s, limit)),
{
}

fn insert_sorted(out: &mut Vec<u32>, v: u32)
    ensures
        final(out)@ == insert_desc(old(out)@, v),
{
    let mut j: usize = 0;
    while j < out.len() && v < out[j]
        invariant
            j <= out.len(),
            out@ == old(out)@,
            forall|k: int| 0 <= k < j ==> v < out@[k],
        decreases out.len() - j,
    {
        j = j + 1;
    }
    proof {
        lemma_insert_pos(out@, v);
        let p = insert_pos(out@, v);
        if p < j {
            assert(v < out@[p as int]);
            assert(false);
        }
        if p > j {
            assert(j < out@.len());
            assert(v >= out@[j as int]);
            assert(v < out@[j as int]);
            assert(false);
        }
    }
    out.insert(j, v);
}

/// Orders matched identifiers newest-first (descending) and truncates to
/// `limit` when one is given. The ordering is a deliberate contract of the
/// library, not a server guarantee.
pub fn select_uids(uids: &Vec<u32>, limit: Option<usize>) -> (r: Vec<u32>)
    ensures
        r@ == apply_limit(sort_desc(uids@), limit),
{
    let mut out: Vec<u32> = Vec::new();
    let mut i: usize = 0;
    proof {
        assert(uids@.take(0) =~= Seq::<u32>::empty());
    }
    while i < uids.len()
        invariant
            i <= uids.len(),
            out@ == sort_desc(uids@.take(i as int)),
        decreases uids.len() - i,
    {
        insert_sorted(&mut out, uids[i]);
        proof {
            assert(uids@.take(i as int + 1).drop_last() =~= uids@.take(i as int));
            assert(uids@.take(i as int + 1).last() == uids@[i as int]);
        }
        i = i + 1;
    }
    proof {
        assert(uids@.take(uids.len() as int) =~= uids@);
    }
    match limit {
        Some(l) => {
            let mut r = out;
            r.truncate(l);
            proof {
                assert(r@ == apply_limit(sort_desc(uids@), limit));
            }
            r
        },
        None => out,
    }
}

/// How one metadata row relates to the header fields it was read from:
/// the identifier is the decimal of the numeric identifier, absent sender
/// or subject become empty, and the received time is the parsed Date
/// header, falling back to `now` when the header is missing or does not
/// parse.
pub open spec fn metadata_rel(info: EmailInfo, now: i64, m: EmailMetadata) -> bool {
    &&& m.email_id@ == dec_rep(info.uid as nat)
    &&& m.sender@ == match info.from {
        Some(s) => s@,
        None => Seq::<char>::empty(),
    }
    &&& m.subject@ == match info.subject {
        Some(s) => s@,
        None => Seq::<char>::empty(),
    }
    &&& m.received_time == match info.date {
        Some(d) => match rfc2822_epoch(d@) {
            Some(t) => t,
            None => now,
        },
        None => now,
    }
}

/// Translates one row of raw header fields into its metadata record,
/// with `now` as the fallback received time.
pub fn metadata_of(info: &EmailInfo, now: i64) -> (r: EmailMetadata)
    ensures
        metadata_rel(*info, now, r),
{
    let email_id = crate::text::u32_to_dec(info.uid);
    let sender = match &info.from {
        Some(s) => s.clone(),
        None => String::new(),
    };
    let subject = match &info.subject {
        Some(s) => s.clone(),
        None => String::new(),
    };
    let received_time: i64 = match &info.date {
        Some(d) => match parse_rfc2822_epoch(d.as_str()) {
            Some(t) => t,
            None => now,
        },
        None => now,
    };
    EmailMetadata { email_id, sender, subject, received_time }
}

/// Translates every row, sharing one fallback time.
pub fn metadata_rows(infos: &Vec<EmailInfo>, now: i64) -> (r: Vec<EmailMetadata>)
    ensures
        r@.len() == infos@.len(),
        forall|i: int| 0 <= i < infos@.len() ==> metadata_rel(infos@[i], now, #[trigger] r@[i]),
{
    let mut out: Vec<EmailMetadata> = Vec::new();
    let mut i: usize = 0;
    while i < infos.len()
        invariant
            i <= infos.len(),
            out@.len() == i,
            forall|k: int| 0 <= k < i ==> metadata_rel(infos@[k], now, #[trigger] out@[k]),
        decreases infos.len() - i,
    {
        let m = metadata_of(&infos[i], now);
        out.push(m);
        i = i + 1;
    }
    out
}

} // verus!
