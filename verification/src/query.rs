//! Construction of server-side search query expressions: free-text and
//! field-scoped keyword clauses combined with the server's logical-OR
//! syntax, and an optional trailing date filter.

use vstd::prelude::*;
use crate::text::{dec_rep, eq_ignore_ascii, lower_seq, u64_to_dec};

verus! {

/// A calendar date used in a query's date filter.
#[derive(Debug, Clone, Copy)]
pub struct QueryDate {
    pub year: u16,
    pub month: u8,
    pub day: u8,
}

impl QueryDate {
    /// Month and day lie in calendar range.
    pub open spec fn wf(self) -> bool {
        1 <= self.month <= 12 && 1 <= self.day <= 31
    }
}

/// Three-letter month name.
pub open spec fn month_abbrev(m: int) -> Seq<char> {
    if m == 1 {
        "Jan"@
    } else if m == 2 {
        "Feb"@
    } else if m == 3 {
        "Mar"@
    } else if m == 4 {
        "Apr"@
    } else if m == 5 {
        "May"@
    } else if m == 6 {
        "Jun"@
    } else if m == 7 {
        "Jul"@
    } else if m == 8 {
        "Aug"@
    } else if m == 9 {
        "Sep"@
    } else if m == 10 {
        "Oct"@
    } else if m == 11 {
        "Nov"@
    } else {
        "Dec"@
    }
}

/// Decimal, zero-padded on the left to two digits.
pub open spec fn pad2(n: nat) -> Seq<char> {
    if n < 10 {
        "0"@ + dec_rep(n)
    } else {
        dec_rep(n)
    }
}

/// Decimal, zero-padded on the left to four digits.
pub open spec fn pad4(n: nat) -> Seq<char> {
    if n < 10 {
        "000"@ + dec_rep(n)
    } else if n < 100 {
        "00"@ + dec_rep(n)
    } else if n < 1000 {
        "0"@ + dec_rep(n)
    } else {
        dec_rep(n)
    }
}

/// A date in the query syntax: `dd-Mon-yyyy`.
pub open spec fn date_rep(d: QueryDate) -> Seq<char> {
    pad2(d.day as nat) + "-"@ + month_abbrev(d.month as int) + "-"@ + pad4(d.year as nat)
}

fn month_str(m: u8) -> (r: &'static str)
    requires
        1 <= m <= 12,
    ensures
        r@ == month_abbrev(m as int),
{
    if m == 1 {
        "Jan"
    } else if m == 2 {
        "Feb"
    } else if m == 3 {
        "Mar"
    } else if m == 4 {
        "Apr"
    } else if m == 5 {
        "May"
    } else if m == 6 {
        "Jun"
    } else if m == 7 {
        "Jul"
    } else if m == 8 {
        "Aug"
    } else if m == 9 {
        "Sep"
    } else if m == 10 {
        "Oct"
    } else if m == 11 {
        "Nov"
    } else {
        "Dec"
    }
}

/// Renders a date as `dd-Mon-yyyy`.
pub fn format_query_date(d: QueryDate) -> (r: String)
    requires
        d.wf(),
    ensures
        r@ == date_rep(d),
{
    let mut s = String::new();
    if d.day < 10 {
        s.append("0");
    }
    let day = u64_to_dec(d.day as u64);
    s.append(day.as_str());
    s.append("-");
    s.append(month_str(d.month));
    s.append("-");
    if d.year < 10 {
        s.append("000");
    } else if d.year < 100 {
        s.append("00");
    } else if d.year < 1000 {
        s.append("0");
    }
    let year = u64_to_dec(d.year as u64);
    s.append(year.as_str());
    proof {
        assert(s@ =~= date_rep(d));
    }
    s
}

/// The query of a plain date-bounded search: everything, or everything
/// received since a date.
pub open spec fn since_query(since: Option<QueryDate>) -> Seq<char> {
    match since {
        Some(d) => "SINCE "@ + date_rep(d),
        None => "ALL"@,
    }
}

/// Builds the query of a date-bounded search over all messages.
pub fn build_since_query(since: Option<QueryDate>) -> (r: String)
    requires
        since matches Some(d) ==> d.wf(),
    ensures
        r@ == since_query(since),
{
    match since {
        Some(d) => {
            let mut s = String::from_str("SINCE ");
            let date = format_query_date(d);
            s.append(date.as_str());
            s
        },
        None => String::from_str("ALL"),
    }
}

/// The clause scoping a keyword to one named field, if the field name is
/// known (compared ignoring ASCII case); unknown names yield nothing.
pub open spec fn field_clause(f: Seq<char>, q: Seq<char>) -> Option<Seq<char>> {
    let lf = lower_seq(f);
    if lf == "text"@ {
        Some("TEXT \""@ + q + "\""@)
    } else if lf == "subject"@ {
        Some("SUBJECT \""@ + q + "\""@)
    } else if lf == "from"@ {
        Some("FROM \""@ + q + "\""@)
    } else if lf == "to"@ {
        Some("TO \""@ + q + "\""@)
    } else if lf == "body"@ {
        Some("BODY \""@ + q + "\""@)
    } else {
        None
    }
}

/// The full-text clause, the default when no field is requested.
pub open spec fn text_clause(q: Seq<char>) -> Seq<char> {
    "TEXT \""@ + q + "\""@
}

/// The clauses of the known fields, in request order.
pub open spec fn known_clauses(fields: Seq<Seq<char>>, q: Seq<char>) -> Seq<Seq<char>>
    decreases fields.len(),
{
    if fields.len() == 0 {
        Seq::empty()
    } else {
        let rest = known_clauses(fields.drop_first(), q);
        match field_clause(fields[0], q) {
            Some(c) => seq![c] + rest,
            None => rest,
        }
    }
}

/// Left-associative combination with the logical-OR syntax:
/// `OR a b`, `OR (OR a b) c` spelled `OR OR a b c`.
pub open spec fn or_fold(cs: Seq<Seq<char>>) -> Seq<char>
    recommends
        cs.len() > 0,
    decreases cs.len(),
{
    if cs.len() <= 1 {
        cs[0]
    } else {
        "OR "@ + or_fold(cs.drop_last()) + " "@ + cs.last()
    }
}

/// The view of an optional list of field names.
pub open spec fn fields_view(fields: Option<&Vec<String>>) -> Option<Seq<Seq<char>>> {
    match fields {
        Some(v) => Some(v@.map_values(|s: String| s@)),
        None => None,
    }
}

/// The complete keyword query: one clause per known requested field,
/// OR-combined; full text when no field, or no known field, was requested;
/// a date filter appended as a trailing clause when present.
pub open spec fn keyword_query(
    fields: Option<Seq<Seq<char>>>,
    q: Seq<char>,
    since: Option<QueryDate>,
) -> Seq<char> {
    let clauses = match fields {
        Some(fs) => if fs.len() > 0 {
            let ks = known_clauses(fs, q);
            if ks.len() == 0 {
                seq![text_clause(q)]
            } else {
                ks
            }
        } else {
            seq![text_clause(q)]
        },
        None => seq![text_clause(q)],
    };
    let base = or_fold(clauses);
    match since {
        Some(d) => base + " SINCE "@ + date_rep(d),
        None => base,
    }
}

fn quoted_clause(prefix: &str, q: &str) -> (r: String)
    ensures
        r@ == prefix@ + q@ + "\""@,
{
    let mut s = String::from_str(prefix);
    s.append(q);
    s.append("\"");
    s
}

/// The clause of one requested field name, or none if the name is unknown.
fn clause_for_field(field: &str, q: &str) -> (r: Option<String>)
    ensures
        match r {
            Some(c) => field_clause(field@, q@) == Some(c@),
            None => field_clause(field@, q@) is None,
        },
{
    proof {
        reveal_strlit("text");
        reveal_strlit("subject");
        reveal_strlit("from");
        reveal_strlit("to");
        reveal_strlit("body");
        assert(lower_seq("text"@) =~= "text"@);
        assert(lower_seq("subject"@) =~= "subject"@);
        assert(lower_seq("from"@) =~= "from"@);
        assert(lower_seq("to"@) =~= "to"@);
        assert(lower_seq("body"@) =~= "body"@);
    }
    if eq_ignore_ascii(field, "text") {
        Some(quoted_clause("TEXT \"", q))
    } else if eq_ignore_ascii(field, "subject") {
        Some(quoted_clause("SUBJECT \"", q))
    } else if eq_ignore_ascii(field, "from") {
        Some(quoted_clause("FROM \"", q))
    } else if eq_ignore_ascii(field, "to") {
        Some(quoted_clause("TO \"", q))
    } else if eq_ignore_ascii(field, "body") {
        Some(quoted_clause("BODY \"", q))
    } else {
        None
    }
}

/// Builds the keyword query for the requested fields, keyword and
/// optional date filter.
pub fn build_keyword_query(fields: Option<&Vec<String>>, query: &str, since: Option<
    QueryDate,
>) -> (r: String)
    requires
        since matches Some(d) ==> d.wf(),
    ensures
        r@ == keyword_query(fields_view(fields), query@, since),
{
    let mut clauses: Vec<String> = Vec::new();
    let use_fields: bool = match fields {
        Some(fs) => fs.len() > 0,
        None => false,
    };
    if use_fields {
        let fs = fields.unwrap();
        let ghost fsv = fs@.map_values(|s: String| s@);
        let mut i: usize = 0;
        proof {
            assert(fsv.skip(0) =~= fsv);
            assert(clauses@.map_values(|s: String| s@) =~= Seq::<Seq<char>>::empty());
            assert(Seq::<Seq<char>>::empty() + known_clauses(fsv, query@)
                =~= known_clauses(fsv, query@));
        }
        while i < fs.len()
            invariant
                i <= fs.len(),
                fsv == fs@.map_values(|s: String| s@),
                fsv.len() == fs.len(),
                known_clauses(fsv, query@) == clauses@.map_values(|s: String| s@)
                    + known_clauses(fsv.skip(i as int), query@),
            decreases fs.len() - i,
        {
            let ghost pre = clauses@.map_values(|s: String| s@);
            proof {
                assert(fsv.skip(i as int).len() > 0);
                assert(fsv.skip(i as int)[0] == fsv[i as int]);
                assert(fsv.skip(i as int).drop_first() =~= fsv.skip(i as int + 1));
            }
            match clause_for_field(&fs[i], query) {
                Some(c) => {
                    clauses.push(c);
                    proof {
                        assert(clauses@.map_values(|s: String| s@) =~= pre.push(c@));
                        assert(seq![c@] + known_clauses(fsv.skip(i as int + 1), query@)
                            =~= known_clauses(fsv.skip(i as int), query@));
                        assert(pre.push(c@) + known_clauses(fsv.skip(i as int + 1), query@)
                            =~= pre + known_clauses(fsv.skip(i as int), query@));
                    }
                },
                None => {
                },
            }
            i = i + 1;
        }
        proof {
            assert(fsv.skip(fsv.len() as int) =~= Seq::<Seq<char>>::empty());
            assert(clauses@.map_values(|s: String| s@) + Seq::<Seq<char>>::empty()
                =~= clauses@.map_values(|s: String| s@));
        }
    }
    if clauses.len() == 0 {
        let c = quoted_clause("TEXT \"", query);
        clauses.push(c);
        proof {
            assert(clauses@.map_values(|s: String| s@) =~= seq![text_clause(query@)]);
        }
    }
    let ghost cv = clauses@.map_values(|s: String| s@);
    let mut acc: String = clauses[0].clone();
    let mut j: usize = 1;
    proof {
        assert(cv.take(1)[0] == cv[0]);
    }
    while j < clauses.len()
        invariant
            1 <= j <= clauses.len(),
            cv == clauses@.map_values(|s: String| s@),
            cv.len() == clauses.len(),
            acc@ == or_fold(cv.take(j as int)),
        decreases clauses.len() - j,
    {
        let mut next = String::from_str("OR ");
        next.append(acc.as_str());
        next.append(" ");
        next.append(clauses[j].as_str());
        proof {
            assert(cv.take(j as int + 1).drop_last() =~= cv.take(j as int));
            assert(cv.take(j as int + 1).last() == cv[j as int]);
        }
        acc = next;
        j = j + 1;
    }
    proof {
        assert(cv.take(cv.len() as int) =~= cv);
    }
    match since {
        Some(d) => {
            acc.append(" SINCE ");
            let date = format_query_date(d);
            acc.append(date.as_str());
            acc
        },
        None => acc,
    }
}

} // verus!
