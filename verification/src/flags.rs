//! Flag translation and the available-flag listing: server flag tokens are
//! mapped to canonical spellings, the five standard tokens are always
//! reported as available, and the may-create marker never reaches callers.

use vstd::prelude::*;
use crate::text::opt_str_view;
use crate::types::Flag;

verus! {

/// The canonical spelling of a flag, or nothing for the internal
/// may-create-new-flags marker.
pub open spec fn canonical_of(f: Flag) -> Option<Seq<char>> {
    match f {
        Flag::Seen => Some("\\Seen"@),
        Flag::Answered => Some("\\Answered"@),
        Flag::Flagged => Some("\\Flagged"@),
        Flag::Deleted => Some("\\Deleted"@),
        Flag::Draft => Some("\\Draft"@),
        Flag::Recent => Some("\\Recent"@),
        Flag::MayCreate => None,
        Flag::Custom(s) => Some(s@),
    }
}

/// The canonical spelling of one flag.
pub fn canonical_name(f: &Flag) -> (r: Option<String>)
    ensures
        opt_str_view(r) == canonical_of(*f),
{
    match f {
        Flag::Seen => Some(String::from_str("\\Seen")),
        Flag::Answered => Some(String::from_str("\\Answered")),
        Flag::Flagged => Some(String::from_str("\\Flagged")),
        Flag::Deleted => Some(String::from_str("\\Deleted")),
        Flag::Draft => Some(String::from_str("\\Draft")),
        Flag::Recent => Some(String::from_str("\\Recent")),
        Flag::MayCreate => None,
        Flag::Custom(s) => Some(s.clone()),
    }
}

/// The canonical spellings of a flag list, in order, with the may-create
/// marker dropped.
pub open spec fn names_of(flags: Seq<Flag>) -> Seq<Seq<char>>
    decreases flags.len(),
{
    if flags.len() == 0 {
        Seq::empty()
    } else {
        let rest = names_of(flags.drop_first());
        match canonical_of(flags[0]) {
            Some(n) => seq![n] + rest,
            None => rest,
        }
    }
}

/// Maps every flag currently set on a message to its canonical spelling,
/// dropping the may-create marker.
pub fn flag_names(flags: &Vec<Flag>) -> (r: Vec<String>)
    ensures
        r@.map_values(|s: String| s@) == names_of(flags@),
{
    let mut out: Vec<String> = Vec::new();
    let mut i: usize = 0;
    proof {
        assert(flags@.skip(0) =~= flags@);
        assert(out@.map_values(|s: String| s@) =~= Seq::<Seq<char>>::empty());
        assert(Seq::<Seq<char>>::empty() + names_of(flags@) =~= names_of(flags@));
    }
    while i < flags.len()
        invariant
            i <= flags.len(),
            names_of(flags@) == out@.map_values(|s: String| s@) + names_of(
                flags@.skip(i as int),
            ),
        decreases flags.len() - i,
    {
        let ghost pre = out@.map_values(|s: String| s@);
        proof {
            assert(flags@.skip(i as int)[0] == flags@[i as int]);
            assert(flags@.skip(i as int).drop_first() =~= flags@.skip(i as int + 1));
        }
        match canonical_name(&flags[i]) {
            Some(n) => {
                let ghost nv = n@;
                out.push(n);
                proof {
                    assert(out@.map_values(|s: String| s@) =~= pre.push(nv));
                    assert(seq![nv] + names_of(flags@.skip(i as int + 1)) =~= names_of(
                        flags@.skip(i as int),
                    ));
                    assert(pre.push(nv) + names_of(flags@.skip(i as int + 1)) =~= pre + names_of(
                        flags@.skip(i as int),
                    ));
                }
            },
            None => {
            },
        }
        i = i + 1;
    }
    proof {
        assert(names_of(flags@.skip(flags@.len() as int)) =~= Seq::<Seq<char>>::empty());
        assert(out@.map_values(|s: String| s@) + Seq::<Seq<char>>::empty() =~= out@.map_values(
            |s: String| s@,
        ));
    }
    out
}

/// The five standard tokens, always available in any mailbox.
pub open spec fn standard_flags() -> Seq<Seq<char>> {
    seq!["\\Seen"@, "\\Answered"@, "\\Flagged"@, "\\Deleted"@, "\\Draft"@]
}

/// Folds server-advertised flags into an accumulated listing: each flag's
/// canonical spelling is appended unless already present; the may-create
/// marker is dropped.
pub open spec fn add_flags(acc: Seq<Seq<char>>, flags: Seq<Flag>) -> Seq<Seq<char>>
    decreases flags.len(),
{
    if flags.len() == 0 {
        acc
    } else {
        match canonical_of(flags[0]) {
            Some(n) => if acc.contains(n) {
                add_flags(acc, flags.drop_first())
            } else {
                add_flags(acc.push(n), flags.drop_first())
            },
            None => add_flags(acc, flags.drop_first()),
        }
    }
}

/// The available-flag listing: the five standard tokens unconditionally,
/// then every server-advertised token not already present.
pub open spec fn available_spec(server: Seq<Flag>) -> Seq<Seq<char>> {
    add_flags(standard_flags(), server)
}

proof fn lemma_add_flags_prefix(acc: Seq<Seq<char>>, flags: Seq<Flag>)
    ensures
        add_flags(acc, flags).len() >= acc.len(),
        forall|k: int| 0 <= k < acc.len() ==> add_flags(acc, flags)[k] == acc[k],
    decreases flags.len(),
{
    if flags.len() > 0 {
        match canonical_of(flags[0]) {
            Some(n) => {
                if acc.contains(n) {
                    lemma_add_flags_prefix(acc, flags.drop_first());
                } else {
                    lemma_add_flags_prefix(acc.push(n), flags.drop_first());
                    assert forall|k: int| 0 <= k < acc.len() implies add_flags(acc, flags)[k]
                        == acc[k] by {
                        assert(add_flags(acc.push(n), flags.drop_first())[k] == acc.push(n)[k]);
                        assert(acc.push(n)[k] == acc[k]);
                    }
                }
            },
            None => {
                lemma_add_flags_prefix(acc, flags.drop_first());
            },
        }
    }
}

/// The superset law: whatever the server advertises — even nothing — the
/// listing contains every one of the five standard tokens.
pub proof fn lemma_available_superset(server: Seq<Flag>)
    ensures
        forall|t: Seq<char>|
            standard_flags().contains(t) ==> #[trigger] available_spec(server).contains(t),
{
    lemma_add_flags_prefix(standard_flags(), server);
    assert forall|t: Seq<char>|
        standard_flags().contains(t) implies #[trigger] available_spec(server).contains(t) by {
        let k = choose|k: int| 0 <= k < standard_flags().len() && standard_flags()[k] == t;
        assert(available_spec(server)[k] == t);
    }
}

/// The de-duplication law: the listing never repeats a token, since the
/// five standard spellings are distinct and a server token is only
/// appended when absent.
pub proof fn lemma_available_no_dup(server: Seq<Flag>)
    ensures
        available_spec(server).no_duplicates(),
{
    reveal_strlit("\\Seen");
    reveal_strlit("\\Answered");
    reveal_strlit("\\Flagged");
    reveal_strlit("\\Deleted");
    reveal_strlit("\\Draft");
    let sf = standard_flags();
    assert("\\Seen"@.len() == 5);
    assert("\\Answered"@.len() == 9);
    assert("\\Flagged"@.len() == 8);
    assert("\\Deleted"@.len() == 8);
    assert("\\Draft"@.len() == 6);
    assert("\\Flagged"@[1] == 'F');
    assert("\\Deleted"@[1] == 'D');
    assert forall|i: int, j: int|
        0 <= i < sf.len() && 0 <= j < sf.len() && i != j implies sf[i] != sf[j] by {
        assert(sf[0] == "\\Seen"@);
        assert(sf[1] == "\\Answered"@);
        assert(sf[2] == "\\Flagged"@);
        assert(sf[3] == "\\Deleted"@);
        assert(sf[4] == "\\Draft"@);
    }
    assert(sf.no_duplicates());
    lemma_add_flags_no_dup(standard_flags(), server);
}

proof fn lemma_add_flags_no_dup(acc: Seq<Seq<char>>, flags: Seq<Flag>)
    requires
        acc.no_duplicates(),
    ensures
        add_flags(acc, flags).no_duplicates(),
    decreases flags.len(),
{
    if flags.len() > 0 {
        match canonical_of(flags[0]) {
            Some(n) => {
                if acc.contains(n) {
                    lemma_add_flags_no_dup(acc, flags.drop_first());
                } else {
                    assert(acc.push(n).no_duplicates());
                    lemma_add_flags_no_dup(acc.push(n), flags.drop_first());
                }
            },
            None => {
                lemma_add_flags_no_dup(acc, flags.drop_first());
            },
        }
    }
}

fn contains_name(v: &Vec<String>, s: &String) -> (r: bool)
    ensures
        r == v@.map_values(|x: String| x@).contains(s@),
{
    let mut i: usize = 0;
    while i < v.len()
        invariant
            i <= v.len(),
            forall|k: int| 0 <= k < i ==> #[trigger] v@[k]@ != s@,
        decreases v.len() - i,
    {
        if v[i].eq(s) {
            proof {
                assert(v@.map_values(|x: String| x@)[i as int] == s@);
            }
            return true;
        }
        i = i + 1;
    }
    proof {
        let mv = v@.map_values(|x: String| x@);
        assert forall|k: int| 0 <= k < mv.len() implies #[trigger] mv[k] != s@ by {
            assert(v@[k]@ != s@);
        }
        assert(!mv.contains(s@));
    }
    false
}

/// Lists the flags available in a mailbox: the five standard tokens are
/// always present, the server's permanently settable tokens are appended
/// without duplicates, and the may-create marker is excluded.
pub fn available_flags(server: &Vec<Flag>) -> (r: Vec<String>)
    ensures
        r@.map_values(|s: String| s@) == available_spec(server@),
{
    let mut out: Vec<String> = Vec::new();
    out.push(String::from_str("\\Seen"));
    out.push(String::from_str("\\Answered"));
    out.push(String::from_str("\\Flagged"));
    out.push(String::from_str("\\Deleted"));
    out.push(String::from_str("\\Draft"));
    proof {
        assert(out@.map_values(|s: String| s@) =~= standard_flags());
        assert(server@.skip(0) =~= server@);
    }
    let mut i: usize = 0;
    while i < server.len()
        invariant
            i <= server.len(),
            available_spec(server@) == add_flags(
                out@.map_values(|s: String| s@),
                server@.skip(i as int),
            ),
        decreases server.len() - i,
    {
        let ghost pre = out@.map_values(|s: String| s@);
        proof {
            assert(server@.skip(i as int)[0] == server@[i as int]);
            assert(server@.skip(i as int).drop_first() =~= server@.skip(i as int + 1));
        }
        match canonical_name(&server[i]) {
            Some(n) => {
                let ghost nv = n@;
                if !contains_name(&out, &n) {
                    out.push(n);
                    proof {
                        assert(out@.map_values(|s: String| s@) =~= pre.push(nv));
                    }
                }
            },
            None => {
            },
        }
        i = i + 1;
    }
    proof {
        assert(add_flags(
            out@.map_values(|s: String| s@),
            server@.skip(server@.len() as int),
        ) =~= out@.map_values(|s: String| s@));
    }
    out
}

/// The store-command text of a flag change: `+FLAGS (f)` to add,
/// `-FLAGS (f)` to remove.
pub open spec fn store_command_spec(flag: Seq<char>, add_flag: bool) -> Seq<char> {
    (if add_flag {
        "+FLAGS ("@
    } else {
        "-FLAGS ("@
    }) + flag + ")"@
}

/// Builds the store command adding or removing exactly the named flag.
pub fn store_command(flag: &str, add_flag: bool) -> (r: String)
    ensures
        r@ == store_command_spec(flag@, add_flag),
{
    let mut s = if add_flag {
        String::from_str("+FLAGS (")
    } else {
        String::from_str("-FLAGS (")
    };
    s.append(flag);
    s.append(")");
    s
}

} // verus!
