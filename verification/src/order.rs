//! Lexicographic ordering on strings and the sort of package listings by
//! name, as the installed and outdated listings present them.

use vstd::prelude::*;

use crate::types::BrewPackage;

verus! {

/// Lexicographic order on character sequences, by code point; a proper
/// prefix comes first.
pub open spec fn lex_le(a: Seq<char>, b: Seq<char>) -> bool
    decreases a.len(),
{
    if a.len() == 0 {
        true
    } else if b.len() == 0 {
        false
    } else if a.first() == b.first() {
        lex_le(a.drop_first(), b.drop_first())
    } else {
        a.first() < b.first()
    }
}

/// `lex_le` is total.
pub proof fn lemma_lex_le_total(a: Seq<char>, b: Seq<char>)
    ensures
        lex_le(a, b) || lex_le(b, a),
    decreases a.len(),
{
    if a.len() == 0 || b.len() == 0 {
    } else if a.first() == b.first() {
        lemma_lex_le_total(a.drop_first(), b.drop_first());
    }
}

/// `lex_le` is transitive.
pub proof fn lemma_lex_le_trans(a: Seq<char>, b: Seq<char>, c: Seq<char>)
    requires
        lex_le(a, b),
        lex_le(b, c),
    ensures
        lex_le(a, c),
    decreases a.len(),
{
    if a.len() == 0 {
    } else {
        if b.len() == 0 {
        } else if c.len() == 0 {
        } else {
            if a.first() == b.first() && b.first() == c.first() {
                lemma_lex_le_trans(a.drop_first(), b.drop_first(), c.drop_first());
            }
        }
    }
}

/// Extending equal prefixes does not decide the order: the order of `a`
/// and `b` with `i` equal leading characters is the order of their
/// suffixes.
proof fn lemma_lex_le_skip(a: Seq<char>, b: Seq<char>, i: int)
    requires
        0 <= i <= a.len(),
        i <= b.len(),
        forall|j: int| 0 <= j < i ==> a[j] == b[j],
    ensures
        lex_le(a, b) == lex_le(a.skip(i), b.skip(i)),
    decreases i,
{
    if i > 0 {
        assert(a.first() == b.first());
        assert(a.drop_first() =~= a.skip(1));
        assert(b.drop_first() =~= b.skip(1));
        assert forall|j: int| 0 <= j < i - 1 implies a.skip(1)[j] == b.skip(1)[j] by {
            assert(a.skip(1)[j] == a[j + 1]);
            assert(b.skip(1)[j] == b[j + 1]);
        }
        lemma_lex_le_skip(a.skip(1), b.skip(1), i - 1);
        assert(a.skip(1).skip(i - 1) =~= a.skip(i));
        assert(b.skip(1).skip(i - 1) =~= b.skip(i));
        if a.len() > 0 && b.len() > 0 && a.first() == b.first() {
            assert(lex_le(a, b) == lex_le(a.drop_first(), b.drop_first()));
        }
    } else {
        assert(a.skip(0) =~= a);
        assert(b.skip(0) =~= b);
    }
}

/// Decides the lexicographic order of two strings.
pub fn str_le(a: &str, b: &str) -> (r: bool)
    ensures
        r == lex_le(a@, b@),
{
    let an = a.unicode_len();
    let bn = b.unicode_len();
    let mut i: usize = 0;
    while i < an && i < bn && a.get_char(i) == b.get_char(i)
        invariant
            an == a@.len(),
            bn == b@.len(),
            0 <= i <= an,
            i <= bn,
            forall|j: int| 0 <= j < i ==> a@[j] == b@[j],
        decreases an - i,
    {
        i += 1;
    }
    proof {
        lemma_lex_le_skip(a@, b@, i as int);
    }
    if i == an {
        proof {
            assert(a@.skip(i as int).len() == 0);
        }
        true
    } else if i == bn {
        proof {
            assert(b@.skip(i as int).len() == 0);
            assert(a@.skip(i as int).len() > 0);
        }
        false
    } else {
        let ca = a.get_char(i);
        let cb = b.get_char(i);
        proof {
            assert(a@.skip(i as int).first() == ca);
            assert(b@.skip(i as int).first() == cb);
            assert(ca != cb);
        }
        ca < cb
    }
}

/// A package listing sorted by name.
pub open spec fn sorted_by_name(s: Seq<BrewPackage>) -> bool {
    forall|i: int, j: int|
        0 <= i < j < s.len() ==> lex_le(#[trigger] s[i].name@, #[trigger] s[j].name@)
}

/// Full view of one package record: name, optional version, kind.
pub open spec fn pkg_record_view(p: BrewPackage) -> (Seq<char>, Option<Seq<char>>, Seq<char>) {
    (p.name@, crate::stream::opt_str_view(p.version), p.kind@)
}

/// A record listing sorted by name.
pub open spec fn sorted_records(s: Seq<(Seq<char>, Option<Seq<char>>, Seq<char>)>) -> bool {
    forall|i: int, j: int| 0 <= i < j < s.len() ==> lex_le((#[trigger] s[i]).0, (#[trigger] s[j]).0)
}

/// The record views of a whole listing.
pub open spec fn records_view(s: Seq<BrewPackage>) -> Seq<
    (Seq<char>, Option<Seq<char>>, Seq<char>),
> {
    s.map_values(|p: BrewPackage| pkg_record_view(p))
}

/// Sorts a package listing by name. The result holds exactly the records
/// of the input, reordered; each record is inserted after all earlier
/// records of equal name, so records with equal names keep their relative
/// order (formula entries stay ahead of a cask of the same name).
pub fn sort_packages_by_name(v: &mut Vec<BrewPackage>)
    ensures
        sorted_by_name(final(v)@),
        final(v)@.to_multiset() == old(v)@.to_multiset(),
        records_view(final(v)@).to_multiset() == records_view(old(v)@).to_multiset(),
        final(v)@.len() == old(v)@.len(),
{
    broadcast use vstd::seq_lib::to_multiset_insert;
    broadcast use vstd::seq_lib::to_multiset_remove;
    broadcast use vstd::seq_lib::group_to_multiset_ensures;
    broadcast use vstd::multiset::group_multiset_axioms;

    let n = v.len();
    let mut i: usize = 1;
    while i < n
        invariant
            n == v@.len(),
            1 <= i <= n || n == 0,
            i <= n ==> sorted_by_name(v@.take(i as int)),
            v@.to_multiset() == old(v)@.to_multiset(),
            records_view(v@).to_multiset() == records_view(old(v)@).to_multiset(),
        decreases n - i,
    {
        let ghost v0 = v@;
        let x = v.remove(i);
        let ghost xv = x;
        let ghost before = v@;
        proof {
            assert(forall|j: int| 0 <= j < i ==> #[trigger] before[j] == v0[j]);
            assert(forall|g2: int, h2: int|
                0 <= g2 < h2 < i ==> lex_le(
                    #[trigger] before[g2].name@,
                    #[trigger] before[h2].name@,
                )) by {
                assert(forall|j: int| 0 <= j < i ==> v0.take(i as int)[j] == v0[j]);
            }
        }
        let mut p: usize = 0;
        while p < i && str_le(v[p].name.as_str(), x.name.as_str())
            invariant
                before == v@,
                x == xv,
                i < n,
                n == v@.len() + 1,
                0 <= p <= i,
                forall|j: int| 0 <= j < p ==> lex_le(#[trigger] v@[j].name@, x.name@),
            decreases i - p,
        {
            p += 1;
        }
        let ghost found = p < i;
        proof {
            if found {
                lemma_lex_le_total(xv.name@, before[p as int].name@);
                assert(lex_le(xv.name@, before[p as int].name@));
            }
        }
        v.insert(p, x);
        proof {
            let s = v@;
            assert(s == before.insert(p as int, xv));
            assert(s.to_multiset() == old(v)@.to_multiset()) by {
                assert(before == v0.remove(i as int));
                vstd::seq_lib::to_multiset_remove(v0, i as int);
                vstd::seq_lib::to_multiset_insert(before, p as int, xv);
                v0.to_multiset_ensures();
                assert(v0.contains(v0[i as int]));
                assert(v0.to_multiset().count(v0[i as int]) > 0);
                assert(v0.to_multiset().remove(v0[i as int]).insert(v0[i as int]) =~= v0
                    .to_multiset());
            }
            assert(records_view(s).to_multiset() == records_view(old(v)@).to_multiset()) by {
                let m0 = records_view(v0);
                let bm = records_view(before);
                let sm = records_view(s);
                assert(bm =~= m0.remove(i as int));
                vstd::seq_lib::to_multiset_remove(m0, i as int);
                assert(sm =~= bm.insert(p as int, pkg_record_view(xv)));
                vstd::seq_lib::to_multiset_insert(bm, p as int, pkg_record_view(xv));
                m0.to_multiset_ensures();
                assert(m0[i as int] == pkg_record_view(xv));
                assert(m0.contains(m0[i as int]));
                assert(m0.to_multiset().count(m0[i as int]) > 0);
                assert(m0.to_multiset().remove(m0[i as int]).insert(m0[i as int]) =~= m0
                    .to_multiset());
            }
            assert(sorted_by_name(s.take(i as int + 1))) by {
                let t = s.take(i as int + 1);
                assert forall|g: int, h: int| 0 <= g < h < t.len() implies lex_le(
                    #[trigger] t[g].name@,
                    #[trigger] t[h].name@,
                ) by {
                    assert(forall|j: int| 0 <= j < p ==> #[trigger] t[j] == before[j]);
                    assert(t[p as int] == xv);
                    assert(forall|j: int| p < j < t.len() ==> #[trigger] t[j] == before[j - 1]);
                    if h < p {
                        // both below the insertion point: the sorted prefix
                    } else if g < p && h == p {
                        // a prefix record against x: the scan passed it
                    } else if g < p && h > p {
                        // a prefix record against one shifted up
                    } else if g == p && h > p {
                        // x against the records the scan stopped before
                        assert(found);
                        if h > p + 1 {
                            lemma_lex_le_trans(
                                xv.name@,
                                before[p as int].name@,
                                before[h - 1].name@,
                            );
                        }
                    } else {
                        // both above the insertion point: the sorted prefix
                    }
                }
            }
        }
        i += 1;
    }
    proof {
        if n == 0 {
            assert(sorted_by_name(v@));
        } else {
            assert(v@.take(n as int) =~= v@);
        }
        vstd::seq_lib::lemma_multiset_commutative(v@, Seq::<BrewPackage>::empty());
        assert(v@.len() == v@.to_multiset().len()) by {
            broadcast use vstd::seq_lib::group_to_multiset_ensures;
        }
        assert(old(v)@.len() == old(v)@.to_multiset().len()) by {
            broadcast use vstd::seq_lib::group_to_multiset_ensures;
        }
    }
}

} // verus!
