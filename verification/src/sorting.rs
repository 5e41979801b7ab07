//! Sorting a directory listing by entry name.
//!
//! Listings are presented in byte-wise ascending order of name.  The sort
//! keeps exactly the entries it was given: the multiset of entry views is
//! unchanged.

use vstd::multiset::Multiset;
use vstd::prelude::*;
use vstd::seq_lib::lemma_multiset_commutative;

use crate::entry::{entries_view, EntryView, FileInfo};
use crate::order::{lemma_lex_total, lemma_lex_trans, lex_le, name_le};

verus! {

/// Entries in byte-wise ascending order of name.
pub open spec fn sorted_by_name(s: Seq<EntryView>) -> bool {
    forall|i: int, j: int| 0 <= i < j < s.len() ==> lex_le(s[i].name, s[j].name)
}

/// Inserting an entry anywhere adds exactly one occurrence to the multiset.
proof fn lemma_insert_to_multiset(s: Seq<EntryView>, pos: int, x: EntryView)
    requires
        0 <= pos <= s.len(),
    ensures
        s.insert(pos, x).to_multiset() == s.to_multiset().insert(x),
{
    let pre = s.subrange(0, pos);
    let post = s.subrange(pos, s.len() as int);
    assert(s.insert(pos, x) =~= pre.push(x) + post);
    assert(s =~= pre + post);
    lemma_multiset_commutative(pre.push(x), post);
    lemma_multiset_commutative(pre, post);
    pre.to_multiset_ensures();
    assert(s.insert(pos, x).to_multiset() =~= s.to_multiset().insert(x));
}

/// Sorts the listing in place, byte-wise ascending by name, keeping exactly
/// the entries it was given.
pub fn sort_by_name(files: &mut Vec<FileInfo>)
    ensures
        sorted_by_name(entries_view(final(files)@)),
        entries_view(final(files)@).to_multiset() == entries_view(old(files)@).to_multiset(),
{
    let ghost orig = entries_view(files@);
    let mut out: Vec<FileInfo> = Vec::new();
    proof {
        let ev = entries_view(out@);
        assert(ev =~= Seq::<EntryView>::empty());
        ev.to_multiset_ensures();
        assert(ev.to_multiset() =~= Multiset::empty());
        assert(ev.to_multiset().add(orig.to_multiset()) =~= orig.to_multiset());
    }
    while files.len() > 0
        invariant
            sorted_by_name(entries_view(out@)),
            entries_view(out@).to_multiset().add(entries_view(files@).to_multiset())
                == orig.to_multiset(),
        decreases files.len(),
    {
        let ghost fv = entries_view(files@);
        let x = files.remove(0);
        proof {
            assert(entries_view(files@) =~= fv.remove(0));
            fv.to_multiset_ensures();
            assert(fv.remove(0).to_multiset() =~= fv.to_multiset().remove(fv[0]));
            assert(fv.to_multiset().count(fv[0]) > 0);
        }
        let ghost ov = entries_view(out@);
        let mut pos: usize = 0;
        while pos < out.len() && name_le(out[pos].name(), x.name())
            invariant
                pos <= out.len(),
                ov == entries_view(out@),
                forall|k: int| 0 <= k < pos ==> lex_le(ov[k].name, x@.name),
            decreases out.len() - pos,
        {
            pos = pos + 1;
        }
        proof {
            if (pos as int) < ov.len() {
                lemma_lex_total(ov[pos as int].name, x@.name);
            }
            assert forall|k: int| pos <= k < ov.len() implies lex_le(
                x@.name,
                ov[k].name,
            ) by {
                if k > pos {
                    lemma_lex_trans(x@.name, ov[pos as int].name, ov[k].name);
                }
            }
        }
        out.insert(pos, x);
        proof {
            assert(entries_view(out@) =~= ov.insert(pos as int, x@));
            ov.insert_ensures(pos as int, x@);
            assert(sorted_by_name(ov.insert(pos as int, x@))) by {
                let nv = ov.insert(pos as int, x@);
                assert forall|i: int, j: int| 0 <= i < j < nv.len() implies lex_le(
                    nv[i].name,
                    nv[j].name,
                ) by {
                    if j < pos {
                    } else if i < pos && j == pos {
                        assert(nv[i] == ov[i]);
                    } else if i < pos && j > pos {
                        assert(nv[i] == ov[i] && nv[j] == ov[j - 1]);
                        if j - 1 < pos {
                        } else {
                            assert(lex_le(ov[i].name, x@.name));
                            assert(lex_le(x@.name, ov[j - 1].name));
                            lemma_lex_trans(ov[i].name, x@.name, ov[j - 1].name);
                        }
                    } else if i == pos {
                        assert(nv[j] == ov[j - 1]);
                    } else {
                        assert(nv[i] == ov[i - 1] && nv[j] == ov[j - 1]);
                    }
                }
            }
            lemma_insert_to_multiset(ov, pos as int, x@);
            assert(entries_view(out@).to_multiset().add(entries_view(files@).to_multiset())
                =~= orig.to_multiset());
        }
    }
    proof {
        let ev = entries_view(files@);
        assert(ev =~= Seq::<EntryView>::empty());
        ev.to_multiset_ensures();
        assert(ev.to_multiset() =~= Multiset::empty());
        assert(entries_view(out@).to_multiset().add(Multiset::empty()) =~= entries_view(
            out@,
        ).to_multiset());
    }
    *files = out;
}

} // verus!
