//! Parent of a path, computed on raw bytes.
//!
//! A path's parent is everything before its last separator; a path whose only
//! separator is the leading one has the root as its parent, and the root
//! itself (or a path with no separator at all) has none.

use vstd::prelude::*;

use crate::entry::SEPARATOR;

verus! {

/// Index of the last separator in `p`, or -1 when there is none.
pub open spec fn last_separator(p: Seq<u8>) -> int
    decreases p.len(),
{
    if p.len() == 0 {
        -1
    } else if p[p.len() - 1] == SEPARATOR {
        p.len() - 1
    } else {
        last_separator(p.drop_last())
    }
}

/// The directory containing `p`, if `p` has one.
pub open spec fn spec_parent(p: Seq<u8>) -> Option<Seq<u8>> {
    let j = last_separator(p);
    if j > 0 {
        Some(p.take(j))
    } else if j == 0 && p.len() > 1 {
        Some(seq![SEPARATOR])
    } else {
        None
    }
}

/// Computes `spec_parent` on a byte-vector path.
pub fn parent_of(path: &Vec<u8>) -> (r: Option<Vec<u8>>)
    ensures
        match r {
            Some(q) => spec_parent(path@) == Some(q@),
            None => spec_parent(path@) is None,
        },
{
    let mut j: Option<usize> = None;
    let mut i: usize = 0;
    while i < path.len()
        invariant
            i <= path.len(),
            match j {
                Some(v) => v < i && last_separator(path@.take(i as int)) == v as int,
                None => last_separator(path@.take(i as int)) == -1,
            },
        decreases path.len() - i,
    {
        proof {
            assert(path@.take(i + 1).drop_last() =~= path@.take(i as int));
        }
        if path[i] == SEPARATOR {
            j = Some(i);
        }
        i = i + 1;
    }
    proof {
        assert(path@.take(path@.len() as int) =~= path@);
    }
    match j {
        None => None,
        Some(v) => {
            if v == 0 {
                if path.len() > 1 {
                    let mut root: Vec<u8> = Vec::new();
                    root.push(SEPARATOR);
                    proof {
                        assert(root@ =~= seq![SEPARATOR]);
                    }
                    Some(root)
                } else {
                    None
                }
            } else {
                let mut out: Vec<u8> = Vec::new();
                let mut k: usize = 0;
                while k < v
                    invariant
                        k <= v,
                        v < path@.len(),
                        out@ == path@.take(k as int),
                    decreases v - k,
                {
                    out.push(path[k]);
                    proof {
                        assert(path@.take(k + 1) =~= path@.take(k as int).push(path@[k as int]));
                    }
                    k = k + 1;
                }
                Some(out)
            }
        },
    }
}

} // verus!
