//! Sweeping a managed directory: regular files that the keep predicate rejects are removed.
use vstd::prelude::*;

verus! {

/// One directory entry as the sweep sees it: its path, whether it is a regular
/// file, and the keep predicate's verdict on it.
pub struct SweepEntry {
    pub path: String,
    pub is_file: bool,
    pub keep: bool,
}

pub open spec fn removable(e: SweepEntry) -> bool {
    e.is_file && !e.keep
}

/// The paths to remove, in the order of the entries.
pub open spec fn sweep_targets_spec(s: Seq<SweepEntry>) -> Seq<Seq<char>>
    decreases s.len(),
{
    if s.len() == 0 {
        Seq::empty()
    } else if removable(s.last()) {
        sweep_targets_spec(s.drop_last()).push(s.last().path@)
    } else {
        sweep_targets_spec(s.drop_last())
    }
}

/// Whether an entry is to be removed: a regular file the predicate does not keep.
pub fn should_remove(is_file: bool, keep: bool) -> (r: bool)
    ensures
        r == (is_file && !keep),
{
    is_file && !keep
}

/// The paths of the entries that a sweep removes.
pub fn sweep_targets(entries: &Vec<SweepEntry>) -> (r: Vec<String>)
    ensures
        r@.map_values(|p: String| p@) == sweep_targets_spec(entries@),
{
    let mut out: Vec<String> = Vec::new();
    let n = entries.len();
    let mut i: usize = 0;
    while i < n
        invariant
            n == entries@.len(),
            i <= n,
            out@.map_values(|p: String| p@) == sweep_targets_spec(entries@.subrange(0, i as int)),
        decreases n - i,
    {
        let e = &entries[i];
        proof {
            assert(entries@.subrange(0, i + 1).drop_last() =~= entries@.subrange(0, i as int));
        }
        if should_remove(e.is_file, e.keep) {
            let ghost before = out@;
            out.push(e.path.clone());
            proof {
                assert(out@.map_values(|p: String| p@) =~= before.map_values(|p: String| p@).push(
                    e.path@,
                ));
            }
        }
        i = i + 1;
    }
    proof {
        assert(entries@.subrange(0, n as int) =~= entries@);
    }
    out
}

/// A sweep removes exactly the regular files that the predicate rejects: every
/// target is such an entry, and such an entry is a target.
pub proof fn lemma_sweep_removes_exactly_rejected(s: Seq<SweepEntry>)
    ensures
        forall|p: Seq<char>|
            sweep_targets_spec(s).contains(p) <==> exists|i: int|
                0 <= i < s.len() && removable(#[trigger] s[i]) && s[i].path@ == p,
    decreases s.len(),
{
    if s.len() > 0 {
        let s0 = s.drop_last();
        lemma_sweep_removes_exactly_rejected(s0);
        assert forall|p: Seq<char>|
            sweep_targets_spec(s).contains(p) <==> exists|i: int|
                0 <= i < s.len() && removable(#[trigger] s[i]) && s[i].path@ == p by {
            if sweep_targets_spec(s).contains(p) {
                if sweep_targets_spec(s0).contains(p) {
                    let i = choose|i: int|
                        0 <= i < s0.len() && removable(#[trigger] s0[i]) && s0[i].path@ == p;
                    assert(s[i] == s0[i]);
                } else {
                    assert(removable(s[s.len() - 1]) && s[s.len() - 1].path@ == p) by {
                        if removable(s.last()) {
                            let t = sweep_targets_spec(s0);
                            let j = choose|j: int| 0 <= j < t.push(s.last().path@).len() && t.push(s.last().path@)[j] == p;
                            assert(j == t.len());
                        }
                    }
                }
            }
            if exists|i: int| 0 <= i < s.len() && removable(#[trigger] s[i]) && s[i].path@ == p {
                let i = choose|i: int| 0 <= i < s.len() && removable(#[trigger] s[i]) && s[i].path@ == p;
                if i < s.len() - 1 {
                    assert(s0[i] == s[i]);
                    assert(sweep_targets_spec(s0).contains(p));
                    if removable(s.last()) {
                        let t = sweep_targets_spec(s0);
                        let j = choose|j: int| 0 <= j < t.len() && t[j] == p;
                        assert(t.push(s.last().path@)[j] == p);
                    }
                } else {
                    let t = sweep_targets_spec(s0);
                    assert(t.push(s.last().path@)[t.len() as int] == p);
                }
            }
        }
    }
}

} // verus!
