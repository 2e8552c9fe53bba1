//! Ordering of the tests of a report by their full path.
use vstd::prelude::*;
use vstd::utf8::encode_utf8;
use crate::model::{Test, TestPass};
use crate::text::{
    bytes_less,
    bytes_lt,
    lemma_bytes_lt_irreflexive,
    lemma_bytes_lt_total,
    lemma_bytes_lt_transitive,
};

verus! {

/// The sort key of a test: its full path as UTF-8 bytes, which Rust orders
/// ordinally.
pub open spec fn path_key(t: Test) -> Seq<u8> {
    encode_utf8(t.full_test_path@)
}

/// No test is followed by one with a smaller path.
pub open spec fn sorted_by_path(s: Seq<Test>) -> bool {
    forall|i: int, j: int| 0 <= i < j < s.len() ==> !bytes_lt(path_key(s[j]), path_key(s[i]))
}

/// `p` sends each of `n` positions to a distinct position below `n`.
pub open spec fn is_arrangement(p: Seq<int>, n: int) -> bool {
    &&& p.len() == n
    &&& forall|i: int| 0 <= i < n ==> 0 <= #[trigger] p[i] < n
    &&& forall|i: int, j: int| 0 <= i < j < n ==> p[i] != p[j]
}

/// `new` holds the tests of `old`, moved by the arrangement `p`, in path
/// order, with tests of equal path in their order in `old`.
pub open spec fn stable_arrangement(new: Seq<Test>, old: Seq<Test>, p: Seq<int>) -> bool {
    &&& new.len() == old.len()
    &&& is_arrangement(p, old.len() as int)
    &&& forall|i: int| 0 <= i < new.len() ==> #[trigger] new[i] == old[p[i]]
    &&& sorted_by_path(new)
    &&& forall|i: int, j: int|
        0 <= i < j < new.len() && path_key(new[i]) == path_key(new[j]) ==> p[i] < p[j]
}

/// `new` is a stable sort of `old` by path.
pub open spec fn stable_sort_of(new: Seq<Test>, old: Seq<Test>) -> bool {
    exists|p: Seq<int>| stable_arrangement(new, old, p)
}

/// Sorts tests by full path in ordinal order, keeping the input order of
/// tests with equal paths.
pub fn sort_tests(tests: &mut Vec<Test>)
    ensures
        stable_sort_of(final(tests)@, old(tests)@),
{
    let ghost orig = tests@;
    let n = tests.len();
    let mut out: Vec<Test> = Vec::new();
    let ghost mut p: Seq<int> = Seq::empty();
    let mut i: usize = 0;
    assert(orig.subrange(0, n as int) =~= orig);
    while i < n
        invariant
            n == orig.len(),
            i <= n,
            tests@ == orig.subrange(i as int, n as int),
            out@.len() == i,
            p.len() == i,
            forall|k: int| 0 <= k < i ==> 0 <= #[trigger] p[k] < i,
            forall|k: int, l: int| 0 <= k < l < i ==> p[k] != p[l],
            forall|k: int| 0 <= k < i ==> #[trigger] out@[k] == orig[p[k]],
            sorted_by_path(out@),
            forall|k: int, l: int|
                0 <= k < l < i && path_key(out@[k]) == path_key(out@[l]) ==> p[k] < p[l],
        decreases n - i,
    {
        let t = tests.remove(0);
        assert(t == orig[i as int]);
        assert(tests@ =~= orig.subrange(i + 1, n as int));
        let mut pos: usize = 0;
        while pos < out.len() && !bytes_less(
            t.full_test_path.as_str().as_bytes(),
            out[pos].full_test_path.as_str().as_bytes(),
        )
            invariant
                pos <= out@.len(),
                forall|k: int| 0 <= k < pos ==> !bytes_lt(path_key(t), #[trigger] path_key(out@[k])),
            decreases out.len() - pos,
        {
            pos = pos + 1;
        }
        let ghost before = out@;
        let ghost old_p = p;
        assert(pos < before.len() ==> bytes_lt(path_key(t), path_key(before[pos as int])));
        out.insert(pos, t);
        proof {
            p = p.insert(pos as int, i as int);
            let s = out@;
            assert(s =~= before.insert(pos as int, t));
            assert forall|k: int| 0 <= k < i + 1 implies 0 <= #[trigger] p[k] < i + 1 by {
                if k > pos {
                    assert(p[k] == old_p[k - 1]);
                }
            }
            assert forall|k: int| 0 <= k < i + 1 implies #[trigger] s[k] == orig[p[k]] by {
                if k > pos {
                    assert(s[k] == before[k - 1]);
                    assert(p[k] == old_p[k - 1]);
                }
            }
            assert forall|k: int, l: int| 0 <= k < l < i + 1 implies
                !bytes_lt(path_key(s[l]), path_key(s[k])) && p[k] != p[l]
                && (path_key(s[k]) == path_key(s[l]) ==> p[k] < p[l]) by {
                if k < pos && l < pos {
                } else if k < pos && l == pos {
                    assert(!bytes_lt(path_key(t), path_key(before[k])));
                    lemma_bytes_lt_total(path_key(t), path_key(before[k]));
                    if path_key(t) == path_key(before[k]) {
                        lemma_bytes_lt_irreflexive(path_key(t));
                    }
                } else if k < pos && l > pos {
                    assert(s[l] == before[l - 1]);
                    assert(p[l] == old_p[l - 1]);
                } else if k == pos {
                    // l > pos: before[l - 1] is not below before[pos], which is above t
                    let m = l - 1;
                    assert(s[l] == before[m]);
                    assert(p[l] == old_p[m]);
                    assert(bytes_lt(path_key(t), path_key(before[pos as int])));
                    if m > pos {
                        assert(!bytes_lt(path_key(before[m]), path_key(before[pos as int])));
                    }
                    if bytes_lt(path_key(before[m]), path_key(t)) {
                        lemma_bytes_lt_transitive(path_key(before[m]), path_key(t), path_key(before[pos as int]));
                        lemma_bytes_lt_irreflexive(path_key(before[m]));
                    }
                    if path_key(before[m]) == path_key(t) {
                        lemma_bytes_lt_irreflexive(path_key(t));
                    }
                } else {
                    assert(s[l] == before[l - 1]);
                    assert(s[k] == before[k - 1]);
                    assert(p[l] == old_p[l - 1]);
                    assert(p[k] == old_p[k - 1]);
                }
            }
        }
        i = i + 1;
    }
    *tests = out;
    assert(stable_arrangement(tests@, orig, p));
}

/// Post-load normalization: orders the tests by path, stably, and leaves
/// every other part of the report as it was.
pub fn normalize(report: &mut TestPass)
    ensures
        stable_sort_of(final(report).tests@, old(report).tests@),
        final(report).devices == old(report).devices,
        final(report).report_created_on == old(report).report_created_on,
        final(report).succeeded == old(report).succeeded,
        final(report).succeeded_with_warnings == old(report).succeeded_with_warnings,
        final(report).failed == old(report).failed,
        final(report).not_run == old(report).not_run,
        final(report).in_process == old(report).in_process,
        final(report).comparison_exported == old(report).comparison_exported,
        final(report).comparison_export_directory == old(report).comparison_export_directory,
{
    sort_tests(&mut report.tests);
}

} // verus!
