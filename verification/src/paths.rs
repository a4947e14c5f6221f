//! Filesystem paths modelled as sequences of byte segments.
//!
//! A `SegmentPath` stands for a path whose components have already been split
//! by the surrounding process: one `Vec<u8>` per component, root first. The
//! watcher's logic only ever asks two things of a path: whether it lies under
//! a watched root, and whether the part below the root starts with the
//! version-control metadata directory.

use vstd::prelude::*;

verus! {

/// A filesystem path as a sequence of byte segments (one per component).
pub struct SegmentPath {
    pub segments: Vec<Vec<u8>>,
}

impl View for SegmentPath {
    type V = Seq<Seq<u8>>;

    open spec fn view(&self) -> Seq<Seq<u8>> {
        Seq::new(self.segments@.len(), |i: int| self.segments@[i]@)
    }
}

/// The bytes of the version-control metadata directory name, ".git".
pub open spec fn git_segment() -> Seq<u8> {
    seq![46u8, 103u8, 105u8, 116u8]
}

/// `root` is a (not necessarily strict) component-wise prefix of `changed`.
pub open spec fn under_root(root: Seq<Seq<u8>>, changed: Seq<Seq<u8>>) -> bool {
    &&& root.len() <= changed.len()
    &&& forall|i: int| 0 <= i < root.len() ==> changed[i] == root[i]
}

/// The path of `changed` relative to `root`: the components below the root.
pub open spec fn rel_of(root: Seq<Seq<u8>>, changed: Seq<Seq<u8>>) -> Seq<Seq<u8>> {
    changed.skip(root.len() as int)
}

/// `changed` lies under `root`'s version-control metadata subtree.
pub open spec fn git_filtered(root: Seq<Seq<u8>>, changed: Seq<Seq<u8>>) -> bool {
    &&& under_root(root, changed)
    &&& rel_of(root, changed).len() > 0
    &&& rel_of(root, changed)[0] == git_segment()
}

/// Byte-wise equality of two segments.
pub fn bytes_eq(a: &Vec<u8>, b: &Vec<u8>) -> (r: bool)
    ensures
        r == (a@ == b@),
{
    if a.len() != b.len() {
        return false;
    }
    let n = a.len();
    let mut i: usize = 0;
    while i < n
        invariant
            n == a.len(),
            n == b.len(),
            i <= n,
            forall|j: int| 0 <= j < i ==> a@[j] == b@[j],
        decreases n - i,
    {
        if a[i] != b[i] {
            return false;
        }
        i += 1;
    }
    proof {
        assert(a@ =~= b@);
    }
    true
}

/// Copies a segment.
pub fn clone_bytes(v: &Vec<u8>) -> (r: Vec<u8>)
    ensures
        r@ == v@,
{
    let n = v.len();
    let mut r: Vec<u8> = Vec::new();
    let mut i: usize = 0;
    while i < n
        invariant
            n == v.len(),
            i <= n,
            r@ =~= v@.take(i as int),
        decreases n - i,
    {
        r.push(v[i]);
        i += 1;
    }
    proof {
        assert(r@ =~= v@);
    }
    r
}

impl Clone for SegmentPath {
    fn clone(&self) -> (r: Self)
        ensures
            r@ == self@,
    {
        let n = self.segments.len();
        let mut segments: Vec<Vec<u8>> = Vec::new();
        let mut i: usize = 0;
        while i < n
            invariant
                n == self.segments.len(),
                i <= n,
                segments@.len() == i,
                forall|j: int| 0 <= j < i ==> segments@[j]@ == self.segments@[j]@,
            decreases n - i,
        {
            segments.push(clone_bytes(&self.segments[i]));
            i += 1;
        }
        let r = SegmentPath { segments };
        proof {
            assert(r@ =~= self@);
        }
        r
    }
}

/// Segment-wise equality of two paths.
pub fn path_eq(a: &SegmentPath, b: &SegmentPath) -> (r: bool)
    ensures
        r == (a@ == b@),
{
    if a.segments.len() != b.segments.len() {
        proof {
            assert(a@.len() != b@.len());
        }
        return false;
    }
    let n = a.segments.len();
    let mut i: usize = 0;
    while i < n
        invariant
            n == a.segments.len(),
            n == b.segments.len(),
            i <= n,
            forall|j: int| 0 <= j < i ==> a@[j] == b@[j],
        decreases n - i,
    {
        if !bytes_eq(&a.segments[i], &b.segments[i]) {
            proof {
                assert(a@[i as int] != b@[i as int]);
            }
            return false;
        }
        i += 1;
    }
    proof {
        assert(a@ =~= b@);
    }
    true
}

/// The path of `changed` relative to `root`, or `None` when `changed` does
/// not lie under `root`.
pub fn strip_prefix(root: &SegmentPath, changed: &SegmentPath) -> (r: Option<SegmentPath>)
    ensures
        r.is_some() == under_root(root@, changed@),
        r matches Some(rel) ==> rel@ == rel_of(root@, changed@),
{
    let rn = root.segments.len();
    let cn = changed.segments.len();
    if rn > cn {
        return None;
    }
    let mut i: usize = 0;
    while i < rn
        invariant
            rn == root.segments.len(),
            cn == changed.segments.len(),
            rn <= cn,
            i <= rn,
            forall|j: int| 0 <= j < i ==> changed@[j] == root@[j],
        decreases rn - i,
    {
        if !bytes_eq(&root.segments[i], &changed.segments[i]) {
            proof {
                assert(changed@[i as int] != root@[i as int]);
            }
            return None;
        }
        i += 1;
    }
    let mut segments: Vec<Vec<u8>> = Vec::new();
    let mut k: usize = rn;
    while k < cn
        invariant
            rn == root.segments.len(),
            cn == changed.segments.len(),
            rn <= k <= cn,
            segments@.len() == k - rn,
            forall|j: int| 0 <= j < k - rn ==> segments@[j]@ == changed@[rn + j],
        decreases cn - k,
    {
        segments.push(clone_bytes(&changed.segments[k]));
        k += 1;
    }
    let rel = SegmentPath { segments };
    proof {
        assert(rel@ =~= rel_of(root@, changed@));
    }
    Some(rel)
}

/// Whether a segment is the version-control metadata directory name.
pub fn is_git_segment(seg: &Vec<u8>) -> (r: bool)
    ensures
        r == (seg@ == git_segment()),
{
    if seg.len() != 4 {
        proof {
            assert(seg@ != git_segment());
        }
        return false;
    }
    let r = seg[0] == 46 && seg[1] == 103 && seg[2] == 105 && seg[3] == 116;
    proof {
        if r {
            assert(seg@ =~= git_segment());
        } else {
            assert(seg@ != git_segment());
        }
    }
    r
}

} // verus!
