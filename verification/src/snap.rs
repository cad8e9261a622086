use vstd::prelude::*;
use vstd::string::StringExecFns;

verus! {

/// What to do with a freshly rendered snapshot.
#[derive(Debug, Clone, Copy, PartialEq, Eq, Structural)]
pub enum SnapshotAction {
    /// No snapshot exists yet, or it changed and rewriting is enabled: write the new one.
    Write,
    /// The stored snapshot is the same: nothing to do.
    Keep,
    /// The stored snapshot differs and rewriting is disabled: the comparison fails.
    Changed,
}

/// The path of the snapshot file for `snap_id`.
pub fn get_snap_path(snap_id: &str) -> (r: String)
    ensures
        r@ == "__snapshots/"@ + snap_id@ + ".png"@,
{
    String::from_str("__snapshots/").concat(snap_id).concat(".png")
}

/// Decides what to do with the rendered bytes `bytes` of a snapshot, given the stored ones
/// (if any) and whether changed snapshots are to be rewritten.
pub fn compare_snapshot(stored: Option<&[u8]>, bytes: &[u8], rewrite: bool) -> (r: SnapshotAction)
    ensures
        r == match stored {
            None => SnapshotAction::Write,
            Some(s) => if s@ == bytes@ {
                SnapshotAction::Keep
            } else if rewrite {
                SnapshotAction::Write
            } else {
                SnapshotAction::Changed
            },
        },
{
    match stored {
        None => SnapshotAction::Write,
        Some(s) => {
            if same_bytes(s, bytes) {
                SnapshotAction::Keep
            } else if rewrite {
                SnapshotAction::Write
            } else {
                SnapshotAction::Changed
            }
        },
    }
}

/// Whether `a` and `b` hold the same bytes.
fn same_bytes(a: &[u8], b: &[u8]) -> (r: bool)
    ensures
        r == (a@ == b@),
{
    if a.len() != b.len() {
        return false;
    }
    let mut i: usize = 0;
    while i < a.len()
        invariant
            a@.len() == b@.len(),
            i <= a@.len(),
            forall|j: int| 0 <= j < i ==> a@[j] == b@[j],
        decreases a@.len() - i,
    {
        if a[i] != b[i] {
            return false;
        }
        i = i + 1;
    }
    assert(a@ =~= b@);
    true
}

} // verus!
