//! A model of the content-addressed store and the catalog under crashes.
//!
//! Files are written to a staging area first and then renamed, in one step, to
//! their path in the store, which names their digest; the record comes last.

use vstd::prelude::*;
use crate::catalog::{inserted, lemma_inserted_unique, pictures_unique};
use crate::pictures::{PictureRow, StoreStep, commit_steps, planned_row, planned_steps, sha256_hex, stored_content, stored_path};
use crate::paths::{extension, file_name};

verus! {

/// The staging area, the store and the picture records.
pub struct StoreState {
    pub staged: Map<Seq<char>, Seq<u8>>,
    pub stored: Map<Seq<char>, Seq<u8>>,
    pub rows: Seq<PictureRow>,
}

/// The path names the digest of the content it holds.
pub open spec fn content_named(p: Seq<char>, c: Seq<u8>) -> bool {
    exists|d: Seq<char>, e: Seq<char>| p == stored_path(d, sha256_hex(c), e)
}

/// Every record's file is in the store, and every file in the store is
/// complete: it holds content whose digest its path names.
pub open spec fn consistent(st: StoreState) -> bool {
    &&& forall|i: int| 0 <= i < st.rows.len() ==> st.stored.contains_key(#[trigger] st.rows[i].path)
    &&& forall|p: Seq<char>| #[trigger] st.stored.contains_key(p) ==> content_named(p, st.stored[p])
    &&& pictures_unique(st.rows)
}

/// The state after one step runs to its end.
pub open spec fn apply_step(st: StoreState, step: StoreStep) -> StoreState {
    match step {
        StoreStep::Stage(n, b) => StoreState { staged: st.staged.insert(n, b), ..st },
        StoreStep::Publish(n, p) => if st.staged.contains_key(n) {
            StoreState { staged: st.staged.remove(n), stored: st.stored.insert(p, st.staged[n]), ..st }
        } else {
            st
        },
        StoreStep::Record(r) => StoreState { rows: inserted(st.rows, r), ..st },
    }
}

/// The state after the steps, in order.
pub open spec fn apply_steps(st: StoreState, steps: Seq<StoreStep>) -> StoreState
    decreases steps.len(),
{
    if steps.len() == 0 {
        st
    } else {
        apply_step(apply_steps(st, steps.drop_last()), steps.last())
    }
}

/// The state when a crash cuts the write of `b` to the staging name `n` after `k` bytes.
pub open spec fn torn_stage(st: StoreState, n: Seq<char>, b: Seq<u8>, k: int) -> StoreState {
    StoreState { staged: st.staged.insert(n, b.take(k)), ..st }
}

/// A crash at any point of a commit leaves the store consistent: before, after
/// or between its steps, and in the middle of its write to the staging area.
/// No record names a missing file, and no file sits half-written under the
/// path that names its digest.
pub proof fn lemma_commit_crash_safe(
    st: StoreState,
    dir: Seq<char>,
    ext: Seq<char>,
    content: Seq<u8>,
    record: PictureRow,
    k: int,
    torn: int,
)
    requires
        consistent(st),
        record.path == stored_path(dir, sha256_hex(content), ext),
        0 <= k <= 3,
        0 <= torn <= content.len(),
    ensures
        consistent(apply_steps(st, commit_steps(dir, ext, content, record).take(k))),
        consistent(torn_stage(
            apply_steps(st, commit_steps(dir, ext, content, record).take(k)),
            crate::pictures::staged_name(sha256_hex(content), ext),
            content,
            torn,
        )),
{
    let steps = commit_steps(dir, ext, content, record);
    let h = sha256_hex(content);
    let p = stored_path(dir, h, ext);
    let s0 = st;
    assert(steps.take(0) =~= Seq::<StoreStep>::empty());
    assert(steps.take(1).drop_last() =~= steps.take(0));
    assert(steps.take(2).drop_last() =~= steps.take(1));
    assert(steps.take(3).drop_last() =~= steps.take(2));
    assert(apply_steps(st, steps.take(0)) == st);
    assert(steps.take(1).last() == steps[0]);
    assert(steps.take(2).last() == steps[1]);
    assert(steps.take(3).last() == steps[2]);
    let s1 = apply_steps(st, steps.take(1));
    assert(s1 == apply_step(st, steps[0]));
    let s2 = apply_steps(st, steps.take(2));
    let s3 = apply_steps(st, steps.take(3));
    assert(s1.stored == st.stored && s1.rows == st.rows);
    assert(s1.staged.contains_key(crate::pictures::staged_name(h, ext)));
    assert(s2 == apply_step(s1, steps[1]));
    assert(s2.stored == st.stored.insert(p, content));
    assert(s2.rows == st.rows);
    assert(content_named(p, content));
    assert(consistent(s2)) by {
        assert forall|q: Seq<char>| #[trigger] s2.stored.contains_key(q) implies content_named(q, s2.stored[q]) by {
            if q != p {
                assert(st.stored.contains_key(q));
            }
        }
    }
    assert(s3 == apply_step(s2, steps[2]));
    assert(s3.rows == inserted(st.rows, record));
    assert(s3.stored == s2.stored);
    lemma_inserted_unique(st.rows, record);
    assert(consistent(s3)) by {
        assert forall|i: int| 0 <= i < s3.rows.len() implies s3.stored.contains_key(#[trigger] s3.rows[i].path) by {
            if i < st.rows.len() {
                assert(st.stored.contains_key(st.rows[i].path));
            }
        }
    }
}

/// The steps that a directory scan plans for a picture are crash-safe: stopping
/// after any of them leaves a consistent store.
pub proof fn lemma_planned_commit_crash_safe(
    st: StoreState,
    settings: Seq<char>,
    path: Seq<char>,
    bytes: Seq<u8>,
    dir: Seq<char>,
    threshold: u64,
    k: int,
)
    requires
        consistent(st),
        0 <= k <= 3,
    ensures
        consistent(apply_steps(st, planned_steps(settings, path, bytes, dir, threshold).take(k))),
{
    let ext = extension(file_name(path)).unwrap();
    let content = stored_content(bytes, ext, threshold);
    lemma_commit_crash_safe(st, dir, ext, content, planned_row(settings, path, bytes, dir, threshold), k, 0);
}

} // verus!
