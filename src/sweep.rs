//! The sweep: which references of a repository are dangling reserved
//! references, given the commits that are still visible.

use vstd::prelude::*;
use crate::commit_id::CommitId;
use crate::error::GcError;
use crate::refname::{is_gc_ref, is_reserved_name};

verus! {

/// One reference of the repository as the sweep sees it.
///
/// `name` is `None` when the name is not valid UTF-8 or the entry could not
/// be read; `target` is `None` when the reference could not be resolved or
/// does not peel to a commit.
#[derive(Debug)]
pub struct RefEntry {
    pub name: Option<String>,
    pub target: Option<CommitId>,
}

/// The identifiers of a list of commits, as a set.
pub open spec fn id_set(ids: Seq<CommitId>) -> Set<Seq<u8>> {
    Set::new(|c: Seq<u8>| exists|i: int| 0 <= i < ids.len() && ids[i]@ == c)
}

/// The reference has a name, and it lies in the reserved namespace.
pub open spec fn has_reserved_name(e: RefEntry) -> bool {
    e.name matches Some(n) && is_reserved_name(n@)
}

/// The reference peels to a commit of the visible set.
pub open spec fn peels_to_visible(e: RefEntry, visible: Set<Seq<u8>>) -> bool {
    e.target matches Some(t) && visible.contains(t@)
}

/// A reference is dangling when it has a name in the reserved namespace and
/// peels to a commit outside the visible set.
pub open spec fn is_dangling(e: RefEntry, visible: Set<Seq<u8>>) -> bool {
    has_reserved_name(e) && e.target is Some && !peels_to_visible(e, visible)
}

/// The positions in `r` are strictly increasing and within `0..n`.
pub open spec fn ascending_below(r: Seq<usize>, n: int) -> bool {
    &&& forall|k: int| 0 <= k < r.len() ==> #[trigger] r[k] < n
    &&& forall|j: int, k: int| 0 <= j < k < r.len() ==> r[j] < r[k]
}

/// `r` lists, in order, exactly the positions of the dangling references of
/// `refs`.
pub open spec fn are_dangling_positions(
    r: Seq<usize>,
    refs: Seq<RefEntry>,
    visible: Set<Seq<u8>>,
) -> bool {
    &&& ascending_below(r, refs.len() as int)
    &&& forall|i: int|
        0 <= i < refs.len() ==> (r.contains(i as usize) <==> is_dangling(#[trigger] refs[i], visible))
}

/// Whether the commit `c` is one of `visible`.
pub fn is_visible(visible: &Vec<CommitId>, c: &CommitId) -> (r: bool)
    ensures
        r == id_set(visible@).contains(c@),
{
    let mut i: usize = 0;
    while i < visible.len()
        invariant
            i <= visible.len(),
            forall|k: int| 0 <= k < i ==> visible@[k]@ != c@,
        decreases visible.len() - i,
    {
        if visible[i].same_as(c) {
            return true;
        }
        i = i + 1;
    }
    false
}

/// The positions in `refs` of the dangling reserved references, in order.
///
/// A reference outside the reserved namespace, one whose commit is visible,
/// and one that could not be read, resolved or peeled to a commit is never
/// among them; every other reserved reference is.
pub fn find_dangling_references(refs: &Vec<RefEntry>, visible: &Vec<CommitId>) -> (r: Vec<usize>)
    ensures
        are_dangling_positions(r@, refs@, id_set(visible@)),
        // a reference whose commit is visible is kept
        forall|i: int|
            0 <= i < refs@.len() && peels_to_visible(#[trigger] refs@[i], id_set(visible@))
                ==> !r@.contains(i as usize),
        // a reference outside the reserved namespace is kept
        forall|i: int|
            0 <= i < refs@.len() && !has_reserved_name(#[trigger] refs@[i]) ==> !r@.contains(
                i as usize,
            ),
        // a reference that does not peel to a commit is kept
        forall|i: int|
            0 <= i < refs@.len() && (#[trigger] refs@[i]).target is None ==> !r@.contains(
                i as usize,
            ),
        // a reserved reference whose commit is not visible is deleted
        forall|i: int|
            0 <= i < refs@.len() && has_reserved_name(#[trigger] refs@[i]) && refs@[i].target is Some
                && !peels_to_visible(refs@[i], id_set(visible@)) ==> r@.contains(i as usize),
{
    let mut r: Vec<usize> = Vec::new();
    let mut i: usize = 0;
    while i < refs.len()
        invariant
            i <= refs@.len(),
            ascending_below(r@, i as int),
            forall|j: int|
                0 <= j < i ==> (r@.contains(j as usize) <==> is_dangling(
                    #[trigger] refs@[j],
                    id_set(visible@),
                )),
            forall|k: int|
                0 <= k < r@.len() ==> is_dangling(#[trigger] refs@[r@[k] as int], id_set(visible@)),
        decreases refs.len() - i,
    {
        let e = &refs[i];
        let dangling = match (&e.name, &e.target) {
            (Some(name), Some(target)) => is_gc_ref(name.as_str()) && !is_visible(visible, target),
            _ => false,
        };
        assert(dangling == is_dangling(refs@[i as int], id_set(visible@)));
        let ghost before = r@;
        if dangling {
            r.push(i);
        }
        assert forall|j: int| 0 <= j <= i implies (r@.contains(j as usize) <==> is_dangling(
            #[trigger] refs@[j],
            id_set(visible@),
        )) by {
            if j < i {
                if r@.contains(j as usize) {
                    let k = choose|k: int| 0 <= k < r@.len() && r@[k] == j as usize;
                    if k < before.len() {
                        assert(before[k] == j as usize);
                    }
                }
                if before.contains(j as usize) {
                    let k = choose|k: int| 0 <= k < before.len() && before[k] == j as usize;
                    assert(r@[k] == j as usize);
                }
            } else {
                if r@.contains(j as usize) {
                    let k = choose|k: int| 0 <= k < r@.len() && r@[k] == j as usize;
                    if k < before.len() {
                        assert(before[k] < i);
                    }
                }
                if dangling {
                    assert(r@[before.len() as int] == i);
                }
            }
        }
        i = i + 1;
    }
    r
}

/// The references that a sweep deletes: the positions in `refs` of the
/// dangling ones, when the visible set could be computed.
///
/// When it could not, the sweep fails with that message and deletes nothing.
pub fn sweep_plan(visible: Result<Vec<CommitId>, String>, refs: &Vec<RefEntry>) -> (r: Result<
    Vec<usize>,
    GcError,
>)
    ensures
        visible is Err <==> r is Err,
        visible matches Err(m) ==> (r matches Err(GcError::Visibility { message }) && message@
            == m@),
        visible matches Ok(v) ==> (r matches Ok(d) && are_dangling_positions(d@, refs@, id_set(v@))),
{
    match visible {
        Ok(v) => Ok(find_dangling_references(refs, &v)),
        Err(message) => Err(GcError::Visibility { message }),
    }
}

} // verus!
