//! Pinning a commit: the reserved reference that keeps it reachable, and what
//! writing that reference does to the reference table.

use vstd::prelude::*;
use crate::commit_id::CommitId;
use crate::error::GcError;
use crate::refname::{
    gc_ref_name, is_reserved_name, is_valid_reference_name, lemma_reserved_name_for,
    reserved_name_for, valid_ref_name,
};

verus! {

/// The message recorded with every pinning reference.
pub const PIN_MESSAGE: &'static str = "branchless: marking commit as reachable";

/// A reference to create, or to overwrite, so that `target` stays reachable.
#[derive(Debug)]
pub struct PinRequest {
    pub name: String,
    pub target: CommitId,
    pub message: String,
}

/// The reference table: each name with the commit it points at.
pub type RefTable = Map<Seq<char>, Seq<u8>>;

/// The table after the reference that pins `c` has been written.
pub open spec fn pinned(table: RefTable, c: Seq<u8>) -> RefTable {
    table.insert(reserved_name_for(c), c)
}

/// The table after `req` has been written: its name now points at its target.
pub open spec fn written(table: RefTable, req: PinRequest) -> RefTable {
    table.insert(req.name@, req.target@)
}

/// `r` is what pinning `c` yields when the validity of its reserved name is
/// `name_is_valid`: the request to write that name, pointing at `c`, or the
/// refusal of the name.
pub open spec fn is_pin_outcome(r: Result<PinRequest, GcError>, c: Seq<u8>, name_is_valid: bool) -> bool {
    match r {
        Ok(req) => name_is_valid && req.name@ == reserved_name_for(c) && req.target@ == c
            && req.message@ == PIN_MESSAGE@,
        Err(GcError::InvalidRefName { name }) => !name_is_valid && name@ == reserved_name_for(c),
        Err(_) => false,
    }
}

/// The request that pins `commit`, given whether its reserved name is a valid
/// reference name.
pub fn pin_request_for(commit: &CommitId, name: String, name_is_valid: bool) -> (r: Result<
    PinRequest,
    GcError,
>)
    requires
        name@ == reserved_name_for(commit@),
    ensures
        is_pin_outcome(r, commit@, name_is_valid),
{
    if name_is_valid {
        let mut message = String::new();
        message.append(PIN_MESSAGE);
        Ok(PinRequest { name, target: CommitId { bytes: commit.bytes.clone() }, message })
    } else {
        Err(GcError::InvalidRefName { name })
    }
}

/// The request that pins `commit`: the reference `refs/branchless/<hex id>`
/// pointing at it, or an error when that name is not a valid reference name.
pub fn pin_request(commit: &CommitId) -> (r: Result<PinRequest, GcError>)
    ensures
        is_pin_outcome(r, commit@, valid_ref_name(reserved_name_for(commit@))),
        r matches Ok(req) ==> forall|t: RefTable| written(t, req) == pinned(t, commit@),
{
    let name = gc_ref_name(commit);
    proof {
        lemma_reserved_name_for(commit@);
    }
    let valid = is_valid_reference_name(name.as_str());
    pin_request_for(commit, name, valid)
}

/// Pinning the same commit twice leaves the table as pinning it once does.
pub proof fn lemma_pin_idempotent(table: RefTable, c: Seq<u8>)
    ensures
        pinned(pinned(table, c), c) == pinned(table, c),
{
    assert(pinned(pinned(table, c), c) =~= pinned(table, c));
}

/// Pinning a commit leaves every reference outside the reserved namespace as
/// it was: none is created, changed or removed.
pub proof fn lemma_pin_exclusive(table: RefTable, c: Seq<u8>, name: Seq<char>)
    requires
        !is_reserved_name(name),
    ensures
        pinned(table, c).contains_key(name) == table.contains_key(name),
        table.contains_key(name) ==> pinned(table, c)[name] == table[name],
{
    lemma_reserved_name_for(c);
}

} // verus!
