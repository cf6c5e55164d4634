//! Shadow references that keep commits alive against Git's own garbage
//! collection, and the sweep that releases them once they are no longer
//! visible.
//!
//! A commit is pinned by a reference named `refs/branchless/<hex id>`. A sweep
//! classifies every reference of the repository against the set of commits
//! that are still visible and deletes exactly the reserved references whose
//! commit has left that set.

pub mod commit_id;
pub mod refname;
pub mod error;
pub mod sweep;
pub mod pin;
