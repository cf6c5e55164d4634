//! The reserved reference namespace: its names and the test that tells them
//! apart from every other reference.

use vstd::prelude::*;
use crate::commit_id::{CommitId, hex_of};

verus! {

/// The prefix that every reserved reference name starts with.
pub const RESERVED_PREFIX: &'static str = "refs/branchless/";

/// The characters of `RESERVED_PREFIX`.
pub open spec fn reserved_prefix() -> Seq<char> {
    seq!['r', 'e', 'f', 's', '/', 'b', 'r', 'a', 'n', 'c', 'h', 'l', 'e', 's', 's', '/']
}

/// A name lies in the reserved namespace when it starts with the prefix.
pub open spec fn is_reserved_name(name: Seq<char>) -> bool {
    name.len() >= reserved_prefix().len() && name.take(reserved_prefix().len() as int)
        == reserved_prefix()
}

/// The reserved name that pins the commit with identifier `c`.
pub open spec fn reserved_name_for(c: Seq<u8>) -> Seq<char> {
    reserved_prefix() + hex_of(c)
}

/// Whether libgit2 accepts `name` as the name of a reference.
pub uninterp spec fn valid_ref_name(name: Seq<char>) -> bool;

proof fn lemma_prefix_literal()
    ensures
        RESERVED_PREFIX@ == reserved_prefix(),
{
    reveal_strlit("refs/branchless/");
    assert(RESERVED_PREFIX@ =~= reserved_prefix());
}

/// Every digit of a hexadecimal form is an ASCII digit or a lowercase letter.
pub proof fn lemma_hex_chars(b: Seq<u8>)
    ensures
        forall|i: int|
            0 <= i < hex_of(b).len() ==> ('0' <= #[trigger] hex_of(b)[i] <= '9' || 'a'
                <= hex_of(b)[i] <= 'f'),
        hex_of(b).len() == 2 * b.len(),
    decreases b.len(),
{
    if b.len() > 0 {
        lemma_hex_chars(b.drop_last());
    }
}

/// The name that pins a commit lies in the reserved namespace and holds no
/// NUL character.
pub proof fn lemma_reserved_name_for(c: Seq<u8>)
    ensures
        is_reserved_name(reserved_name_for(c)),
        forall|i: int|
            0 <= i < reserved_name_for(c).len() ==> #[trigger] reserved_name_for(c)[i] != '\0',
{
    lemma_hex_chars(c);
    assert(reserved_name_for(c).take(16) =~= reserved_prefix());
}

/// Whether `name` lies in the reserved namespace, the only references that
/// this library ever creates or deletes.
pub fn is_gc_ref(name: &str) -> (r: bool)
    ensures
        r == is_reserved_name(name@),
{
    proof {
        lemma_prefix_literal();
    }
    let n = name.unicode_len();
    if n < 16 {
        return false;
    }
    let mut i: usize = 0;
    while i < 16
        invariant
            i <= 16 <= name@.len(),
            RESERVED_PREFIX@ == reserved_prefix(),
            forall|k: int| 0 <= k < i ==> name@[k] == reserved_prefix()[k],
        decreases 16 - i,
    {
        if name.get_char(i) != RESERVED_PREFIX.get_char(i) {
            assert(name@.take(16)[i as int] != reserved_prefix()[i as int]);
            return false;
        }
        i = i + 1;
    }
    assert(name@.take(16) =~= reserved_prefix());
    true
}

/// The reserved name that pins `commit`: the prefix, then the identifier in
/// hexadecimal.
pub fn gc_ref_name(commit: &CommitId) -> (r: String)
    ensures
        r@ == reserved_name_for(commit@),
{
    proof {
        lemma_prefix_literal();
    }
    let mut r = String::new();
    r.append(RESERVED_PREFIX);
    let hex = commit.to_hex();
    r.append(hex.as_str());
    r
}

/// Relies on git2::Reference::is_valid_name, which asks libgit2 whether a
/// name is a well-formed reference name; the answer depends on the name
/// alone. It panics on a NUL character, which the precondition excludes.
#[verifier::external_body]
pub(crate) fn is_valid_reference_name(name: &str) -> (r: bool)
    requires
        forall|i: int| 0 <= i < name@.len() ==> name@[i] != '\0',
    ensures
        r == valid_ref_name(name@),
{
    git2::Reference::is_valid_name(name)
}

} // verus!
