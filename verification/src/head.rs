//! Deriving a note name from a version-control `HEAD` reference file.
//!
//! A symbolic reference of the form `ref: refs/heads/<branch>` yields the
//! branch name itself (trailing whitespace removed, embedded separators
//! preserved).  Anything else is treated as a detached head holding a raw
//! hash and yields `HEAD:` followed by at most the first eight bytes of it.

use vstd::prelude::*;

use crate::bytestr::copy_range;
use crate::bytestr::is_ws;
use crate::bytestr::spec_trim_trailing;
use crate::bytestr::starts_with;
use crate::bytestr::trim_trailing_ws;

verus! {

/// The bytes of `ref: refs/heads/`.
pub open spec fn spec_ref_prefix() -> Seq<u8> {
    seq![
        114u8,
        101u8,
        102u8,
        58u8,
        32u8,
        114u8,
        101u8,
        102u8,
        115u8,
        47u8,
        104u8,
        101u8,
        97u8,
        100u8,
        115u8,
        47u8,
    ]
}

fn ref_prefix() -> (r: Vec<u8>)
    ensures
        r@ == spec_ref_prefix(),
{
    let r: Vec<u8> = vec![114, 101, 102, 58, 32, 114, 101, 102, 115, 47, 104, 101, 97, 100, 115,
        47];
    proof {
        assert(r@ =~= spec_ref_prefix());
    }
    r
}

/// The bytes of `HEAD:`.
pub open spec fn spec_detached_prefix() -> Seq<u8> {
    seq![72u8, 69u8, 65u8, 68u8, 58u8]
}

/// A trimmed reference is symbolic when it is the branch prefix followed by
/// at least one byte of branch name.
pub open spec fn is_symbolic_ref(t: Seq<u8>) -> bool {
    t.len() > spec_ref_prefix().len() && spec_ref_prefix().is_prefix_of(t)
}

/// The branch name of a symbolic reference: everything after the prefix.
pub open spec fn spec_branch_of(t: Seq<u8>) -> Seq<u8>
    recommends
        is_symbolic_ref(t),
{
    t.skip(spec_ref_prefix().len() as int)
}

/// The short form of a detached-head hash: its first eight bytes, or all of
/// it when it is shorter.
pub open spec fn spec_short_hash(t: Seq<u8>) -> Seq<u8> {
    if t.len() <= 8 {
        t
    } else {
        t.take(8)
    }
}

/// The note name derived from the raw content of a reference file.
pub open spec fn spec_head_note_name(content: Seq<u8>) -> Seq<u8> {
    let t = spec_trim_trailing(content);
    if is_symbolic_ref(t) {
        spec_branch_of(t)
    } else {
        spec_detached_prefix() + spec_short_hash(t)
    }
}

/// What a reference file points at, after trimming trailing whitespace.
pub enum HeadRef {
    /// A symbolic reference to a branch, carrying the branch name.
    Branch(Vec<u8>),
    /// A detached head, carrying the whole trimmed content (the raw hash).
    Detached(Vec<u8>),
}

/// Classify the raw content of a reference file.
pub fn parse_head_content(content: &Vec<u8>) -> (r: HeadRef)
    ensures
        is_symbolic_ref(spec_trim_trailing(content@)) ==> (r matches HeadRef::Branch(b) && b@
            == spec_branch_of(spec_trim_trailing(content@))),
        !is_symbolic_ref(spec_trim_trailing(content@)) ==> (r matches HeadRef::Detached(h) && h@
            == spec_trim_trailing(content@)),
{
    let t = trim_trailing_ws(content);
    let p = ref_prefix();
    if t.len() > p.len() && starts_with(&t, &p) {
        let b = copy_range(&t, p.len(), t.len());
        proof {
            assert(b@ =~= spec_branch_of(t@));
        }
        HeadRef::Branch(b)
    } else {
        HeadRef::Detached(t)
    }
}

/// Derive the note name from the raw content of a reference file: the branch
/// name for a symbolic reference, `HEAD:` plus the short hash otherwise.
pub fn head_note_name(content: &Vec<u8>) -> (r: Vec<u8>)
    ensures
        r@ == spec_head_note_name(content@),
{
    match parse_head_content(content) {
        HeadRef::Branch(b) => b,
        HeadRef::Detached(h) => {
            let cut: usize = if h.len() <= 8 {
                h.len()
            } else {
                8
            };
            let short = copy_range(&h, 0, cut);
            let mut r: Vec<u8> = vec![72, 69, 65, 68, 58];
            proof {
                assert(r@ =~= spec_detached_prefix());
                assert(short@ =~= spec_short_hash(h@));
            }
            crate::bytestr::append_bytes(&mut r, &short);
            r
        },
    }
}

/// A reference file whose trimmed content is `ref: refs/heads/<branch>`
/// derives exactly the branch name, embedded separators included.
pub proof fn lemma_symbolic_ref_derives_branch(content: Seq<u8>, branch: Seq<u8>)
    requires
        branch.len() > 0,
        spec_trim_trailing(content) == spec_ref_prefix() + branch,
    ensures
        spec_head_note_name(content) == branch,
{
    let t = spec_trim_trailing(content);
    assert(t.subrange(0, spec_ref_prefix().len() as int) =~= spec_ref_prefix());
    assert(is_symbolic_ref(t));
    assert(t.skip(spec_ref_prefix().len() as int) =~= branch);
}

/// Trimming removes exactly a whitespace tail: if `hash` does not end in
/// whitespace, `hash` plus any whitespace tail trims back to `hash`.
pub proof fn lemma_trim_of_ws_tail(hash: Seq<u8>, tail: Seq<u8>)
    requires
        hash.len() == 0 || !is_ws(hash[hash.len() - 1]),
        forall|i: int| 0 <= i < tail.len() ==> is_ws(tail[i]),
    ensures
        spec_trim_trailing(hash + tail) == hash,
    decreases tail.len(),
{
    if tail.len() == 0 {
        assert(hash + tail =~= hash);
        if hash.len() > 0 {
            assert(!is_ws((hash + tail)[(hash + tail).len() - 1]));
        }
    } else {
        let s = hash + tail;
        assert(is_ws(s[s.len() - 1]));
        assert(s.drop_last() =~= hash + tail.drop_last());
        lemma_trim_of_ws_tail(hash, tail.drop_last());
    }
}

/// A reference file holding a raw hash (with any trailing whitespace) derives
/// `HEAD:` followed by exactly `min(8, len(hash))` bytes of the hash.
pub proof fn lemma_detached_derives_short_hash(content: Seq<u8>, hash: Seq<u8>, tail: Seq<u8>)
    requires
        content == hash + tail,
        hash.len() == 0 || !is_ws(hash[hash.len() - 1]),
        forall|i: int| 0 <= i < tail.len() ==> is_ws(tail[i]),
        !is_symbolic_ref(hash),
    ensures
        spec_head_note_name(content) == spec_detached_prefix() + spec_short_hash(hash),
        spec_head_note_name(content).len() == 5 + if hash.len() <= 8 {
            hash.len() as int
        } else {
            8
        },
{
    lemma_trim_of_ws_tail(hash, tail);
}

} // verus!
