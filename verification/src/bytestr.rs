//! Byte-string helpers shared by the resolvers.
//!
//! Paths and names are handled as byte strings (`Vec<u8>`); the surrounding
//! application converts to and from the platform's path types at the edge.

use vstd::prelude::*;

verus! {

/// The path separator.
pub const SLASH: u8 = 47;

/// Bytes treated as trailing whitespace when a reference file is read.
pub open spec fn is_ws(b: u8) -> bool {
    b == 32 || b == 9 || b == 13 || b == 10
}

fn is_ws_byte(b: u8) -> (r: bool)
    ensures
        r == is_ws(b),
{
    b == 32 || b == 9 || b == 13 || b == 10
}

/// `s` with every trailing whitespace byte removed.
pub open spec fn spec_trim_trailing(s: Seq<u8>) -> Seq<u8>
    decreases s.len(),
{
    if s.len() > 0 && is_ws(s[s.len() - 1]) {
        spec_trim_trailing(s.drop_last())
    } else {
        s
    }
}

/// Copy of `s[lo..hi]`.
pub(crate) fn copy_range(s: &Vec<u8>, lo: usize, hi: usize) -> (r: Vec<u8>)
    requires
        lo <= hi <= s@.len(),
    ensures
        r@ == s@.subrange(lo as int, hi as int),
{
    let mut r: Vec<u8> = Vec::new();
    let mut i: usize = lo;
    while i < hi
        invariant
            lo <= i <= hi <= s@.len(),
            r@ == s@.subrange(lo as int, i as int),
        decreases hi - i,
    {
        r.push(s[i]);
        proof {
            assert(s@.subrange(lo as int, i + 1 as int) =~= s@.subrange(lo as int, i as int).push(
                s@[i as int],
            ));
        }
        i = i + 1;
    }
    r
}

/// Remove trailing whitespace bytes (space, tab, carriage return, newline).
pub fn trim_trailing_ws(s: &Vec<u8>) -> (r: Vec<u8>)
    ensures
        r@ == spec_trim_trailing(s@),
{
    let mut end: usize = s.len();
    proof {
        assert(s@.subrange(0, end as int) =~= s@);
    }
    while end > 0 && is_ws_byte(s[end - 1])
        invariant
            end <= s@.len(),
            spec_trim_trailing(s@.subrange(0, end as int)) == spec_trim_trailing(s@),
        decreases end,
    {
        proof {
            let t = s@.subrange(0, end as int);
            assert(t.drop_last() =~= s@.subrange(0, end - 1 as int));
        }
        end = end - 1;
    }
    copy_range(s, 0, end)
}

/// Whether `p` is a prefix of `s`.
pub fn starts_with(s: &Vec<u8>, p: &Vec<u8>) -> (r: bool)
    ensures
        r == p@.is_prefix_of(s@),
{
    if p.len() > s.len() {
        return false;
    }
    let mut i: usize = 0;
    while i < p.len()
        invariant
            i <= p@.len() <= s@.len(),
            forall|j: int| 0 <= j < i ==> s@[j] == p@[j],
        decreases p@.len() - i,
    {
        if s[i] != p[i] {
            return false;
        }
        i = i + 1;
    }
    proof {
        assert(s@.subrange(0, p@.len() as int) =~= p@);
    }
    true
}

/// `a` then a separator then `b`.
pub open spec fn spec_join(a: Seq<u8>, b: Seq<u8>) -> Seq<u8> {
    a + seq![SLASH] + b
}

/// Append `src` onto `dst`.
pub fn append_bytes(dst: &mut Vec<u8>, src: &Vec<u8>)
    ensures
        final(dst)@ == old(dst)@ + src@,
{
    let mut i: usize = 0;
    while i < src.len()
        invariant
            i <= src@.len(),
            dst@ == old(dst)@ + src@.subrange(0, i as int),
        decreases src@.len() - i,
    {
        dst.push(src[i]);
        proof {
            assert(old(dst)@ + src@.subrange(0, i + 1 as int) =~= (old(dst)@ + src@.subrange(
                0,
                i as int,
            )).push(src@[i as int]));
        }
        i = i + 1;
    }
    proof {
        assert(src@.subrange(0, src@.len() as int) =~= src@);
    }
}

/// Join two path fragments with a separator.
pub fn join_path(a: &Vec<u8>, b: &Vec<u8>) -> (r: Vec<u8>)
    ensures
        r@ == spec_join(a@, b@),
{
    let mut r = copy_range(a, 0, a.len());
    proof {
        assert(a@.subrange(0, a@.len() as int) =~= a@);
    }
    r.push(SLASH);
    proof {
        assert(a@.push(SLASH) =~= a@ + seq![SLASH]);
    }
    append_bytes(&mut r, b);
    r
}

/// Index of the byte after the last separator in `s` (0 if none).
pub open spec fn spec_stem_start(s: Seq<u8>) -> int
    decreases s.len(),
{
    if s.len() == 0 {
        0
    } else if s[s.len() - 1] == SLASH {
        s.len() as int
    } else {
        spec_stem_start(s.drop_last())
    }
}

proof fn lemma_stem_start_bounds(s: Seq<u8>)
    ensures
        0 <= spec_stem_start(s) <= s.len(),
    decreases s.len(),
{
    if s.len() > 0 && s[s.len() - 1] != SLASH {
        lemma_stem_start_bounds(s.drop_last());
    }
}

/// The component of `s` after its last separator (`s` itself if none).
pub open spec fn spec_basename(s: Seq<u8>) -> Seq<u8> {
    s.subrange(spec_stem_start(s), s.len() as int)
}

/// The final path component: everything after the last separator.
pub fn basename(s: &Vec<u8>) -> (r: Vec<u8>)
    ensures
        r@ == spec_basename(s@),
{
    let mut cut: usize = s.len();
    proof {
        assert(s@.subrange(0, cut as int) =~= s@);
    }
    while cut > 0 && s[cut - 1] != SLASH
        invariant
            cut <= s@.len(),
            spec_stem_start(s@.subrange(0, cut as int)) == spec_stem_start(s@),
        decreases cut,
    {
        proof {
            let t = s@.subrange(0, cut as int);
            assert(t.drop_last() =~= s@.subrange(0, cut - 1 as int));
        }
        cut = cut - 1;
    }
    proof {
        lemma_stem_start_bounds(s@);
        if cut > 0 {
            assert(s@.subrange(0, cut as int)[cut - 1] == SLASH);
        }
    }
    copy_range(s, cut, s.len())
}

} // verus!
