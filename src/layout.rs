//! Where each link lives: links are numbered, and link `i` sits in one chunk
//! of a table whose chunks double in length. Also the word that names the top
//! of the list of free links, with a counter that tells its versions apart.

use vstd::prelude::*;
use vstd::arithmetic::power2::{
    pow2,
    lemma2_to64,
    lemma_pow2_pos,
    lemma_pow2_unfold,
    lemma_pow2_strictly_increases,
};

verus! {

/// The number of links in the first chunk.
pub const FIRST_CHUNK: usize = 32;

/// The number of chunks in the table.
pub const CHUNKS: usize = 27;

/// The number that no link has: it stands for "no link" in the head, in a
/// link's forward reference and in the free list. Every link number is below it.
pub const NIL: usize = 4294967264;

/// The number of links in chunk `k`.
pub open spec fn chunk_len(k: nat) -> nat {
    32 * pow2(k)
}

/// The number of the first link of chunk `k`.
pub open spec fn chunk_start(k: nat) -> nat {
    (32 * pow2(k) - 32) as nat
}

/// The chunk that holds link `i`, and its place in that chunk.
pub open spec fn is_location(i: nat, k: nat, offset: nat) -> bool {
    &&& k < CHUNKS
    &&& chunk_start(k) <= i < chunk_start(k) + chunk_len(k)
    &&& offset == i - chunk_start(k)
}

/// A link has one location only.
pub proof fn lemma_location_unique(i: nat, k1: nat, o1: nat, k2: nat, o2: nat)
    requires
        is_location(i, k1, o1),
        is_location(i, k2, o2),
    ensures
        k1 == k2,
        o1 == o2,
{
    if k1 < k2 {
        lemma_pow2_unfold(k1 + 1);
        if k1 + 1 < k2 {
            lemma_pow2_strictly_increases(k1 + 1, k2);
        }
    } else if k2 < k1 {
        lemma_pow2_unfold(k2 + 1);
        if k2 + 1 < k1 {
            lemma_pow2_strictly_increases(k2 + 1, k1);
        }
    }
}

/// Finds the chunk of link `i` and its place there.
pub fn locate(i: usize) -> (r: (usize, usize))
    requires
        i < NIL,
    ensures
        is_location(i as nat, r.0 as nat, r.1 as nat),
        forall|k: nat, offset: nat| #[trigger] is_location(i as nat, k, offset) ==> k == r.0
            && offset == r.1,
{
    let mut k: usize = 0;
    let mut start: u64 = 0;
    let mut len: u64 = 32;
    proof {
        lemma2_to64();
    }
    while (i as u64) >= start + len
        invariant
            k < CHUNKS,
            len == chunk_len(k as nat),
            start == chunk_start(k as nat),
            start <= i < NIL,
            len <= 2147483648,
        decreases i - start,
    {
        proof {
            lemma_pow2_unfold(k as nat + 1);
            lemma_pow2_pos(k as nat);
            lemma2_to64();
            if k + 1 < CHUNKS - 1 {
                lemma_pow2_strictly_increases(k as nat + 1, (CHUNKS - 1) as nat);
            }
        }
        start = start + len;
        len = len * 2;
        k = k + 1;
    }
    proof {
        lemma_pow2_pos(k as nat);
        assert forall|k2: nat, o2: nat| #[trigger] is_location(i as nat, k2, o2) implies k2 == k
            && o2 == i - start by {
            lemma_location_unique(i as nat, k as nat, (i - start) as nat, k2, o2);
        }
    }
    (k, (i as u64 - start) as usize)
}

/// The length of chunk `k`.
pub fn chunk_length(k: usize) -> (r: usize)
    requires
        k < CHUNKS,
    ensures
        r == chunk_len(k as nat),
{
    let mut n: usize = 32;
    let mut j: usize = 0;
    proof {
        lemma2_to64();
    }
    while j < k
        invariant
            j <= k < CHUNKS,
            n == chunk_len(j as nat),
        decreases k - j,
    {
        proof {
            lemma_pow2_unfold(j as nat + 1);
            if j + 1 < CHUNKS - 1 {
                lemma_pow2_strictly_increases(j as nat + 1, (CHUNKS - 1) as nat);
            }
            lemma2_to64();
        }
        n = n * 2;
        j = j + 1;
    }
    n
}

/// The value of the word that says: the top free link is `index`, and the list
/// is at version `tag`.
pub open spec fn free_word(index: nat, tag: nat) -> nat {
    tag * 4294967296 + index
}

/// Builds the word of `free_word`.
pub fn pack_free(index: usize, tag: u32) -> (r: u64)
    requires
        index <= NIL,
    ensures
        r == free_word(index as nat, tag as nat),
{
    assert(tag as int * 4294967296 + index <= 0xffff_ffff_ffff_ffff) by (nonlinear_arith)
        requires
            tag <= 0xffff_ffff,
            index <= NIL,
    ;
    tag as u64 * 4294967296 + index as u64
}

/// The link number that a word names.
pub fn free_index(w: u64) -> (r: usize)
    ensures
        r == w % 4294967296,
{
    (w % 4294967296) as usize
}

/// The version that a word names.
pub fn free_tag(w: u64) -> (r: u32)
    ensures
        r == w / 4294967296,
{
    (w / 4294967296) as u32
}

/// The next version: versions count up and wrap around.
pub fn next_tag(t: u32) -> (r: u32)
    ensures
        r == (t as int + 1) % 4294967296,
{
    if t == 0xffff_ffff {
        0
    } else {
        t + 1
    }
}

/// A word read back gives the link number and the version it was built from.
pub proof fn lemma_free_word_round_trip(i: nat, t: nat)
    requires
        i < 4294967296,
        t < 4294967296,
    ensures
        free_word(i, t) % 4294967296 == i,
        free_word(i, t) / 4294967296 == t,
{
    assert(free_word(i, t) % 4294967296 == i && free_word(i, t) / 4294967296 == t) by (nonlinear_arith)
        requires
            i < 4294967296,
            free_word(i, t) == t * 4294967296 + i,
    ;
}

} // verus!
