//! The field-hash dispatch convention.
//!
//! Tag names are identified by a stable 64-bit hash computed once, when a
//! template is compiled, and carried beside the literal name.  Adapters that
//! dispatch on the hash must fall back to a literal-name comparison, so the
//! hash is an optimisation and never a source of truth.

use vstd::prelude::*;

verus! {

/// The offset basis of the 64-bit FNV-1a hash.
pub const FNV_OFFSET: u64 = 0xcbf29ce484222325;

/// The prime of the 64-bit FNV-1a hash.
pub const FNV_PRIME: u64 = 0x100000001b3;

/// One FNV-1a round: fold a character into the running hash.
pub open spec fn fh_step(h: u64, c: char) -> u64 {
    ((((h ^ (c as u64)) as int) * (FNV_PRIME as int)) % 0x1_0000_0000_0000_0000) as u64
}

/// The stable hash of a field name: FNV-1a over the name's characters.
pub open spec fn fh(s: Seq<char>) -> u64
    decreases s,
{
    if s.len() == 0 {
        FNV_OFFSET
    } else {
        fh_step(fh(s.drop_last()), s.last())
    }
}

/// Computes the stable 64-bit hash of a field name, `fh(name@)`.
///
/// Meant to run once per tag at template-compile time; `Node`'s constructors
/// call it so every compiled tag carries its precomputed identifier.
pub fn field_hash(name: &str) -> (h: u64)
    ensures
        h == fh(name@),
{
    let len: usize = name.unicode_len();
    let mut h: u64 = FNV_OFFSET;
    let mut i: usize = 0;
    while i < len
        invariant
            0 <= i <= len,
            len == name@.len(),
            h == fh(name@.take(i as int)),
        decreases len - i,
    {
        let c = name.get_char(i);
        let x: u64 = h ^ (c as u64);
        let p: u128 = (x as u128) * (FNV_PRIME as u128);
        h = (p % 0x1_0000_0000_0000_0000u128) as u64;
        proof {
            assert(name@.take(i + 1).drop_last() =~= name@.take(i as int));
            assert(name@.take(i + 1).last() == name@[i as int]);
        }
        i = i + 1;
    }
    proof {
        assert(name@.take(len as int) =~= name@);
    }
    h
}

} // verus!
