//! Integers as byte strings.
use vstd::prelude::*;
use vstd::arithmetic::div_mod::{lemma_add_mod_noop, lemma_mul_mod_noop_left, lemma_small_mod};

verus! {

/// The integer that `bytes` spell in base 256, most significant byte first.
/// The empty string spells 0.
pub open spec fn be_nat(bytes: Seq<u8>) -> nat
    decreases bytes.len(),
{
    if bytes.len() == 0 {
        0
    } else {
        be_nat(bytes.drop_last()) * 256 + bytes.last() as nat
    }
}

/// The `width` lowest base-256 digits of `value`, most significant first.
pub open spec fn be_bytes(value: nat, width: nat) -> Seq<u8>
    decreases width,
{
    if width == 0 {
        Seq::empty()
    } else {
        be_bytes(value / 256, (width - 1) as nat).push((value % 256) as u8)
    }
}

/// The `width` lowest base-256 digits of `value`, least significant first.
pub open spec fn le_bytes(value: nat, width: nat) -> Seq<u8>
    decreases width,
{
    if width == 0 {
        Seq::empty()
    } else {
        seq![(value % 256) as u8] + le_bytes(value / 256, (width - 1) as nat)
    }
}

/// 256 to the power `width`: the number of strings of `width` bytes.
pub open spec fn pow256(width: nat) -> nat
    decreases width,
{
    if width == 0 {
        1
    } else {
        256 * pow256((width - 1) as nat)
    }
}

/// The digits of a value fill the width asked for.
pub proof fn lemma_be_bytes_len(value: nat, width: nat)
    ensures
        be_bytes(value, width).len() == width,
    decreases width,
{
    if width > 0 {
        lemma_be_bytes_len(value / 256, (width - 1) as nat);
    }
}

/// Two values that fit in `width` bytes and have the same digits are equal.
pub proof fn lemma_be_bytes_injective(a: nat, b: nat, width: nat)
    requires
        a < pow256(width),
        b < pow256(width),
        be_bytes(a, width) == be_bytes(b, width),
    ensures
        a == b,
    decreases width,
{
    if width > 0 {
        let rest = (width - 1) as nat;
        let (da, db) = (be_bytes(a / 256, rest), be_bytes(b / 256, rest));
        assert(da.push((a % 256) as u8).last() == db.push((b % 256) as u8).last());
        assert(da =~= da.push((a % 256) as u8).drop_last());
        assert(db =~= db.push((b % 256) as u8).drop_last());
        lemma_be_bytes_injective(a / 256, b / 256, rest);
    }
}

/// Reading one more byte multiplies by 256 and adds the byte, also modulo `m`.
pub proof fn lemma_be_nat_step_mod(bytes: Seq<u8>, m: int)
    requires
        bytes.len() > 0,
        m > 0,
    ensures
        be_nat(bytes) % (m as nat) == ((be_nat(bytes.drop_last()) % (m as nat)) * 256
            + bytes.last() as nat) % (m as nat),
{
    let head = be_nat(bytes.drop_last()) as int;
    let last = bytes.last() as int;
    lemma_mul_mod_noop_left(head, 256, m);
    lemma_add_mod_noop(head * 256, last, m);
    lemma_add_mod_noop((head % m) * 256, last, m);
}

/// Reduces the integer that `bytes` spell, most significant byte first,
/// modulo `modulus`.
pub fn reduce_be_bytes(bytes: &[u8], modulus: u64) -> (r: u64)
    requires
        0 < modulus <= 0x00ff_ffff_ffff_ffff,
    ensures
        r == be_nat(bytes@) % (modulus as nat),
{
    let mut acc: u64 = 0;
    let mut i: usize = 0;
    proof {
        assert(bytes@.take(0) =~= Seq::<u8>::empty());
        lemma_small_mod(0, modulus as nat);
    }
    while i < bytes.len()
        invariant
            0 < modulus <= 0x00ff_ffff_ffff_ffff,
            i <= bytes.len(),
            acc == be_nat(bytes@.take(i as int)) % (modulus as nat),
        decreases bytes.len() - i,
    {
        proof {
            let next = bytes@.take(i + 1);
            assert(next.drop_last() =~= bytes@.take(i as int));
            assert(next.last() == bytes@[i as int]);
            lemma_be_nat_step_mod(next, modulus as int);
        }
        acc = (acc * 256 + bytes[i] as u64) % modulus;
        i += 1;
    }
    proof {
        assert(bytes@.take(i as int) =~= bytes@);
    }
    acc
}

/// Writes `value` as 8 bytes, most significant first.
pub fn u64_to_be_bytes(value: u64) -> (out: Vec<u8>)
    ensures
        out@ == be_bytes(value as nat, 8),
{
    let mut digits: [u8; 8] = [0; 8];
    let mut rest: u64 = value;
    let mut i: usize = 8;
    while i > 0
        invariant
            i <= 8,
            be_bytes(value as nat, 8) == be_bytes(rest as nat, i as nat) + digits@.skip(i as int),
        decreases i,
    {
        i -= 1;
        digits[i] = (rest % 256) as u8;
        proof {
            assert(digits@.skip(i as int) =~= seq![(rest % 256) as u8] + digits@.skip(i + 1));
            assert(be_bytes(rest as nat, (i + 1) as nat) + digits@.skip(i + 1) =~= be_bytes(
                (rest / 256) as nat,
                i as nat,
            ) + digits@.skip(i as int));
        }
        rest = rest / 256;
    }
    let mut out: Vec<u8> = Vec::new();
    out.extend_from_slice(digits.as_slice());
    assert(out@ =~= be_bytes(value as nat, 8));
    out
}

} // verus!
