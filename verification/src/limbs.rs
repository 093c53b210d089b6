//! Integers as strings of 64-bit limbs, least significant first.
use vstd::prelude::*;

verus! {

/// The integer whose base-2^64 digits are `limbs`, least significant first.
pub open spec fn limbs_value(limbs: Seq<u64>) -> nat
    decreases limbs.len(),
{
    if limbs.len() == 0 {
        0
    } else {
        limbs[0] as nat + 0x1_0000_0000_0000_0000 * limbs_value(limbs.skip(1))
    }
}

/// 2^64 to the power `len`: the number of strings of `len` limbs.
pub open spec fn limbs_bound(len: nat) -> nat
    decreases len,
{
    if len == 0 {
        1
    } else {
        0x1_0000_0000_0000_0000 * limbs_bound((len - 1) as nat)
    }
}

/// The `len` lowest base-2^64 digits of `n`, least significant first.
pub open spec fn limbs_of(n: nat, len: nat) -> Seq<u64>
    decreases len,
{
    if len == 0 {
        Seq::empty()
    } else {
        seq![(n % 0x1_0000_0000_0000_0000) as u64] + limbs_of(
            n / 0x1_0000_0000_0000_0000,
            (len - 1) as nat,
        )
    }
}

/// Every integer that fits in `len` limbs is spelled by its digits.
pub proof fn lemma_limbs_of(n: nat, len: nat)
    requires
        n < limbs_bound(len),
    ensures
        limbs_of(n, len).len() == len,
        limbs_value(limbs_of(n, len)) == n,
    decreases len,
{
    if len > 0 {
        let rest = limbs_of(n / 0x1_0000_0000_0000_0000, (len - 1) as nat);
        lemma_limbs_of(n / 0x1_0000_0000_0000_0000, (len - 1) as nat);
        assert(limbs_of(n, len).skip(1) =~= rest);
    }
}

/// Two limb strings of one length that spell the same integer are equal.
pub proof fn lemma_limbs_value_injective(a: Seq<u64>, b: Seq<u64>)
    requires
        a.len() == b.len(),
        limbs_value(a) == limbs_value(b),
    ensures
        a == b,
    decreases a.len(),
{
    if a.len() > 0 {
        let (ra, rb) = (limbs_value(a.skip(1)), limbs_value(b.skip(1)));
        assert(ra == rb && a[0] == b[0]) by {
            if ra < rb {
                assert(0x1_0000_0000_0000_0000 * rb >= 0x1_0000_0000_0000_0000 * ra
                    + 0x1_0000_0000_0000_0000);
            } else if rb < ra {
                assert(0x1_0000_0000_0000_0000 * ra >= 0x1_0000_0000_0000_0000 * rb
                    + 0x1_0000_0000_0000_0000);
            }
        }
        lemma_limbs_value_injective(a.skip(1), b.skip(1));
        assert(a =~= seq![a[0]] + a.skip(1));
        assert(b =~= seq![b[0]] + b.skip(1));
    } else {
        assert(a =~= b);
    }
}

/// Limb strings are ordered by their most significant limbs first: the
/// order of two integers is that of their higher parts, and that of their
/// lowest limbs where the higher parts are equal.
pub proof fn lemma_limbs_order(a: Seq<u64>, b: Seq<u64>)
    requires
        a.len() == b.len(),
        a.len() > 0,
    ensures
        limbs_value(a) < limbs_value(b) <==> limbs_value(a.skip(1)) < limbs_value(b.skip(1)) || (
        limbs_value(a.skip(1)) == limbs_value(b.skip(1)) && a[0] < b[0]),
        limbs_value(a) == limbs_value(b) <==> limbs_value(a.skip(1)) == limbs_value(b.skip(1))
            && a[0] == b[0],
{
    let (ra, rb) = (limbs_value(a.skip(1)), limbs_value(b.skip(1)));
    if ra < rb {
        assert(0x1_0000_0000_0000_0000 * rb >= 0x1_0000_0000_0000_0000 * ra
            + 0x1_0000_0000_0000_0000);
    } else if rb < ra {
        assert(0x1_0000_0000_0000_0000 * ra >= 0x1_0000_0000_0000_0000 * rb
            + 0x1_0000_0000_0000_0000);
    }
}

/// Whether the integer of `limbs` is below the integer of `bound`.
pub fn limbs_below(limbs: &[u64], bound: &[u64]) -> (below: bool)
    requires
        limbs@.len() == bound@.len(),
    ensures
        below == (limbs_value(limbs@) < limbs_value(bound@)),
{
    let mut below = false;
    let mut equal = true;
    let mut i: usize = limbs.len();
    proof {
        assert(limbs@.skip(i as int) =~= Seq::<u64>::empty());
        assert(bound@.skip(i as int) =~= Seq::<u64>::empty());
    }
    while i > 0
        invariant
            i <= limbs@.len(),
            limbs@.len() == bound@.len(),
            below == (limbs_value(limbs@.skip(i as int)) < limbs_value(bound@.skip(i as int))),
            equal == (limbs_value(limbs@.skip(i as int)) == limbs_value(bound@.skip(i as int))),
        decreases i,
    {
        i -= 1;
        proof {
            let (a, b) = (limbs@.skip(i as int), bound@.skip(i as int));
            assert(a.skip(1) =~= limbs@.skip(i + 1));
            assert(b.skip(1) =~= bound@.skip(i + 1));
            lemma_limbs_order(a, b);
        }
        below = below || (equal && limbs[i] < bound[i]);
        equal = equal && limbs[i] == bound[i];
    }
    proof {
        assert(limbs@.skip(0) =~= limbs@);
        assert(bound@.skip(0) =~= bound@);
    }
    below
}

} // verus!
