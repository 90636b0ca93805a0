//! Why a weaker alignment comes for free: alignments are powers of two, and
//! of two powers of two the smaller divides the larger.

use vstd::prelude::*;
use vstd::arithmetic::div_mod::lemma_mod_mod;
use vstd::arithmetic::power2::is_pow2;

verus! {

/// Of two powers of two, the smaller divides the larger.
pub proof fn lemma_pow2_divides(small: int, big: int)
    requires
        is_pow2(small),
        is_pow2(big),
        small <= big,
    ensures
        big % small == 0,
    decreases small,
{
    reveal(is_pow2);
    if small > 1 {
        lemma_pow2_divides(small / 2, big / 2);
        let k = (big / 2) / (small / 2);
        assert(big / 2 == (small / 2) * k) by (nonlinear_arith)
            requires
                (big / 2) % (small / 2) == 0,
                k == (big / 2) / (small / 2),
                small / 2 > 0,
        ;
        assert(big == small * k) by (nonlinear_arith)
            requires
                big / 2 == (small / 2) * k,
                big == 2 * (big / 2),
                small == 2 * (small / 2),
        ;
        assert(big % small == 0) by (nonlinear_arith)
            requires
                big == small * k,
                small > 0,
        ;
    }
}

/// An address that is a multiple of a power of two is a multiple of every
/// smaller power of two.
pub proof fn lemma_aligned_for_weaker(addr: int, strict: int, weak: int)
    requires
        is_pow2(strict),
        is_pow2(weak),
        weak <= strict,
        addr % strict == 0,
    ensures
        addr % weak == 0,
{
    reveal(is_pow2);
    lemma_pow2_divides(weak, strict);
    let k = strict / weak;
    assert(strict == weak * k && k > 0) by (nonlinear_arith)
        requires
            strict % weak == 0,
            k == strict / weak,
            weak > 0,
            strict > 0,
    ;
    lemma_mod_mod(addr, weak, k);
}

} // verus!
