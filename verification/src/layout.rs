//! A size and an alignment, as `core::alloc::Layout` holds them.
use vstd::prelude::*;

verus! {

use vstd::arithmetic::div_mod::lemma_fundamental_div_mod_converse;
use vstd::arithmetic::power2::{
    lemma2_to64,
    lemma2_to64_rest,
    lemma_pow2_adds,
    lemma_pow2_pos,
    lemma_pow2_strictly_increases,
    lemma_pow2_unfold,
    pow2,
};

/// Whether `n` is a power of two.
pub open spec fn is_power_of_two(n: int) -> bool
    decreases n,
{
    if n <= 0 {
        false
    } else if n == 1 {
        true
    } else {
        n % 2 == 0 && is_power_of_two(n / 2)
    }
}

/// The conditions under which `Layout::from_size_align` accepts a pair.
pub open spec fn valid_layout(size: usize, align: usize) -> bool {
    &&& is_power_of_two(align as int)
    &&& size <= isize::MAX as int - (isize::MAX as int % align as int)
}

/// A memory request: how many bytes, at which alignment.
#[derive(Debug, Clone, Copy)]
pub struct AllocLayout {
    size: usize,
    align: usize,
}

impl AllocLayout {
    #[verifier::type_invariant]
    spec fn inv(self) -> bool {
        valid_layout(self.size, self.align)
    }

    pub closed spec fn spec_size(&self) -> usize {
        self.size
    }

    pub closed spec fn spec_align(&self) -> usize {
        self.align
    }

    /// The number of bytes requested.
    #[verifier::when_used_as_spec(spec_size)]
    pub fn size(&self) -> (r: usize)
        ensures
            r == self.spec_size(),
            valid_layout(self.spec_size(), self.spec_align()),
    {
        proof {
            use_type_invariant(self);
        }
        self.size
    }

    /// The alignment requested, a power of two.
    #[verifier::when_used_as_spec(spec_align)]
    pub fn align(&self) -> (r: usize)
        ensures
            r == self.spec_align(),
            valid_layout(self.spec_size(), self.spec_align()),
    {
        proof {
            use_type_invariant(self);
        }
        self.align
    }

    /// Builds a layout when `align` is a power of two and `size`, rounded up
    /// to `align`, does not exceed `isize::MAX`.
    pub fn from_size_align(size: usize, align: usize) -> (r: Option<AllocLayout>)
        ensures
            r is Some <==> valid_layout(size, align),
            r matches Some(l) ==> l.spec_size() == size && l.spec_align() == align,
    {
        if !is_pow2_exec(align) {
            return None;
        }
        let max: usize = isize::MAX as usize;
        assert(max % align <= max) by (nonlinear_arith)
            requires
                align > 0,
        ;
        if size > max - max % align {
            None
        } else {
            Some(AllocLayout { size, align })
        }
    }
}

/// Tests `n` for being a power of two by halving it while it is even.
fn is_pow2_exec(n: usize) -> (r: bool)
    ensures
        r == is_power_of_two(n as int),
{
    if n == 0 {
        return false;
    }
    let mut m: usize = n;
    while m > 1 && m % 2 == 0
        invariant
            m > 0,
            is_power_of_two(n as int) == is_power_of_two(m as int),
        decreases m,
    {
        m = m / 2;
    }
    m == 1
}

proof fn lemma_pow2_is_power_of_two(k: nat)
    ensures
        is_power_of_two(pow2(k) as int),
    decreases k,
{
    lemma2_to64();
    if k > 0 {
        lemma_pow2_unfold(k);
        lemma_pow2_pos((k - 1) as nat);
        lemma_pow2_is_power_of_two((k - 1) as nat);
        assert(pow2(k) as int / 2 == pow2((k - 1) as nat));
    }
}

proof fn lemma_power_of_two_is_pow2(n: int) -> (k: nat)
    requires
        is_power_of_two(n),
    ensures
        pow2(k) == n,
    decreases n,
{
    lemma2_to64();
    if n == 1 {
        0
    } else {
        let k = lemma_power_of_two_is_pow2(n / 2);
        lemma_pow2_unfold(k + 1);
        k + 1
    }
}

proof fn lemma_word_size()
    ensures
        pow2((usize::BITS - 1) as nat) == isize::MAX + 1,
        pow2(usize::BITS as nat) == usize::MAX + 1,
{
    lemma2_to64();
    lemma2_to64_rest();
    assert(usize::BITS == 32 || usize::BITS == 64);
}

/// `isize::MAX` is one less than a multiple of every power of two that fits
/// in a word.
proof fn lemma_isize_max_mod_pow2(k: nat)
    requires
        k < usize::BITS,
    ensures
        isize::MAX as int % (pow2(k) as int) == pow2(k) - 1,
{
    lemma_word_size();
    let top = (usize::BITS - 1) as nat;
    let m = pow2((top - k) as nat) as int;
    let p = pow2(k) as int;
    lemma_pow2_adds(k, (top - k) as nat);
    lemma_pow2_pos((top - k) as nat);
    lemma_pow2_pos(k);
    assert((m - 1) * p + (p - 1) == m * p - 1) by (nonlinear_arith);
    assert(p * m == m * p) by (nonlinear_arith);
    lemma_fundamental_div_mod_converse(isize::MAX as int, p, m - 1, p - 1);
}

/// Layouts are those of `core::alloc::Layout`: every power of two that fits
/// in a `usize` is an alignment, and a size goes with alignment `2^k` exactly
/// when size plus alignment is at most `isize::MAX + 1` (the size rounded up
/// to the alignment fits in an `isize`).
pub proof fn lemma_valid_layout_at_power_of_two(size: usize, k: nat)
    requires
        k < usize::BITS,
    ensures
        pow2(k) <= usize::MAX,
        valid_layout(size, pow2(k) as usize) <==> size + pow2(k) <= isize::MAX + 1,
{
    lemma_word_size();
    lemma_pow2_strictly_increases(k, usize::BITS as nat);
    lemma_pow2_is_power_of_two(k);
    lemma_isize_max_mod_pow2(k);
}

/// Nothing else is a layout: its alignment is a power of two that fits in a
/// `usize`, and its size plus its alignment is at most `isize::MAX + 1`.
pub proof fn lemma_valid_layout_needs_power_of_two(size: usize, align: usize)
    requires
        valid_layout(size, align),
    ensures
        exists|k: nat| k < usize::BITS && pow2(k) == align,
        size + align <= isize::MAX + 1,
{
    let k = lemma_power_of_two_is_pow2(align as int);
    lemma_word_size();
    if k >= usize::BITS {
        if k > usize::BITS {
            lemma_pow2_strictly_increases(usize::BITS as nat, k);
        }
        assert(false);
    }
    lemma_isize_max_mod_pow2(k);
}

} // verus!
