//! Integer helpers shared by every launch-geometry computation.

use vstd::prelude::*;

verus! {

/// The number of blocks of `width` elements needed to hold `elements`.
pub open spec fn ceil_div(elements: int, width: int) -> int {
    if elements <= 0 {
        0
    } else {
        (elements - 1) / width + 1
    }
}

/// Whether `n` is one of 1, 2, 4, 8, ...
pub open spec fn power_of_two(n: nat) -> bool
    decreases n,
{
    if n <= 1 {
        n == 1
    } else {
        n % 2 == 0 && power_of_two(n / 2)
    }
}

/// Whether a mathematical count is representable as a `usize`.
pub open spec fn fits(n: int) -> bool {
    n <= usize::MAX
}

/// `ceil_div` is the least block count that covers every element: one block
/// fewer would leave an element out.
pub proof fn ceil_div_covers(elements: int, width: int)
    requires
        elements >= 0,
        width > 0,
    ensures
        0 <= ceil_div(elements, width) <= elements,
        elements <= ceil_div(elements, width) * width,
        elements > 0 ==> (ceil_div(elements, width) - 1) * width < elements,
        elements > 0 ==> ceil_div(elements, width) >= 1,
{
    if elements > 0 {
        let q = (elements - 1) / width;
        vstd::arithmetic::div_mod::lemma_fundamental_div_mod(elements - 1, width);
        vstd::arithmetic::div_mod::lemma_mod_bound(elements - 1, width);
        vstd::arithmetic::div_mod::lemma_div_pos_is_pos(elements - 1, width);
        vstd::arithmetic::div_mod::lemma_div_nonincreasing(elements - 1, width);
        assert((q + 1) * width == width * q + width) by (nonlinear_arith);
        assert((q + 1 - 1) * width == width * q) by (nonlinear_arith);
    } else {
        assert(0 * width == 0);
    }
}

/// Rounding up divides the larger of two counts into at least as many blocks.
pub proof fn ceil_div_monotone(fewer: int, more: int, width: int)
    requires
        0 <= fewer <= more,
        width > 0,
    ensures
        ceil_div(fewer, width) <= ceil_div(more, width),
{
    if fewer > 0 {
        vstd::arithmetic::div_mod::lemma_div_is_ordered(fewer - 1, more - 1, width);
    } else {
        ceil_div_covers(more, width);
    }
}

/// Blocks of at least two elements leave fewer partials than elements.
pub proof fn ceil_div_shrinks(elements: int, width: int)
    requires
        elements >= 1,
        width >= 2,
    ensures
        1 <= ceil_div(elements, width) <= elements,
        elements > 1 ==> ceil_div(elements, width) < elements,
{
    ceil_div_covers(elements, width);
    if elements > 1 {
        vstd::arithmetic::div_mod::lemma_div_decreases(elements - 1, width);
    }
}

/// Divides rounding up.
pub fn ceil_div_usize(elements: usize, width: usize) -> (blocks: usize)
    requires
        width > 0,
    ensures
        blocks == ceil_div(elements as int, width as int),
{
    proof {
        ceil_div_covers(elements as int, width as int);
    }
    if elements == 0 {
        0
    } else {
        (elements - 1) / width + 1
    }
}

/// Tests whether `n` is a power of two; zero is not.
pub fn is_power_of_two(n: u32) -> (answer: bool)
    ensures
        answer == power_of_two(n as nat),
{
    let mut rest: u32 = n;
    while rest > 1 && rest % 2 == 0
        invariant
            power_of_two(rest as nat) == power_of_two(n as nat),
        decreases rest,
    {
        rest = rest / 2;
    }
    rest == 1
}

/// Narrows a count to 32 bits where it fits.
pub fn to_u32(n: usize) -> (narrow: Option<u32>)
    ensures
        narrow == (if n <= u32::MAX { Some(n as u32) } else { None::<u32> }),
{
    if n <= u32::MAX as usize {
        Some(n as u32)
    } else {
        None
    }
}

/// `a * b * c` where the product of the first two and the whole both fit.
pub fn product3(a: usize, b: usize, c: usize) -> (product: Option<usize>)
    ensures
        product == (if fits(a * b) && fits(a * b * c) {
            Some((a * b * c) as usize)
        } else {
            None::<usize>
        }),
{
    match a.checked_mul(b) {
        None => None,
        Some(ab) => ab.checked_mul(c),
    }
}

} // verus!
