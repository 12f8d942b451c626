//! A small body to export.
use vstd::prelude::*;

verus! {

/// The sum of the first `n` positive integers.
pub open spec fn sum_to(n: nat) -> nat
    decreases n,
{
    if n == 0 {
        0
    } else {
        n + sum_to((n - 1) as nat)
    }
}

/// One more than the sum of the integers from 1 to 9.
pub fn test() -> (r: u8)
    ensures
        r == sum_to(9) + 1,
        r == 46,
{
    let mut acc: u8 = 0;
    let mut i: u8 = 1;
    while i < 10
        invariant
            1 <= i <= 10,
            acc == sum_to((i - 1) as nat),
            acc <= 45,
        decreases 10 - i,
    {
        proof {
            reveal_with_fuel(sum_to, 11);
        }
        acc = acc + i;
        i += 1;
    }
    proof {
        reveal_with_fuel(sum_to, 11);
    }
    acc + 1
}

} // verus!
