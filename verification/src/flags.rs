use vstd::prelude::*;

verus! {

/// Number of one bits in the binary form of `x`.
pub open spec fn ones(x: nat) -> nat
    decreases x,
{
    if x == 0 {
        0
    } else {
        x % 2 + ones(x / 2)
    }
}

/// Even parity: the byte holds an even number of one bits.
pub open spec fn even_parity(x: u8) -> bool {
    ones(x as nat) % 2 == 0
}

/// A number has no more one bits than its value.
pub proof fn lemma_ones_bounded(x: nat)
    ensures
        ones(x) <= x,
    decreases x,
{
    if x > 0 {
        lemma_ones_bounded(x / 2);
    }
}

/// The condition flags of the processor.
#[derive(Clone, Copy, Debug, PartialEq, Eq, Structural)]
pub struct Flags {
    /// zero
    pub z: bool,
    /// sign
    pub s: bool,
    /// parity (set when the result has an even number of one bits)
    pub p: bool,
    /// carry
    pub cy: bool,
    /// auxiliary carry (carry out of the low four bits)
    pub ac: bool,
}

impl Flags {
    /// All flags cleared.
    pub open spec fn cleared() -> Flags {
        Flags { z: false, s: false, p: false, cy: false, ac: false }
    }

    /// Creates a flag set with every flag cleared.
    pub fn new() -> (f: Flags)
        ensures
            f == Flags::cleared(),
    {
        Flags { z: false, s: false, p: false, cy: false, ac: false }
    }
}

} // verus!
