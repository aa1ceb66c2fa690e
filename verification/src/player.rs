use vstd::prelude::*;

verus! {

/// An opaque player identity: a fixed-width 256-bit token, held as two
/// 128-bit halves (in the hosting environment it is a public key).
/// The engine interprets no internal structure beyond equality.
#[derive(Clone, Copy, PartialEq, Eq, Structural, Debug)]
pub struct Player {
    pub hi: u128,
    pub lo: u128,
}

impl Player {
    /// Builds an identity token from its two 128-bit halves.
    pub fn new(hi: u128, lo: u128) -> (p: Player)
        ensures
            p.hi == hi,
            p.lo == lo,
    {
        Player { hi, lo }
    }
}

} // verus!
