use vstd::prelude::*;

verus! {

/// An exact non-negative rational number `num / den`.
#[derive(Debug, Clone, Copy, PartialEq, Eq, Structural)]
pub struct Ratio {
    pub num: u128,
    pub den: u128,
}

} // verus!
