use vstd::prelude::*;

verus! {

/// The two kinds of market a position can be in.
#[derive(Clone, Copy, Debug, PartialEq, Eq, Structural)]
pub enum MarketType {
    Spot,
    Perp,
}

/// The tier of requirement that a margin calculation applies.
#[derive(Clone, Copy, Debug, PartialEq, Eq, Structural)]
pub enum MarginRequirementType {
    Initial,
    Fill,
    Maintenance,
}

/// Whether two market identifiers name the same market.
pub fn same_market(a: (MarketType, u16), b: (MarketType, u16)) -> (r: bool)
    ensures
        r == (a == b),
{
    a.0 == b.0 && a.1 == b.1
}

} // verus!
