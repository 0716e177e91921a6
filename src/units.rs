use std::marker::PhantomData;
use vstd::prelude::*;

verus! {

/// The external gas unit that users are charged in. Only the type is used,
/// as a tag on quantities.
#[derive(Clone, Copy, Debug, PartialEq, Eq)]
pub enum GasUnit {
    Gas,
}

/// The fine-grained unit the metering engine accounts in. Only the type is
/// used, as a tag on quantities.
#[derive(Clone, Copy, Debug, PartialEq, Eq)]
pub enum InternalGasUnit {
    InternalGas,
}

/// An amount of gas units.
pub type Gas = GasQuantity<GasUnit>;

/// An amount of internal units.
pub type InternalGas = GasQuantity<InternalGasUnit>;

/// How many internal units make one gas unit.
pub const GAS_TO_INTERNAL_MULTIPLIER: u64 = 1;

/// Internal units convert to gas units by multiplying by this numerator...
pub const INTERNAL_TO_GAS_NUMERATOR: u64 = 1;

/// ...and dividing by this denominator, rounding down.
pub const INTERNAL_TO_GAS_DENOMINATOR: u64 = 1;

/// `v`, or the largest `u64` where `v` does not fit.
pub open spec fn saturate(v: int) -> u64 {
    if v > u64::MAX {
        u64::MAX
    } else if v < 0 {
        0
    } else {
        v as u64
    }
}

/// The internal-unit amount of `v` gas units.
pub open spec fn gas_to_internal(v: u64) -> u64 {
    saturate(v * GAS_TO_INTERNAL_MULTIPLIER)
}

/// The gas-unit amount of `v` internal units, rounded down.
pub open spec fn internal_to_gas(v: u64) -> u64 {
    saturate((v * INTERNAL_TO_GAS_NUMERATOR) as int / INTERNAL_TO_GAS_DENOMINATOR as int)
}

/// The unit of a ratio: `U1` per `U2`.
pub struct UnitDiv<U1, U2> {
    marker: PhantomData<(U1, U2)>,
}

/// A non-negative quantity measured in the unit `U`.
#[derive(Debug, PartialEq, Eq)]
pub struct GasQuantity<U> {
    val: u64,
    unit: PhantomData<U>,
}

impl<U> View for GasQuantity<U> {
    type V = u64;

    closed spec fn view(&self) -> u64 {
        self.val
    }
}

impl<U1, U2> GasQuantity<UnitDiv<U1, U2>> {
    /// A rate of `U1` per `U2` applied to an amount of `U2` gives an amount of
    /// `U1`, saturating at the largest `u64`.
    pub fn times(&self, x: &GasQuantity<U2>) -> (r: GasQuantity<U1>)
        ensures
            r@ == saturate(self@ * x@),
    {
        match self.val.checked_mul(x.val) {
            Some(v) => GasQuantity::new(v),
            None => GasQuantity::new(u64::MAX),
        }
    }
}

impl GasQuantity<GasUnit> {
    /// The same amount in internal units.
    pub fn to_internal(&self) -> (r: GasQuantity<InternalGasUnit>)
        ensures
            r@ == gas_to_internal(self@),
    {
        match self.val.checked_mul(GAS_TO_INTERNAL_MULTIPLIER) {
            Some(v) => GasQuantity::new(v),
            None => GasQuantity::new(u64::MAX),
        }
    }
}

impl GasQuantity<InternalGasUnit> {
    /// The same amount in gas units, rounded down.
    pub fn to_gas(&self) -> (r: GasQuantity<GasUnit>)
        ensures
            r@ == internal_to_gas(self@),
    {
        let scaled: u128 = (self.val as u128) * (INTERNAL_TO_GAS_NUMERATOR as u128);
        let v: u128 = scaled / (INTERNAL_TO_GAS_DENOMINATOR as u128);
        if v > u64::MAX as u128 {
            GasQuantity::new(u64::MAX)
        } else {
            GasQuantity::new(v as u64)
        }
    }
}

/// Converting gas units to internal units and back gives the amount started
/// with.
pub proof fn lemma_gas_round_trip(v: u64)
    ensures
        internal_to_gas(gas_to_internal(v)) == v,
{
}

/// Converting internal units to gas units loses nothing where the ratio
/// divides evenly, and otherwise drops the remainder.
pub proof fn lemma_internal_to_gas_exact(v: u64)
    requires
        v * INTERNAL_TO_GAS_NUMERATOR <= u64::MAX,
    ensures
        internal_to_gas(v) * INTERNAL_TO_GAS_DENOMINATOR + (v * INTERNAL_TO_GAS_NUMERATOR)
            % (INTERNAL_TO_GAS_DENOMINATOR as int) == v * INTERNAL_TO_GAS_NUMERATOR,
        (v * INTERNAL_TO_GAS_NUMERATOR) % (INTERNAL_TO_GAS_DENOMINATOR as int) == 0
            ==> internal_to_gas(v) * INTERNAL_TO_GAS_DENOMINATOR == v * INTERNAL_TO_GAS_NUMERATOR,
{
}

impl<U> Clone for GasQuantity<U> {
    fn clone(&self) -> (r: Self)
        ensures
            r@ == self@,
    {
        GasQuantity { val: self.val, unit: PhantomData }
    }
}

impl<U> Copy for GasQuantity<U> {

}

impl<U> GasQuantity<U> {
    pub fn new(val: u64) -> (r: Self)
        ensures
            r@ == val,
    {
        GasQuantity { val, unit: PhantomData }
    }

    pub fn value(&self) -> (r: u64)
        ensures
            r == self@,
    {
        self.val
    }

    /// The sum of two quantities of one unit, saturating at the largest `u64`.
    pub fn plus(&self, other: &Self) -> (r: Self)
        ensures
            r@ == saturate(self@ + other@),
    {
        GasQuantity::new(self.val.saturating_add(other.val))
    }
}

} // verus!
