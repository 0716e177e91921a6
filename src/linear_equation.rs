use crate::units::{saturate, GasQuantity, UnitDiv};
use vstd::prelude::*;

verus! {

/// Why a price fell outside its allowed range.
#[derive(Clone, Copy, Debug, PartialEq, Eq, Structural)]
pub enum PricingError {
    /// The computed value is below the minimum allowed.
    BelowMinimum { value: u64, min: u64 },
    /// The computed value is above the maximum allowed.
    AboveMaximum { value: u64, max: u64 },
}

/// `offset + slope * x`, exactly.
pub open spec fn linear_value(offset: u64, slope: u64, x: u64) -> int {
    offset + slope * x
}

/// What evaluating the equation with these parameters at `x` gives. An error
/// reports the computed value, or the largest `u64` where it does not fit.
pub open spec fn linear_outcome(offset: u64, slope: u64, min: u64, max: u64, x: u64) -> Result<
    u64,
    PricingError,
> {
    let y = linear_value(offset, slope, x);
    if y < min {
        Err(PricingError::BelowMinimum { value: y as u64, min })
    } else if y > max {
        Err(PricingError::AboveMaximum { value: saturate(y), max })
    } else {
        Ok(y as u64)
    }
}

/// The price `y = slope * x + offset` of an operation of size `x`, allowed
/// only within `[min, max]`. For example, the cost of publishing a package
/// may be a price per byte times the number of bytes, plus a base cost. The
/// slope is a rate: units of `YUnit` per unit of `XUnit`.
pub struct LinearEquation<YUnit, XUnit> {
    offset: GasQuantity<YUnit>,
    slope: GasQuantity<UnitDiv<YUnit, XUnit>>,
    min: GasQuantity<YUnit>,
    max: GasQuantity<YUnit>,
}

impl<YUnit, XUnit> LinearEquation<YUnit, XUnit> {
    pub closed spec fn spec_offset(&self) -> u64 {
        self.offset@
    }

    pub closed spec fn spec_slope(&self) -> u64 {
        self.slope@
    }

    pub closed spec fn spec_min(&self) -> u64 {
        self.min@
    }

    pub closed spec fn spec_max(&self) -> u64 {
        self.max@
    }

    pub fn new(
        slope: GasQuantity<UnitDiv<YUnit, XUnit>>,
        offset: GasQuantity<YUnit>,
        min: GasQuantity<YUnit>,
        max: GasQuantity<YUnit>,
    ) -> (r: Self)
        ensures
            r.spec_slope() == slope@,
            r.spec_offset() == offset@,
            r.spec_min() == min@,
            r.spec_max() == max@,
    {
        Self { offset, slope, min, max }
    }

    /// The price at `x`, or which bound it falls outside of.
    pub fn calculate(&self, x: GasQuantity<XUnit>) -> (r: Result<GasQuantity<YUnit>, PricingError>)
        ensures
            match r {
                Ok(y) => linear_outcome(
                    self.spec_offset(),
                    self.spec_slope(),
                    self.spec_min(),
                    self.spec_max(),
                    x@,
                ) == Ok::<u64, PricingError>(y@),
                Err(e) => linear_outcome(
                    self.spec_offset(),
                    self.spec_slope(),
                    self.spec_min(),
                    self.spec_max(),
                    x@,
                ) == Err::<u64, PricingError>(e),
            },
            r is Ok ==> r->Ok_0@ == self.spec_offset() + self.spec_slope() * x@,
    {
        let offset = self.offset.value();
        let slope = self.slope.value();
        let size = x.value();
        let min = self.min.value();
        let max = self.max.value();
        proof {
            assert(slope * size <= u64::MAX * u64::MAX) by (nonlinear_arith)
                requires
                    slope <= u64::MAX,
                    size <= u64::MAX,
            ;
        }
        // Exact in 128 bits: (2^64 - 1)^2 + 2^64 - 1 < 2^128.
        let y: u128 = offset as u128 + (slope as u128) * (size as u128);
        if y < min as u128 {
            Err(PricingError::BelowMinimum { value: y as u64, min })
        } else if y > max as u128 {
            let value: u64 = if y > u64::MAX as u128 {
                u64::MAX
            } else {
                y as u64
            };
            Err(PricingError::AboveMaximum { value, max })
        } else {
            Ok(GasQuantity::new(y as u64))
        }
    }
}

/// Where the minimum is at most the maximum, evaluation succeeds with exactly that value if and only if it
/// lies within the bounds, reports `BelowMinimum` if and only if it is below
/// the minimum, and `AboveMaximum` if and only if it is above the maximum.
pub proof fn lemma_linear_range(offset: u64, slope: u64, min: u64, max: u64, x: u64)
    requires
        min <= max,
    ensures
        ({
            let y = offset + slope * x;
            let r = linear_outcome(offset, slope, min, max, x);
            &&& (r == Ok::<u64, PricingError>(y as u64)) <==> (min <= y <= max)
            &&& (r is Err && r->Err_0 is BelowMinimum) <==> y < min
            &&& (r is Err && r->Err_0 is AboveMaximum) <==> y > max
        }),
{
    assert(0 <= slope * x) by (nonlinear_arith);
}

} // verus!
