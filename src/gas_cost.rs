use crate::units::{GasQuantity, InternalGasUnit};
use vstd::prelude::*;

verus! {

/// The cost of one charge, in three parts:
/// - instruction cost: the time or computation the instruction takes
/// - memory cost: the memory it needs, and storage overhead
/// - stack height: how far it grows the stack, whatever the size in bytes
#[derive(Clone, Copy, Debug, PartialEq, Eq, Structural)]
pub struct GasCost {
    pub instruction_gas: u64,
    pub memory_gas: u64,
    pub stack_height_gas: u64,
}

impl GasCost {
    /// The sum of the three parts.
    pub open spec fn spec_total(&self) -> int {
        self.instruction_gas + self.memory_gas + self.stack_height_gas
    }

    pub fn new(instruction_gas: u64, memory_gas: u64, stack_height_gas: u64) -> (r: Self)
        ensures
            r.instruction_gas == instruction_gas,
            r.memory_gas == memory_gas,
            r.stack_height_gas == stack_height_gas,
    {
        Self { instruction_gas, memory_gas, stack_height_gas }
    }

    /// The total charge, as a plain count.
    pub fn total(&self) -> (r: u64)
        requires
            self.spec_total() <= u64::MAX,
        ensures
            r == self.spec_total(),
    {
        self.instruction_gas + self.memory_gas + self.stack_height_gas
    }

    /// The total charge, in internal units.
    pub fn total_internal(&self) -> (r: GasQuantity<InternalGasUnit>)
        requires
            self.spec_total() <= u64::MAX,
        ensures
            r@ == self.spec_total(),
    {
        GasQuantity::new(self.instruction_gas + self.memory_gas + self.stack_height_gas)
    }
}

/// A cost built from three parts totals their sum, both as a plain count and
/// in internal units.
pub proof fn lemma_gas_cost_total(a: u64, b: u64, c: u64)
    requires
        a + b + c <= u64::MAX,
    ensures
        ({
            let cost = GasCost { instruction_gas: a, memory_gas: b, stack_height_gas: c };
            cost.spec_total() == a + b + c
        }),
{
}

} // verus!
