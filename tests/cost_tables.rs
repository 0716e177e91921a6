use std::collections::BTreeMap;

use sui_cost_tables::cost_table::{
    CostTable, INSTRUCTION_TIER_DEFAULT, STACK_HEIGHT_TIER_DEFAULT, STACK_SIZE_TIER_DEFAULT,
};
use sui_cost_tables::gas_cost::GasCost;
use sui_cost_tables::linear_equation::{LinearEquation, PricingError};
use sui_cost_tables::units::{Gas, GasQuantity, GasUnit, InternalGas, InternalGasUnit, UnitDiv};

fn tiers(entries: &[(u64, u64)]) -> BTreeMap<u64, u64> {
    let mut m = BTreeMap::new();
    for (k, v) in entries {
        m.insert(*k, *v);
    }
    m
}

fn table() -> CostTable {
    CostTable {
        instruction_tiers: tiers(&[(0, 1), (1000, 2), (10000, 4)]),
        stack_height_tiers: tiers(&[(10, 3), (20, 7)]),
        stack_size_tiers: BTreeMap::new(),
    }
}

fn equation(
    slope: u64,
    offset: u64,
    min: u64,
    max: u64,
) -> LinearEquation<InternalGasUnit, GasUnit> {
    LinearEquation::new(
        GasQuantity::<UnitDiv<InternalGasUnit, GasUnit>>::new(slope),
        GasQuantity::new(offset),
        GasQuantity::new(min),
        GasQuantity::new(max),
    )
}

#[test]
fn instruction_tier_scenario() {
    let t = table();
    assert_eq!(t.instruction_tier(500), (1, Some(1000)));
    assert_eq!(t.instruction_tier(1000), (2, Some(10000)));
    assert_eq!(t.instruction_tier(50000), (4, None));
}

#[test]
fn instruction_tier_boundaries() {
    let t = table();
    assert_eq!(t.instruction_tier(0), (1, Some(1000)));
    assert_eq!(t.instruction_tier(999), (1, Some(1000)));
    assert_eq!(t.instruction_tier(9999), (2, Some(10000)));
    assert_eq!(t.instruction_tier(10000), (4, None));
    assert_eq!(t.instruction_tier(u64::MAX), (4, None));
}

#[test]
fn stack_height_below_first_tier_uses_default() {
    let t = table();
    assert_eq!(t.stack_height_tier(0), (STACK_HEIGHT_TIER_DEFAULT, Some(10)));
    assert_eq!(t.stack_height_tier(9), (STACK_HEIGHT_TIER_DEFAULT, Some(10)));
    assert_eq!(t.stack_height_tier(10), (3, Some(20)));
    assert_eq!(t.stack_height_tier(15), (3, Some(20)));
    assert_eq!(t.stack_height_tier(25), (7, None));
}

#[test]
fn empty_tiers_fall_back_to_default() {
    let t = table();
    assert_eq!(t.stack_size_tier(0), (STACK_SIZE_TIER_DEFAULT, None));
    assert_eq!(t.stack_size_tier(123456), (STACK_SIZE_TIER_DEFAULT, None));
    assert_eq!(t.stack_size_tier(u64::MAX), (STACK_SIZE_TIER_DEFAULT, None));
    let empty = CostTable {
        instruction_tiers: BTreeMap::new(),
        stack_height_tiers: BTreeMap::new(),
        stack_size_tiers: BTreeMap::new(),
    };
    assert_eq!(empty.instruction_tier(7), (INSTRUCTION_TIER_DEFAULT, None));
    assert_eq!(empty.stack_height_tier(7), (STACK_HEIGHT_TIER_DEFAULT, None));
}

#[test]
fn single_tier_at_max_counter() {
    let t = CostTable {
        instruction_tiers: tiers(&[(u64::MAX, 9)]),
        stack_height_tiers: BTreeMap::new(),
        stack_size_tiers: tiers(&[(5, 6)]),
    };
    assert_eq!(t.instruction_tier(u64::MAX - 1), (INSTRUCTION_TIER_DEFAULT, Some(u64::MAX)));
    assert_eq!(t.instruction_tier(u64::MAX), (9, None));
    assert_eq!(t.stack_size_tier(4), (STACK_SIZE_TIER_DEFAULT, Some(5)));
    assert_eq!(t.stack_size_tier(5), (6, None));
}

#[test]
fn gas_cost_totals() {
    let c = GasCost::new(3, 5, 7);
    assert_eq!(c.instruction_gas, 3);
    assert_eq!(c.memory_gas, 5);
    assert_eq!(c.stack_height_gas, 7);
    assert_eq!(c.total(), 15);
    assert_eq!(c.total_internal().value(), 15);
    assert_eq!(GasCost::new(0, 0, 0).total(), 0);
    assert_eq!(GasCost::new(u64::MAX - 2, 1, 1).total(), u64::MAX);
}

#[test]
fn linear_equation_scenario() {
    let e = equation(5, 100, 0, 1000);
    assert_eq!(e.calculate(GasQuantity::new(50)).map(|q| q.value()), Ok(350));
    assert_eq!(
        e.calculate(GasQuantity::new(1000)).map(|q| q.value()),
        Err(PricingError::AboveMaximum { value: 5100, max: 1000 })
    );
}

#[test]
fn linear_equation_bounds_are_inclusive() {
    let e = equation(5, 100, 150, 1000);
    assert_eq!(e.calculate(GasQuantity::new(10)).map(|q| q.value()), Ok(150));
    assert_eq!(e.calculate(GasQuantity::new(180)).map(|q| q.value()), Ok(1000));
    assert_eq!(
        e.calculate(GasQuantity::new(9)).map(|q| q.value()),
        Err(PricingError::BelowMinimum { value: 145, min: 150 })
    );
    assert_eq!(
        e.calculate(GasQuantity::new(181)).map(|q| q.value()),
        Err(PricingError::AboveMaximum { value: 1005, max: 1000 })
    );
}

#[test]
fn linear_equation_rejects_overflow() {
    let e = equation(u64::MAX, 1, 0, u64::MAX);
    assert_eq!(
        e.calculate(GasQuantity::new(2)).map(|q| q.value()),
        Err(PricingError::AboveMaximum { value: u64::MAX, max: u64::MAX })
    );
    let exact = equation(u64::MAX - 1, 1, 0, u64::MAX);
    assert_eq!(exact.calculate(GasQuantity::new(1)).map(|q| q.value()), Ok(u64::MAX));
    let bounded = equation(u64::MAX, 1, 0, 10);
    assert_eq!(
        bounded.calculate(GasQuantity::new(2)).map(|q| q.value()),
        Err(PricingError::AboveMaximum { value: u64::MAX, max: 10 })
    );
}

#[test]
fn quantity_arithmetic() {
    let a = GasQuantity::<GasUnit>::new(40);
    let b = GasQuantity::<GasUnit>::new(2);
    assert_eq!(a.plus(&b).value(), 42);
    assert_eq!(GasQuantity::<GasUnit>::new(u64::MAX).plus(&b).value(), u64::MAX);
    let rate = GasQuantity::<UnitDiv<InternalGasUnit, GasUnit>>::new(7);
    let out: GasQuantity<InternalGasUnit> = rate.times(&b);
    assert_eq!(out.value(), 14);
    assert_eq!(rate.times(&GasQuantity::new(u64::MAX)).value(), u64::MAX);
}

#[test]
fn unit_conversions() {
    let g: Gas = GasQuantity::new(1234);
    let i: InternalGas = g.to_internal();
    assert_eq!(i.value(), 1234);
    let back: GasQuantity<GasUnit> = i.to_gas();
    assert_eq!(back.value(), 1234);
    assert_eq!(GasQuantity::<InternalGasUnit>::new(u64::MAX).to_gas().value(), u64::MAX);
}
