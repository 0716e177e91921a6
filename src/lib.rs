//! Resource metering for a bytecode virtual machine: tiered cost tables,
//! aggregated gas costs, and bounded linear pricing over unit-tagged quantities.

pub mod units;
pub mod cost_table;
pub mod gas_cost;
pub mod linear_equation;
