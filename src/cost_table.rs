use std::collections::BTreeMap;
use std::ops::Bound;
use vstd::prelude::*;

verus! {

/// Cost per instruction below the lowest instruction tier.
pub const INSTRUCTION_TIER_DEFAULT: u64 = 1;

/// Cost per unit of stack height below the lowest stack-height tier.
pub const STACK_HEIGHT_TIER_DEFAULT: u64 = 1;

/// Cost per unit of stack size below the lowest stack-size tier.
pub const STACK_SIZE_TIER_DEFAULT: u64 = 1;

/// `k` is the greatest key of `m` that is at most `c`.
pub open spec fn is_floor_key(m: Map<u64, u64>, c: u64, k: u64) -> bool {
    &&& m.contains_key(k)
    &&& k <= c
    &&& forall|j: u64| #[trigger] m.contains_key(j) && j <= c ==> j <= k
}

/// `n` is the least key of `m` that is greater than `c`.
pub open spec fn is_next_key(m: Map<u64, u64>, c: u64, n: u64) -> bool {
    &&& m.contains_key(n)
    &&& c < n
    &&& forall|j: u64| #[trigger] m.contains_key(j) && c < j ==> n <= j
}

/// The cost per unit at counter `c`: the value of the greatest key at most
/// `c`, or `default` where every key lies above `c`.
pub open spec fn tier_cost(m: Map<u64, u64>, c: u64, default: u64) -> u64 {
    if exists|k: u64| is_floor_key(m, c, k) {
        m[choose|k: u64| is_floor_key(m, c, k)]
    } else {
        default
    }
}

/// Where the tier holding `c` ends: the least key above `c`, or `None` where
/// the tier is open-ended.
pub open spec fn next_tier_start(m: Map<u64, u64>, c: u64) -> Option<u64> {
    if exists|n: u64| is_next_key(m, c, n) {
        Some(choose|n: u64| is_next_key(m, c, n))
    } else {
        None
    }
}

/// What a tier lookup at counter `c` returns.
pub open spec fn tier_spec(m: Map<u64, u64>, c: u64, default: u64) -> (u64, Option<u64>) {
    (tier_cost(m, c, default), next_tier_start(m, c))
}

/// Relies on `BTreeMap::range`: `range(..c)` walks the entries with keys
/// below `c` in ascending key order, so its last entry has the greatest such
/// key.
#[verifier::external_body]
fn last_entry_below(m: &BTreeMap<u64, u64>, c: u64) -> (r: Option<(u64, u64)>)
    ensures
        match r {
            Some((k, v)) => {
                &&& k < c
                &&& m@.contains_key(k)
                &&& m@[k] == v
                &&& forall|j: u64| #[trigger] m@.contains_key(j) && j < c ==> j <= k
            },
            None => forall|j: u64| #[trigger] m@.contains_key(j) ==> c <= j,
        },
{
    m.range(..c).next_back().map(|(k, v)| (*k, *v))
}

/// Relies on `BTreeMap::range`: `range((Excluded(c), Unbounded))` walks the
/// entries with keys above `c` in ascending key order, so its first entry has
/// the least such key.
#[verifier::external_body]
fn first_key_above(m: &BTreeMap<u64, u64>, c: u64) -> (r: Option<u64>)
    ensures
        match r {
            Some(n) => {
                &&& c < n
                &&& m@.contains_key(n)
                &&& forall|j: u64| #[trigger] m@.contains_key(j) && c < j ==> n <= j
            },
            None => forall|j: u64| #[trigger] m@.contains_key(j) ==> j <= c,
        },
{
    m.range((Bound::Excluded(c), Bound::Unbounded)).next().map(|(k, _)| *k)
}

/// Looks up the tier of `tiers` that holds `counter`: its cost per unit, and
/// the counter at which the next tier starts.
fn tier_lookup(tiers: &BTreeMap<u64, u64>, counter: u64, default: u64) -> (r: (u64, Option<u64>))
    ensures
        r == tier_spec(tiers@, counter, default),
{
    broadcast use vstd::std_specs::btree::group_btree_axioms;

    let current_cost = match tiers.get(&counter) {
        Some(v) => {
            proof {
                lemma_floor_key_unique(tiers@, counter, counter);
            }
            *v
        },
        None => match last_entry_below(tiers, counter) {
            Some((k, v)) => {
                proof {
                    lemma_floor_key_unique(tiers@, counter, k);
                }
                v
            },
            None => default,
        },
    };
    let next = first_key_above(tiers, counter);
    proof {
        if let Some(n) = next {
            lemma_next_key_unique(tiers@, counter, n);
        }
    }
    (current_cost, next)
}

proof fn lemma_floor_key_unique(m: Map<u64, u64>, c: u64, k: u64)
    requires
        is_floor_key(m, c, k),
    ensures
        forall|j: u64| is_floor_key(m, c, j) ==> j == k,
        forall|d: u64| tier_cost(m, c, d) == m[k],
{
}

proof fn lemma_next_key_unique(m: Map<u64, u64>, c: u64, n: u64)
    requires
        is_next_key(m, c, n),
    ensures
        forall|j: u64| is_next_key(m, c, j) ==> j == n,
        next_tier_start(m, c) == Some(n),
{
}

/// Within a tier: where `lo` and `hi` are adjacent keys and `lo <= c < hi`,
/// the lookup at `c` gives the cost stored at `lo` and the next boundary `hi`.
pub proof fn lemma_tier_between(tiers: Map<u64, u64>, c: u64, default: u64, lo: u64, hi: u64)
    requires
        tiers.contains_key(lo),
        tiers.contains_key(hi),
        lo <= c < hi,
        forall|j: u64| #[trigger] tiers.contains_key(j) ==> j <= lo || hi <= j,
    ensures
        tier_spec(tiers, c, default) == (tiers[lo], Some(hi)),
{
    lemma_floor_key_unique(tiers, c, lo);
    lemma_next_key_unique(tiers, c, hi);
}

/// The last tier is open-ended: at or beyond the greatest key `top`, the
/// lookup gives the cost stored at `top` and no next boundary.
pub proof fn lemma_tier_last(tiers: Map<u64, u64>, c: u64, default: u64, top: u64)
    requires
        tiers.contains_key(top),
        top <= c,
        forall|j: u64| #[trigger] tiers.contains_key(j) ==> j <= top,
    ensures
        tier_spec(tiers, c, default) == (tiers[top], None::<u64>),
{
    lemma_floor_key_unique(tiers, c, top);
}

/// Below the least key `low`, the lookup gives the default cost and `low` as
/// the next boundary.
pub proof fn lemma_tier_below_first(tiers: Map<u64, u64>, c: u64, default: u64, low: u64)
    requires
        tiers.contains_key(low),
        c < low,
        forall|j: u64| #[trigger] tiers.contains_key(j) ==> low <= j,
    ensures
        tier_spec(tiers, c, default) == (default, Some(low)),
{
    lemma_next_key_unique(tiers, c, low);
}

/// An empty table gives the default cost and no next boundary at every
/// counter.
pub proof fn lemma_tier_empty(tiers: Map<u64, u64>, c: u64, default: u64)
    requires
        tiers.dom().is_empty(),
    ensures
        tier_spec(tiers, c, default) == (default, None::<u64>),
{
    assert forall|j: u64| !tiers.contains_key(j) by {
        if tiers.contains_key(j) {
            assert(tiers.dom().contains(j));
        }
    }
}

/// The tiers of cost for instructions, stack height and stack size. Each maps
/// the counter at which a tier starts to the cost per unit within it.
#[derive(Clone, Debug, PartialEq, Eq)]
pub struct CostTable {
    pub instruction_tiers: BTreeMap<u64, u64>,
    pub stack_height_tiers: BTreeMap<u64, u64>,
    pub stack_size_tiers: BTreeMap<u64, u64>,
}

impl CostTable {
    /// The cost per instruction once `instr_count` instructions have run, and
    /// the count at which that cost next changes.
    pub fn instruction_tier(&self, instr_count: u64) -> (r: (u64, Option<u64>))
        ensures
            r == tier_spec(self.instruction_tiers@, instr_count, INSTRUCTION_TIER_DEFAULT),
    {
        tier_lookup(&self.instruction_tiers, instr_count, INSTRUCTION_TIER_DEFAULT)
    }

    /// The cost per unit of stack height at `stack_height`, and the height at
    /// which that cost next changes.
    pub fn stack_height_tier(&self, stack_height: u64) -> (r: (u64, Option<u64>))
        ensures
            r == tier_spec(self.stack_height_tiers@, stack_height, STACK_HEIGHT_TIER_DEFAULT),
    {
        tier_lookup(&self.stack_height_tiers, stack_height, STACK_HEIGHT_TIER_DEFAULT)
    }

    /// The cost per unit of stack size at `stack_size`, and the size at which
    /// that cost next changes.
    pub fn stack_size_tier(&self, stack_size: u64) -> (r: (u64, Option<u64>))
        ensures
            r == tier_spec(self.stack_size_tiers@, stack_size, STACK_SIZE_TIER_DEFAULT),
    {
        tier_lookup(&self.stack_size_tiers, stack_size, STACK_SIZE_TIER_DEFAULT)
    }
}

} // verus!
