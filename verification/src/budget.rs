//! Limits, usage counters and stop reasons of one operation.

use vstd::prelude::*;
use crate::text::plus;

verus! {

/// The limits of an operation. A dimension without a limit is unlimited.
#[derive(Clone, Copy, Debug, PartialEq, Eq, Structural)]
pub struct BudgetSpec {
    pub max_turns: Option<u32>,
    pub max_tool_calls: Option<u32>,
    pub max_cost_usd_micros: Option<u64>,
    pub max_wall_time_ms: Option<u64>,
}

/// What an operation has consumed so far.
#[derive(Clone, Copy, Debug, PartialEq, Eq, Structural)]
pub struct BudgetUsage {
    pub turns: u32,
    pub tool_calls: u32,
    pub cost_usd_micros: u64,
    pub wall_time_ms: u64,
}

/// The dimension that stopped an operation, with its limit.
#[derive(Clone, Copy, Debug, PartialEq, Eq, Structural)]
pub enum StopReason {
    TurnBudget { max_turns: u32 },
    ToolCallBudget { max_tool_calls: u32 },
    CostBudget { max_cost_usd_micros: u64 },
    WallTimeBudget { max_wall_time_ms: u64 },
}

/// A refused admission: why, and what had been consumed.
#[derive(Clone, Copy, Debug, PartialEq, Eq, Structural)]
pub struct BudgetStop {
    pub reason: StopReason,
    pub usage: BudgetUsage,
}

/// How an operation ended.
#[derive(Debug)]
pub enum OperationTerminal {
    Completed { usage: BudgetUsage },
    Stopped { reason: StopReason, usage: BudgetUsage, checkpoint_id: String, resumable: bool },
}

/// The smaller of `a + b` and the largest `u32`.
pub open spec fn saturated_u32(a: u32, b: u32) -> u32 {
    if a + b > u32::MAX {
        u32::MAX
    } else {
        (a + b) as u32
    }
}

/// The smaller of `a + b` and the largest `u64`.
pub open spec fn saturated_u64(a: u64, b: u64) -> u64 {
    if a + b > u64::MAX {
        u64::MAX
    } else {
        (a + b) as u64
    }
}

pub fn saturating_sum_u32(a: u32, b: u32) -> (r: u32)
    ensures
        r == saturated_u32(a, b),
{
    if a > u32::MAX - b {
        u32::MAX
    } else {
        a + b
    }
}

pub fn saturating_sum_u64(a: u64, b: u64) -> (r: u64)
    ensures
        r == saturated_u64(a, b),
{
    if a > u64::MAX - b {
        u64::MAX
    } else {
        a + b
    }
}

impl BudgetSpec {
    /// No dimension is limited.
    pub open spec fn unlimited_spec() -> BudgetSpec {
        BudgetSpec {
            max_turns: None,
            max_tool_calls: None,
            max_cost_usd_micros: None,
            max_wall_time_ms: None,
        }
    }

    pub fn unlimited() -> (r: BudgetSpec)
        ensures
            r == Self::unlimited_spec(),
    {
        BudgetSpec {
            max_turns: None,
            max_tool_calls: None,
            max_cost_usd_micros: None,
            max_wall_time_ms: None,
        }
    }

    /// Every limit leaves room for something.
    pub open spec fn valid(self) -> bool {
        &&& self.max_turns != Some(0u32)
        &&& self.max_tool_calls != Some(0u32)
        &&& self.max_cost_usd_micros != Some(0u64)
        &&& self.max_wall_time_ms != Some(0u64)
    }

    /// The name of the first dimension whose limit is zero.
    pub open spec fn zero_dimension(self) -> Option<Seq<char>> {
        if self.max_turns == Some(0u32) {
            Some("max_turns"@)
        } else if self.max_tool_calls == Some(0u32) {
            Some("max_tool_calls"@)
        } else if self.max_cost_usd_micros == Some(0u64) {
            Some("max_cost_usd_micros"@)
        } else if self.max_wall_time_ms == Some(0u64) {
            Some("max_wall_time_ms"@)
        } else {
            None
        }
    }

    /// Rejects a limit of zero, naming its dimension.
    pub fn validate(&self) -> (r: Result<(), String>)
        ensures
            r is Ok <==> self.valid(),
            self.zero_dimension() is None <==> self.valid(),
            match r {
                Ok(_) => true,
                Err(e) => e@ == self.zero_dimension()->0 + " must be greater than zero"@,
            },
    {
        let zero = " must be greater than zero";
        if let Some(n) = self.max_turns {
            if n == 0 {
                return Err(plus("max_turns", zero));
            }
        }
        if let Some(n) = self.max_tool_calls {
            if n == 0 {
                return Err(plus("max_tool_calls", zero));
            }
        }
        if let Some(n) = self.max_cost_usd_micros {
            if n == 0 {
                return Err(plus("max_cost_usd_micros", zero));
            }
        }
        if let Some(n) = self.max_wall_time_ms {
            if n == 0 {
                return Err(plus("max_wall_time_ms", zero));
            }
        }
        Ok(())
    }

    pub fn is_unlimited(&self) -> (r: bool)
        ensures
            r == (*self == Self::unlimited_spec()),
    {
        self.max_turns.is_none() && self.max_tool_calls.is_none()
            && self.max_cost_usd_micros.is_none() && self.max_wall_time_ms.is_none()
    }
}

impl BudgetUsage {
    pub open spec fn zero_spec() -> BudgetUsage {
        BudgetUsage { turns: 0, tool_calls: 0, cost_usd_micros: 0, wall_time_ms: 0 }
    }

    /// Nothing consumed.
    pub fn zero() -> (r: BudgetUsage)
        ensures
            r == Self::zero_spec(),
    {
        BudgetUsage { turns: 0, tool_calls: 0, cost_usd_micros: 0, wall_time_ms: 0 }
    }

    /// The counters of both, each one saturating.
    pub open spec fn merged(self, other: BudgetUsage) -> BudgetUsage {
        BudgetUsage {
            turns: saturated_u32(self.turns, other.turns),
            tool_calls: saturated_u32(self.tool_calls, other.tool_calls),
            cost_usd_micros: saturated_u64(self.cost_usd_micros, other.cost_usd_micros),
            wall_time_ms: saturated_u64(self.wall_time_ms, other.wall_time_ms),
        }
    }

    /// No counter of `self` is above that of `other`.
    pub open spec fn within(self, other: BudgetUsage) -> bool {
        &&& self.turns <= other.turns
        &&& self.tool_calls <= other.tool_calls
        &&& self.cost_usd_micros <= other.cost_usd_micros
        &&& self.wall_time_ms <= other.wall_time_ms
    }

    pub fn add_turn(&mut self)
        ensures
            *final(self) == (BudgetUsage { turns: saturated_u32(old(self).turns, 1), ..*old(self) }),
    {
        self.turns = saturating_sum_u32(self.turns, 1);
    }

    pub fn add_tool_call(&mut self)
        ensures
            *final(self) == (BudgetUsage {
                tool_calls: saturated_u32(old(self).tool_calls, 1),
                ..*old(self)
            }),
    {
        self.tool_calls = saturating_sum_u32(self.tool_calls, 1);
    }

    pub fn add_cost_usd_micros(&mut self, cost_usd_micros: u64)
        ensures
            *final(self) == (BudgetUsage {
                cost_usd_micros: saturated_u64(old(self).cost_usd_micros, cost_usd_micros),
                ..*old(self)
            }),
    {
        self.cost_usd_micros = saturating_sum_u64(self.cost_usd_micros, cost_usd_micros);
    }

    pub fn merge(&mut self, other: BudgetUsage)
        ensures
            *final(self) == old(self).merged(other),
    {
        self.turns = saturating_sum_u32(self.turns, other.turns);
        self.tool_calls = saturating_sum_u32(self.tool_calls, other.tool_calls);
        self.cost_usd_micros = saturating_sum_u64(self.cost_usd_micros, other.cost_usd_micros);
        self.wall_time_ms = saturating_sum_u64(self.wall_time_ms, other.wall_time_ms);
    }
}

impl StopReason {
    pub open spec fn name(self) -> Seq<char> {
        match self {
            StopReason::TurnBudget { .. } => "turn_budget"@,
            StopReason::ToolCallBudget { .. } => "tool_call_budget"@,
            StopReason::CostBudget { .. } => "cost_budget"@,
            StopReason::WallTimeBudget { .. } => "wall_time_budget"@,
        }
    }

    pub fn as_str(&self) -> (r: &'static str)
        ensures
            r@ == self.name(),
    {
        match self {
            StopReason::TurnBudget { .. } => "turn_budget",
            StopReason::ToolCallBudget { .. } => "tool_call_budget",
            StopReason::CostBudget { .. } => "cost_budget",
            StopReason::WallTimeBudget { .. } => "wall_time_budget",
        }
    }
}

impl OperationTerminal {
    pub open spec fn usage_spec(self) -> BudgetUsage {
        match self {
            OperationTerminal::Completed { usage } => usage,
            OperationTerminal::Stopped { usage, .. } => usage,
        }
    }

    pub fn usage(&self) -> (r: BudgetUsage)
        ensures
            r == self.usage_spec(),
    {
        match self {
            OperationTerminal::Completed { usage } => *usage,
            OperationTerminal::Stopped { usage, .. } => *usage,
        }
    }
}

/// The first exhausted dimension of `spec` under `usage`: turns and tool calls
/// are exhausted when the count has reached the limit, cost and wall time only
/// once they are above it.
pub open spec fn exhausted(spec: BudgetSpec, usage: BudgetUsage) -> Option<StopReason> {
    if spec.max_turns is Some && usage.turns >= spec.max_turns->0 {
        Some(StopReason::TurnBudget { max_turns: spec.max_turns->0 })
    } else if spec.max_tool_calls is Some && usage.tool_calls >= spec.max_tool_calls->0 {
        Some(StopReason::ToolCallBudget { max_tool_calls: spec.max_tool_calls->0 })
    } else if spec.max_cost_usd_micros is Some && usage.cost_usd_micros
        > spec.max_cost_usd_micros->0 {
        Some(StopReason::CostBudget { max_cost_usd_micros: spec.max_cost_usd_micros->0 })
    } else if spec.max_wall_time_ms is Some && usage.wall_time_ms > spec.max_wall_time_ms->0 {
        Some(StopReason::WallTimeBudget { max_wall_time_ms: spec.max_wall_time_ms->0 })
    } else {
        None
    }
}

pub fn exhausted_dimension(spec: &BudgetSpec, usage: &BudgetUsage) -> (r: Option<StopReason>)
    ensures
        r == exhausted(*spec, *usage),
{
    if let Some(max_turns) = spec.max_turns {
        if usage.turns >= max_turns {
            return Some(StopReason::TurnBudget { max_turns });
        }
    }
    if let Some(max_tool_calls) = spec.max_tool_calls {
        if usage.tool_calls >= max_tool_calls {
            return Some(StopReason::ToolCallBudget { max_tool_calls });
        }
    }
    if let Some(max_cost_usd_micros) = spec.max_cost_usd_micros {
        if usage.cost_usd_micros > max_cost_usd_micros {
            return Some(StopReason::CostBudget { max_cost_usd_micros });
        }
    }
    if let Some(max_wall_time_ms) = spec.max_wall_time_ms {
        if usage.wall_time_ms > max_wall_time_ms {
            return Some(StopReason::WallTimeBudget { max_wall_time_ms });
        }
    }
    None
}

/// The tighter of two optional limits.
pub open spec fn tighter_u32(left: Option<u32>, right: Option<u32>) -> Option<u32> {
    match (left, right) {
        (Some(l), Some(r)) => Some(if l <= r {
            l
        } else {
            r
        }),
        (Some(l), None) => Some(l),
        (None, r) => r,
    }
}

/// The tighter of two optional limits.
pub open spec fn tighter_u64(left: Option<u64>, right: Option<u64>) -> Option<u64> {
    match (left, right) {
        (Some(l), Some(r)) => Some(if l <= r {
            l
        } else {
            r
        }),
        (Some(l), None) => Some(l),
        (None, r) => r,
    }
}

fn min_u32(left: Option<u32>, right: Option<u32>) -> (r: Option<u32>)
    ensures
        r == tighter_u32(left, right),
{
    match (left, right) {
        (Some(left), Some(right)) => Some(if left <= right {
            left
        } else {
            right
        }),
        (Some(value), None) => Some(value),
        (None, value) => value,
    }
}

fn min_u64(left: Option<u64>, right: Option<u64>) -> (r: Option<u64>)
    ensures
        r == tighter_u64(left, right),
{
    match (left, right) {
        (Some(left), Some(right)) => Some(if left <= right {
            left
        } else {
            right
        }),
        (Some(value), None) => Some(value),
        (None, value) => value,
    }
}

/// The tightest bound of both specs in each dimension.
pub open spec fn intersection(left: BudgetSpec, right: BudgetSpec) -> BudgetSpec {
    BudgetSpec {
        max_turns: tighter_u32(left.max_turns, right.max_turns),
        max_tool_calls: tighter_u32(left.max_tool_calls, right.max_tool_calls),
        max_cost_usd_micros: tighter_u64(left.max_cost_usd_micros, right.max_cost_usd_micros),
        max_wall_time_ms: tighter_u64(left.max_wall_time_ms, right.max_wall_time_ms),
    }
}

pub fn intersect_specs(left: BudgetSpec, right: BudgetSpec) -> (r: BudgetSpec)
    ensures
        r == intersection(left, right),
{
    BudgetSpec {
        max_turns: min_u32(left.max_turns, right.max_turns),
        max_tool_calls: min_u32(left.max_tool_calls, right.max_tool_calls),
        max_cost_usd_micros: min_u64(left.max_cost_usd_micros, right.max_cost_usd_micros),
        max_wall_time_ms: min_u64(left.max_wall_time_ms, right.max_wall_time_ms),
    }
}

/// Merging never takes anything away from what was consumed.
pub proof fn merge_keeps_usage(a: BudgetUsage, b: BudgetUsage)
    ensures
        a.within(a.merged(b)),
        b.within(a.merged(b)),
{
}

/// The order in which two receipts are merged does not matter.
pub proof fn merge_order_is_irrelevant(a: BudgetUsage, b: BudgetUsage, c: BudgetUsage)
    ensures
        a.merged(b) == b.merged(a),
        a.merged(b).merged(c) == a.merged(c).merged(b),
{
}

/// A counter grows by what is added to it, and stops at its largest value.
pub proof fn counters_stop_at_their_largest_value(a: u32, b: u32, c: u64, d: u64)
    ensures
        a + b <= u32::MAX ==> saturated_u32(a, b) == a + b,
        a + b > u32::MAX ==> saturated_u32(a, b) == u32::MAX,
        c + d <= u64::MAX ==> saturated_u64(c, d) == c + d,
        c + d > u64::MAX ==> saturated_u64(c, d) == u64::MAX,
{
}

/// Merging adds every counter to its own kind.
pub proof fn merging_adds_up(a: BudgetUsage, b: BudgetUsage)
    ensures
        a.turns + b.turns <= u32::MAX ==> a.merged(b).turns == a.turns + b.turns,
        a.tool_calls + b.tool_calls <= u32::MAX ==> a.merged(b).tool_calls == a.tool_calls
            + b.tool_calls,
        a.cost_usd_micros + b.cost_usd_micros <= u64::MAX ==> a.merged(b).cost_usd_micros
            == a.cost_usd_micros + b.cost_usd_micros,
        a.wall_time_ms + b.wall_time_ms <= u64::MAX ==> a.merged(b).wall_time_ms == a.wall_time_ms
            + b.wall_time_ms,
{
}

/// A budget is exhausted exactly if a limited dimension is: turns and tool calls
/// once the limit is reached, cost and wall time once it is exceeded. The reason
/// names a dimension that is, with its limit, and the first of several.
pub proof fn budgets_stop_at_their_limits(spec: BudgetSpec, usage: BudgetUsage)
    ensures
        ({
            let turns = spec.max_turns matches Some(max) && usage.turns >= max;
            let tool_calls = spec.max_tool_calls matches Some(max) && usage.tool_calls >= max;
            let cost = spec.max_cost_usd_micros matches Some(max) && usage.cost_usd_micros > max;
            let time = spec.max_wall_time_ms matches Some(max) && usage.wall_time_ms > max;
            &&& exhausted(spec, usage) is Some <==> turns || tool_calls || cost || time
            &&& exhausted(spec, usage) matches Some(StopReason::TurnBudget { max_turns }) ==> turns
                && spec.max_turns == Some(max_turns)
            &&& exhausted(spec, usage) matches Some(StopReason::ToolCallBudget { max_tool_calls })
                ==> tool_calls && !turns && spec.max_tool_calls == Some(max_tool_calls)
            &&& exhausted(spec, usage) matches Some(StopReason::CostBudget { max_cost_usd_micros })
                ==> cost && !turns && !tool_calls && spec.max_cost_usd_micros == Some(
                max_cost_usd_micros,
            )
            &&& exhausted(spec, usage) matches Some(StopReason::WallTimeBudget {
                max_wall_time_ms,
            }) ==> time && !turns && !tool_calls && !cost && spec.max_wall_time_ms == Some(
                max_wall_time_ms,
            )
        }),
{
}

/// A usage stays within the intersection of two budgets exactly if it stays within
/// both, in each dimension.
pub proof fn intersections_keep_both_limits(left: BudgetSpec, right: BudgetSpec, usage: BudgetUsage)
    ensures
        ({
            let both = intersection(left, right);
            &&& (both.max_turns matches Some(max) ==> usage.turns <= max) <==> (
            left.max_turns matches Some(max) ==> usage.turns <= max) && (
            right.max_turns matches Some(max) ==> usage.turns <= max)
            &&& (both.max_tool_calls matches Some(max) ==> usage.tool_calls <= max) <==> (
            left.max_tool_calls matches Some(max) ==> usage.tool_calls <= max) && (
            right.max_tool_calls matches Some(max) ==> usage.tool_calls <= max)
            &&& (both.max_cost_usd_micros matches Some(max) ==> usage.cost_usd_micros <= max) <==> (
            left.max_cost_usd_micros matches Some(max) ==> usage.cost_usd_micros <= max) && (
            right.max_cost_usd_micros matches Some(max) ==> usage.cost_usd_micros <= max)
            &&& (both.max_wall_time_ms matches Some(max) ==> usage.wall_time_ms <= max) <==> (
            left.max_wall_time_ms matches Some(max) ==> usage.wall_time_ms <= max) && (
            right.max_wall_time_ms matches Some(max) ==> usage.wall_time_ms <= max)
            &&& both.max_turns is Some <==> left.max_turns is Some || right.max_turns is Some
            &&& both.max_turns is Some ==> both.max_turns == left.max_turns || both.max_turns
                == right.max_turns
            &&& both.max_tool_calls is Some ==> both.max_tool_calls == left.max_tool_calls
                || both.max_tool_calls == right.max_tool_calls
            &&& both.max_cost_usd_micros is Some ==> both.max_cost_usd_micros
                == left.max_cost_usd_micros || both.max_cost_usd_micros
                == right.max_cost_usd_micros
            &&& both.max_wall_time_ms is Some ==> both.max_wall_time_ms == left.max_wall_time_ms
                || both.max_wall_time_ms == right.max_wall_time_ms
        }),
{
}

} // verus!
