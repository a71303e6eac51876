//! Soft-landing reminders before hard budget walls.
//!
//! Thresholds are pure policy: callers own delivery state so the same reminder
//! is not restated every iteration within one outer turn.

use vstd::prelude::*;
use vstd::string::*;
use crate::double::{
    doubles_keep_order, print_dollars, printed_dollars, quotient_is_within, quotient_within,
    small_numbers_are_doubles,
};
use crate::text::{decimal, decimal_of};

verus! {

/// What a reminder is about.
#[derive(Clone, Copy, Debug, PartialEq, Eq, Structural)]
pub enum SoftLandingKind {
    InnerTurns { max_turns: u32 },
    CostBudget,
    GoalTokens,
}

/// A reminder that is due.
#[derive(Clone, Copy, Debug, PartialEq, Eq, Structural)]
pub struct SoftLandingReminder {
    pub remaining: u64,
    /// Number of configured thresholds that have been crossed.
    pub reminder_index: u32,
    pub kind: SoftLandingKind,
}

/// How many of the thresholds 16, 8, 4 and 2 are not below `remaining`.
pub open spec fn turn_thresholds_crossed(remaining: nat) -> u32 {
    if remaining <= 2 {
        4
    } else if remaining <= 4 {
        3
    } else if remaining <= 8 {
        2
    } else if remaining <= 16 {
        1
    } else {
        0
    }
}

/// The quotient of `remaining` and `total`, all of double precision, is at most
/// 25%.
pub open spec fn within_a_quarter(remaining: nat, total: nat) -> bool {
    quotient_within(remaining, total, 0x10_0000_0000_0000, 0x40_0000_0000_0000)
}

/// The same for the double nearest to 10%.
pub open spec fn within_a_tenth(remaining: nat, total: nat) -> bool {
    quotient_within(remaining, total, 0x19_9999_9999_999a, 0x100_0000_0000_0000)
}

/// The same for the double nearest to 5%.
pub open spec fn within_a_twentieth(remaining: nat, total: nat) -> bool {
    quotient_within(remaining, total, 0x19_9999_9999_999a, 0x200_0000_0000_0000)
}

/// How many of the fractions 25%, 10% and 5% of `total` are not below
/// `remaining`.
pub open spec fn fraction_thresholds_crossed(remaining: nat, total: nat) -> u32 {
    ((if within_a_quarter(remaining, total) {
        1int
    } else {
        0
    }) + (if within_a_tenth(remaining, total) {
        1int
    } else {
        0
    }) + (if within_a_twentieth(remaining, total) {
        1int
    } else {
        0
    })) as u32
}

/// `limit - used`, or zero where more than `limit` was used.
pub open spec fn left_of(limit: int, used: int) -> nat {
    if used >= limit {
        0
    } else {
        (limit - used) as nat
    }
}

/// The reminder with `crossed` thresholds behind it, unless it has been
/// delivered.
pub open spec fn undelivered(
    crossed: u32,
    delivered_index: u32,
    remaining: nat,
    kind: SoftLandingKind,
) -> Option<SoftLandingReminder> {
    if crossed == 0 || crossed <= delivered_index {
        None
    } else {
        Some(SoftLandingReminder { remaining: remaining as u64, reminder_index: crossed, kind })
    }
}

pub open spec fn inner_turn_reminder(
    max_turns: u32,
    turns_started: u32,
    delivered_index: u32,
) -> Option<SoftLandingReminder> {
    let remaining = left_of(max_turns as int, turns_started as int);
    if remaining == 0 {
        None
    } else {
        undelivered(
            turn_thresholds_crossed(remaining),
            delivered_index,
            remaining,
            SoftLandingKind::InnerTurns { max_turns },
        )
    }
}

pub open spec fn cost_budget_reminder(
    max_cost_usd_micros: u64,
    spent_usd_micros: u64,
    delivered_index: u32,
) -> Option<SoftLandingReminder> {
    let remaining = left_of(max_cost_usd_micros as int, spent_usd_micros as int);
    if max_cost_usd_micros == 0 {
        None
    } else {
        undelivered(
            fraction_thresholds_crossed(remaining, max_cost_usd_micros as nat),
            delivered_index,
            remaining,
            SoftLandingKind::CostBudget,
        )
    }
}

pub open spec fn goal_token_reminder(budget: i64, used: i64, delivered_index: u32) -> Option<
    SoftLandingReminder,
> {
    let remaining = left_of(budget as int, used as int);
    if budget <= 0 {
        None
    } else {
        undelivered(
            fraction_thresholds_crossed(remaining, budget as nat),
            delivered_index,
            remaining,
            SoftLandingKind::GoalTokens,
        )
    }
}

fn fraction_index(remaining: u64, total: u64) -> (r: u32)
    ensures
        r == fraction_thresholds_crossed(remaining as nat, total as nat),
{
    let mut r: u32 = 0;
    if quotient_is_within(remaining, total, 0x10_0000_0000_0000, 0x40_0000_0000_0000) {
        r += 1;
    }
    if quotient_is_within(remaining, total, 0x19_9999_9999_999a, 0x100_0000_0000_0000) {
        r += 1;
    }
    if quotient_is_within(remaining, total, 0x19_9999_9999_999a, 0x200_0000_0000_0000) {
        r += 1;
    }
    r
}

/// A reminder when more remaining-turn thresholds have been crossed than
/// `delivered_index` has already acknowledged.
pub fn pending_inner_turn_reminder(
    max_turns: u32,
    turns_started: u32,
    delivered_index: u32,
) -> (r: Option<SoftLandingReminder>)
    ensures
        r == inner_turn_reminder(max_turns, turns_started, delivered_index),
{
    if turns_started >= max_turns {
        return None;
    }
    let remaining: u32 = max_turns - turns_started;
    let reminder_index: u32 = if remaining <= 2 {
        4
    } else if remaining <= 4 {
        3
    } else if remaining <= 8 {
        2
    } else if remaining <= 16 {
        1
    } else {
        0
    };
    if reminder_index == 0 || reminder_index <= delivered_index {
        return None;
    }
    Some(
        SoftLandingReminder {
            remaining: remaining as u64,
            reminder_index,
            kind: SoftLandingKind::InnerTurns { max_turns },
        },
    )
}

/// A reminder when the remaining cost budget crosses a configured fraction.
/// Both values are in USD micros.
pub fn pending_cost_budget_reminder(
    max_cost_usd_micros: u64,
    spent_usd_micros: u64,
    delivered_index: u32,
) -> (r: Option<SoftLandingReminder>)
    ensures
        r == cost_budget_reminder(max_cost_usd_micros, spent_usd_micros, delivered_index),
{
    if max_cost_usd_micros == 0 {
        return None;
    }
    let remaining_micros: u64 = if spent_usd_micros >= max_cost_usd_micros {
        0
    } else {
        max_cost_usd_micros - spent_usd_micros
    };
    let reminder_index: u32 = fraction_index(remaining_micros, max_cost_usd_micros);
    if reminder_index == 0 || reminder_index <= delivered_index {
        return None;
    }
    Some(
        SoftLandingReminder {
            remaining: remaining_micros,
            reminder_index,
            kind: SoftLandingKind::CostBudget,
        },
    )
}

/// A reminder when the remaining goal tokens cross a configured fraction.
pub fn pending_goal_token_reminder(budget: i64, used: i64, delivered_index: u32) -> (r: Option<
    SoftLandingReminder,
>)
    requires
        budget > 0 ==> i64::MIN <= budget - used <= i64::MAX,
    ensures
        r == goal_token_reminder(budget, used, delivered_index),
{
    if budget <= 0 {
        return None;
    }
    let difference: i64 = budget - used;
    let remaining: u64 = if difference > 0 {
        difference as u64
    } else {
        0
    };
    let reminder_index: u32 = fraction_index(remaining, budget as u64);
    if reminder_index == 0 || reminder_index <= delivered_index {
        return None;
    }
    Some(
        SoftLandingReminder { remaining, reminder_index, kind: SoftLandingKind::GoalTokens },
    )
}

/// An amount of USD micros in dollars, to four decimals.
pub open spec fn dollars_4(micros: nat) -> Seq<char> {
    printed_dollars(micros, 10_000, 4)
}

/// The text of a reminder.
pub open spec fn soft_landing_text(reminder: SoftLandingReminder) -> Seq<char> {
    match reminder.kind {
        SoftLandingKind::InnerTurns { max_turns } => "[Budget soft landing]\nInner-turn budget is low: "@
            + decimal_of(reminder.remaining as nat) + " of "@ + decimal_of(max_turns as nat)
            + " model turns remain in this outer turn.\nPrioritize the highest-value unfinished work, verify requirements against current state, and avoid thrashing. Do not mark the goal complete merely because the turn budget is nearly exhausted. If the work cannot finish this outer turn, update the task plan, record key findings, and leave durable progress with a clear next action."@,
        SoftLandingKind::CostBudget => "[Budget soft landing]\nCost budget is low: about $"@
            + dollars_4(reminder.remaining as nat)
            + " remains on the configured cost ceiling.\nPrioritize finishing or verifying the highest-value requirements. Do not mark the goal complete merely because money is running out. Prefer targeted evidence over broad exploration, update the task plan, and record key findings before the hard wall."@,
        SoftLandingKind::GoalTokens => "[Budget soft landing]\nGoal token budget is low: about "@
            + decimal_of(reminder.remaining as nat)
            + " charged tokens remain.\nPrioritize finishing and verifying the real objective. Do not redefine success around a smaller task, and do not mark complete merely because the token budget is nearly exhausted. Update the task plan and record key findings before the hard wall."@,
    }
}

pub fn format_soft_landing_message(reminder: &SoftLandingReminder) -> (s: String)
    ensures
        s@ == soft_landing_text(*reminder),
{
    match reminder.kind {
        SoftLandingKind::InnerTurns { max_turns } => {
            let mut s = "[Budget soft landing]\nInner-turn budget is low: ".to_owned();
            s.append(decimal(reminder.remaining).as_str());
            s.append(" of ");
            s.append(decimal(max_turns as u64).as_str());
            s.append(" model turns remain in this outer turn.\nPrioritize the highest-value unfinished work, verify requirements against current state, and avoid thrashing. Do not mark the goal complete merely because the turn budget is nearly exhausted. If the work cannot finish this outer turn, update the task plan, record key findings, and leave durable progress with a clear next action.");
            s
        },
        SoftLandingKind::CostBudget => {
            let mut s = "[Budget soft landing]\nCost budget is low: about $".to_owned();
            s.append(print_dollars(reminder.remaining, 10_000, 4).as_str());
            s.append(" remains on the configured cost ceiling.\nPrioritize finishing or verifying the highest-value requirements. Do not mark the goal complete merely because money is running out. Prefer targeted evidence over broad exploration, update the task plan, and record key findings before the hard wall.");
            s
        },
        SoftLandingKind::GoalTokens => {
            let mut s = "[Budget soft landing]\nGoal token budget is low: about ".to_owned();
            s.append(decimal(reminder.remaining).as_str());
            s.append(" charged tokens remain.\nPrioritize finishing and verifying the real objective. Do not redefine success around a smaller task, and do not mark complete merely because the token budget is nearly exhausted. Update the task plan and record key findings before the hard wall.");
            s
        },
    }
}

/// A delivered reminder is not due again while no further threshold is crossed.
pub proof fn reminders_are_delivered_once(max_turns: u32, turns_started: u32, delivered_index: u32)
    requires
        inner_turn_reminder(max_turns, turns_started, delivered_index) is Some,
    ensures
        inner_turn_reminder(
            max_turns,
            turns_started,
            inner_turn_reminder(max_turns, turns_started, delivered_index)->0.reminder_index,
        ) is None,
        inner_turn_reminder(max_turns, turns_started, delivered_index)->0.reminder_index
            > delivered_index,
{
}

/// A delivered cost reminder is not due again while no further fraction is
/// crossed.
pub proof fn cost_reminders_are_delivered_once(max: u64, spent: u64, delivered_index: u32)
    requires
        cost_budget_reminder(max, spent, delivered_index) is Some,
    ensures
        cost_budget_reminder(
            max,
            spent,
            cost_budget_reminder(max, spent, delivered_index)->0.reminder_index,
        ) is None,
        cost_budget_reminder(max, spent, delivered_index)->0.reminder_index > delivered_index,
{
}

/// Spending more never takes back a crossed fraction.
pub proof fn crossed_fractions_stay_crossed(max: nat, spent: nat, more: nat)
    requires
        spent <= more,
    ensures
        fraction_thresholds_crossed(left_of(max as int, spent as int), max)
            <= fraction_thresholds_crossed(left_of(max as int, more as int), max),
{
    let (left, rest) = (left_of(max as int, spent as int), left_of(max as int, more as int));
    doubles_keep_order(rest, left);
}

/// Where the amounts have at most 53 binary digits, a quarter is crossed exactly
/// if four times what remains is at most the whole.
pub proof fn quarters_are_exact(remaining: nat, total: nat)
    requires
        remaining < 0x20_0000_0000_0000,
        total < 0x20_0000_0000_0000,
    ensures
        within_a_quarter(remaining, total) <==> 4 * remaining <= total,
{
    small_numbers_are_doubles(remaining);
    small_numbers_are_doubles(total);
    let odd = 2 * 0x10_0000_0000_0000 + 1;
    assert(total * odd == 0x20_0000_0000_0000 * total + total) by (nonlinear_arith)
        requires
            odd == 0x20_0000_0000_0001,
    ;
}

proof fn small_fractions_are_exact(remaining: nat, total: nat)
    requires
        remaining < 0x10_0000_0000_0000,
        total < 0x10_0000_0000_0000,
    ensures
        within_a_tenth(remaining, total) <==> 10 * remaining <= total,
        within_a_twentieth(remaining, total) <==> 20 * remaining <= total,
{
    small_numbers_are_doubles(remaining);
    small_numbers_are_doubles(total);
    let odd = 2 * 0x19_9999_9999_999a + 1;
    assert(total * odd == 0x33_3333_3333_3335 * total) by (nonlinear_arith)
        requires
            odd == 0x33_3333_3333_3335,
    ;
    assert(remaining * 0x100_0000_0000_0000 == 0x100_0000_0000_0000 * remaining);
    assert(remaining * 0x200_0000_0000_0000 == 0x200_0000_0000_0000 * remaining);
}

/// A reminder of the cost is due when a quarter, a tenth and a twentieth of the
/// budget is left, each time once: it is given exactly if more of these are crossed
/// than were announced, and says what is left. (Amounts of more than 52 binary
/// digits are compared as doubles.)
pub proof fn cost_reminders_come_at_their_fractions(max: u64, spent: u64, delivered_index: u32)
    requires
        0 < max < 0x10_0000_0000_0000,
        spent <= max,
    ensures
        ({
            let left = max - spent;
            let crossed = (if 4 * left <= max {
                1int
            } else {
                0
            }) + (if 10 * left <= max {
                1int
            } else {
                0
            }) + (if 20 * left <= max {
                1int
            } else {
                0
            });
            let due = cost_budget_reminder(max, spent, delivered_index);
            &&& due is Some <==> crossed > delivered_index
            &&& due matches Some(reminder) ==> reminder.remaining == left
                && reminder.reminder_index == crossed && reminder.kind is CostBudget
        }),
{
    let left = (max - spent) as nat;
    quarters_are_exact(left, max as nat);
    small_fractions_are_exact(left, max as nat);
}

/// The same for the tokens of a goal.
pub proof fn token_reminders_come_at_their_fractions(budget: i64, used: i64, delivered_index: u32)
    requires
        0 < budget < 0x10_0000_0000_0000,
        0 <= used <= budget,
    ensures
        ({
            let left = budget - used;
            let crossed = (if 4 * left <= budget {
                1int
            } else {
                0
            }) + (if 10 * left <= budget {
                1int
            } else {
                0
            }) + (if 20 * left <= budget {
                1int
            } else {
                0
            });
            let due = goal_token_reminder(budget, used, delivered_index);
            &&& due is Some <==> crossed > delivered_index
            &&& due matches Some(reminder) ==> reminder.remaining == left
                && reminder.reminder_index == crossed && reminder.kind is GoalTokens
        }),
{
    let left = (budget - used) as nat;
    quarters_are_exact(left, budget as nat);
    small_fractions_are_exact(left, budget as nat);
}

/// A reminder of the turns is due when 16, 8, 4 and 2 of them are left, each time
/// once, as long as any is left.
pub proof fn turn_reminders_come_at_their_counts(
    max_turns: u32,
    turns_started: u32,
    delivered_index: u32,
)
    ensures
        ({
            let left = max_turns - turns_started;
            let crossed = (if left <= 16 {
                1int
            } else {
                0
            }) + (if left <= 8 {
                1int
            } else {
                0
            }) + (if left <= 4 {
                1int
            } else {
                0
            }) + (if left <= 2 {
                1int
            } else {
                0
            });
            let due = inner_turn_reminder(max_turns, turns_started, delivered_index);
            &&& due is Some <==> left > 0 && crossed > delivered_index
            &&& due matches Some(reminder) ==> reminder.remaining == left
                && reminder.reminder_index == crossed && reminder.kind == (
            SoftLandingKind::InnerTurns { max_turns })
        }),
{
}

} // verus!
