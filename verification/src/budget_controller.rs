//! One controller owns all limits of an operation.
//!
//! Admission, accounting, soft-landing reminders and child leases live here.
//! Usage counters saturate, reminders never change usage or success state, and
//! a `Stopped` terminal is resumable only after a checkpoint is recorded.
//!
//! The controller has no clock: every call that accounts for wall time takes
//! the milliseconds since the operation started.

use vstd::prelude::*;
use crate::budget::{
    exhausted, exhausted_dimension, intersect_specs, intersection, saturated_u32, saturated_u64,
    BudgetSpec, BudgetStop, BudgetUsage, OperationTerminal, StopReason,
};
use crate::text::opt_chars;
use crate::budget_soft_landing::{
    cost_budget_reminder, format_soft_landing_message, inner_turn_reminder,
    pending_cost_budget_reminder, pending_inner_turn_reminder, soft_landing_text,
    SoftLandingReminder,
};

verus! {

pub struct BudgetController {
    spec: BudgetSpec,
    usage: BudgetUsage,
    stopped: Option<StopReason>,
    checkpoint_id: Option<String>,
    inner_turn_reminder_index: u32,
    cost_reminder_index: u32,
    pending_soft_landing: Option<String>,
}

/// What a controller stands for.
pub ghost struct BudgetControllerView {
    pub spec: BudgetSpec,
    pub usage: BudgetUsage,
    pub stopped: Option<StopReason>,
    pub checkpoint_id: Option<Seq<char>>,
    pub inner_turn_reminder_index: u32,
    pub cost_reminder_index: u32,
    pub pending_soft_landing: Option<Seq<char>>,
}

impl BudgetControllerView {
    /// The wall clock moves forward only.
    pub open spec fn at(self, elapsed_ms: u64) -> Self {
        BudgetControllerView {
            usage: BudgetUsage {
                wall_time_ms: if elapsed_ms > self.usage.wall_time_ms {
                    elapsed_ms
                } else {
                    self.usage.wall_time_ms
                },
                ..self.usage
            },
            ..self
        }
    }

    /// Why nothing more is admitted: the latched stop, or else the first
    /// exhausted dimension.
    pub open spec fn stop(self) -> Option<StopReason> {
        match self.stopped {
            Some(reason) => Some(reason),
            None => exhausted(self.spec, self.usage),
        }
    }

    /// The same controller with its stop latched.
    pub open spec fn latched(self) -> Self {
        BudgetControllerView { stopped: self.stop(), ..self }
    }

    /// What a refusal says.
    pub open spec fn refusal(self) -> BudgetStop {
        BudgetStop { reason: self.stop()->0, usage: self.usage }
    }

    /// One more turn, and the turn reminder that it makes due.
    pub open spec fn with_turn(self) -> Self {
        let usage = BudgetUsage { turns: saturated_u32(self.usage.turns, 1), ..self.usage };
        let counted = BudgetControllerView { usage, ..self };
        match self.spec.max_turns {
            None => counted,
            Some(max_turns) => match inner_turn_reminder(
                max_turns,
                usage.turns,
                self.inner_turn_reminder_index,
            ) {
                None => counted,
                Some(reminder) => BudgetControllerView {
                    inner_turn_reminder_index: reminder.reminder_index,
                    pending_soft_landing: Some(soft_landing_text(reminder)),
                    ..counted
                },
            },
        }
    }

    /// The cost reminder that is due under `usage`.
    pub open spec fn with_usage(self, usage: BudgetUsage) -> Self {
        let counted = BudgetControllerView { usage, ..self };
        match self.spec.max_cost_usd_micros {
            None => counted,
            Some(max) => match cost_budget_reminder(
                max,
                usage.cost_usd_micros,
                self.cost_reminder_index,
            ) {
                None => counted,
                Some(reminder) => BudgetControllerView {
                    cost_reminder_index: reminder.reminder_index,
                    pending_soft_landing: Some(soft_landing_text(reminder)),
                    ..counted
                },
            },
        }
    }

    /// The remaining capacity, at least one unit in each limited dimension.
    pub open spec fn remaining(self) -> BudgetSpec {
        BudgetSpec {
            max_turns: remaining_u32(self.spec.max_turns, self.usage.turns),
            max_tool_calls: remaining_u32(self.spec.max_tool_calls, self.usage.tool_calls),
            max_cost_usd_micros: remaining_u64(
                self.spec.max_cost_usd_micros,
                self.usage.cost_usd_micros,
            ),
            max_wall_time_ms: remaining_u64(self.spec.max_wall_time_ms, self.usage.wall_time_ms),
        }
    }
}

pub open spec fn remaining_u32(limit: Option<u32>, used: u32) -> Option<u32> {
    match limit {
        Some(limit) => Some(if limit > used {
            (limit - used) as u32
        } else {
            1
        }),
        None => None,
    }
}

pub open spec fn remaining_u64(limit: Option<u64>, used: u64) -> Option<u64> {
    match limit {
        Some(limit) => Some(if limit > used {
            (limit - used) as u64
        } else {
            1
        }),
        None => None,
    }
}

fn subtract_u32(limit: Option<u32>, used: u32) -> (r: Option<u32>)
    ensures
        r == remaining_u32(limit, used),
{
    match limit {
        Some(limit) => Some(if limit > used {
            limit - used
        } else {
            1
        }),
        None => None,
    }
}

fn subtract_u64(limit: Option<u64>, used: u64) -> (r: Option<u64>)
    ensures
        r == remaining_u64(limit, used),
{
    match limit {
        Some(limit) => Some(if limit > used {
            limit - used
        } else {
            1
        }),
        None => None,
    }
}

impl View for BudgetController {
    type V = BudgetControllerView;

    closed spec fn view(&self) -> BudgetControllerView {
        BudgetControllerView {
            spec: self.spec,
            usage: self.usage,
            stopped: self.stopped,
            checkpoint_id: opt_chars(self.checkpoint_id),
            inner_turn_reminder_index: self.inner_turn_reminder_index,
            cost_reminder_index: self.cost_reminder_index,
            pending_soft_landing: opt_chars(self.pending_soft_landing),
        }
    }
}

/// The controller of an operation that has just started.
pub open spec fn fresh_controller(spec: BudgetSpec) -> BudgetControllerView {
    BudgetControllerView {
        spec,
        usage: BudgetUsage::zero_spec(),
        stopped: None,
        checkpoint_id: None,
        inner_turn_reminder_index: 0,
        cost_reminder_index: 0,
        pending_soft_landing: None,
    }
}

/// The terminal that a controller reports: completed while nothing has stopped
/// it, otherwise stopped with the recorded checkpoint, which alone makes it
/// resumable.
pub open spec fn terminal_of(c: BudgetControllerView, t: OperationTerminal) -> bool {
    match c.stopped {
        None => t == (OperationTerminal::Completed { usage: c.usage }),
        Some(reason) => t matches OperationTerminal::Stopped {
            reason: r,
            usage,
            checkpoint_id,
            resumable,
        } && r == reason && usage == c.usage && resumable == (c.checkpoint_id is Some)
            && checkpoint_id@ == (if c.checkpoint_id is Some {
            c.checkpoint_id->0
        } else {
            Seq::empty()
        }),
    }
}

impl BudgetController {
    pub fn new(spec: BudgetSpec) -> (r: Self)
        requires
            spec.valid(),
        ensures
            r@ == fresh_controller(spec),
    {
        BudgetController {
            spec,
            usage: BudgetUsage::zero(),
            stopped: None,
            checkpoint_id: None,
            inner_turn_reminder_index: 0,
            cost_reminder_index: 0,
            pending_soft_landing: None,
        }
    }

    pub fn spec(&self) -> (r: &BudgetSpec)
        ensures
            *r == self@.spec,
    {
        &self.spec
    }

    pub fn usage(&self) -> (r: BudgetUsage)
        ensures
            r == self@.usage,
    {
        self.usage
    }

    pub fn is_unlimited(&self) -> (r: bool)
        ensures
            r == (self@.spec == BudgetSpec::unlimited_spec()),
    {
        self.spec.is_unlimited()
    }

    /// Admits one model turn. On success the turn counter goes up; on the first
    /// exhausted dimension the stop is returned and latched.
    pub fn admit_turn(&mut self, elapsed_ms: u64) -> (r: Result<(), BudgetStop>)
        ensures
            ({
                let now = old(self)@.at(elapsed_ms);
                match now.stop() {
                    Some(_) => r == Err::<(), BudgetStop>(now.refusal()) && final(self)@
                        == now.latched(),
                    None => r == Ok::<(), BudgetStop>(()) && final(self)@ == now.with_turn(),
                }
            }),
    {
        self.sync_wall_time(elapsed_ms);
        if let Some(stop) = self.stop_if_exhausted() {
            return Err(stop);
        }
        self.usage.add_turn();
        self.observe_inner_turn_soft_landing();
        Ok(())
    }

    /// Admits one tool call within the current turn.
    pub fn admit_tool_call(&mut self, elapsed_ms: u64) -> (r: Result<(), BudgetStop>)
        ensures
            ({
                let now = old(self)@.at(elapsed_ms);
                match now.stop() {
                    Some(_) => r == Err::<(), BudgetStop>(now.refusal()) && final(self)@
                        == now.latched(),
                    None => r == Ok::<(), BudgetStop>(()) && final(self)@ == (BudgetControllerView {
                        usage: BudgetUsage {
                            tool_calls: saturated_u32(now.usage.tool_calls, 1),
                            ..now.usage
                        },
                        ..now
                    }),
                }
            }),
    {
        self.sync_wall_time(elapsed_ms);
        if let Some(stop) = self.stop_if_exhausted() {
            return Err(stop);
        }
        self.usage.add_tool_call();
        Ok(())
    }

    /// Records provider cost in USD micros.
    pub fn record_cost_usd_micros(&mut self, cost_usd_micros: u64, elapsed_ms: u64) -> (r: Result<
        (),
        BudgetStop,
    >)
        ensures
            ({
                let now = old(self)@.at(elapsed_ms);
                let charged = now.with_usage(
                    BudgetUsage {
                        cost_usd_micros: saturated_u64(now.usage.cost_usd_micros, cost_usd_micros),
                        ..now.usage
                    },
                );
                if now.stop() is Some {
                    r == Err::<(), BudgetStop>(now.refusal()) && final(self)@ == now.latched()
                } else if charged.stop() is Some {
                    r == Err::<(), BudgetStop>(charged.refusal()) && final(self)@
                        == charged.latched()
                } else {
                    r == Ok::<(), BudgetStop>(()) && final(self)@ == charged
                }
            }),
    {
        self.sync_wall_time(elapsed_ms);
        if let Some(stop) = self.stop_if_exhausted() {
            return Err(stop);
        }
        self.usage.add_cost_usd_micros(cost_usd_micros);
        self.observe_cost_soft_landing();
        match self.stop_if_exhausted() {
            Some(stop) => Err(stop),
            None => Ok(()),
        }
    }

    /// Merges a child lease's consumed usage into this operation.
    pub fn merge_child_usage(&mut self, child_usage: BudgetUsage, elapsed_ms: u64) -> (r: Result<
        (),
        BudgetStop,
    >)
        ensures
            ({
                let now = old(self)@.at(elapsed_ms);
                let charged = now.with_usage(now.usage.merged(child_usage));
                if now.stop() is Some {
                    r == Err::<(), BudgetStop>(now.refusal()) && final(self)@ == now.latched()
                } else if charged.stop() is Some {
                    r == Err::<(), BudgetStop>(charged.refusal()) && final(self)@
                        == charged.latched()
                } else {
                    r == Ok::<(), BudgetStop>(()) && final(self)@ == charged
                }
            }),
    {
        self.sync_wall_time(elapsed_ms);
        if let Some(stop) = self.stop_if_exhausted() {
            return Err(stop);
        }
        self.usage.merge(child_usage);
        self.observe_cost_soft_landing();
        match self.stop_if_exhausted() {
            Some(stop) => Err(stop),
            None => Ok(()),
        }
    }

    /// Records a committed conversation boundary: a stopped terminal is
    /// resumable from then on.
    pub fn record_checkpoint(&mut self, checkpoint_id: String)
        ensures
            final(self)@ == (BudgetControllerView {
                checkpoint_id: Some(checkpoint_id@),
                ..old(self)@
            }),
    {
        self.checkpoint_id = Some(checkpoint_id);
    }

    /// Hands out the reminder produced by the latest accounting update, once.
    pub fn take_pending_soft_landing(&mut self) -> (r: Option<String>)
        ensures
            opt_chars(r) == old(self)@.pending_soft_landing,
            final(self)@ == (BudgetControllerView { pending_soft_landing: None, ..old(self)@ }),
    {
        self.pending_soft_landing.take()
    }

    /// Reserves a child budget: the intersection of the child's own limits with
    /// what this operation has left.
    pub fn child_lease(&mut self, child_spec: BudgetSpec, elapsed_ms: u64) -> (r: Result<
        BudgetLease,
        BudgetStop,
    >)
        requires
            child_spec.valid(),
        ensures
            ({
                let now = old(self)@.at(elapsed_ms);
                match now.stop() {
                    Some(_) => r == Err::<BudgetLease, BudgetStop>(now.refusal()) && final(self)@
                        == now.latched(),
                    None => r matches Ok(lease) && lease.spec_view() == intersection(
                        now.remaining(),
                        child_spec,
                    ) && lease.usage_view() == BudgetUsage::zero_spec() && final(self)@ == now,
                }
            }),
    {
        self.sync_wall_time(elapsed_ms);
        if let Some(stop) = self.stop_if_exhausted() {
            return Err(stop);
        }
        Ok(BudgetLease::new(intersect_specs(self.remaining_spec(), child_spec)))
    }

    /// The typed operation terminal.
    pub fn terminal(&self) -> (r: OperationTerminal)
        ensures
            terminal_of(self@, r),
    {
        match self.stopped {
            None => OperationTerminal::Completed { usage: self.usage },
            Some(reason) => {
                let (checkpoint_id, resumable) = match &self.checkpoint_id {
                    Some(id) => (id.clone(), true),
                    None => (String::new(), false),
                };
                OperationTerminal::Stopped { reason, usage: self.usage, checkpoint_id, resumable }
            },
        }
    }

    fn remaining_spec(&self) -> (r: BudgetSpec)
        ensures
            r == self@.remaining(),
    {
        BudgetSpec {
            max_turns: subtract_u32(self.spec.max_turns, self.usage.turns),
            max_tool_calls: subtract_u32(self.spec.max_tool_calls, self.usage.tool_calls),
            max_cost_usd_micros: subtract_u64(
                self.spec.max_cost_usd_micros,
                self.usage.cost_usd_micros,
            ),
            max_wall_time_ms: subtract_u64(self.spec.max_wall_time_ms, self.usage.wall_time_ms),
        }
    }

    fn sync_wall_time(&mut self, elapsed_ms: u64)
        ensures
            final(self)@ == old(self)@.at(elapsed_ms),
    {
        if elapsed_ms > self.usage.wall_time_ms {
            self.usage.wall_time_ms = elapsed_ms;
        }
    }

    fn stop_if_exhausted(&mut self) -> (r: Option<BudgetStop>)
        ensures
            final(self)@ == old(self)@.latched(),
            r is Some <==> old(self)@.stop() is Some,
            r is Some ==> r->0 == old(self)@.refusal(),
    {
        let reason = match self.stopped {
            Some(reason) => reason,
            None => match exhausted_dimension(&self.spec, &self.usage) {
                Some(reason) => reason,
                None => {
                    return None;
                },
            },
        };
        self.stopped = Some(reason);
        Some(BudgetStop { reason, usage: self.usage })
    }

    fn observe_inner_turn_soft_landing(&mut self)
        ensures
            ({
                let o = old(self)@;
                let due: Option<SoftLandingReminder> = match o.spec.max_turns {
                    Some(max) => inner_turn_reminder(
                        max,
                        o.usage.turns,
                        o.inner_turn_reminder_index,
                    ),
                    None => None,
                };
                final(self)@ == match due {
                    Some(reminder) => (BudgetControllerView {
                        inner_turn_reminder_index: reminder.reminder_index,
                        pending_soft_landing: Some(soft_landing_text(reminder)),
                        ..o
                    }),
                    None => o,
                }
            }),
    {
        if let Some(max_turns) = self.spec.max_turns {
            if let Some(reminder) = pending_inner_turn_reminder(
                max_turns,
                self.usage.turns,
                self.inner_turn_reminder_index,
            ) {
                self.inner_turn_reminder_index = reminder.reminder_index;
                self.pending_soft_landing = Some(format_soft_landing_message(&reminder));
            }
        }
    }

    fn observe_cost_soft_landing(&mut self)
        ensures
            final(self)@ == old(self)@.with_usage(old(self)@.usage),
    {
        if let Some(max) = self.spec.max_cost_usd_micros {
            if let Some(reminder) = pending_cost_budget_reminder(
                max,
                self.usage.cost_usd_micros,
                self.cost_reminder_index,
            ) {
                self.cost_reminder_index = reminder.reminder_index;
                self.pending_soft_landing = Some(format_soft_landing_message(&reminder));
            }
        }
    }
}

/// A reserved slice of the parent operation's budget. Consumed usage reports
/// upward through `finish`.
#[derive(Debug)]
pub struct BudgetLease {
    effective_spec: BudgetSpec,
    usage: BudgetUsage,
}

impl BudgetLease {
    pub closed spec fn spec_view(&self) -> BudgetSpec {
        self.effective_spec
    }

    pub closed spec fn usage_view(&self) -> BudgetUsage {
        self.usage
    }

    fn new(effective_spec: BudgetSpec) -> (r: Self)
        ensures
            r.spec_view() == effective_spec,
            r.usage_view() == BudgetUsage::zero_spec(),
    {
        BudgetLease { effective_spec, usage: BudgetUsage::zero() }
    }

    pub fn spec(&self) -> (r: &BudgetSpec)
        ensures
            *r == self.spec_view(),
    {
        &self.effective_spec
    }

    pub fn usage(&self) -> (r: BudgetUsage)
        ensures
            r == self.usage_view(),
    {
        self.usage
    }

    /// Why the lease admits nothing more.
    pub open spec fn stop(&self) -> Option<BudgetStop> {
        match exhausted(self.spec_view(), self.usage_view()) {
            Some(reason) => Some(BudgetStop { reason, usage: self.usage_view() }),
            None => None,
        }
    }

    pub fn admit_turn(&mut self) -> (r: Result<(), BudgetStop>)
        ensures
            final(self).spec_view() == old(self).spec_view(),
            match old(self).stop() {
                Some(stop) => r == Err::<(), BudgetStop>(stop) && final(self).usage_view() == old(
                    self,
                ).usage_view(),
                None => r == Ok::<(), BudgetStop>(()) && final(self).usage_view() == (BudgetUsage {
                    turns: saturated_u32(old(self).usage_view().turns, 1),
                    ..old(self).usage_view()
                }),
            },
    {
        if let Some(stop) = self.stop_if_exhausted() {
            return Err(stop);
        }
        self.usage.add_turn();
        Ok(())
    }

    pub fn admit_tool_call(&mut self) -> (r: Result<(), BudgetStop>)
        ensures
            final(self).spec_view() == old(self).spec_view(),
            match old(self).stop() {
                Some(stop) => r == Err::<(), BudgetStop>(stop) && final(self).usage_view() == old(
                    self,
                ).usage_view(),
                None => r == Ok::<(), BudgetStop>(()) && final(self).usage_view() == (BudgetUsage {
                    tool_calls: saturated_u32(old(self).usage_view().tool_calls, 1),
                    ..old(self).usage_view()
                }),
            },
    {
        if let Some(stop) = self.stop_if_exhausted() {
            return Err(stop);
        }
        self.usage.add_tool_call();
        Ok(())
    }

    /// The usage after `cost_usd_micros` more.
    pub open spec fn charged(&self, cost_usd_micros: u64) -> BudgetUsage {
        BudgetUsage {
            cost_usd_micros: saturated_u64(self.usage_view().cost_usd_micros, cost_usd_micros),
            ..self.usage_view()
        }
    }

    pub fn record_cost_usd_micros(&mut self, cost_usd_micros: u64) -> (r: Result<(), BudgetStop>)
        ensures
            final(self).spec_view() == old(self).spec_view(),
            match old(self).stop() {
                Some(stop) => r == Err::<(), BudgetStop>(stop) && final(self).usage_view() == old(
                    self,
                ).usage_view(),
                None => {
                    &&& final(self).usage_view() == old(self).charged(cost_usd_micros)
                    &&& match final(self).stop() {
                        Some(stop) => r == Err::<(), BudgetStop>(stop),
                        None => r == Ok::<(), BudgetStop>(()),
                    }
                },
            },
    {
        if let Some(stop) = self.stop_if_exhausted() {
            return Err(stop);
        }
        self.usage.add_cost_usd_micros(cost_usd_micros);
        match self.stop_if_exhausted() {
            Some(stop) => Err(stop),
            None => Ok(()),
        }
    }

    /// Consumed usage receipt for the parent to merge. Capacity that was not
    /// used is returned implicitly: only what was consumed is reported.
    pub fn finish(self) -> (r: BudgetUsage)
        ensures
            r == self.usage_view(),
    {
        self.usage
    }

    fn stop_if_exhausted(&self) -> (r: Option<BudgetStop>)
        ensures
            r == self.stop(),
    {
        match exhausted_dimension(&self.effective_spec, &self.usage) {
            Some(reason) => Some(BudgetStop { reason, usage: self.usage }),
            None => None,
        }
    }
}

/// A stop latches: whatever happens to the clock afterwards, the controller
/// refuses with the same reason.
pub proof fn stop_latches(c: BudgetControllerView, elapsed_ms: u64)
    requires
        c.stop() is Some,
    ensures
        c.latched().at(elapsed_ms).stop() == c.stop(),
        c.latched().latched() == c.latched(),
{
}

/// An operation without limits is never stopped.
pub proof fn unlimited_never_stops(c: BudgetControllerView, elapsed_ms: u64)
    requires
        c.spec == BudgetSpec::unlimited_spec(),
        c.stopped is None,
    ensures
        c.at(elapsed_ms).stop() is None,
{
}

/// A reminder changes neither usage nor success state.
pub proof fn reminders_do_not_change_the_outcome(c: BudgetControllerView, usage: BudgetUsage)
    ensures
        c.with_usage(usage).usage == usage,
        c.with_usage(usage).stopped == c.stopped,
        c.with_usage(usage).spec == c.spec,
        c.with_usage(usage).checkpoint_id == c.checkpoint_id,
        c.with_turn().stopped == c.stopped,
        c.with_turn().spec == c.spec,
        c.with_turn().checkpoint_id == c.checkpoint_id,
{
}

/// A lease never reserves more than the parent has left: what a child may
/// consume, added to what the parent has consumed, stays within the parent's
/// limits.
pub proof fn lease_stays_within_the_parent(c: BudgetControllerView, child: BudgetSpec)
    requires
        c.spec.valid(),
        c.stop() is None,
        c.stopped is None,
    ensures
        ({
            let lease = intersection(c.remaining(), child);
            &&& c.spec.max_turns is Some ==> lease.max_turns is Some && c.usage.turns
                + lease.max_turns->0 <= c.spec.max_turns->0
            &&& c.spec.max_tool_calls is Some ==> lease.max_tool_calls is Some
                && c.usage.tool_calls + lease.max_tool_calls->0 <= c.spec.max_tool_calls->0
            &&& c.spec.max_cost_usd_micros is Some && c.usage.cost_usd_micros
                < c.spec.max_cost_usd_micros->0 ==> lease.max_cost_usd_micros is Some
                && c.usage.cost_usd_micros + lease.max_cost_usd_micros->0
                <= c.spec.max_cost_usd_micros->0
        }),
{
}

/// A lease is at least as tight as what the child asked for, and valid where
/// that was.
pub proof fn lease_stays_within_the_child(c: BudgetControllerView, child: BudgetSpec)
    requires
        child.valid(),
    ensures
        ({
            let lease = intersection(c.remaining(), child);
            &&& lease.valid()
            &&& child.max_turns is Some ==> lease.max_turns is Some && lease.max_turns->0
                <= child.max_turns->0
            &&& child.max_tool_calls is Some ==> lease.max_tool_calls is Some
                && lease.max_tool_calls->0 <= child.max_tool_calls->0
            &&& child.max_cost_usd_micros is Some ==> lease.max_cost_usd_micros is Some
                && lease.max_cost_usd_micros->0 <= child.max_cost_usd_micros->0
            &&& child.max_wall_time_ms is Some ==> lease.max_wall_time_ms is Some
                && lease.max_wall_time_ms->0 <= child.max_wall_time_ms->0
        }),
{
}

/// A stopped terminal is resumable exactly when a checkpoint was recorded.
pub proof fn resumable_needs_a_checkpoint(c: BudgetControllerView, t: OperationTerminal)
    requires
        terminal_of(c, t),
    ensures
        t matches OperationTerminal::Stopped { resumable, .. } ==> (resumable
            <==> c.checkpoint_id is Some),
{
}

/// An operation is stopped exactly once a limited dimension is used up, or if it
/// was stopped before. The time that it is told of never goes back.
pub proof fn operations_stop_at_their_limits(c: BudgetControllerView, elapsed_ms: u64)
    ensures
        ({
            let now = c.at(elapsed_ms);
            &&& now.usage.wall_time_ms >= elapsed_ms
            &&& now.usage.wall_time_ms >= c.usage.wall_time_ms
            &&& now.usage.wall_time_ms == elapsed_ms || now.usage.wall_time_ms
                == c.usage.wall_time_ms
            &&& now.usage.turns == c.usage.turns
            &&& now.usage.tool_calls == c.usage.tool_calls
            &&& now.usage.cost_usd_micros == c.usage.cost_usd_micros
            &&& now.stop() is Some <==> {
                ||| c.stopped is Some
                ||| c.spec.max_turns matches Some(max) && c.usage.turns >= max
                ||| c.spec.max_tool_calls matches Some(max) && c.usage.tool_calls >= max
                ||| c.spec.max_cost_usd_micros matches Some(max) && c.usage.cost_usd_micros > max
                ||| c.spec.max_wall_time_ms matches Some(max) && now.usage.wall_time_ms > max
            }
            &&& c.stopped is Some ==> now.stop() == c.stopped
            &&& now.latched().stopped == now.stop()
            &&& now.latched().usage == now.usage
            &&& now.refusal().usage == now.usage
            &&& now.stop() is Some ==> now.refusal().reason == now.stop()->0
        }),
{
}

/// A turn counts one turn and nothing else; what is charged is charged as it is.
pub proof fn admissions_count_once(c: BudgetControllerView, usage: BudgetUsage)
    ensures
        c.usage.turns < u32::MAX ==> c.with_turn().usage.turns == c.usage.turns + 1,
        c.with_turn().usage.tool_calls == c.usage.tool_calls,
        c.with_turn().usage.cost_usd_micros == c.usage.cost_usd_micros,
        c.with_turn().usage.wall_time_ms == c.usage.wall_time_ms,
        c.with_usage(usage).usage == usage,
        c.with_turn().cost_reminder_index == c.cost_reminder_index,
        c.with_usage(usage).inner_turn_reminder_index == c.inner_turn_reminder_index,
{
}

/// A child is leased the smaller of what it asks for and what its parent has left,
/// in each dimension that either limits; and at most one where nothing is left.
pub proof fn leases_are_what_is_left(c: BudgetControllerView, child: BudgetSpec)
    ensures
        ({
            let lease = intersection(c.remaining(), child);
            &&& c.spec.max_turns matches Some(max) ==> (lease.max_turns matches Some(n) && (max
                > c.usage.turns ==> n <= max - c.usage.turns) && (child.max_turns is None && max
                > c.usage.turns ==> n == max - c.usage.turns))
            &&& c.spec.max_turns matches Some(max) ==> (max <= c.usage.turns ==> (
            lease.max_turns matches Some(n) && n <= 1))
            &&& c.spec.max_tool_calls matches Some(max) ==> (max <= c.usage.tool_calls ==> (
            lease.max_tool_calls matches Some(n) && n <= 1))
            &&& c.spec.max_cost_usd_micros matches Some(max) ==> (max <= c.usage.cost_usd_micros
                ==> (lease.max_cost_usd_micros matches Some(n) && n <= 1))
            &&& c.spec.max_wall_time_ms matches Some(max) ==> (max <= c.usage.wall_time_ms ==> (
            lease.max_wall_time_ms matches Some(n) && n <= 1))
            &&& c.spec.max_turns is None ==> lease.max_turns == child.max_turns
            &&& c.spec.max_tool_calls matches Some(max) ==> (lease.max_tool_calls matches Some(n)
                && (max > c.usage.tool_calls ==> n <= max - c.usage.tool_calls) && (
            child.max_tool_calls is None && max > c.usage.tool_calls ==> n == max
                - c.usage.tool_calls))
            &&& c.spec.max_tool_calls is None ==> lease.max_tool_calls == child.max_tool_calls
            &&& c.spec.max_cost_usd_micros matches Some(max) ==> (
            lease.max_cost_usd_micros matches Some(n) && (max > c.usage.cost_usd_micros ==> n
                <= max - c.usage.cost_usd_micros) && (child.max_cost_usd_micros is None && max
                > c.usage.cost_usd_micros ==> n == max - c.usage.cost_usd_micros))
            &&& c.spec.max_cost_usd_micros is None ==> lease.max_cost_usd_micros
                == child.max_cost_usd_micros
            &&& c.spec.max_wall_time_ms matches Some(max) ==> (
            lease.max_wall_time_ms matches Some(n) && (max > c.usage.wall_time_ms ==> n <= max
                - c.usage.wall_time_ms) && (child.max_wall_time_ms is None && max
                > c.usage.wall_time_ms ==> n == max - c.usage.wall_time_ms))
            &&& c.spec.max_wall_time_ms is None ==> lease.max_wall_time_ms
                == child.max_wall_time_ms
            &&& child.max_turns matches Some(asked) ==> (c.spec.max_turns matches Some(max) ==> (
            asked + c.usage.turns <= max ==> lease.max_turns == Some(asked)))
            &&& child.max_tool_calls matches Some(asked) ==> (
            c.spec.max_tool_calls matches Some(max) ==> (asked + c.usage.tool_calls <= max
                ==> lease.max_tool_calls == Some(asked)))
            &&& child.max_cost_usd_micros matches Some(asked) ==> (
            c.spec.max_cost_usd_micros matches Some(max) ==> (asked + c.usage.cost_usd_micros
                <= max ==> lease.max_cost_usd_micros == Some(asked)))
        }),
{
}

/// An operation that was not stopped is reported as completed, one that was as
/// stopped: for its reason, with its usage, and with the checkpoint from which it
/// can be taken up, where there is one.
pub proof fn terminals_tell_why_an_operation_ended(c: BudgetControllerView, t: OperationTerminal)
    requires
        terminal_of(c, t),
    ensures
        t is Completed <==> c.stopped is None,
        t matches OperationTerminal::Completed { usage } ==> usage == c.usage,
        t matches OperationTerminal::Stopped { reason, usage, checkpoint_id, resumable } ==> {
            &&& c.stopped == Some(reason)
            &&& usage == c.usage
            &&& resumable <==> c.checkpoint_id is Some
            &&& c.checkpoint_id matches Some(id) ==> checkpoint_id@ == id
            &&& c.checkpoint_id is None ==> checkpoint_id@.len() == 0
        },
{
}

} // verus!
