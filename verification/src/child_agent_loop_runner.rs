//! The loop of a child agent: turns, model calls, tools and budgets.
//!
//! The loop asks for one thing at a time and is told what came of it. What the
//! child does is reported along the way, and the result carries a receipt of the
//! budget that was consumed.

use vstd::prelude::*;
use vstd::string::*;
use crate::agent_registry::UsageTotals;
use crate::budget::{
    exhausted, saturated_u32, saturated_u64, saturating_sum_u32, saturating_sum_u64, BudgetSpec,
    BudgetStop, BudgetUsage,
};
use crate::budget_controller::{BudgetController, BudgetLease};
use crate::child_agent_loop_setup::{
    advance_child_agent_turn, budget_stop_text, next_turn, turn_taken, ChildAgentLoopSetup,
    ChildAgentTurnBudget,
};
use crate::child_agent_provider_turn::{
    confirm_child_retry, handle_child_agent_provider_error, ChildAgentProviderTurn,
    ChildProviderErrorStep,
};
use crate::child_agent_response_folding::{
    assistant_message, completion, fold_child_agent_provider_response,
    fold_child_agent_tool_result_and_close_siblings, recorded_result, tool_stop, totals_after,
    totals_merged, with_message, ChildAgentProviderResponseFold, ChildAgentToolExecution,
    ChildAgentToolResultFold,
};
use crate::child_agent_types::{
    failure, ChildAgentActivity, ChildAgentResult, ChildAgentResultView,
};
use crate::compaction::{
    RuntimeCompactionPolicy, RuntimeCompactionRetryDecision, RuntimeCompactionRetryState,
    RuntimeCompactionTrigger,
};
use crate::conversation::{unanswered, Conversation, ConversationView, MessageView};
use crate::provider_types::{
    child_agent_tool_requests, clone_text, errors_are_found, first_error, requested_tools,
    CostTracker, ProviderResponse, ProviderStep, ToolRequest, Usage,
};
use crate::runtime_types::{run_status_from_tool_status, tool_run_status, RunStatus, ToolStatus};
use crate::double::{print_dollars, printed_dollars};
use crate::text::{plus, plus3};

verus! {

/// What a loop waits for.
#[derive(Clone, Copy, Debug, PartialEq, Eq, Structural)]
pub enum ChildLoopPhase {
    /// The compaction before a model call.
    Compacting,
    /// A model call.
    Calling,
    /// The compaction after a prompt that was too long.
    Recovering,
    /// A tool.
    Executing,
    Done,
}

/// What a loop asks for.
#[derive(Debug)]
pub enum ChildLoopAction {
    CompactIfNeeded,
    CallModel,
    Compact { trigger: RuntimeCompactionTrigger },
    ExecuteTool { request: ToolRequest },
    Finish { result: ChildAgentResult },
    Fail { error: String },
}

/// What came of what a loop asked for.
#[derive(Debug)]
pub enum ChildLoopEvent {
    /// The conversation after a compaction, or the same one where none was
    /// needed.
    Compacted { conversation: Conversation },
    /// A model call, the model that it was routed to, and whether its error, if
    /// any, says that the prompt was too long.
    ModelTurn { model: String, turn: ChildAgentProviderTurn, prompt_too_long: bool },
    ToolExecuted { execution: ChildAgentToolExecution },
    /// Compaction failed.
    Failed { error: String },
}

/// What the child did since the last request, and the next request.
#[derive(Debug)]
pub struct ChildLoopStep {
    pub activities: Vec<ChildAgentActivity>,
    pub action: ChildLoopAction,
}

#[allow(inconsistent_fields)]
pub ghost enum ChildLoopActionView {
    CompactIfNeeded,
    CallModel,
    Compact { trigger: RuntimeCompactionTrigger },
    ExecuteTool { request: ToolRequest },
    Finish { result: ChildAgentResultView },
    Fail { error: Seq<char> },
}

pub ghost struct ChildLoopStepView {
    pub activities: Seq<ChildAgentActivity>,
    pub action: ChildLoopActionView,
}

impl View for ChildLoopAction {
    type V = ChildLoopActionView;

    open spec fn view(&self) -> ChildLoopActionView {
        match *self {
            ChildLoopAction::CompactIfNeeded => ChildLoopActionView::CompactIfNeeded,
            ChildLoopAction::CallModel => ChildLoopActionView::CallModel,
            ChildLoopAction::Compact { trigger } => ChildLoopActionView::Compact { trigger },
            ChildLoopAction::ExecuteTool { request } => ChildLoopActionView::ExecuteTool {
                request,
            },
            ChildLoopAction::Finish { result } => ChildLoopActionView::Finish { result: result@ },
            ChildLoopAction::Fail { error } => ChildLoopActionView::Fail { error: error@ },
        }
    }
}

impl View for ChildLoopStep {
    type V = ChildLoopStepView;

    open spec fn view(&self) -> ChildLoopStepView {
        ChildLoopStepView { activities: self.activities@, action: self.action@ }
    }
}

/// The loop of a child agent.
#[derive(Debug)]
pub struct ChildAgentLoop {
    pub setup: ChildAgentLoopSetup,
    pub lease: BudgetLease,
    pub tracker: CostTracker,
    pub max_cost_usd_micros: Option<u64>,
    /// All that the child consumed.
    pub consumed: BudgetUsage,
    /// The tool calls of the turn, and the one that is executed.
    pub requests: Vec<ToolRequest>,
    pub index: usize,
    pub phase: ChildLoopPhase,
}

/// What a loop stands for.
pub ghost struct ChildLoopView {
    pub conversation: ConversationView,
    pub restored_next_turn: Option<u32>,
    pub turn: u32,
    pub retried: bool,
    pub lease_spec: BudgetSpec,
    pub lease_usage: BudgetUsage,
    pub model: Option<String>,
    pub totals: UsageTotals,
    pub max_cost_usd_micros: Option<u64>,
    pub consumed: BudgetUsage,
    pub requests: Seq<ToolRequest>,
    pub index: int,
    pub phase: ChildLoopPhase,
}

impl View for ChildAgentLoop {
    type V = ChildLoopView;

    open spec fn view(&self) -> ChildLoopView {
        ChildLoopView {
            conversation: self.setup.conversation@,
            restored_next_turn: self.setup.restored_next_turn,
            turn: self.setup.turn,
            retried: self.setup.compaction_retry.prompt_too_long_retried,
            lease_spec: self.lease.spec_view(),
            lease_usage: self.lease.usage_view(),
            model: self.tracker.model,
            totals: self.tracker.totals,
            max_cost_usd_micros: self.max_cost_usd_micros,
            consumed: self.consumed,
            requests: self.requests@,
            index: self.index as int,
            phase: self.phase,
        }
    }
}

/// An amount in micros as dollars with six decimals.
pub open spec fn dollars(micros: u64) -> Seq<char> {
    "$"@ + printed_dollars(micros as nat, 1_000_000, 6)
}

fn dollars_text(micros: u64) -> (r: String)
    ensures
        r@ == dollars(micros),
{
    plus("$", print_dollars(micros, 1_000_000, 6).as_str())
}

/// The result of a child that cost more than it may.
pub open spec fn cost_stop(max_cost_usd_micros: Option<u64>, spent: u64) -> Option<
    ChildAgentResultView,
> {
    match max_cost_usd_micros {
        Some(max) => if spent > max {
            Some(
                failure(
                    "budget stopped: estimated cost "@ + dollars(spent) + " exceeded limit "@
                        + dollars(max),
                ),
            )
        } else {
            None
        },
        None => None,
    }
}

pub fn child_agent_budget_exhausted_result(
    max_cost_usd_micros: Option<u64>,
    child_cost_tracker: &CostTracker,
) -> (r: Option<ChildAgentResult>)
    ensures
        match r {
            Some(result) => cost_stop(
                max_cost_usd_micros,
                child_cost_tracker.totals.cost_usd_micros,
            ) == Some(result@),
            None => cost_stop(max_cost_usd_micros, child_cost_tracker.totals.cost_usd_micros) is None,
        },
{
    let max: u64 = match max_cost_usd_micros {
        Some(max) => max,
        None => {
            return None;
        },
    };
    let spent: u64 = child_cost_tracker.totals().cost_usd_micros;
    if spent > max {
        let spent_text = dollars_text(spent);
        let max_text = dollars_text(max);
        let head = plus("budget stopped: estimated cost ", spent_text.as_str());
        Some(
            ChildAgentResult::failed(
                plus3(head.as_str(), " exceeded limit ", max_text.as_str()),
            ),
        )
    } else {
        None
    }
}

/// Why a lease admits nothing more.
pub open spec fn lease_stop(spec: BudgetSpec, usage: BudgetUsage) -> Option<BudgetStop> {
    match exhausted(spec, usage) {
        Some(reason) => Some(BudgetStop { reason, usage }),
        None => None,
    }
}

/// Usage with a cost added.
pub open spec fn cost_added(usage: BudgetUsage, cost: u64) -> BudgetUsage {
    BudgetUsage { cost_usd_micros: saturated_u64(usage.cost_usd_micros, cost), ..usage }
}

/// Usage with a tool call added.
pub open spec fn tool_added(usage: BudgetUsage) -> BudgetUsage {
    BudgetUsage { tool_calls: saturated_u32(usage.tool_calls, 1), ..usage }
}

/// Reported usage that amounts to something.
pub open spec fn counts(usage: Option<Usage>) -> bool {
    usage is Some && !usage->0.empty()
}

impl ChildLoopView {
    /// The loop ends with a result, which carries the receipt.
    pub open spec fn finish(
        self,
        activities: Seq<ChildAgentActivity>,
        result: ChildAgentResultView,
    ) -> (Self, ChildLoopStepView) {
        (
            ChildLoopView { phase: ChildLoopPhase::Done, ..self },
            ChildLoopStepView {
                activities,
                action: ChildLoopActionView::Finish {
                    result: ChildAgentResultView { budget_usage: Some(self.consumed), ..result },
                },
            },
        )
    }

    pub open spec fn over_cost(self) -> Option<ChildAgentResultView> {
        cost_stop(self.max_cost_usd_micros, self.totals.cost_usd_micros)
    }

    /// The next turn, if the lease admits one.
    pub open spec fn take_turn(self, activities: Seq<ChildAgentActivity>) -> (
        Self,
        ChildLoopStepView,
    ) {
        let turned = ChildLoopView { turn: next_turn(self.turn), ..self };
        match lease_stop(self.lease_spec, self.lease_usage) {
            Some(stop) => turned.finish(activities, failure(budget_stop_text(stop))),
            None => (
                ChildLoopView {
                    lease_usage: turn_taken(self.lease_usage),
                    consumed: turn_taken(self.consumed),
                    phase: ChildLoopPhase::Compacting,
                    ..turned
                },
                ChildLoopStepView {
                    activities: activities.push(
                        ChildAgentActivity::TurnStarted { turn: turned.turn },
                    ),
                    action: ChildLoopActionView::CompactIfNeeded,
                },
            ),
        }
    }

    /// New totals, paid for by the lease as far as it still admits anything.
    pub open spec fn charged(self, totals: UsageTotals) -> Self {
        let cost = (totals.cost_usd_micros - self.totals.cost_usd_micros) as u64;
        ChildLoopView {
            totals,
            consumed: cost_added(self.consumed, cost),
            lease_usage: if lease_stop(self.lease_spec, self.lease_usage) is Some {
                self.lease_usage
            } else {
                cost_added(self.lease_usage, cost)
            },
            ..self
        }
    }

    /// The activity that reports new totals.
    pub open spec fn usage_activity(self, reported: bool) -> Seq<ChildAgentActivity> {
        if reported {
            seq![ChildAgentActivity::Usage(self.totals)]
        } else {
            Seq::empty()
        }
    }

    /// The next tool of the turn, or the next turn.
    pub open spec fn next_tool(self, activities: Seq<ChildAgentActivity>) -> (
        Self,
        ChildLoopStepView,
    ) {
        if self.index < self.requests.len() {
            let request = self.requests[self.index];
            (
                ChildLoopView {
                    consumed: tool_added(self.consumed),
                    lease_usage: if lease_stop(self.lease_spec, self.lease_usage) is Some {
                        self.lease_usage
                    } else {
                        tool_added(self.lease_usage)
                    },
                    phase: ChildLoopPhase::Executing,
                    ..self
                },
                ChildLoopStepView {
                    activities: activities.push(
                        ChildAgentActivity::ToolStarted {
                            call_id: request.id,
                            name: request.name,
                            target: request.target,
                        },
                    ),
                    action: ChildLoopActionView::ExecuteTool { request },
                },
            )
        } else {
            self.take_turn(activities)
        }
    }

    /// A model call that failed around the provider: its usage counts all the
    /// same.
    pub open spec fn after_failed_turn(
        self,
        result: ChildAgentResultView,
        usage: Option<Usage>,
    ) -> (Self, ChildLoopStepView) {
        let paid = self.charged(totals_after(self.totals, usage));
        let activities = paid.usage_activity(counts(usage));
        match paid.over_cost() {
            Some(stop) => paid.finish(activities, stop),
            None => paid.finish(activities, result),
        }
    }

    /// A response of the provider. One without an error is not taken up where the
    /// cost was over the limit before it came.
    pub open spec fn after_response(
        self,
        response: crate::provider_types::ProviderResponse,
        prompt_too_long: bool,
    ) -> (Self, ChildLoopStepView) {
        let paid = self.charged(totals_after(self.totals, response.usage));
        let activities = paid.usage_activity(counts(response.usage));
        match first_error(response.steps@) {
            Some(error) => match RuntimeCompactionPolicy::retry_decision(
                prompt_too_long,
                (RuntimeCompactionRetryState { prompt_too_long_retried: self.retried }),
            ) {
                RuntimeCompactionRetryDecision::CompactAndRetry { trigger, .. } => (
                    ChildLoopView { phase: ChildLoopPhase::Recovering, ..paid },
                    ChildLoopStepView {
                        activities,
                        action: ChildLoopActionView::Compact { trigger },
                    },
                ),
                RuntimeCompactionRetryDecision::SurfaceError => match paid.over_cost() {
                    Some(stop) => paid.finish(activities, stop),
                    None => paid.finish(activities, failure(error@)),
                },
            },
            None => match self.over_cost() {
                Some(stop) => ChildLoopView { retried: false, ..self }.finish(Seq::empty(), stop),
                None => {
                    let recorded = ChildLoopView {
                        conversation: with_message(
                            self.conversation,
                            assistant_message(response),
                        ),
                        retried: false,
                        ..paid
                    };
                    match recorded.over_cost() {
                        Some(stop) => recorded.finish(activities, stop),
                        None => if response.tool_calls@.len() == 0 {
                            recorded.finish(activities, completion(response))
                        } else {
                            ChildLoopView {
                                requests: requested_tools(response.steps@),
                                index: 0,
                                ..recorded
                            }.next_tool(activities)
                        },
                    }
                },
            },
        }
    }

    /// An executed tool.
    pub open spec fn after_tool(self, execution: ChildAgentToolExecution) -> (
        Self,
        ChildLoopStepView,
    ) {
        let request = self.requests[self.index];
        let paid = ChildLoopView {
            conversation: recorded_result(
                self.conversation,
                self.requests,
                self.index,
                execution,
            ),
            ..self.charged(totals_merged(self.totals, execution.child_cost))
        };
        let activities = seq![
            ChildAgentActivity::ToolCompleted {
                call_id: request.id,
                name: request.name,
                status: tool_run_status(execution.result.terminal.status),
            },
        ] + paid.usage_activity(execution.child_cost is Some);
        match paid.over_cost() {
            Some(stop) => paid.finish(activities, stop),
            None => if execution.should_stop {
                paid.finish(activities, tool_stop(execution.result))
            } else {
                ChildLoopView { index: self.index + 1, ..paid }.next_tool(activities)
            },
        }
    }

    /// The conversation after a compaction: the model call, or after a recovery
    /// the next turn.
    pub open spec fn after_compaction(self, conversation: ConversationView) -> (
        Self,
        ChildLoopStepView,
    ) {
        if self.phase == ChildLoopPhase::Recovering {
            let recovered = ChildLoopView { conversation, retried: true, ..self };
            match recovered.over_cost() {
                Some(stop) => recovered.finish(Seq::empty(), stop),
                None => recovered.take_turn(Seq::empty()),
            }
        } else {
            (
                ChildLoopView { conversation, phase: ChildLoopPhase::Calling, ..self },
                ChildLoopStepView {
                    activities: Seq::empty(),
                    action: ChildLoopActionView::CallModel,
                },
            )
        }
    }

    /// What follows an event.
    pub open spec fn after(self, event: ChildLoopEvent) -> (Self, ChildLoopStepView) {
        match event {
            ChildLoopEvent::Failed { error } => (
                ChildLoopView { phase: ChildLoopPhase::Done, ..self },
                ChildLoopStepView {
                    activities: Seq::empty(),
                    action: ChildLoopActionView::Fail { error: error@ },
                },
            ),
            ChildLoopEvent::Compacted { conversation } => self.after_compaction(conversation@),
            ChildLoopEvent::ModelTurn { model, turn, prompt_too_long } => {
                let routed = ChildLoopView { model: Some(model), ..self };
                match turn {
                    ChildAgentProviderTurn::Fail { result, usage } => routed.after_failed_turn(
                        result@,
                        usage,
                    ),
                    ChildAgentProviderTurn::Response(response) => routed.after_response(
                        response,
                        prompt_too_long,
                    ),
                }
            },
            ChildLoopEvent::ToolExecuted { execution } => self.after_tool(execution),
        }
    }

    /// An event answers what was asked for.
    pub open spec fn expects(self, event: ChildLoopEvent) -> bool {
        match event {
            ChildLoopEvent::Compacted { .. } => self.phase == ChildLoopPhase::Compacting
                || self.phase == ChildLoopPhase::Recovering,
            ChildLoopEvent::ModelTurn { .. } => self.phase == ChildLoopPhase::Calling,
            ChildLoopEvent::ToolExecuted { execution } => self.phase == ChildLoopPhase::Executing
                && self.requests[self.index].id@ == execution.result.id@,
            ChildLoopEvent::Failed { .. } => self.phase == ChildLoopPhase::Compacting
                || self.phase == ChildLoopPhase::Recovering,
        }
    }

    /// A tool is executed only if there is one.
    pub open spec fn wf(self) -> bool {
        0 <= self.index && (self.phase == ChildLoopPhase::Executing ==> self.index
            < self.requests.len())
    }
}

/// The loop before its first turn.
pub open spec fn unstarted(
    setup: ChildAgentLoopSetup,
    lease_spec: BudgetSpec,
    lease_usage: BudgetUsage,
    budget: BudgetSpec,
    tracker: CostTracker,
) -> ChildLoopView {
    ChildLoopView {
        conversation: setup.conversation@,
        restored_next_turn: setup.restored_next_turn,
        turn: setup.turn,
        retried: setup.compaction_retry.prompt_too_long_retried,
        lease_spec,
        lease_usage,
        model: tracker.model,
        totals: tracker.totals,
        max_cost_usd_micros: budget.max_cost_usd_micros,
        consumed: lease_usage,
        requests: Seq::empty(),
        index: 0,
        phase: ChildLoopPhase::Done,
    }
}

impl ChildAgentLoop {
    /// Starts a loop. Without a lease of its parent the child gets one over its
    /// own budget.
    pub fn start(
        setup: ChildAgentLoopSetup,
        lease: Option<BudgetLease>,
        budget: BudgetSpec,
        tracker: CostTracker,
    ) -> (r: (Self, ChildLoopStep))
        requires
            budget.valid(),
        ensures
            r.0@.wf(),
            ({
                let (lease_spec, lease_usage) = match lease {
                    Some(lease) => (lease.spec_view(), lease.usage_view()),
                    None => (budget, BudgetUsage::zero_spec()),
                };
                (r.0@, r.1@) == unstarted(
                    setup,
                    lease_spec,
                    lease_usage,
                    budget,
                    tracker,
                ).take_turn(Seq::empty())
            }),
    {
        let lease = match lease {
            Some(lease) => lease,
            None => own_lease(budget),
        };
        let consumed = lease.usage();
        let mut this = ChildAgentLoop {
            setup,
            lease,
            tracker,
            max_cost_usd_micros: budget.max_cost_usd_micros,
            consumed,
            requests: Vec::new(),
            index: 0,
            phase: ChildLoopPhase::Done,
        };
        assert(this.requests@ =~= Seq::<ToolRequest>::empty());
        let step = this.take_turn(Vec::new());
        (this, step)
    }

    fn finish(&mut self, activities: Vec<ChildAgentActivity>, result: ChildAgentResult) -> (r:
        ChildLoopStep)
        ensures
            (final(self)@, r@) == old(self)@.finish(activities@, result@),
    {
        self.phase = ChildLoopPhase::Done;
        ChildLoopStep {
            activities,
            action: ChildLoopAction::Finish {
                result: ChildAgentResult { budget_usage: Some(self.consumed), ..result },
            },
        }
    }

    fn take_turn(&mut self, activities: Vec<ChildAgentActivity>) -> (r: ChildLoopStep)
        ensures
            (final(self)@, r@) == old(self)@.take_turn(activities@),
    {
        match advance_child_agent_turn(&mut self.setup, &mut self.lease) {
            ChildAgentTurnBudget::Stop(result) => self.finish(activities, result),
            ChildAgentTurnBudget::Continue => {
                self.consumed.turns = saturating_sum_u32(self.consumed.turns, 1);
                self.phase = ChildLoopPhase::Compacting;
                let mut activities = activities;
                activities.push(ChildAgentActivity::TurnStarted { turn: self.setup.turn });
                ChildLoopStep { activities, action: ChildLoopAction::CompactIfNeeded }
            },
        }
    }

    /// Lets the lease pay for what the totals have grown by.
    fn charge(&mut self, before: UsageTotals)
        requires
            before.cost_usd_micros <= old(self).tracker.totals.cost_usd_micros,
        ensures
            final(self)@ == (ChildLoopView { totals: before, ..old(self)@ }).charged(
                old(self).tracker.totals,
            ),
            final(self).requests == old(self).requests,
            final(self).tracker == old(self).tracker,
    {
        let cost: u64 = self.tracker.totals.cost_usd_micros - before.cost_usd_micros;
        self.consumed.cost_usd_micros = saturating_sum_u64(self.consumed.cost_usd_micros, cost);
        match self.lease.record_cost_usd_micros(cost) {
            Ok(_) => {},
            Err(_) => {},
        }
    }

    fn next_tool(&mut self, activities: Vec<ChildAgentActivity>) -> (r: ChildLoopStep)
        ensures
            (final(self)@, r@) == old(self)@.next_tool(activities@),
    {
        if self.index < self.requests.len() {
            let request = self.requests[self.index].duplicate();
            self.consumed.tool_calls = saturating_sum_u32(self.consumed.tool_calls, 1);
            match self.lease.admit_tool_call() {
                Ok(_) => {},
                Err(_) => {},
            }
            self.phase = ChildLoopPhase::Executing;
            let mut activities = activities;
            activities.push(
                ChildAgentActivity::ToolStarted {
                    call_id: request.id.clone(),
                    name: request.name.clone(),
                    target: clone_text(&request.target),
                },
            );
            ChildLoopStep { activities, action: ChildLoopAction::ExecuteTool { request } }
        } else {
            self.take_turn(activities)
        }
    }

    fn usage_activity(&self, reported: bool) -> (r: Vec<ChildAgentActivity>)
        ensures
            r@ == self@.usage_activity(reported),
    {
        let mut activities: Vec<ChildAgentActivity> = Vec::new();
        if reported {
            activities.push(ChildAgentActivity::Usage(self.tracker.totals()));
        }
        assert(activities@ =~= self@.usage_activity(reported));
        activities
    }

    /// Ends with the given result, or because of the cost.
    fn finish_within_cost(
        &mut self,
        activities: Vec<ChildAgentActivity>,
        result: ChildAgentResult,
    ) -> (r: ChildLoopStep)
        ensures
            (final(self)@, r@) == match old(self)@.over_cost() {
                Some(stop) => old(self)@.finish(activities@, stop),
                None => old(self)@.finish(activities@, result@),
            },
    {
        match child_agent_budget_exhausted_result(self.max_cost_usd_micros, &self.tracker) {
            Some(stop) => self.finish(activities, stop),
            None => self.finish(activities, result),
        }
    }

    /// Counts what a model call used and lets the lease pay for it.
    fn record_child_provider_usage(&mut self, usage: Option<Usage>) -> (r: Vec<ChildAgentActivity>)
        ensures
            final(self)@ == old(self)@.charged(totals_after(old(self)@.totals, usage)),
            r@ == final(self)@.usage_activity(counts(usage)),
            final(self).requests == old(self).requests,
    {
        let before = self.tracker.totals();
        let mut reported = false;
        if let Some(usage) = usage {
            if !usage.is_empty() {
                self.tracker.add_usage(usage);
                reported = true;
            }
        }
        self.charge(before);
        self.usage_activity(reported)
    }

    fn after_response(
        &mut self,
        response: crate::provider_types::ProviderResponse,
        prompt_too_long: bool,
    ) -> (r: ChildLoopStep)
        ensures
            (final(self)@, r@) == old(self)@.after_response(response, prompt_too_long),
    {
        let ghost was = self@;
        let ghost paid = was.charged(totals_after(was.totals, response.usage));
        match handle_child_agent_provider_error(&mut self.setup, &response, prompt_too_long) {
            ChildProviderErrorStep::Compact { trigger } => {
                let activities = self.record_child_provider_usage(response.usage);
                self.phase = ChildLoopPhase::Recovering;
                ChildLoopStep { activities, action: ChildLoopAction::Compact { trigger } }
            },
            ChildProviderErrorStep::Fail(result) => {
                let activities = self.record_child_provider_usage(response.usage);
                assert(self@ == paid);
                self.finish_within_cost(activities, result)
            },
            ChildProviderErrorStep::NoError => {
                if let Some(stop) = child_agent_budget_exhausted_result(
                    self.max_cost_usd_micros,
                    &self.tracker,
                ) {
                    let activities: Vec<ChildAgentActivity> = Vec::new();
                    assert(activities@ =~= Seq::<ChildAgentActivity>::empty());
                    return self.finish(activities, stop);
                }
                let before = self.tracker.totals();
                let reported = match &response.usage {
                    Some(usage) => !usage.is_empty(),
                    None => false,
                };
                let fold = fold_child_agent_provider_response(
                    &mut self.setup,
                    &response,
                    &mut self.tracker,
                );
                self.charge(before);
                let ghost recorded = ChildLoopView {
                    conversation: with_message(was.conversation, assistant_message(response)),
                    retried: false,
                    ..paid
                };
                assert(self@ == recorded);
                let activities = self.usage_activity(reported);
                if let Some(stop) = child_agent_budget_exhausted_result(
                    self.max_cost_usd_micros,
                    &self.tracker,
                ) {
                    return self.finish(activities, stop);
                }
                match fold {
                    ChildAgentProviderResponseFold::Complete(result) => self.finish(
                        activities,
                        result,
                    ),
                    ChildAgentProviderResponseFold::ContinueToTools => {
                        self.requests = child_agent_tool_requests(&response);
                        self.index = 0;
                        self.next_tool(activities)
                    },
                }
            },
        }
    }

    fn after_tool(&mut self, execution: ChildAgentToolExecution) -> (r: ChildLoopStep)
        requires
            old(self)@.index < old(self)@.requests.len(),
            old(self)@.requests[old(self)@.index].id@ == execution.result.id@,
        ensures
            (final(self)@, r@) == old(self)@.after_tool(execution),
    {
        let ghost was = self@;
        let count: usize = self.requests.len();
        let index: usize = self.index;
        let mut activities: Vec<ChildAgentActivity> = Vec::new();
        activities.push(
            ChildAgentActivity::ToolCompleted {
                call_id: self.requests[index].id.clone(),
                name: self.requests[index].name.clone(),
                status: run_status_from_tool_status(execution.result.terminal.status),
            },
        );
        let had_child_cost = execution.child_cost.is_some();
        let before = self.tracker.totals();
        let fold = fold_child_agent_tool_result_and_close_siblings(
            &mut self.setup,
            &self.requests,
            index,
            execution,
            &mut self.tracker,
        );
        self.charge(before);
        let ghost paid = ChildLoopView {
            conversation: recorded_result(was.conversation, was.requests, was.index, execution),
            ..was.charged(totals_merged(was.totals, execution.child_cost))
        };
        assert(self@ == paid);
        if had_child_cost {
            activities.push(ChildAgentActivity::Usage(self.tracker.totals()));
        }
        assert(activities@ =~= seq![
            ChildAgentActivity::ToolCompleted {
                call_id: was.requests[was.index].id,
                name: was.requests[was.index].name,
                status: tool_run_status(execution.result.terminal.status),
            },
        ] + paid.usage_activity(execution.child_cost is Some));
        if let Some(stop) = child_agent_budget_exhausted_result(
            self.max_cost_usd_micros,
            &self.tracker,
        ) {
            return self.finish(activities, stop);
        }
        match fold {
            ChildAgentToolResultFold::Stop(result) => self.finish(activities, result),
            ChildAgentToolResultFold::Continue => {
                assert(index < count);
                self.index = index + 1;
                self.next_tool(activities)
            },
        }
    }

    fn after_compaction(&mut self, conversation: Conversation) -> (r: ChildLoopStep)
        ensures
            (final(self)@, r@) == old(self)@.after_compaction(conversation@),
    {
        self.setup.conversation = conversation;
        match self.phase {
            ChildLoopPhase::Recovering => {
                confirm_child_retry(&mut self.setup);
                match child_agent_budget_exhausted_result(
                    self.max_cost_usd_micros,
                    &self.tracker,
                ) {
                    Some(stop) => self.finish(Vec::new(), stop),
                    None => self.take_turn(Vec::new()),
                }
            },
            _ => {
                self.phase = ChildLoopPhase::Calling;
                let activities: Vec<ChildAgentActivity> = Vec::new();
                assert(activities@ =~= Seq::<ChildAgentActivity>::empty());
                ChildLoopStep { activities, action: ChildLoopAction::CallModel }
            },
        }
    }

    /// Moves on after an event.
    pub fn next(&mut self, event: ChildLoopEvent) -> (r: ChildLoopStep)
        requires
            old(self)@.wf(),
            old(self)@.expects(event),
        ensures
            (final(self)@, r@) == old(self)@.after(event),
            final(self)@.wf(),
    {
        match event {
            ChildLoopEvent::Failed { error } => {
                self.phase = ChildLoopPhase::Done;
                let activities: Vec<ChildAgentActivity> = Vec::new();
                assert(activities@ =~= Seq::<ChildAgentActivity>::empty());
                ChildLoopStep { activities, action: ChildLoopAction::Fail { error } }
            },
            ChildLoopEvent::Compacted { conversation } => self.after_compaction(conversation),
            ChildLoopEvent::ModelTurn { model, turn, prompt_too_long } => {
                self.tracker.set_model(Some(model));
                match turn {
                    ChildAgentProviderTurn::Fail { result, usage } => {
                        let activities = self.record_child_provider_usage(usage);
                        self.finish_within_cost(activities, result)
                    },
                    ChildAgentProviderTurn::Response(response) => self.after_response(
                        response,
                        prompt_too_long,
                    ),
                }
            },
            ChildLoopEvent::ToolExecuted { execution } => self.after_tool(execution),
        }
    }
}

/// A lease over the child's own budget.
fn own_lease(budget: BudgetSpec) -> (r: BudgetLease)
    requires
        budget.valid(),
    ensures
        r.spec_view() == budget,
        r.usage_view() == BudgetUsage::zero_spec(),
{
    let mut controller = BudgetController::new(budget);
    match controller.child_lease(budget, 0) {
        Ok(lease) => lease,
        Err(_) => vstd::pervasive::unreached(),
    }
}

/// Every result carries the receipt of all that was consumed.
pub proof fn results_carry_their_receipt(loop_: ChildLoopView, event: ChildLoopEvent)
    ensures
        loop_.after(event).1.action matches ChildLoopActionView::Finish { result }
            ==> result.budget_usage == Some(loop_.after(event).0.consumed),
{
}

/// No tool is executed once the cost limit is exceeded.
pub proof fn no_tool_runs_over_cost(loop_: ChildLoopView, event: ChildLoopEvent)
    ensures
        loop_.after(event).1.action is ExecuteTool ==> loop_.after(event).0.over_cost() is None,
{
}

/// What was consumed is within what a lease allows in turns, and the lease was
/// charged with no more than was consumed.
pub open spec fn within_lease(loop_: ChildLoopView) -> bool {
    &&& loop_.lease_usage.turns == loop_.consumed.turns
    &&& loop_.lease_usage.tool_calls <= loop_.consumed.tool_calls
    &&& loop_.lease_usage.cost_usd_micros <= loop_.consumed.cost_usd_micros
    &&& loop_.lease_spec.max_turns is Some ==> loop_.consumed.turns <= loop_.lease_spec.max_turns->0
    &&& loop_.lease_spec.max_tool_calls is Some ==> loop_.lease_usage.tool_calls
        <= loop_.lease_spec.max_tool_calls->0
}

proof fn turns_stay_within_the_lease(loop_: ChildLoopView, activities: Seq<ChildAgentActivity>)
    requires
        within_lease(loop_),
    ensures
        within_lease(loop_.take_turn(activities).0),
        loop_.take_turn(activities).0.lease_spec == loop_.lease_spec,
{
}

proof fn tools_stay_within_the_lease(loop_: ChildLoopView, activities: Seq<ChildAgentActivity>)
    requires
        within_lease(loop_),
    ensures
        within_lease(loop_.next_tool(activities).0),
        loop_.next_tool(activities).0.lease_spec == loop_.lease_spec,
{
    turns_stay_within_the_lease(loop_, activities);
}

proof fn costs_stay_within_the_lease(loop_: ChildLoopView, totals: UsageTotals)
    requires
        within_lease(loop_),
    ensures
        within_lease(loop_.charged(totals)),
        loop_.charged(totals).lease_spec == loop_.lease_spec,
{
}

proof fn responses_stay_within_the_lease(
    loop_: ChildLoopView,
    response: crate::provider_types::ProviderResponse,
    prompt_too_long: bool,
)
    requires
        within_lease(loop_),
    ensures
        within_lease(loop_.after_response(response, prompt_too_long).0),
        loop_.after_response(response, prompt_too_long).0.lease_spec == loop_.lease_spec,
{
    let totals = totals_after(loop_.totals, response.usage);
    costs_stay_within_the_lease(loop_, totals);
    let paid = loop_.charged(totals);
    let activities = paid.usage_activity(counts(response.usage));
    let tooled = ChildLoopView {
        conversation: with_message(loop_.conversation, assistant_message(response)),
        retried: false,
        requests: requested_tools(response.steps@),
        index: 0,
        ..paid
    };
    assert(within_lease(tooled));
    tools_stay_within_the_lease(tooled, activities);
}

proof fn tool_results_stay_within_the_lease(
    loop_: ChildLoopView,
    execution: ChildAgentToolExecution,
)
    requires
        within_lease(loop_),
    ensures
        within_lease(loop_.after_tool(execution).0),
        loop_.after_tool(execution).0.lease_spec == loop_.lease_spec,
{
    let totals = totals_merged(loop_.totals, execution.child_cost);
    costs_stay_within_the_lease(loop_, totals);
    let paid = ChildLoopView {
        conversation: recorded_result(
            loop_.conversation,
            loop_.requests,
            loop_.index,
            execution,
        ),
        ..loop_.charged(totals)
    };
    let request = loop_.requests[loop_.index];
    let activities = seq![
        ChildAgentActivity::ToolCompleted {
            call_id: request.id,
            name: request.name,
            status: tool_run_status(execution.result.terminal.status),
        },
    ] + paid.usage_activity(execution.child_cost is Some);
    let moved = ChildLoopView { index: loop_.index + 1, ..paid };
    assert(within_lease(moved));
    tools_stay_within_the_lease(moved, activities);
}

/// A child takes no more turns than its lease allows.
pub proof fn children_stay_within_their_lease(loop_: ChildLoopView, event: ChildLoopEvent)
    requires
        within_lease(loop_),
    ensures
        within_lease(loop_.after(event).0),
        loop_.after(event).0.lease_spec == loop_.lease_spec,
{
    match event {
        ChildLoopEvent::Failed { .. } => {},
        ChildLoopEvent::Compacted { conversation } => {
            let recovered = ChildLoopView { conversation: conversation@, retried: true, ..loop_ };
            turns_stay_within_the_lease(recovered, Seq::empty());
        },
        ChildLoopEvent::ModelTurn { model, turn, prompt_too_long } => {
            let routed = ChildLoopView { model: Some(model), ..loop_ };
            assert(within_lease(routed));
            match turn {
                ChildAgentProviderTurn::Fail { usage, .. } => {
                    costs_stay_within_the_lease(routed, totals_after(routed.totals, usage));
                },
                ChildAgentProviderTurn::Response(response) => {
                    responses_stay_within_the_lease(routed, response, prompt_too_long);
                },
            }
        },
        ChildLoopEvent::ToolExecuted { execution } => {
            tool_results_stay_within_the_lease(loop_, execution);
        },
    }
}

/// A prompt that is too long right after a retry ends the child.
pub proof fn a_second_long_prompt_is_final(
    loop_: ChildLoopView,
    model: String,
    response: crate::provider_types::ProviderResponse,
)
    requires
        loop_.retried,
        first_error(response.steps@) is Some,
    ensures
        loop_.after(
            ChildLoopEvent::ModelTurn {
                model,
                turn: ChildAgentProviderTurn::Response(response),
                prompt_too_long: true,
            },
        ).1.action is Finish,
{
}

/// The child has not spent more than it may.
pub open spec fn affordable(loop_: ChildLoopView) -> bool {
    loop_.max_cost_usd_micros matches Some(max) ==> loop_.totals.cost_usd_micros <= max
}

/// A turn is reported among the activities.
pub open spec fn reports_a_turn(activities: Seq<ChildAgentActivity>) -> bool {
    exists|i: int| 0 <= i < activities.len() && (#[trigger] activities[i]) is TurnStarted
}

/// A tool that does not stop its child is followed by the next call of the same
/// response, as long as there is one and the cost is not exceeded. Only behind the
/// last call does the next turn begin, or the child end.
pub proof fn tools_follow_one_another(loop_: ChildLoopView, execution: ChildAgentToolExecution)
    requires
        0 <= loop_.index < loop_.requests.len(),
        !execution.should_stop,
        affordable(loop_.after(ChildLoopEvent::ToolExecuted { execution }).0),
    ensures
        ({
            let (next, step) = loop_.after(ChildLoopEvent::ToolExecuted { execution });
            &&& loop_.index + 1 < loop_.requests.len() ==> {
                &&& step.action == (ChildLoopActionView::ExecuteTool {
                    request: loop_.requests[loop_.index + 1],
                })
                &&& next.phase == ChildLoopPhase::Executing
                &&& next.requests == loop_.requests
                &&& next.index == loop_.index + 1
                &&& next.turn == loop_.turn
                &&& !reports_a_turn(step.activities)
            }
            &&& loop_.index + 1 == loop_.requests.len() ==> {
                &&& step.action is CompactIfNeeded || step.action is Finish
                &&& step.action is CompactIfNeeded <==> reports_a_turn(step.activities)
            }
        }),
{
    let (next, step) = loop_.after(ChildLoopEvent::ToolExecuted { execution });
    if step.action is CompactIfNeeded {
        assert(step.activities.last() is TurnStarted);
        assert(step.activities[step.activities.len() - 1] is TurnStarted);
    } else {
        assert forall|i: int| 0 <= i < step.activities.len() implies !((
        #[trigger] step.activities[i]) is TurnStarted) by {}
    }
}

/// A response without an error that asks for tools starts with the first of its
/// calls, and holds all of them, as long as the cost is not exceeded.
pub proof fn responses_start_with_their_first_tool(
    loop_: ChildLoopView,
    model: String,
    response: ProviderResponse,
    prompt_too_long: bool,
)
    requires
        forall|i: int|
            0 <= i < response.steps@.len() ==> !((#[trigger] response.steps@[i]) is Error),
        response.tool_calls@.len() > 0,
        affordable(loop_),
        affordable(
            loop_.after(
                ChildLoopEvent::ModelTurn {
                    model,
                    turn: ChildAgentProviderTurn::Response(response),
                    prompt_too_long,
                },
            ).0,
        ),
    ensures
        ({
            let (next, step) = loop_.after(
                ChildLoopEvent::ModelTurn {
                    model,
                    turn: ChildAgentProviderTurn::Response(response),
                    prompt_too_long,
                },
            );
            let requests = requested_tools(response.steps@);
            &&& next.requests == requests
            &&& requests.len() > 0 ==> {
                &&& next.phase == ChildLoopPhase::Executing
                &&& next.index == 0
                &&& step.action == (ChildLoopActionView::ExecuteTool { request: requests[0] })
                &&& !reports_a_turn(step.activities)
            }
        }),
{
    errors_are_found(response.steps@);
    let (next, step) = loop_.after(
        ChildLoopEvent::ModelTurn {
            model,
            turn: ChildAgentProviderTurn::Response(response),
            prompt_too_long,
        },
    );
    if requested_tools(response.steps@).len() > 0 {
        assert forall|i: int| 0 <= i < step.activities.len() implies !((
        #[trigger] step.activities[i]) is TurnStarted) by {}
    }
}

/// The states and the steps of a loop whose tools were executed one by one, none
/// of which stopped the child or cost too much.
pub open spec fn tool_run(
    states: Seq<ChildLoopView>,
    steps: Seq<ChildLoopStepView>,
    executions: Seq<ChildAgentToolExecution>,
) -> bool {
    &&& states.len() == executions.len() + 1
    &&& steps.len() == executions.len() + 1
    &&& forall|k: int|
        0 <= k < executions.len() ==> {
            &&& (states[k + 1], steps[k + 1]) == (#[trigger] states[k]).after(
                ChildLoopEvent::ToolExecuted { execution: executions[k] },
            )
            &&& !executions[k].should_stop
            &&& affordable(states[k + 1])
        }
}

proof fn runs_keep_their_requests(
    states: Seq<ChildLoopView>,
    steps: Seq<ChildLoopStepView>,
    executions: Seq<ChildAgentToolExecution>,
    k: int,
)
    requires
        tool_run(states, steps, executions),
        states[0].phase == ChildLoopPhase::Executing,
        states[0].index == 0,
        executions.len() <= states[0].requests.len(),
        0 <= k <= executions.len(),
        k < states[0].requests.len(),
    ensures
        states[k].requests == states[0].requests,
        states[k].index == k,
        k > 0 ==> steps[k].action == (ChildLoopActionView::ExecuteTool {
            request: states[0].requests[k],
        }) && !reports_a_turn(steps[k].activities),
    decreases k,
{
    if k > 0 {
        runs_keep_their_requests(states, steps, executions, k - 1);
        assert((states[k], steps[k]) == states[k - 1].after(
            ChildLoopEvent::ToolExecuted { execution: executions[k - 1] },
        ));
        tools_follow_one_another(states[k - 1], executions[k - 1]);
    }
}

/// Every call of a response is executed, each once and in the order of the
/// response, before the next turn begins: along a run in which no tool stops the
/// child and the cost is not exceeded, the tools that are asked for are exactly
/// the calls of the response. The turn ends when the last of them is done.
pub proof fn responses_run_all_their_tools(
    loop_: ChildLoopView,
    model: String,
    response: ProviderResponse,
    prompt_too_long: bool,
    states: Seq<ChildLoopView>,
    steps: Seq<ChildLoopStepView>,
    executions: Seq<ChildAgentToolExecution>,
)
    requires
        forall|i: int|
            0 <= i < response.steps@.len() ==> !((#[trigger] response.steps@[i]) is Error),
        response.tool_calls@.len() > 0,
        requested_tools(response.steps@).len() > 0,
        executions.len() <= requested_tools(response.steps@).len(),
        tool_run(states, steps, executions),
        (states[0], steps[0]) == loop_.after(
            ChildLoopEvent::ModelTurn {
                model,
                turn: ChildAgentProviderTurn::Response(response),
                prompt_too_long,
            },
        ),
        affordable(loop_),
        affordable(states[0]),
    ensures
        forall|k: int|
            0 <= k < steps.len() && k < requested_tools(response.steps@).len() ==> {
                &&& (#[trigger] steps[k]).action == (ChildLoopActionView::ExecuteTool {
                    request: requested_tools(response.steps@)[k],
                })
                &&& !reports_a_turn(steps[k].activities)
            },
        executions.len() == requested_tools(response.steps@).len() ==> {
            &&& steps.last().action is CompactIfNeeded || steps.last().action is Finish
            &&& steps.last().action is CompactIfNeeded <==> reports_a_turn(
                steps.last().activities,
            )
        },
{
    responses_start_with_their_first_tool(loop_, model, response, prompt_too_long);
    let requests = requested_tools(response.steps@);
    assert forall|k: int| 0 <= k < steps.len() && k < requests.len() implies {
        &&& (#[trigger] steps[k]).action == (ChildLoopActionView::ExecuteTool {
            request: requests[k],
        })
        &&& !reports_a_turn(steps[k].activities)
    } by {
        runs_keep_their_requests(states, steps, executions, k);
    }
    if executions.len() == requests.len() {
        let n = executions.len() as int;
        runs_keep_their_requests(states, steps, executions, n - 1);
        assert((states[n], steps[n]) == states[n - 1].after(
            ChildLoopEvent::ToolExecuted { execution: executions[n - 1] },
        ));
        tools_follow_one_another(states[n - 1], executions[n - 1]);
    }
}

/// The calls that wait for an answer are those of the response that were not
/// executed yet.
pub open spec fn only_pending_calls_are_open(loop_: ChildLoopView) -> bool {
    forall|id: Seq<char>| #[trigger]
        unanswered(loop_.conversation.messages).contains(id) ==> exists|k: int|
            loop_.index <= k < loop_.requests.len() && (#[trigger] loop_.requests[k]).id@ == id
}

/// What a tool gave is recorded as the answer to its call, and the calls that wait
/// for one are always those that were not executed yet. So no turn begins, and no
/// tool stops the child, with a call left unanswered.
pub proof fn turns_begin_with_every_call_answered(
    loop_: ChildLoopView,
    execution: ChildAgentToolExecution,
)
    requires
        0 <= loop_.index < loop_.requests.len(),
        loop_.requests[loop_.index].id@ == execution.result.id@,
        only_pending_calls_are_open(loop_),
    ensures
        ({
            let (next, step) = loop_.after(ChildLoopEvent::ToolExecuted { execution });
            let n = loop_.conversation.messages.len() as int;
            &&& next.conversation.messages.len() > n
            &&& next.conversation.messages.take(n) == loop_.conversation.messages
            &&& next.conversation.messages[n] == (MessageView::Tool {
                tool_call_id: execution.result.id@,
                content: execution.result.content@,
                terminal: Some(execution.result.terminal),
                pinned: false,
            })
            &&& step.action is ExecuteTool ==> only_pending_calls_are_open(next)
            &&& step.action is CompactIfNeeded || execution.should_stop ==> unanswered(
                next.conversation.messages,
            ) == Set::<Seq<char>>::empty()
        }),
{
    let (next, step) = loop_.after(ChildLoopEvent::ToolExecuted { execution });
    let n = loop_.conversation.messages.len() as int;
    assert(next.conversation.messages.take(n) =~= loop_.conversation.messages);
    if execution.should_stop {
        crate::child_agent_response_folding::stopping_settles_the_turn(
            loop_.conversation,
            loop_.requests,
            loop_.index,
            execution,
        );
        assert(unanswered(next.conversation.messages) =~= Set::<Seq<char>>::empty());
    } else {
        let messages = next.conversation.messages;
        assert(messages.drop_last() =~= loop_.conversation.messages);
        assert forall|id: Seq<char>| #[trigger]
            unanswered(messages).contains(id) implies exists|k: int|
            loop_.index + 1 <= k < loop_.requests.len() && (#[trigger] loop_.requests[k]).id@
                == id by {
            assert(unanswered(loop_.conversation.messages).contains(id));
            let k = choose|k: int|
                loop_.index <= k < loop_.requests.len() && (#[trigger] loop_.requests[k]).id@ == id;
            assert(k != loop_.index);
            assert(loop_.index + 1 <= k < loop_.requests.len() && loop_.requests[k].id@ == id);
        }
        if step.action is ExecuteTool {
            assert(next.requests == loop_.requests && next.index == loop_.index + 1);
            assert(only_pending_calls_are_open(next));
        }
        if step.action is CompactIfNeeded {
            assert forall|id: Seq<char>| !(#[trigger] unanswered(messages).contains(id)) by {
                if unanswered(messages).contains(id) {
                    let k = choose|k: int|
                        loop_.index + 1 <= k < loop_.requests.len() && (
                        #[trigger] loop_.requests[k]).id@ == id;
                    assert(loop_.index + 1 < loop_.requests.len());
                }
            }
            assert(unanswered(messages) =~= Set::<Seq<char>>::empty());
        }
    }
}

/// A response is recorded as it came, and opens the calls that it asks for and no
/// others.
pub proof fn responses_open_the_calls_they_ask_for(
    loop_: ChildLoopView,
    model: String,
    response: ProviderResponse,
    prompt_too_long: bool,
)
    requires
        forall|i: int|
            0 <= i < response.steps@.len() ==> !((#[trigger] response.steps@[i]) is Error),
        affordable(loop_),
        unanswered(loop_.conversation.messages) == Set::<Seq<char>>::empty(),
        forall|i: int|
            0 <= i < response.tool_calls@.len() ==> exists|k: int|
                0 <= k < requested_tools(response.steps@).len() && (#[trigger] requested_tools(
                    response.steps@,
                )[k]).id@ == (#[trigger] response.tool_calls@[i]).id@,
    ensures
        ({
            let (next, step) = loop_.after(
                ChildLoopEvent::ModelTurn {
                    model,
                    turn: ChildAgentProviderTurn::Response(response),
                    prompt_too_long,
                },
            );
            let recorded = next.conversation.messages;
            &&& recorded.len() == loop_.conversation.messages.len() + 1
            &&& recorded.drop_last() == loop_.conversation.messages
            &&& recorded.last() matches MessageView::Assistant { content, tool_calls, .. } && {
                &&& content == (match response.assistant_content {
                    Some(text) => Some(text@),
                    None => None,
                })
                &&& tool_calls.len() == response.tool_calls@.len()
                &&& forall|i: int|
                    0 <= i < tool_calls.len() ==> #[trigger] tool_calls[i]
                        == response.tool_calls@[i]@
            }
            &&& step.action is ExecuteTool ==> only_pending_calls_are_open(next)
        }),
{
    errors_are_found(response.steps@);
    let (next, step) = loop_.after(
        ChildLoopEvent::ModelTurn {
            model,
            turn: ChildAgentProviderTurn::Response(response),
            prompt_too_long,
        },
    );
    let recorded = next.conversation.messages;
    assert(recorded.drop_last() =~= loop_.conversation.messages);
    if step.action is ExecuteTool {
        let calls = recorded.last()->tool_calls;
        assert forall|id: Seq<char>| #[trigger]
            unanswered(recorded).contains(id) implies exists|k: int|
            next.index <= k < next.requests.len() && (#[trigger] next.requests[k]).id@ == id by {
            assert(crate::conversation::call_ids(calls).contains(id));
            let i = choose|i: int| 0 <= i < calls.len() && (#[trigger] calls[i]).id == id;
            assert(calls[i] == response.tool_calls@[i]@);
            let k = choose|k: int|
                0 <= k < requested_tools(response.steps@).len() && (#[trigger] requested_tools(
                    response.steps@,
                )[k]).id@ == response.tool_calls@[i].id@;
            assert(next.requests[k].id@ == id);
        }
    }
}

/// The receipt counts a turn for each turn that begins, a call for each tool that
/// is asked for, and the cost by which the totals grow. (Counters stop at their
/// largest value.)
pub proof fn receipts_count_what_is_done(loop_: ChildLoopView, event: ChildLoopEvent)
    requires
        loop_.consumed.turns < u32::MAX,
        loop_.consumed.tool_calls < u32::MAX,
        loop_.expects(event),
    ensures
        ({
            let (next, step) = loop_.after(event);
            &&& next.consumed.turns == loop_.consumed.turns + (if step.action is CompactIfNeeded {
                1int
            } else {
                0
            })
            &&& next.consumed.tool_calls == loop_.consumed.tool_calls + (
            if step.action is ExecuteTool {
                1int
            } else {
                0
            })
            &&& loop_.totals.cost_usd_micros <= next.totals.cost_usd_micros
            &&& loop_.consumed.cost_usd_micros + (next.totals.cost_usd_micros
                - loop_.totals.cost_usd_micros) <= u64::MAX ==> next.consumed.cost_usd_micros
                == loop_.consumed.cost_usd_micros + (next.totals.cost_usd_micros
                - loop_.totals.cost_usd_micros)
            &&& next.consumed.wall_time_ms == loop_.consumed.wall_time_ms
            &&& next.max_cost_usd_micros == loop_.max_cost_usd_micros
        }),
{
}

/// The totals grow by what a model call reports and by what the agents of a tool
/// cost, and by nothing else. A response without an error is not counted where the
/// cost was exceeded before it came.
pub proof fn totals_grow_by_what_is_reported(loop_: ChildLoopView, event: ChildLoopEvent)
    requires
        loop_.expects(event),
    ensures
        ({
            let next = loop_.after(event).0;
            &&& event is Compacted || event is Failed ==> next.totals == loop_.totals
            &&& event matches ChildLoopEvent::ToolExecuted { execution } ==> {
                &&& execution.child_cost is None ==> next.totals == loop_.totals
                &&& execution.child_cost is Some && loop_.totals.cost_usd_micros
                    + execution.child_cost->0.totals.cost_usd_micros <= u64::MAX
                    ==> next.totals.cost_usd_micros == loop_.totals.cost_usd_micros
                    + execution.child_cost->0.totals.cost_usd_micros
                &&& execution.child_cost is Some && loop_.totals.input_tokens
                    + execution.child_cost->0.totals.input_tokens <= u64::MAX
                    ==> next.totals.input_tokens == loop_.totals.input_tokens
                    + execution.child_cost->0.totals.input_tokens
                &&& execution.child_cost is Some && loop_.totals.output_tokens
                    + execution.child_cost->0.totals.output_tokens <= u64::MAX
                    ==> next.totals.output_tokens == loop_.totals.output_tokens
                    + execution.child_cost->0.totals.output_tokens
                &&& execution.child_cost is Some && loop_.totals.cache_tokens
                    + execution.child_cost->0.totals.cache_tokens <= u64::MAX
                    ==> next.totals.cache_tokens == loop_.totals.cache_tokens
                    + execution.child_cost->0.totals.cache_tokens
            }
            &&& event matches ChildLoopEvent::ModelTurn { turn, .. } ==> {
                let usage = match turn {
                    ChildAgentProviderTurn::Fail { usage, .. } => usage,
                    ChildAgentProviderTurn::Response(response) => response.usage,
                };
                &&& usage is None ==> next.totals == loop_.totals
                &&& usage matches Some(used) ==> (used.input_tokens > 0 || used.output_tokens > 0
                    || used.cache_tokens > 0) && affordable(loop_) ==> {
                    &&& loop_.totals.cost_usd_micros + used.cost_usd_micros <= u64::MAX
                        ==> next.totals.cost_usd_micros == loop_.totals.cost_usd_micros
                        + used.cost_usd_micros
                    &&& loop_.totals.input_tokens + used.input_tokens <= u64::MAX
                        ==> next.totals.input_tokens == loop_.totals.input_tokens
                        + used.input_tokens
                    &&& loop_.totals.output_tokens + used.output_tokens <= u64::MAX
                        ==> next.totals.output_tokens == loop_.totals.output_tokens
                        + used.output_tokens
                    &&& loop_.totals.cache_tokens + used.cache_tokens <= u64::MAX
                        ==> next.totals.cache_tokens == loop_.totals.cache_tokens
                        + used.cache_tokens
                }
            }
        }),
{
}

/// A turn begins only while the lease has room for it, and counts one up; where it
/// has none, the child ends as failed instead.
pub proof fn turns_begin_while_the_lease_has_room(
    loop_: ChildLoopView,
    activities: Seq<ChildAgentActivity>,
)
    ensures
        ({
            let (next, step) = loop_.take_turn(activities);
            let room = {
                &&& loop_.lease_spec.max_turns matches Some(max) ==> loop_.lease_usage.turns < max
                &&& loop_.lease_spec.max_tool_calls matches Some(max)
                    ==> loop_.lease_usage.tool_calls < max
                &&& loop_.lease_spec.max_cost_usd_micros matches Some(max)
                    ==> loop_.lease_usage.cost_usd_micros <= max
                &&& loop_.lease_spec.max_wall_time_ms matches Some(max)
                    ==> loop_.lease_usage.wall_time_ms <= max
            };
            &&& room ==> step.action is CompactIfNeeded && next.phase
                == ChildLoopPhase::Compacting
            &&& room && loop_.turn < u32::MAX ==> step.activities == activities.push(
                ChildAgentActivity::TurnStarted { turn: (loop_.turn + 1) as u32 },
            ) && next.turn == loop_.turn + 1
            &&& !room ==> (step.action matches ChildLoopActionView::Finish { result }
                && result.status == RunStatus::Failed && result.error is Some
                && result.final_message is None) && step.activities == activities
            &&& next.conversation == loop_.conversation
        }),
{
}

/// A loop starts with a turn like any other: what its lease was charged with
/// before counts as consumed, and the child's own budget limits its cost.
pub proof fn loops_start_from_their_lease(
    setup: ChildAgentLoopSetup,
    lease_spec: BudgetSpec,
    lease_usage: BudgetUsage,
    budget: BudgetSpec,
    tracker: CostTracker,
)
    ensures
        ({
            let start = unstarted(setup, lease_spec, lease_usage, budget, tracker);
            &&& start.turn == setup.turn
            &&& start.conversation == setup.conversation@
            &&& start.totals == tracker.totals
            &&& start.consumed == lease_usage
            &&& start.lease_usage == lease_usage
            &&& start.lease_spec == lease_spec
            &&& start.max_cost_usd_micros == budget.max_cost_usd_micros
            &&& start.requests.len() == 0
        }),
{
}

/// A child ends well by a response that has neither an error nor a tool call, and
/// with the text of that response; a tool that stops it gives it its own status
/// and error. Whatever it costs too much, it fails.
pub proof fn children_end_as_their_last_step(loop_: ChildLoopView, event: ChildLoopEvent)
    requires
        loop_.expects(event),
        0 <= loop_.index,
    ensures
        ({
            let (next, step) = loop_.after(event);
            &&& step.action matches ChildLoopActionView::Finish { result } ==> {
                &&& !affordable(next) ==> result.status == RunStatus::Failed
                    && result.final_message is None
                &&& affordable(next) && event is ToolExecuted
                    && event->execution.should_stop ==> {
                    let ended = event->execution.result;
                    &&& result.final_message is None
                    &&& result.error == (match ended.error {
                        Some(text) => Some(text@),
                        None => None,
                    })
                    &&& result.status == RunStatus::Success <==> ended.terminal.status
                        == ToolStatus::Completed
                    &&& result.status == RunStatus::Cancelled <==> ended.terminal.status
                        == ToolStatus::Cancelled
                    &&& result.status == RunStatus::Failed <==> ended.terminal.status
                        == ToolStatus::Failed || ended.terminal.status == ToolStatus::Indeterminate
                }
                &&& event is ToolExecuted && !event->execution.should_stop ==> result.status
                    == RunStatus::Failed
                &&& event is Compacted ==> result.status == RunStatus::Failed
                &&& event matches ChildLoopEvent::ModelTurn {
                    turn: ChildAgentProviderTurn::Response(response),
                    ..
                } ==> (result.status == RunStatus::Success ==> {
                    &&& response.tool_calls@.len() == 0
                    &&& forall|i: int|
                        0 <= i < response.steps@.len() ==> !((
                        #[trigger] response.steps@[i]) is Error)
                    &&& result.error is None
                    &&& result.final_message == (match response.assistant_content {
                        Some(text) => Some(text@),
                        None => None,
                    })
                })
                &&& event matches ChildLoopEvent::ModelTurn {
                    turn: ChildAgentProviderTurn::Fail { result: failed, .. },
                    ..
                } ==> (affordable(next) ==> result.status == failed.status && result.error
                    == failed@.error && result.final_message == failed@.final_message)
            }
            &&& step.action is Finish || step.action is Fail <==> next.phase
                == ChildLoopPhase::Done
            &&& event matches ChildLoopEvent::ToolExecuted { execution } ==> (
            execution.should_stop || !affordable(next) ==> step.action is Finish)
        }),
{
    if let ChildLoopEvent::ModelTurn {
        turn: ChildAgentProviderTurn::Response(response),
        ..
    } = event {
        errors_are_found(response.steps@);
    }
}

/// A response without an error or a tool call ends the child as a success, unless
/// it costs too much.
pub proof fn plain_answers_complete_the_child(
    loop_: ChildLoopView,
    model: String,
    response: ProviderResponse,
    prompt_too_long: bool,
)
    requires
        forall|i: int|
            0 <= i < response.steps@.len() ==> !((#[trigger] response.steps@[i]) is Error),
        response.tool_calls@.len() == 0,
        affordable(loop_),
    ensures
        ({
            let (next, step) = loop_.after(
                ChildLoopEvent::ModelTurn {
                    model,
                    turn: ChildAgentProviderTurn::Response(response),
                    prompt_too_long,
                },
            );
            step.action matches ChildLoopActionView::Finish { result } && (affordable(next)
                ==> result.status == RunStatus::Success && result.error is None
                && result.final_message == (match response.assistant_content {
                Some(text) => Some(text@),
                None => None,
            })) && (!affordable(next) ==> result.status == RunStatus::Failed)
        }),
{
    errors_are_found(response.steps@);
}

/// A response with an error ends the child as failed, with the first error; or it
/// is compacted and tried again, once, where the prompt was too long.
pub proof fn errors_fail_or_are_retried(
    loop_: ChildLoopView,
    model: String,
    response: ProviderResponse,
    prompt_too_long: bool,
    i: int,
)
    requires
        0 <= i < response.steps@.len(),
        response.steps@[i] is Error,
        forall|j: int| 0 <= j < i ==> !((#[trigger] response.steps@[j]) is Error),
    ensures
        ({
            let (next, step) = loop_.after(
                ChildLoopEvent::ModelTurn {
                    model,
                    turn: ChildAgentProviderTurn::Response(response),
                    prompt_too_long,
                },
            );
            &&& next.conversation == loop_.conversation
            &&& prompt_too_long && !loop_.retried ==> step.action == (
            ChildLoopActionView::Compact { trigger: RuntimeCompactionTrigger::PromptTooLong })
                && next.phase == ChildLoopPhase::Recovering
            &&& !(prompt_too_long && !loop_.retried) ==> (
            step.action matches ChildLoopActionView::Finish { result } && result.status
                == RunStatus::Failed && (affordable(next) ==> (
            response.steps@[i] matches ProviderStep::Error(message) && result.error == Some(
                message@,
            ))))
        }),
{
    crate::provider_types::the_first_error_is_found(response.steps@, i);
}

/// Before every model call the conversation is compacted where it needs to be, and
/// the model is called with what came of that. After a long prompt the next turn
/// follows, and its error may not be retried again.
pub proof fn models_see_the_compacted_conversation(
    loop_: ChildLoopView,
    conversation: Conversation,
)
    ensures
        ({
            let (next, step) = loop_.after(ChildLoopEvent::Compacted { conversation });
            &&& next.conversation == conversation@
            &&& loop_.phase == ChildLoopPhase::Compacting ==> step.action
                == ChildLoopActionView::CallModel && next.phase == ChildLoopPhase::Calling
                && step.activities.len() == 0 && next.retried == loop_.retried
            &&& loop_.phase == ChildLoopPhase::Recovering ==> next.retried && (
            step.action is CompactIfNeeded || step.action is Finish)
            &&& !(step.action is ExecuteTool)
        }),
{
}

/// As long as a lease has room it is charged with what the child consumes: a turn
/// for each turn that begins, the cost by which the totals grow, and a call for each
/// tool, unless that cost has just exceeded the lease. A lease without room is
/// charged with nothing more.
pub proof fn leases_are_charged_while_they_have_room(loop_: ChildLoopView, event: ChildLoopEvent)
    requires
        loop_.lease_usage.turns < u32::MAX,
        loop_.lease_usage.tool_calls < u32::MAX,
        loop_.expects(event),
    ensures
        ({
            let (next, step) = loop_.after(event);
            let room = {
                &&& loop_.lease_spec.max_turns matches Some(max) ==> loop_.lease_usage.turns < max
                &&& loop_.lease_spec.max_tool_calls matches Some(max)
                    ==> loop_.lease_usage.tool_calls < max
                &&& loop_.lease_spec.max_cost_usd_micros matches Some(max)
                    ==> loop_.lease_usage.cost_usd_micros <= max
                &&& loop_.lease_spec.max_wall_time_ms matches Some(max)
                    ==> loop_.lease_usage.wall_time_ms <= max
            };
            let within_cost = loop_.lease_spec.max_cost_usd_micros matches Some(max)
                ==> next.lease_usage.cost_usd_micros <= max;
            let cost = next.totals.cost_usd_micros - loop_.totals.cost_usd_micros;
            &&& !room ==> next.lease_usage == loop_.lease_usage && !(step.action
                is CompactIfNeeded)
            &&& next.lease_usage.turns == loop_.lease_usage.turns + (if step.action
                is CompactIfNeeded {
                1int
            } else {
                0
            })
            &&& next.lease_usage.tool_calls == loop_.lease_usage.tool_calls + (if room
                && within_cost && step.action is ExecuteTool {
                1int
            } else {
                0
            })
            &&& room && loop_.lease_usage.cost_usd_micros + cost <= u64::MAX
                ==> next.lease_usage.cost_usd_micros == loop_.lease_usage.cost_usd_micros + cost
            &&& next.lease_usage.wall_time_ms == loop_.lease_usage.wall_time_ms
            &&& next.lease_spec == loop_.lease_spec
        }),
{
}

/// Each step announces what happened, in this order: the tool that ended, with its
/// call and how it ended; the totals, where something was reported; and the tool or
/// the turn that begins.
pub proof fn steps_are_announced(loop_: ChildLoopView, event: ChildLoopEvent)
    requires
        loop_.expects(event),
        affordable(loop_),
    ensures
        ({
            let (next, step) = loop_.after(event);
            let ended = event is ToolExecuted;
            let reported = match event {
                ChildLoopEvent::ToolExecuted { execution } => execution.child_cost is Some,
                ChildLoopEvent::ModelTurn { turn, .. } => match turn {
                    ChildAgentProviderTurn::Fail { usage, .. } => usage matches Some(used) && (
                    used.input_tokens > 0 || used.output_tokens > 0 || used.cache_tokens > 0),
                    ChildAgentProviderTurn::Response(response) => response.usage matches Some(used)
                        && (used.input_tokens > 0 || used.output_tokens > 0 || used.cache_tokens
                        > 0),
                },
                _ => false,
            };
            let begins = step.action is ExecuteTool || step.action is CompactIfNeeded;
            let n: int = if ended {
                1
            } else {
                0
            };
            &&& step.activities.len() == n + (if reported {
                1int
            } else {
                0
            }) + (if begins {
                1int
            } else {
                0
            })
            &&& event matches ChildLoopEvent::ToolExecuted { execution } ==> (step.activities[0]
                matches ChildAgentActivity::ToolCompleted { call_id, name, status } && call_id@
                == execution.result.id@ && name == loop_.requests[loop_.index].name && (status
                == RunStatus::Success <==> execution.result.terminal.status
                == ToolStatus::Completed) && (status == RunStatus::Cancelled
                <==> execution.result.terminal.status == ToolStatus::Cancelled))
            &&& reported ==> step.activities[n] == ChildAgentActivity::Usage(next.totals)
            &&& step.action matches ChildLoopActionView::ExecuteTool { request }
                ==> step.activities.last() == (ChildAgentActivity::ToolStarted {
                call_id: request.id,
                name: request.name,
                target: request.target,
            })
            &&& step.action is CompactIfNeeded ==> step.activities.last() == (
            ChildAgentActivity::TurnStarted { turn: next.turn })
        }),
{
}

} // verus!
