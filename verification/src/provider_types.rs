//! What a model provider hands back, and what it costs.

use vstd::prelude::*;
use crate::agent_registry::UsageTotals;
use crate::approval_resolution::ActionKind;
use crate::budget::{saturated_u64, saturating_sum_u64};
use crate::conversation::RawToolCall;
use crate::runtime_types::{
    ToolInvocationStarted, ToolResultKind, ToolStatus, ToolTerminal, ToolTerminalSource,
};

verus! {

/// Tokens of one model call, and their price under the model in use.
#[derive(Clone, Copy, Debug, PartialEq, Eq, Structural)]
pub struct Usage {
    pub input_tokens: u64,
    pub output_tokens: u64,
    pub cache_tokens: u64,
    pub cost_usd_micros: u64,
}

impl Usage {
    /// No tokens were used.
    pub open spec fn empty(self) -> bool {
        self.input_tokens == 0 && self.output_tokens == 0 && self.cache_tokens == 0
    }

    pub fn is_empty(&self) -> (r: bool)
        ensures
            r == self.empty(),
    {
        self.input_tokens == 0 && self.output_tokens == 0 && self.cache_tokens == 0
    }
}

/// A tool call that a model asks for.
#[derive(Debug)]
pub struct ToolRequest {
    pub id: String,
    pub name: String,
    pub action: ActionKind,
    pub target: Option<String>,
    pub raw_arguments: Option<String>,
}

impl ToolRequest {
    pub fn duplicate(&self) -> (r: Self)
        ensures
            r == *self,
    {
        ToolRequest {
            id: self.id.clone(),
            name: self.name.clone(),
            action: self.action,
            target: clone_text(&self.target),
            raw_arguments: clone_text(&self.raw_arguments),
        }
    }
}

/// An equal optional text.
pub fn clone_text(text: &Option<String>) -> (r: Option<String>)
    ensures
        r == *text,
{
    match text {
        Some(text) => Some(text.clone()),
        None => None,
    }
}

/// What a tool call gave. The content is what the model is shown.
#[derive(Debug)]
pub struct ToolResult {
    pub id: String,
    pub terminal: ToolTerminal,
    pub error: Option<String>,
    pub content: String,
}

/// The terminal facts of a call that was cancelled before it started.
pub open spec fn never_started() -> ToolTerminal {
    ToolTerminal {
        status: ToolStatus::Cancelled,
        kind: ToolResultKind::Error,
        source: ToolTerminalSource::Observed,
        started: ToolInvocationStarted::No,
    }
}

impl ToolResult {
    /// The result of a call that was cancelled before it started.
    pub fn cancelled_before_start(request: &ToolRequest, reason: &str) -> (r: Self)
        ensures
            r.id == request.id,
            r.terminal == never_started(),
            r.error matches Some(e) && e@ == reason@,
            r.content@ == reason@,
    {
        ToolResult {
            id: request.id.clone(),
            terminal: ToolTerminal {
                status: ToolStatus::Cancelled,
                kind: ToolResultKind::Error,
                source: ToolTerminalSource::Observed,
                started: ToolInvocationStarted::No,
            },
            error: Some(reason.to_owned()),
            content: reason.to_owned(),
        }
    }
}

/// One step of a provider's response.
#[derive(Debug)]
pub enum ProviderStep {
    MessageDelta(String),
    ReasoningDelta(String),
    ToolCall(ToolRequest),
    Error(String),
}

/// A provider's response to one model call.
#[derive(Debug)]
pub struct ProviderResponse {
    pub steps: Vec<ProviderStep>,
    pub assistant_content: Option<String>,
    pub assistant_reasoning: Option<String>,
    pub tool_calls: Vec<RawToolCall>,
    pub usage: Option<Usage>,
}

/// The message of the first error among the steps.
pub open spec fn first_error(steps: Seq<ProviderStep>) -> Option<String>
    decreases steps.len(),
{
    if steps.len() == 0 {
        None
    } else {
        match steps[0] {
            ProviderStep::Error(message) => Some(message),
            _ => first_error(steps.skip(1)),
        }
    }
}

/// The first error of a response.
pub fn provider_error(response: &ProviderResponse) -> (r: Option<String>)
    ensures
        r == first_error(response.steps@),
{
    let mut i: usize = 0;
    assert(response.steps@.skip(0) =~= response.steps@);
    while i < response.steps.len()
        invariant
            i <= response.steps.len(),
            first_error(response.steps@) == first_error(response.steps@.skip(i as int)),
        decreases response.steps.len() - i,
    {
        assert(response.steps@.skip(i as int).skip(1) =~= response.steps@.skip(i + 1));
        if let ProviderStep::Error(message) = &response.steps[i] {
            return Some(message.clone());
        }
        i += 1;
    }
    None
}

/// The tool calls among the steps, in order.
pub open spec fn requested_tools(steps: Seq<ProviderStep>) -> Seq<ToolRequest>
    decreases steps.len(),
{
    if steps.len() == 0 {
        Seq::empty()
    } else {
        match steps.last() {
            ProviderStep::ToolCall(request) => requested_tools(steps.drop_last()).push(request),
            _ => requested_tools(steps.drop_last()),
        }
    }
}

/// The tool calls that a response asks for, in order.
pub fn child_agent_tool_requests(response: &ProviderResponse) -> (r: Vec<ToolRequest>)
    ensures
        r@ == requested_tools(response.steps@),
{
    let mut requests: Vec<ToolRequest> = Vec::new();
    let mut i: usize = 0;
    assert(response.steps@.take(0) =~= Seq::<ProviderStep>::empty());
    while i < response.steps.len()
        invariant
            i <= response.steps.len(),
            requests@ == requested_tools(response.steps@.take(i as int)),
        decreases response.steps.len() - i,
    {
        assert(response.steps@.take(i + 1).drop_last() =~= response.steps@.take(i as int));
        if let ProviderStep::ToolCall(request) = &response.steps[i] {
            requests.push(request.duplicate());
        }
        i += 1;
    }
    assert(response.steps@.take(i as int) =~= response.steps@);
    requests
}

/// What a run has cost so far, and the model that it is billed for.
#[derive(Debug)]
pub struct CostTracker {
    pub model: Option<String>,
    pub totals: UsageTotals,
}

/// Totals after one more call.
pub open spec fn totals_with(totals: UsageTotals, usage: Usage) -> UsageTotals {
    UsageTotals {
        input_tokens: saturated_u64(totals.input_tokens, usage.input_tokens),
        output_tokens: saturated_u64(totals.output_tokens, usage.output_tokens),
        cache_tokens: saturated_u64(totals.cache_tokens, usage.cache_tokens),
        cost_usd_micros: saturated_u64(totals.cost_usd_micros, usage.cost_usd_micros),
    }
}

/// The sum of two totals.
pub open spec fn totals_sum(a: UsageTotals, b: UsageTotals) -> UsageTotals {
    UsageTotals {
        input_tokens: saturated_u64(a.input_tokens, b.input_tokens),
        output_tokens: saturated_u64(a.output_tokens, b.output_tokens),
        cache_tokens: saturated_u64(a.cache_tokens, b.cache_tokens),
        cost_usd_micros: saturated_u64(a.cost_usd_micros, b.cost_usd_micros),
    }
}

impl CostTracker {
    pub fn new(model: Option<String>) -> (r: Self)
        ensures
            r.model == model,
            r.totals == UsageTotals::zero_spec(),
    {
        CostTracker { model, totals: UsageTotals::zero() }
    }

    pub fn totals(&self) -> (r: UsageTotals)
        ensures
            r == self.totals,
    {
        self.totals
    }

    pub fn set_model(&mut self, model: Option<String>)
        ensures
            *final(self) == (CostTracker { model, ..*old(self) }),
    {
        self.model = model;
    }

    pub fn add_usage(&mut self, usage: Usage)
        ensures
            *final(self) == (CostTracker {
                totals: totals_with(old(self).totals, usage),
                ..*old(self)
            }),
    {
        self.totals =
        UsageTotals {
            input_tokens: saturating_sum_u64(self.totals.input_tokens, usage.input_tokens),
            output_tokens: saturating_sum_u64(self.totals.output_tokens, usage.output_tokens),
            cache_tokens: saturating_sum_u64(self.totals.cache_tokens, usage.cache_tokens),
            cost_usd_micros: saturating_sum_u64(self.totals.cost_usd_micros, usage.cost_usd_micros),
        };
    }

    pub fn merge(&mut self, other: &CostTracker)
        ensures
            *final(self) == (CostTracker {
                totals: totals_sum(old(self).totals, other.totals),
                ..*old(self)
            }),
    {
        self.totals =
        UsageTotals {
            input_tokens: saturating_sum_u64(self.totals.input_tokens, other.totals.input_tokens),
            output_tokens: saturating_sum_u64(
                self.totals.output_tokens,
                other.totals.output_tokens,
            ),
            cache_tokens: saturating_sum_u64(self.totals.cache_tokens, other.totals.cache_tokens),
            cost_usd_micros: saturating_sum_u64(
                self.totals.cost_usd_micros,
                other.totals.cost_usd_micros,
            ),
        };
    }
}

/// The calls that steps ask for are their calls, in their order: a further call
/// comes last, and no other step adds or takes one.
pub proof fn requests_follow_the_steps(steps: Seq<ProviderStep>, step: ProviderStep)
    ensures
        requested_tools(Seq::<ProviderStep>::empty()).len() == 0,
        step matches ProviderStep::ToolCall(request) ==> requested_tools(steps.push(step))
            == requested_tools(steps).push(request),
        !(step is ToolCall) ==> requested_tools(steps.push(step)) == requested_tools(steps),
{
    assert(steps.push(step).drop_last() =~= steps);
}

/// Steps have an error exactly if one of them is one.
pub proof fn errors_are_found(steps: Seq<ProviderStep>)
    ensures
        first_error(steps) is None <==> forall|i: int|
            0 <= i < steps.len() ==> !((#[trigger] steps[i]) is Error),
    decreases steps.len(),
{
    if steps.len() > 0 {
        errors_are_found(steps.skip(1));
        if first_error(steps) is None {
            assert forall|i: int| 0 <= i < steps.len() implies !((#[trigger] steps[i]) is Error) by {
                if i > 0 {
                    assert(steps[i] == steps.skip(1)[i - 1]);
                }
            }
        } else if forall|i: int| 0 <= i < steps.len() ==> !((#[trigger] steps[i]) is Error) {
            assert forall|i: int| 0 <= i < steps.skip(1).len() implies !((
            #[trigger] steps.skip(1)[i]) is Error) by {
                assert(steps.skip(1)[i] == steps[i + 1]);
            }
        }
    }
}

/// The error that is reported is the first one.
pub proof fn the_first_error_is_found(steps: Seq<ProviderStep>, i: int)
    requires
        0 <= i < steps.len(),
        steps[i] is Error,
        forall|j: int| 0 <= j < i ==> !((#[trigger] steps[j]) is Error),
    ensures
        steps[i] matches ProviderStep::Error(message) && first_error(steps) == Some(message),
    decreases steps.len(),
{
    if i > 0 {
        assert(!(steps[0] is Error));
        assert(steps.skip(1)[i - 1] == steps[i]);
        assert forall|j: int| 0 <= j < i - 1 implies !((#[trigger] steps.skip(1)[j]) is Error) by {
            assert(steps.skip(1)[j] == steps[j + 1]);
        }
        the_first_error_is_found(steps.skip(1), i - 1);
    }
}

} // verus!
