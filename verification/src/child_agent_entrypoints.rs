//! What a child agent may do: its tool ceiling, its label and its model.

use vstd::prelude::*;
use vstd::string::*;
use crate::child_agent_types::{
    failure, ChildAgentRequest, ChildAgentResult, SubagentType,
};
use crate::text::{clone_texts, contains_text, holds_text, plus3, text_is, texts};

verus! {

/// A built-in role and its tools.
#[derive(Debug)]
pub struct RoleDescriptor {
    pub tools: Vec<String>,
}

/// The frozen definition of a custom agent, and what its validation found
/// wrong.
#[derive(Debug)]
pub struct AgentDefinition {
    pub name: String,
    pub allowed_tools: Vec<String>,
    pub model: Option<String>,
    pub fault: Option<String>,
}

/// The tools of a role; a custom agent has no role and no ceiling of that kind.
pub fn role_tool_ceiling(role: &Option<RoleDescriptor>) -> (r: Vec<String>)
    ensures
        texts(r@) == (match *role {
            Some(role) => texts(role.tools@),
            None => Seq::<Seq<char>>::empty(),
        }),
{
    match role {
        Some(role) => clone_texts(&role.tools),
        None => {
            let none: Vec<String> = Vec::new();
            assert(texts(none@) =~= Seq::<Seq<char>>::empty());
            none
        },
    }
}

/// The tools of a list that a ceiling leaves, in order.
pub open spec fn narrowed(tools: Seq<Seq<char>>, ceiling: Option<Vec<String>>) -> Seq<Seq<char>>
    decreases tools.len(),
{
    match ceiling {
        None => tools,
        Some(ceiling) => if tools.len() == 0 {
            Seq::empty()
        } else {
            let front = narrowed(tools.drop_last(), Some(ceiling));
            if holds_text(ceiling@, tools.last()) {
                front.push(tools.last())
            } else {
                front
            }
        },
    }
}

fn narrow(tools: Vec<String>, ceiling: &Option<Vec<String>>) -> (r: Vec<String>)
    ensures
        texts(r@) == narrowed(texts(tools@), *ceiling),
{
    let ceiling_list = match ceiling {
        Some(list) => list,
        None => {
            return tools;
        },
    };
    let mut kept: Vec<String> = Vec::new();
    let ghost all = texts(tools@);
    let mut i: usize = 0;
    assert(all.take(0) =~= Seq::<Seq<char>>::empty());
    assert(texts(kept@) =~= Seq::<Seq<char>>::empty());
    while i < tools.len()
        invariant
            i <= tools.len(),
            all == texts(tools@),
            *ceiling == Some(*ceiling_list),
            texts(kept@) == narrowed(all.take(i as int), *ceiling),
        decreases tools.len() - i,
    {
        assert(all.take(i + 1).drop_last() =~= all.take(i as int));
        assert(all[i as int] == tools@[i as int]@);
        if contains_text(ceiling_list, &tools[i]) {
            let ghost before = kept@;
            kept.push(tools[i].clone());
            assert(texts(kept@) =~= texts(before).push(all[i as int]));
        }
        i += 1;
    }
    assert(all.take(all.len() as int) =~= all);
    kept
}

/// The tools that a child of a workflow has in addition.
pub open spec fn workflow_tools() -> Seq<Seq<char>> {
    seq![
        "workflow_send_message"@,
        "workflow_read_messages"@,
        "workflow_clear_messages"@,
        "workflow_create_task_list"@,
        "workflow_claim_task"@,
        "workflow_complete_task"@,
        "workflow_list_tasks"@,
    ]
}

fn extend_with_workflow_tools(tools: &mut Vec<String>)
    ensures
        texts(final(tools)@) == texts(old(tools)@) + workflow_tools(),
{
    let ghost before = tools@;
    tools.push("workflow_send_message".to_owned());
    tools.push("workflow_read_messages".to_owned());
    tools.push("workflow_clear_messages".to_owned());
    tools.push("workflow_create_task_list".to_owned());
    tools.push("workflow_claim_task".to_owned());
    tools.push("workflow_complete_task".to_owned());
    tools.push("workflow_list_tasks".to_owned());
    assert(texts(tools@) =~= texts(before) + workflow_tools());
}

/// Why a custom agent cannot run.
pub open spec fn custom_fault(name: Seq<char>, definition: Option<AgentDefinition>) -> Option<
    Seq<char>,
> {
    match definition {
        Some(definition) => if definition.name@ == name {
            crate::text::opt_chars(definition.fault)
        } else {
            Some("custom agent requires a matching frozen definition"@)
        },
        None => Some("custom agent requires a matching frozen definition"@),
    }
}

/// The tools that a request may use at most, before its own ceiling.
pub open spec fn base_tools(
    request: ChildAgentRequest,
    definition: Option<AgentDefinition>,
    role: Option<RoleDescriptor>,
) -> Seq<Seq<char>> {
    match request.subagent_type {
        SubagentType::Custom(_) => texts(definition->0.allowed_tools@),
        _ => {
            let tools = match role {
                Some(role) => texts(role.tools@),
                None => Seq::empty(),
            };
            if request.subagent_type is General && request.workflow_ipc {
                tools + workflow_tools()
            } else {
                tools
            }
        },
    }
}

/// The label under which a request's tool policy goes.
pub open spec fn policy_label(request: ChildAgentRequest, identifier: Seq<char>) -> Seq<char> {
    match request.subagent_type {
        SubagentType::Custom(name) => "custom agent '"@ + name@ + "'"@,
        _ => match request.tool_policy_label {
            Some(label) => label@,
            None => "role '"@ + identifier + "' tool policy"@,
        },
    }
}

/// Fixes what a child may do. A custom agent needs its frozen definition, which
/// sets its tools and its model. A built-in role sets the tools of its
/// descriptor and goes by its identifier. The request's own ceiling can only narrow either.
pub fn prepare_child_agent_request(
    request: ChildAgentRequest,
    definition: &Option<AgentDefinition>,
    identifier: &str,
    role: &Option<RoleDescriptor>,
) -> (r: Result<ChildAgentRequest, ChildAgentResult>)
    ensures
        match request.subagent_type {
            SubagentType::Custom(name) => match custom_fault(name@, *definition) {
                Some(fault) => r matches Err(result) && result@ == failure(fault),
                None => r matches Ok(prepared) && prepared.model == definition->0.model,
            },
            _ => r matches Ok(prepared) && prepared.model == request.model,
        },
        r matches Ok(prepared) ==> {
            &&& prepared.allowed_tools is Some
            &&& texts(prepared.allowed_tools->0@) == narrowed(
                base_tools(request, *definition, *role),
                request.allowed_tools,
            )
            &&& prepared.tool_policy_label is Some
            &&& prepared.tool_policy_label->0@ == policy_label(request, identifier@)
            &&& prepared == (ChildAgentRequest {
                allowed_tools: prepared.allowed_tools,
                tool_policy_label: prepared.tool_policy_label,
                model: prepared.model,
                ..request
            })
        },
{
    let mut request = request;
    let is_general = match &request.subagent_type {
        SubagentType::General => true,
        _ => false,
    };
    if let SubagentType::Custom(name) = &request.subagent_type {
        let definition = match definition {
            Some(definition) => definition,
            None => {
                return Err(
                    ChildAgentResult::failed(
                        "custom agent requires a matching frozen definition".to_owned(),
                    ),
                );
            },
        };
        if !text_is(definition.name.as_str(), name.as_str()) {
            return Err(
                ChildAgentResult::failed(
                    "custom agent requires a matching frozen definition".to_owned(),
                ),
            );
        }
        if let Some(fault) = &definition.fault {
            return Err(ChildAgentResult::failed(fault.clone()));
        }
        let label = plus3("custom agent '", name.as_str(), "'");
        let allowed = narrow(clone_texts(&definition.allowed_tools), &request.allowed_tools);
        request.allowed_tools = Some(allowed);
        request.tool_policy_label = Some(label);
        request.model = crate::provider_types::clone_text(&definition.model);
        return Ok(request);
    }
    let mut allowed = role_tool_ceiling(role);
    if is_general && request.workflow_ipc {
        extend_with_workflow_tools(&mut allowed);
    }
    let allowed = narrow(allowed, &request.allowed_tools);
    request.allowed_tools = Some(allowed);
    if request.tool_policy_label.is_none() {
        request.tool_policy_label = Some(
            plus3("role '", identifier, "' tool policy"),
        );
    }
    Ok(request)
}

/// What running a child came to: an error of its loop is a failed result.
pub fn child_agent_outcome(executed: Result<ChildAgentResult, String>) -> (r: ChildAgentResult)
    ensures
        match executed {
            Ok(result) => r == result,
            Err(e) => r@ == failure(e@),
        },
{
    match executed {
        Ok(result) => result,
        Err(e) => ChildAgentResult::failed(e),
    }
}

/// A ceiling never adds a tool: what it leaves is in the list and in the
/// ceiling, and a list is left alone only by its absence.
pub proof fn ceilings_only_narrow(
    tools: Seq<Seq<char>>,
    ceiling: Option<Vec<String>>,
    tool: Seq<char>,
)
    requires
        narrowed(tools, ceiling).contains(tool),
    ensures
        tools.contains(tool),
        ceiling matches Some(list) ==> holds_text(list@, tool),
    decreases tools.len(),
{
    if ceiling is Some && tools.len() > 0 {
        let front = narrowed(tools.drop_last(), ceiling);
        let i = choose|i: int|
            0 <= i < narrowed(tools, ceiling).len() && narrowed(tools, ceiling)[i] == tool;
        if holds_text(ceiling->0@, tools.last()) && i == front.len() {
            assert(tools[tools.len() - 1] == tool);
        } else {
            assert(front[i] == tool);
            ceilings_only_narrow(tools.drop_last(), ceiling, tool);
            let j = choose|j: int| 0 <= j < tools.len() - 1 && tools.drop_last()[j] == tool;
            assert(tools[j] == tool);
        }
    }
}

/// Every tool that the ceiling holds stays.
pub proof fn ceilings_keep_what_they_hold(
    tools: Seq<Seq<char>>,
    ceiling: Option<Vec<String>>,
    tool: Seq<char>,
)
    requires
        tools.contains(tool),
        ceiling matches Some(list) ==> holds_text(list@, tool),
    ensures
        narrowed(tools, ceiling).contains(tool),
    decreases tools.len(),
{
    if ceiling is Some && tools.len() > 0 {
        let front = narrowed(tools.drop_last(), ceiling);
        if tools.last() == tool {
            assert(narrowed(tools, ceiling)[front.len() as int] == tool);
        } else {
            let i = choose|i: int| 0 <= i < tools.len() && tools[i] == tool;
            assert(tools.drop_last()[i] == tool);
            ceilings_keep_what_they_hold(tools.drop_last(), ceiling, tool);
            let j = choose|j: int| 0 <= j < front.len() && front[j] == tool;
            assert(narrowed(tools, ceiling)[j] == tool);
        }
    }
}

/// A custom agent runs exactly with a sound definition of its own name; any other
/// fault is told.
pub proof fn custom_agents_need_their_definition(
    name: Seq<char>,
    definition: Option<AgentDefinition>,
)
    ensures
        custom_fault(name, definition) is None <==> (definition matches Some(found)
            && found.name@ == name && found.fault is None),
        definition matches Some(found) ==> (found.name@ == name ==> (found.fault matches Some(
            fault,
        ) ==> custom_fault(name, definition) == Some(fault@))),
{
}

/// The tools that a child starts from: those of its definition where it is a
/// custom agent, and otherwise those of its role; the ones for workflows go only
/// to general agents that take part in one.
pub proof fn children_start_from_their_own_tools(
    request: ChildAgentRequest,
    definition: Option<AgentDefinition>,
    role: Option<RoleDescriptor>,
)
    ensures
        ({
            let tools = base_tools(request, definition, role);
            let of_role = match role {
                Some(role) => texts(role.tools@),
                None => Seq::<Seq<char>>::empty(),
            };
            &&& request.subagent_type is Custom ==> tools == texts(definition->0.allowed_tools@)
            &&& request.subagent_type is Role ==> tools == of_role
            &&& request.subagent_type is General && !request.workflow_ipc ==> tools == of_role
            &&& request.subagent_type is General && request.workflow_ipc ==> tools.len()
                == of_role.len() + 7 && tools.take(of_role.len() as int) == of_role
        }),
{
    let of_role = match role {
        Some(role) => texts(role.tools@),
        None => Seq::<Seq<char>>::empty(),
    };
    assert((of_role + workflow_tools()).take(of_role.len() as int) =~= of_role);
}

/// A ceiling judges each tool on its own and keeps their order; without one every
/// tool stays.
pub proof fn ceilings_keep_the_order(
    a: Seq<Seq<char>>,
    b: Seq<Seq<char>>,
    ceiling: Option<Vec<String>>,
)
    ensures
        narrowed(a + b, ceiling) == narrowed(a, ceiling) + narrowed(b, ceiling),
        ceiling is None ==> narrowed(a, ceiling) == a,
        ceiling matches Some(list) ==> (a.len() == 1 ==> narrowed(a, ceiling) == (if holds_text(
            list@,
            a[0],
        ) {
            a
        } else {
            Seq::empty()
        })),
    decreases b.len(),
{
    if b.len() > 0 {
        assert((a + b).drop_last() =~= a + b.drop_last());
        ceilings_keep_the_order(a, b.drop_last(), ceiling);
        assert(narrowed(a + b, ceiling) =~= narrowed(a, ceiling) + narrowed(b, ceiling));
    } else {
        assert(a + b =~= a);
        assert(narrowed(a + b, ceiling) =~= narrowed(a, ceiling) + narrowed(b, ceiling));
    }
    if a.len() == 1 && ceiling is Some {
        assert(a.drop_last().len() == 0);
        assert(narrowed(a.drop_last(), ceiling) =~= Seq::empty());
        assert(narrowed(a, ceiling) =~= if holds_text(ceiling->0@, a[0]) {
            a
        } else {
            Seq::empty()
        });
    }
}

/// The policy of a custom agent is labelled with its name, and that of any other
/// with what the request says or, where it says nothing, with the role.
pub proof fn policies_are_labelled(request: ChildAgentRequest, identifier: Seq<char>)
    ensures
        request.subagent_type matches SubagentType::Custom(name) ==> policy_label(
            request,
            identifier,
        ) == "custom agent '"@ + name@ + "'"@,
        !(request.subagent_type is Custom) ==> (request.tool_policy_label matches Some(label)
            ==> policy_label(request, identifier) == label@),
        !(request.subagent_type is Custom) && request.tool_policy_label is None ==> policy_label(
            request,
            identifier,
        ) == "role '"@ + identifier + "' tool policy"@,
{
}

} // verus!
