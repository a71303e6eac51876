//! Decision logic of the agent runtime.

pub mod agent_continuation;
pub mod agent_controller;
pub mod agent_loop;
pub mod agent_registry;
pub mod approval_resolution;
pub mod budget;
pub mod budget_controller;
pub mod budget_soft_landing;
pub mod child_agent_entrypoints;
pub mod child_agent_loop_runner;
pub mod child_agent_loop_setup;
pub mod child_agent_provider_turn;
pub mod child_agent_response_folding;
pub mod child_agent_types;
pub mod child_budget_ledger;
pub mod child_permission;
pub mod command;
pub mod compaction;
pub mod controller;
pub mod conversation;
pub mod double;
pub mod provider_types;
pub mod runtime_types;
pub mod text;
pub mod text_map;
