//! Task routing by the completion service: its prompt, its grammar and its
//! decision.

use vstd::prelude::*;
use crate::prompts::{
    history_context, history_context_exec, is_message, message, ChatMessage, NO_CONVERSATION_HISTORY,
    ROUTING_GBNF, ROUTING_HEAD, ROUTING_TAIL,
};

verus! {

pub fn get_routing_gbnf_schema() -> (r: &'static str)
    ensures
        r@ == ROUTING_GBNF@,
{
    ROUTING_GBNF
}

/// Task routing: the system prompt around the history, then the query.
pub fn get_routing_prompt(user_query: &str, history: &Vec<String>) -> (r: Vec<ChatMessage>)
    ensures
        r@.len() == 2,
        is_message(
            r@[0],
            "system"@,
            ROUTING_HEAD@ + history_context(history@, NO_CONVERSATION_HISTORY@) + ROUTING_TAIL@,
        ),
        is_message(r@[1], "user"@, user_query@),
{
    let context = history_context_exec(history, NO_CONVERSATION_HISTORY);
    let system = String::from_str(ROUTING_HEAD).concat(context.as_str()).concat(ROUTING_TAIL);
    let mut r: Vec<ChatMessage> = Vec::new();
    r.push(message("system", system));
    r.push(message("user", String::from_str(user_query)));
    r
}

/// The tools of task routing.
#[derive(Debug, Clone, Copy, PartialEq, Eq, Structural)]
pub enum ToolToCall {
    SaveTool,
    RecallTool,
    MixedTool,
    NoTool,
}

/// The decision of task routing.
#[derive(Debug, Clone, Copy, PartialEq, Eq, Structural)]
pub struct RoutingDecision {
    pub tool_to_call: ToolToCall,
}

} // verus!
