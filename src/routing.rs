//! The language-model fallback of the router: finding the decision object
//! in the model's raw output, and what each decision routes to.

use vstd::prelude::*;
use crate::dialogue::{Route, NOTHING_PENDING_REPLY, NOT_UNDERSTOOD_REPLY};

verus! {

/// The tools the routing model may pick.
#[derive(Debug, Clone, Copy, PartialEq, Eq, Structural)]
pub enum ToolToCall {
    SaveTool,
    RecallTool,
    ModifyTool,
    DeleteTool,
    ConfirmationTool,
    NoTool,
}

/// The routing model's decision.
#[derive(Debug, Clone, Copy, PartialEq, Eq, Structural)]
pub struct RoutingDecision {
    pub tool_to_call: ToolToCall,
}

/// The model's output carried no `{...}` object.
#[derive(Debug, Clone, Copy, PartialEq, Eq, Structural)]
pub struct NoDecisionObject;

/// A `{`, then anything, then a `}`: the span from the first opening brace
/// to the last closing one.
pub const DECISION_OBJECT_PATTERN: &'static str = r"\{[\s\S]*\}";

/// The text of the first match of `pattern` in `haystack`, as the regex
/// crate finds it; nothing if there is none or the pattern is invalid.
pub uninterp spec fn regex_find_of(pattern: Seq<char>, haystack: Seq<char>) -> Option<Seq<char>>;

/// Relies on `regex::Regex::new` and `regex::Regex::find`: the leftmost
/// match of a valid pattern, a function of the pattern and the text.
#[verifier::external_body]
fn regex_find(pattern: &str, haystack: &str) -> (r: Option<String>)
    ensures
        match r {
            Some(m) => regex_find_of(pattern@, haystack@) == Some(m@),
            None => regex_find_of(pattern@, haystack@) is None,
        },
{
    match regex::Regex::new(pattern) {
        Ok(re) => re.find(haystack).map(|m| m.as_str().to_string()),
        Err(_) => None,
    }
}

/// The decision object in the routing model's raw output.
pub fn extract_decision_object(raw: &str) -> (r: Result<String, NoDecisionObject>)
    ensures
        match r {
            Ok(m) => regex_find_of(DECISION_OBJECT_PATTERN@, raw@) == Some(m@),
            Err(_) => regex_find_of(DECISION_OBJECT_PATTERN@, raw@) is None,
        },
{
    match regex_find(DECISION_OBJECT_PATTERN, raw) {
        Some(m) => Ok(m),
        None => Err(NoDecisionObject),
    }
}

/// Where the routing model's decision sends the utterance. Its
/// confirmation tool only ever runs with nothing pending, so it only gets
/// an answer; so does no tool.
pub fn route_for_tool(decision: RoutingDecision) -> (r: Route)
    ensures
        decision.tool_to_call is SaveTool ==> r == Route::Save,
        decision.tool_to_call is RecallTool ==> r == Route::Recall,
        decision.tool_to_call is ModifyTool ==> r == Route::Modify,
        decision.tool_to_call is DeleteTool ==> r == Route::Delete,
        decision.tool_to_call is ConfirmationTool ==> r is Reply && r->text@ == NOTHING_PENDING_REPLY@,
        decision.tool_to_call is NoTool ==> r is Reply && r->text@ == NOT_UNDERSTOOD_REPLY@,
{
    match decision.tool_to_call {
        ToolToCall::SaveTool => Route::Save,
        ToolToCall::RecallTool => Route::Recall,
        ToolToCall::ModifyTool => Route::Modify,
        ToolToCall::DeleteTool => Route::Delete,
        ToolToCall::ConfirmationTool => Route::Reply { text: String::from_str(NOTHING_PENDING_REPLY) },
        ToolToCall::NoTool => Route::Reply { text: String::from_str(NOT_UNDERSTOOD_REPLY) },
    }
}

} // verus!
