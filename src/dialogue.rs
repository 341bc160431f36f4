//! Conversation state shared by one conversation: the action that awaits
//! the user's confirmation, what the previous turn saved or recalled, and a
//! bounded history; with the routing of each utterance.

use vstd::prelude::*;
use crate::text::{
    chars_of, contains_seq, contains_str, decimal_seq, decimal_string, lower_of, lowercase,
    parse_usize, parse_usize_seq, starts_with_seq, starts_with_str, trim_chars, trim_seq,
};

verus! {

/// The operations that may need the user to pick among candidates first.
#[derive(Debug, Clone, Copy, PartialEq, Eq, Structural)]
pub enum ClarifiableIntent {
    Modify,
    Delete,
}

/// An operation that waits for the user's reply.
#[derive(Debug, Clone, PartialEq)]
pub enum PendingActionType {
    ModifyConfirmation { memory_id: i64, original_content: String },
    DeleteConfirmation { memory_id: i64, content_to_delete: String },
    /// The user is to pick one of `options` (shown numbered from 1).
    Clarification { options: Vec<(i64, String)>, original_intent: ClarifiableIntent },
}

/// The pending operation and the request that started it.
#[derive(Debug, Clone, PartialEq)]
pub struct PendingAction {
    pub action_type: PendingActionType,
    pub original_user_request: String,
}

/// What the previous successful turn did.
#[derive(Debug, Clone, PartialEq)]
pub enum ContextualAction {
    Save { memory_id: i64 },
    /// `entities` were extracted from the recalled `content`.
    Recall { memory_id: i64, content: String, entities: Vec<String> },
}

/// What a later turn may refer back to.
#[derive(Debug, Clone, PartialEq)]
pub struct InteractionContext {
    pub last_action: ContextualAction,
}

/// Where an utterance goes.
#[derive(Debug, Clone, PartialEq)]
pub enum Route {
    /// The reply to the pending action.
    Confirm,
    /// A correction of the memory saved by the previous turn, applied at once.
    CorrectSaved { memory_id: i64 },
    Modify,
    Delete,
    Save,
    Recall,
    /// No rule decided: ask the question/statement classifier.
    Classify,
    /// The classifier gave no usable label: ask the routing model.
    AskModel,
    /// Answer with this text and touch nothing.
    Reply { text: String },
}

/// Most turn lines the history keeps.
pub const MAX_HISTORY: usize = 8;

pub const NOTHING_PENDING_REPLY: &'static str = "嗯？我们刚才有在讨论什么需要确认的事情吗？";

pub const NOT_UNDERSTOOD_REPLY: &'static str = "抱歉，我不太明白您的意思，可以换个方式说吗？";

pub open spec fn has_modify_keyword(t: Seq<char>) -> bool {
    contains_seq(t, "修改"@) || contains_seq(t, "改成"@) || contains_seq(t, "更新"@) || contains_seq(
        t,
        "编辑"@,
    )
}

pub open spec fn has_delete_keyword(t: Seq<char>) -> bool {
    contains_seq(t, "删除"@) || contains_seq(t, "忘掉"@) || contains_seq(t, "去掉"@) || contains_seq(
        t,
        "移除"@,
    )
}

pub open spec fn has_save_keyword(t: Seq<char>) -> bool {
    contains_seq(t, "记一下"@) || contains_seq(t, "记录"@) || contains_seq(t, "帮我记"@)
}

/// A statement rather than a question: it says "是" or "为" and asks nothing.
pub open spec fn is_declarative(t: Seq<char>) -> bool {
    (contains_seq(t, "是"@) || contains_seq(t, "为"@)) && !contains_seq(t, "？"@) && !contains_seq(
        t,
        "?"@,
    )
}

pub open spec fn starts_with_correction(t: Seq<char>) -> bool {
    starts_with_seq(t, "不对"@) || starts_with_seq(t, "错了"@) || starts_with_seq(t, "不是"@)
        || starts_with_seq(t, "应该是"@)
}

/// The id saved by the previous turn, if that turn was a save.
pub open spec fn saved_id(context: Option<InteractionContext>) -> Option<i64> {
    match context {
        Some(c) => match c.last_action {
            ContextualAction::Save { memory_id } => Some(memory_id),
            _ => None,
        },
        None => None,
    }
}

/// Routing of the lowercased utterance `t`, each rule before the next: a
/// pending action takes every reply; a correction of what was just saved is
/// applied to it; then the modify, delete and save keyword sets and the
/// declarative pattern; else the classifier decides.
pub open spec fn route_of(pending: bool, context: Option<InteractionContext>, t: Seq<char>) -> Route {
    if pending {
        Route::Confirm
    } else if starts_with_correction(t) && saved_id(context) is Some {
        Route::CorrectSaved { memory_id: saved_id(context)->0 }
    } else if has_modify_keyword(t) {
        Route::Modify
    } else if has_delete_keyword(t) {
        Route::Delete
    } else if has_save_keyword(t) || is_declarative(t) {
        Route::Save
    } else {
        Route::Classify
    }
}

/// Entities of the previous recall, when there are any.
pub open spec fn context_entities_of(context: Option<InteractionContext>) -> Option<Seq<String>> {
    match context {
        Some(c) => match c.last_action {
            ContextualAction::Recall { entities, .. } => if entities@.len() > 0 {
                Some(entities@)
            } else {
                None
            },
            _ => None,
        },
        None => None,
    }
}

/// How the user answered a confirmation prompt.
#[derive(Debug, Clone, PartialEq)]
pub enum ConfirmationDecision {
    Affirm,
    Deny,
    /// The reply carries the wanted change itself (modify only).
    ProvideInfo { new_information: String },
    Unclear,
}

/// What answering the pending action leads to.
#[derive(Debug, Clone, PartialEq)]
pub enum ConfirmOutcome {
    /// Say this; nothing is stored or removed.
    Reply { text: String },
    /// Rewrite `original_content` as `instruction` asks, then store the
    /// result under `memory_id` in both stores.
    ApplyModification { memory_id: i64, original_content: String, instruction: String },
    /// Remove `memory_id` from both stores.
    DeleteMemory { memory_id: i64 },
}

pub const CANCELLED_REPLY: &'static str = "好的，已取消操作。";

pub const REPROMPT_REPLY: &'static str = "抱歉，我没太明白。请明确回复“是”或“否”，或者您想操作的选项编号。";

pub const SAVED_REPLY: &'static str = "好的，已经记下了。";

pub const MODIFIED_REPLY: &'static str = "好的，我已经更新了这条记忆。";

pub const DELETED_REPLY: &'static str = "好的，我已经删除了这条记忆。";

pub const MODIFY_NONE_REPLY: &'static str = "抱歉，我没有找到与您描述相关的记忆。";

pub const DELETE_NONE_REPLY: &'static str = "抱歉，我没有找到与您描述相关的记忆可以删除。";

pub const MODIFY_PROMPT: &'static str = "您是想修改这条记忆吗？\n\n---\n";

pub const DELETE_PROMPT: &'static str = "您确定要删除这条记忆吗？\n\n---\n";

pub const PROMPT_END: &'static str = "\n---";

pub const MODIFY_PICK: &'static str = "我找到了多条相关记忆，您想修改哪一条？\n\n";

pub const DELETE_PICK: &'static str = "我找到了多条相关记忆，您想删除哪一条？\n\n";

/// The confirmation that `intent` asks for on one memory.
pub open spec fn confirmation_for(intent: ClarifiableIntent, memory_id: i64, content: String) -> PendingActionType {
    match intent {
        ClarifiableIntent::Modify => PendingActionType::ModifyConfirmation {
            memory_id,
            original_content: content,
        },
        ClarifiableIntent::Delete => PendingActionType::DeleteConfirmation {
            memory_id,
            content_to_delete: content,
        },
    }
}

/// The question that asks to confirm `intent` on `content`.
pub open spec fn confirm_prompt(intent: ClarifiableIntent, content: Seq<char>) -> Seq<char> {
    match intent {
        ClarifiableIntent::Modify => MODIFY_PROMPT@ + content + PROMPT_END@,
        ClarifiableIntent::Delete => DELETE_PROMPT@ + content + PROMPT_END@,
    }
}

/// Line `i` of the list of options: its 1-based number and its text.
pub open spec fn option_line(options: Seq<(i64, String)>, i: int) -> Seq<char> {
    decimal_seq((i + 1) as nat) + ". "@ + options[i].1@
}

/// The first `n` option lines, one per line.
pub open spec fn numbered_options(options: Seq<(i64, String)>, n: int) -> Seq<char>
    decreases n,
{
    if n <= 0 {
        Seq::empty()
    } else if n == 1 {
        option_line(options, 0)
    } else {
        numbered_options(options, n - 1) + "\n"@ + option_line(options, n - 1)
    }
}

/// The answer to a modify or delete request with these candidates.
pub open spec fn offer_reply(intent: ClarifiableIntent, candidates: Seq<(i64, String)>) -> Seq<char> {
    if candidates.len() == 0 {
        match intent {
            ClarifiableIntent::Modify => MODIFY_NONE_REPLY@,
            ClarifiableIntent::Delete => DELETE_NONE_REPLY@,
        }
    } else if candidates.len() == 1 {
        confirm_prompt(intent, candidates[0].1@)
    } else {
        match intent {
            ClarifiableIntent::Modify => MODIFY_PICK@ + numbered_options(candidates, candidates.len() as int),
            ClarifiableIntent::Delete => DELETE_PICK@ + numbered_options(candidates, candidates.len() as int),
        }
    }
}

/// The text of each history line.
pub open spec fn history_view(h: Seq<String>) -> Seq<Seq<char>> {
    h.map_values(|s: String| s@)
}

/// The last `n` elements of `s`, or all of it when it is shorter.
pub open spec fn keep_last(s: Seq<Seq<char>>, n: int) -> Seq<Seq<char>> {
    if s.len() > n {
        s.subrange(s.len() - n, s.len() as int)
    } else {
        s
    }
}

fn confirm_prompt_exec(intent: ClarifiableIntent, content: &String) -> (r: String)
    ensures
        r@ == confirm_prompt(intent, content@),
{
    let head = match intent {
        ClarifiableIntent::Modify => String::from_str(MODIFY_PROMPT),
        ClarifiableIntent::Delete => String::from_str(DELETE_PROMPT),
    };
    head.concat(content.as_str()).concat(PROMPT_END)
}

fn numbered_options_exec(options: &Vec<(i64, String)>) -> (r: String)
    ensures
        r@ == numbered_options(options@, options@.len() as int),
{
    let mut r = String::new();
    let mut i: usize = 0;
    while i < options.len()
        invariant
            i <= options@.len(),
            r@ == numbered_options(options@, i as int),
        decreases options.len() - i,
    {
        let line = decimal_string(i + 1).concat(". ").concat(options[i].1.as_str());
        if i == 0 {
            r = line;
        } else {
            r = r.concat("\n").concat(line.as_str());
        }
        i += 1;
    }
    r
}

/// The state of one conversation.
pub struct Session {
    pub pending: Option<PendingAction>,
    pub context: Option<InteractionContext>,
    pub history: Vec<String>,
}

fn copy_strings(v: &Vec<String>) -> (r: Vec<String>)
    ensures
        r@ == v@,
{
    let mut r: Vec<String> = Vec::new();
    let mut i: usize = 0;
    while i < v.len()
        invariant
            i <= v@.len(),
            r@ == v@.subrange(0, i as int),
        decreases v.len() - i,
    {
        r.push(v[i].clone());
        assert(v@.subrange(0, i + 1) =~= v@.subrange(0, i as int).push(v@[i as int]));
        i += 1;
    }
    r
}

impl Session {
    /// The history never holds more than `MAX_HISTORY` lines.
    pub open spec fn wf(&self) -> bool {
        self.history@.len() <= MAX_HISTORY
    }

    /// A conversation with nothing pending, no context and no history.
    pub fn new() -> (r: Session)
        ensures
            r.pending is None,
            r.context is None,
            r.history@.len() == 0,
            r.wf(),
    {
        Session { pending: None, context: None, history: Vec::new() }
    }

    /// Routes an utterance that has already been lowercased.
    pub fn route_lowered(&self, lowered: &str) -> (r: Route)
        ensures
            r == route_of(self.pending is Some, self.context, lowered@),
    {
        if self.pending.is_some() {
            return Route::Confirm;
        }
        let t = chars_of(lowered);
        let correction = starts_with_str(&t, "不对") || starts_with_str(&t, "错了") || starts_with_str(
            &t,
            "不是",
        ) || starts_with_str(&t, "应该是");
        if correction {
            match &self.context {
                Some(c) => match &c.last_action {
                    ContextualAction::Save { memory_id } => {
                        return Route::CorrectSaved { memory_id: *memory_id };
                    },
                    _ => {},
                },
                None => {},
            }
        }
        if contains_str(&t, "修改") || contains_str(&t, "改成") || contains_str(&t, "更新")
            || contains_str(&t, "编辑") {
            return Route::Modify;
        }
        if contains_str(&t, "删除") || contains_str(&t, "忘掉") || contains_str(&t, "去掉")
            || contains_str(&t, "移除") {
            return Route::Delete;
        }
        let declarative = (contains_str(&t, "是") || contains_str(&t, "为")) && !contains_str(&t, "？")
            && !contains_str(&t, "?");
        if contains_str(&t, "记一下") || contains_str(&t, "记录") || contains_str(&t, "帮我记")
            || declarative {
            return Route::Save;
        }
        Route::Classify
    }

    /// Routes an utterance: the rules of `route_of` on its lowercase form.
    pub fn route(&self, utterance: &str) -> (r: Route)
        ensures
            r == route_of(self.pending is Some, self.context, lower_of(utterance@)),
    {
        let lowered = lowercase(utterance);
        self.route_lowered(lowered.as_str())
    }

    /// The entities of the previous recall, which modify and delete use to
    /// find their target whenever they are non-empty.
    pub fn context_entities(&self) -> (r: Option<Vec<String>>)
        ensures
            match r {
                Some(v) => context_entities_of(self.context) == Some(v@),
                None => context_entities_of(self.context) is None,
            },
    {
        match &self.context {
            Some(c) => match &c.last_action {
                ContextualAction::Recall { entities, .. } => {
                    if entities.len() > 0 {
                        Some(copy_strings(entities))
                    } else {
                        None
                    }
                },
                _ => None,
            },
            None => None,
        }
    }

    /// Answers a modify or delete request whose search found `candidates`:
    /// none leaves the state as it is; one awaits the confirmation of that
    /// memory; several await the user's pick among them.
    pub fn offer_targets(&mut self, intent: ClarifiableIntent, request: &str, candidates: Vec<(i64, String)>) -> (r: String)
        ensures
            r@ == offer_reply(intent, candidates@),
            candidates@.len() == 0 ==> final(self).pending == old(self).pending,
            candidates@.len() == 1 ==> final(self).pending is Some
                && final(self).pending->0.action_type == confirmation_for(
                intent,
                candidates@[0].0,
                candidates@[0].1,
            ),
            candidates@.len() > 1 ==> final(self).pending is Some && final(self).pending->0.action_type
                == (PendingActionType::Clarification { options: candidates, original_intent: intent }),
            candidates@.len() > 0 ==> final(self).pending->0.original_user_request@ == request@,
            final(self).context == old(self).context,
            final(self).history == old(self).history,
    {
        let n = candidates.len();
        if n == 0 {
            return match intent {
                ClarifiableIntent::Modify => String::from_str(MODIFY_NONE_REPLY),
                ClarifiableIntent::Delete => String::from_str(DELETE_NONE_REPLY),
            };
        }
        if n == 1 {
            let id = candidates[0].0;
            let content = candidates[0].1.clone();
            let reply = confirm_prompt_exec(intent, &content);
            let action_type = match intent {
                ClarifiableIntent::Modify => PendingActionType::ModifyConfirmation {
                    memory_id: id,
                    original_content: content,
                },
                ClarifiableIntent::Delete => PendingActionType::DeleteConfirmation {
                    memory_id: id,
                    content_to_delete: content,
                },
            };
            self.pending = Some(PendingAction { action_type, original_user_request: String::from_str(request) });
            return reply;
        }
        let list = numbered_options_exec(&candidates);
        let reply = match intent {
            ClarifiableIntent::Modify => String::from_str(MODIFY_PICK).concat(list.as_str()),
            ClarifiableIntent::Delete => String::from_str(DELETE_PICK).concat(list.as_str()),
        };
        self.pending = Some(
            PendingAction {
                action_type: PendingActionType::Clarification { options: candidates, original_intent: intent },
                original_user_request: String::from_str(request),
            },
        );
        reply
    }

    /// Whether the pending action is a pick among candidates, whose reply is
    /// read as an option number rather than classified.
    pub fn awaits_choice(&self) -> (r: bool)
        ensures
            r == (self.pending is Some && self.pending->0.action_type is Clarification),
    {
        match &self.pending {
            Some(p) => match &p.action_type {
                PendingActionType::Clarification { .. } => true,
                _ => false,
            },
            None => false,
        }
    }

    /// Takes the reply to a pick among candidates. A 1-based option number
    /// (white space around it allowed) turns the pick into the confirmation
    /// of that option, asked anew; anything else cancels.
    pub fn resolve_clarification(&mut self, reply: &str) -> (r: String)
        requires
            old(self).pending is Some,
            old(self).pending->0.action_type is Clarification,
        ensures
            ({
                let p = old(self).pending->0;
                let options = p.action_type->options@;
                let intent = p.action_type->original_intent;
                let choice = parse_usize_seq(trim_seq(reply@));
                if choice is Some && 1 <= choice->0 <= options.len() {
                    let picked = options[choice->0 - 1];
                    &&& final(self).pending == Some(
                        PendingAction {
                            action_type: confirmation_for(intent, picked.0, picked.1),
                            original_user_request: p.original_user_request,
                        },
                    )
                    &&& r@ == confirm_prompt(intent, picked.1@)
                } else {
                    &&& final(self).pending is None
                    &&& r@ == CANCELLED_REPLY@
                }
            }),
            final(self).context == old(self).context,
            final(self).history == old(self).history,
    {
        let taken = self.pending.take();
        let action = match taken {
            Some(a) => a,
            None => { return String::from_str(CANCELLED_REPLY); },
        };
        let (options, intent) = match action.action_type {
            PendingActionType::Clarification { options, original_intent } => (options, original_intent),
            _ => { return String::from_str(CANCELLED_REPLY); },
        };
        let chars = chars_of(reply);
        let trimmed = trim_chars(&chars);
        let choice = parse_usize(&trimmed);
        match choice {
            Some(c) => {
                if c >= 1 && c <= options.len() {
                    let id = options[c - 1].0;
                    let content = options[c - 1].1.clone();
                    let prompt = confirm_prompt_exec(intent, &content);
                    let action_type = match intent {
                        ClarifiableIntent::Modify => PendingActionType::ModifyConfirmation {
                            memory_id: id,
                            original_content: content,
                        },
                        ClarifiableIntent::Delete => PendingActionType::DeleteConfirmation {
                            memory_id: id,
                            content_to_delete: content,
                        },
                    };
                    self.pending = Some(
                        PendingAction { action_type, original_user_request: action.original_user_request },
                    );
                    return prompt;
                }
            },
            None => {},
        }
        String::from_str(CANCELLED_REPLY)
    }

    /// Takes the classified reply to a modify or delete confirmation.
    /// Affirm executes it (a modify rewrites as the original request asks);
    /// new information executes a modify with that information as the
    /// request; Deny cancels; anything else keeps the action pending and
    /// asks again.
    pub fn resolve_confirmation(&mut self, decision: ConfirmationDecision) -> (r: ConfirmOutcome)
        requires
            old(self).pending is Some,
            !(old(self).pending->0.action_type is Clarification),
        ensures
            ({
                let p = old(self).pending->0;
                match p.action_type {
                    PendingActionType::ModifyConfirmation { memory_id, original_content } => match decision {
                        ConfirmationDecision::Affirm => final(self).pending is None && r == (
                        ConfirmOutcome::ApplyModification {
                            memory_id,
                            original_content,
                            instruction: p.original_user_request,
                        }),
                        ConfirmationDecision::ProvideInfo { new_information } => final(self).pending is None
                            && r == (ConfirmOutcome::ApplyModification {
                            memory_id,
                            original_content,
                            instruction: new_information,
                        }),
                        ConfirmationDecision::Deny => final(self).pending is None && r is Reply
                            && r->text@ == CANCELLED_REPLY@,
                        ConfirmationDecision::Unclear => final(self).pending == old(self).pending && r is Reply
                            && r->text@ == REPROMPT_REPLY@,
                    },
                    PendingActionType::DeleteConfirmation { memory_id, .. } => match decision {
                        ConfirmationDecision::Affirm => final(self).pending is None && r == (
                        ConfirmOutcome::DeleteMemory { memory_id }),
                        ConfirmationDecision::Deny => final(self).pending is None && r is Reply
                            && r->text@ == CANCELLED_REPLY@,
                        _ => final(self).pending == old(self).pending && r is Reply && r->text@
                            == REPROMPT_REPLY@,
                    },
                    _ => false,
                }
            }),
            final(self).context == old(self).context,
            final(self).history == old(self).history,
    {
        let taken = self.pending.take();
        let action = match taken {
            Some(a) => a,
            None => { return ConfirmOutcome::Reply { text: String::from_str(CANCELLED_REPLY) }; },
        };
        match decision {
            ConfirmationDecision::Affirm => match action.action_type {
                PendingActionType::ModifyConfirmation { memory_id, original_content } => {
                    ConfirmOutcome::ApplyModification {
                        memory_id,
                        original_content,
                        instruction: action.original_user_request,
                    }
                },
                PendingActionType::DeleteConfirmation { memory_id, .. } => {
                    ConfirmOutcome::DeleteMemory { memory_id }
                },
                PendingActionType::Clarification { .. } => {
                    ConfirmOutcome::Reply { text: String::from_str(CANCELLED_REPLY) }
                },
            },
            ConfirmationDecision::Deny => ConfirmOutcome::Reply { text: String::from_str(CANCELLED_REPLY) },
            ConfirmationDecision::ProvideInfo { new_information } => match action.action_type {
                PendingActionType::ModifyConfirmation { memory_id, original_content } => {
                    ConfirmOutcome::ApplyModification { memory_id, original_content, instruction: new_information }
                },
                _ => {
                    self.pending = Some(action);
                    ConfirmOutcome::Reply { text: String::from_str(REPROMPT_REPLY) }
                },
            },
            ConfirmationDecision::Unclear => {
                self.pending = Some(action);
                ConfirmOutcome::Reply { text: String::from_str(REPROMPT_REPLY) }
            },
        }
    }

    /// Appends the user's line and the reply to the history, then drops the
    /// oldest lines beyond `MAX_HISTORY`.
    pub fn record_turn(&mut self, user: &str, reply: &str)
        requires
            old(self).wf(),
        ensures
            final(self).wf(),
            history_view(final(self).history@) == keep_last(
                history_view(old(self).history@) + seq!["User: "@ + user@, "Assistant: "@ + reply@],
                MAX_HISTORY as int,
            ),
            final(self).pending == old(self).pending,
            final(self).context == old(self).context,
    {
        let ghost full = history_view(old(self).history@) + seq!["User: "@ + user@, "Assistant: "@ + reply@];
        self.history.push(String::from_str("User: ").concat(user));
        self.history.push(String::from_str("Assistant: ").concat(reply));
        assert(history_view(self.history@) =~= full);
        let ghost removed: int = 0;
        while self.history.len() > MAX_HISTORY
            invariant
                self.history@.len() <= MAX_HISTORY + 2,
                full.len() == old(self).history@.len() + 2,
                0 <= removed <= full.len(),
                self.history@.len() == full.len() - removed,
                full.len() > MAX_HISTORY ==> self.history@.len() >= MAX_HISTORY,
                full.len() <= MAX_HISTORY ==> removed == 0,
                history_view(self.history@) == full.subrange(removed, full.len() as int),
                self.pending == old(self).pending,
                self.context == old(self).context,
            decreases self.history.len(),
        {
            let ghost before = self.history@;
            self.history.remove(0);
            proof {
                let prev = full.subrange(removed, full.len() as int);
                removed = removed + 1;
                let next = full.subrange(removed, full.len() as int);
                assert forall|i: int| 0 <= i < self.history@.len() implies history_view(self.history@)[i]
                    == next[i] by {
                    assert(self.history@[i] == before[i + 1]);
                    assert(history_view(before)[i + 1] == prev[i + 1]);
                }
                assert(history_view(self.history@) =~= next);
            }
        }
        proof {
            if full.len() > MAX_HISTORY {
                assert(removed == full.len() - MAX_HISTORY);
            } else {
                assert(full.subrange(removed, full.len() as int) =~= full);
            }
        }
    }

    /// After a save: the context becomes that save.
    pub fn record_save(&mut self, memory_id: i64)
        ensures
            final(self).context == Some(
                InteractionContext { last_action: ContextualAction::Save { memory_id } },
            ),
            final(self).pending == old(self).pending,
            final(self).history == old(self).history,
    {
        self.context = Some(InteractionContext { last_action: ContextualAction::Save { memory_id } });
    }

    /// After a recall: the context becomes the recalled memory with the
    /// entities extracted from its content.
    pub fn record_recall(&mut self, memory_id: i64, content: String, entities: Vec<String>)
        ensures
            final(self).context == Some(
                InteractionContext {
                    last_action: ContextualAction::Recall { memory_id, content, entities },
                },
            ),
            final(self).pending == old(self).pending,
            final(self).history == old(self).history,
    {
        self.context = Some(
            InteractionContext { last_action: ContextualAction::Recall { memory_id, content, entities } },
        );
    }
}

} // verus!
