use memos_assistant::classifier::{decision_from_label, route_for_label, Intent};
use memos_assistant::confirmation::parse_confirmation;
use memos_assistant::fusion::RankedCandidate;
use memos_assistant::retrieval::{answer_from_candidates, RecallAnswer};
use memos_assistant::dialogue::{
    ClarifiableIntent, ConfirmOutcome, ConfirmationDecision, ContextualAction, InteractionContext,
    PendingAction, PendingActionType, Route, Session, CANCELLED_REPLY, REPROMPT_REPLY,
};

fn delete_pending() -> Session {
    let mut s = Session::new();
    s.pending = Some(PendingAction {
        action_type: PendingActionType::DeleteConfirmation { memory_id: 12, content_to_delete: "周五开会".to_string() },
        original_user_request: "删除周五开会".to_string(),
    });
    s
}

fn clarification(intent: ClarifiableIntent) -> Session {
    let mut s = Session::new();
    let options = vec![(1, "甲".to_string()), (2, "乙".to_string()), (3, "丙".to_string())];
    let reply = s.offer_targets(intent, "改成下午4点", options);
    assert!(reply.ends_with("1. 甲\n2. 乙\n3. 丙"));
    s
}

#[test]
fn delete_confirmation_affirm_deletes() {
    let mut s = delete_pending();
    let decision = parse_confirmation("是的");
    assert_eq!(decision, ConfirmationDecision::Affirm);
    assert_eq!(s.resolve_confirmation(decision), ConfirmOutcome::DeleteMemory { memory_id: 12 });
    assert!(s.pending.is_none());
}

#[test]
fn delete_confirmation_deny_cancels() {
    let mut s = delete_pending();
    let decision = parse_confirmation("算了");
    assert_eq!(decision, ConfirmationDecision::Deny);
    let r = s.resolve_confirmation(decision);
    assert_eq!(r, ConfirmOutcome::Reply { text: CANCELLED_REPLY.to_string() });
    assert!(s.pending.is_none());
}

#[test]
fn delete_confirmation_unrelated_keeps_pending() {
    let mut s = delete_pending();
    let before = s.pending.clone();
    let decision = parse_confirmation("你好");
    assert_eq!(decision, ConfirmationDecision::Unclear);
    let r = s.resolve_confirmation(decision);
    assert_eq!(r, ConfirmOutcome::Reply { text: REPROMPT_REPLY.to_string() });
    assert_eq!(s.pending, before);
}

#[test]
fn modify_confirmation_affirm_and_new_information() {
    let mut s = Session::new();
    let reply = s.offer_targets(ClarifiableIntent::Modify, "改成4点", vec![(9, "周五3点开会".to_string())]);
    assert_eq!(reply, "您是想修改这条记忆吗？\n\n---\n周五3点开会\n---");
    let mut t = Session { pending: s.pending.clone(), context: None, history: vec![] };
    assert_eq!(
        s.resolve_confirmation(ConfirmationDecision::Affirm),
        ConfirmOutcome::ApplyModification { memory_id: 9, original_content: "周五3点开会".to_string(), instruction: "改成4点".to_string() }
    );
    assert_eq!(
        t.resolve_confirmation(ConfirmationDecision::ProvideInfo { new_information: "改成5点".to_string() }),
        ConfirmOutcome::ApplyModification { memory_id: 9, original_content: "周五3点开会".to_string(), instruction: "改成5点".to_string() }
    );
    assert!(t.pending.is_none());
}

#[test]
fn clarification_pick_second() {
    let mut s = clarification(ClarifiableIntent::Delete);
    assert!(s.awaits_choice());
    let reply = s.resolve_clarification(" 2 ");
    assert_eq!(reply, "您确定要删除这条记忆吗？\n\n---\n乙\n---");
    assert_eq!(
        s.pending,
        Some(PendingAction {
            action_type: PendingActionType::DeleteConfirmation { memory_id: 2, content_to_delete: "乙".to_string() },
            original_user_request: "改成下午4点".to_string(),
        })
    );
    assert!(!s.awaits_choice());
}

#[test]
fn clarification_out_of_range_cancels() {
    let mut s = clarification(ClarifiableIntent::Modify);
    assert_eq!(s.resolve_clarification("5"), CANCELLED_REPLY);
    assert!(s.pending.is_none());
    let mut t = clarification(ClarifiableIntent::Modify);
    assert_eq!(t.resolve_clarification("0"), CANCELLED_REPLY);
    let mut u = clarification(ClarifiableIntent::Modify);
    assert_eq!(u.resolve_clarification("第二个"), CANCELLED_REPLY);
    let mut v = clarification(ClarifiableIntent::Modify);
    assert_eq!(v.resolve_clarification("+3"), "您是想修改这条记忆吗？\n\n---\n丙\n---");
}

#[test]
fn offer_targets_replies() {
    let mut s = Session::new();
    assert_eq!(s.offer_targets(ClarifiableIntent::Modify, "x", vec![]), "抱歉，我没有找到与您描述相关的记忆。");
    assert_eq!(s.offer_targets(ClarifiableIntent::Delete, "x", vec![]), "抱歉，我没有找到与您描述相关的记忆可以删除。");
    assert!(s.pending.is_none());
    let r = s.offer_targets(ClarifiableIntent::Modify, "x", vec![(1, "a".to_string()), (2, "b".to_string())]);
    assert_eq!(r, "我找到了多条相关记忆，您想修改哪一条？\n\n1. a\n2. b");
    match s.pending {
        Some(PendingAction { action_type: PendingActionType::Clarification { options, original_intent }, .. }) => {
            assert_eq!(options.len(), 2);
            assert_eq!(original_intent, ClarifiableIntent::Modify);
        }
        _ => panic!("expected a clarification"),
    }
}

#[test]
fn many_options_are_numbered_in_decimal() {
    let mut s = Session::new();
    let options: Vec<(i64, String)> = (1..=11).map(|i| (i, format!("m{}", i))).collect();
    let r = s.offer_targets(ClarifiableIntent::Delete, "x", options);
    assert!(r.ends_with("10. m10\n11. m11"));
}

#[test]
fn correction_after_save_end_to_end() {
    let mut s = Session::new();
    assert_eq!(s.route("周五下午3点开会"), Route::Classify);
    s.record_save(42);
    assert_eq!(s.context, Some(InteractionContext { last_action: ContextualAction::Save { memory_id: 42 } }));
    assert_eq!(s.route("不对，应该是4点"), Route::CorrectSaved { memory_id: 42 });
    assert!(s.pending.is_none());
    assert_eq!(s.route("周五几点开会"), Route::Classify);
    assert_eq!(route_for_label(Intent::Question), Route::Recall);
    let updated = vec![RankedCandidate { id: 42, content: "周五下午4点开会".to_string(), fused_score: 32_522 }];
    assert_eq!(
        answer_from_candidates("周五几点开会", &updated),
        RecallAnswer::Found { memory_id: 42, content: "周五下午4点开会".to_string() }
    );
}

#[test]
fn routing_rules_in_order() {
    let mut s = Session::new();
    assert_eq!(s.route("把会议改成周六"), Route::Modify);
    assert_eq!(s.route("删除那条记录"), Route::Delete);
    assert_eq!(s.route("忘掉这个"), Route::Delete);
    assert_eq!(s.route("帮我记明天买菜"), Route::Save);
    assert_eq!(s.route("我的网站是 example.com"), Route::Save);
    assert_eq!(s.route("我的网站是什么？"), Route::Classify);
    assert_eq!(s.route("不对"), Route::Classify);
    s.record_recall(3, "泰坦计划".to_string(), vec!["泰坦".to_string()]);
    assert_eq!(s.route("不对，是下午"), Route::Save);
    assert_eq!(s.context_entities(), Some(vec!["泰坦".to_string()]));
    s.pending = delete_pending().pending;
    assert_eq!(s.route("修改它"), Route::Confirm);
}

#[test]
fn strong_command_does_not_override_pending() {
    let mut s = delete_pending();
    assert_eq!(s.route("删除所有记忆"), Route::Confirm);
    assert_eq!(s.route("帮我记一下明天开会"), Route::Confirm);
    let before = s.pending.clone();
    assert_eq!(s.resolve_confirmation(ConfirmationDecision::Unclear), ConfirmOutcome::Reply { text: REPROMPT_REPLY.to_string() });
    assert_eq!(s.pending, before);
}

#[test]
fn routing_lowercases_first() {
    let s = Session::new();
    assert_eq!(s.route("Rust 是好语言?"), Route::Classify);
    assert_eq!(s.route_lowered("rust 为好语言"), Route::Save);
}

#[test]
fn labels_route_and_decide() {
    assert_eq!(route_for_label(Intent::Statement), Route::Save);
    assert_eq!(route_for_label(Intent::Affirm), Route::Reply { text: "嗯？我们刚才有在讨论什么需要确认的事情吗？".to_string() });
    assert_eq!(route_for_label(Intent::Unknown), Route::AskModel);
    assert_eq!(decision_from_label(Intent::Deny), ConfirmationDecision::Deny);
    assert_eq!(decision_from_label(Intent::Question), ConfirmationDecision::Unclear);
}

#[test]
fn history_keeps_last_eight_lines() {
    let mut s = Session::new();
    for i in 0..5 {
        s.record_turn(&format!("q{}", i), &format!("a{}", i));
    }
    assert_eq!(s.history.len(), 8);
    assert_eq!(s.history[0], "User: q1");
    assert_eq!(s.history[7], "Assistant: a4");
}

#[test]
fn no_context_entities_without_recall() {
    let mut s = Session::new();
    assert_eq!(s.context_entities(), None);
    s.record_recall(1, "x".to_string(), vec![]);
    assert_eq!(s.context_entities(), None);
}
