use memos_assistant::classifier::{intent_for_label, merge_entities, Intent};
use memos_assistant::config::{
    determine_tier, load_default_urls, performance_mode_for, urls_for_mode, MemoryTier, PerformanceMode,
};
use memos_assistant::confirmation::{decision_for_normalized, parse_confirmation};
use memos_assistant::dialogue::ConfirmationDecision;
use memos_assistant::expander::{is_stop_word, keywords_from_tokens, search_texts, QueryExpander};
use memos_assistant::prompts::{
    get_fact_extraction_prompt, get_intent_classification_messages, get_query_rewrite_prompt,
    get_disambiguation_prompt, get_hyde_prompt_v2, get_intent_gbnf_schema, get_text_modification_prompt,
    get_tool_routing_prompt, DISAMBIGUATION_HEAD, QUERY_REWRITE_HEAD, QUERY_REWRITE_TAIL,
};
use memos_assistant::task_routing::{get_routing_gbnf_schema, get_routing_prompt};
use memos_assistant::routing::{extract_decision_object, route_for_tool, RoutingDecision, ToolToCall};
use memos_assistant::dialogue::Route;
use memos_assistant::text::{chars_of, decimal_string, join_strings, parse_usize, trim_str};

fn strings(v: &[&str]) -> Vec<String> {
    v.iter().map(|s| s.to_string()).collect()
}

#[test]
fn confirmation_words() {
    assert_eq!(parse_confirmation("  YES "), ConfirmationDecision::Affirm);
    assert_eq!(parse_confirmation("确定"), ConfirmationDecision::Affirm);
    assert_eq!(parse_confirmation("Cancel"), ConfirmationDecision::Deny);
    assert_eq!(parse_confirmation("不是"), ConfirmationDecision::Deny);
    assert_eq!(parse_confirmation(" 算了 "), ConfirmationDecision::Deny);
    assert_eq!(decision_for_normalized("算了"), ConfirmationDecision::Deny);
    assert_eq!(parse_confirmation("是不是"), ConfirmationDecision::Unclear);
    assert_eq!(decision_for_normalized("n"), ConfirmationDecision::Deny);
    assert_eq!(decision_for_normalized("Y"), ConfirmationDecision::Unclear);
}

#[test]
fn numbers_and_text() {
    assert_eq!(parse_usize(&chars_of("42")), Some(42));
    assert_eq!(parse_usize(&chars_of("+7")), Some(7));
    assert_eq!(parse_usize(&chars_of("+")), None);
    assert_eq!(parse_usize(&chars_of("")), None);
    assert_eq!(parse_usize(&chars_of("-1")), None);
    assert_eq!(parse_usize(&chars_of("18446744073709551615")), Some(usize::MAX));
    assert_eq!(parse_usize(&chars_of("18446744073709551616")), None);
    assert_eq!(decimal_string(0), "0");
    assert_eq!(decimal_string(1207), "1207");
    assert_eq!(trim_str("\u{3000} 你好\n"), "你好");
    assert_eq!(join_strings(&strings(&["a", "b", "c"]), ", "), "a, b, c");
}

#[test]
fn labels_map_ignoring_ascii_case() {
    let labels = vec![Intent::Question, Intent::Statement, Intent::Unknown];
    assert_eq!(intent_for_label(&labels, "question"), Intent::Question);
    assert_eq!(intent_for_label(&labels, "STATEMENT"), Intent::Statement);
    assert_eq!(intent_for_label(&labels, "Affirm"), Intent::Unknown);
    assert_eq!(intent_for_label(&labels, "nonsense"), Intent::Unknown);
}

#[test]
fn entities_from_tags() {
    let pairs: Vec<(String, String)> = [("泰", "B-LOC"), ("坦", "I-LOC"), ("计", "O"), ("划", "I-LOC"), ("周", "B-T"), ("五", "I-T")]
        .iter()
        .map(|(a, b)| (a.to_string(), b.to_string()))
        .collect();
    assert_eq!(merge_entities(&pairs), strings(&["泰坦", "周五"]));
    let adjacent: Vec<(String, String)> = [("a", "B-X"), ("b", "B-X")].iter().map(|(a, b)| (a.to_string(), b.to_string())).collect();
    assert_eq!(merge_entities(&adjacent), strings(&["a", "b"]));
}

#[test]
fn tiers_and_modes() {
    assert_eq!(determine_tier("本周复盘"), MemoryTier::Archive);
    assert_eq!(determine_tier(&"字".repeat(501)), MemoryTier::Archive);
    assert_eq!(determine_tier(&"字".repeat(500)), MemoryTier::Active);
    assert_eq!(performance_mode_for(false, 12 * 1024 * 1024 * 1024), PerformanceMode::QualityFirst);
    assert_eq!(performance_mode_for(false, 12 * 1024 * 1024 * 1024 - 1), PerformanceMode::PerformanceFirst);
    assert_eq!(performance_mode_for(true, u64::MAX), PerformanceMode::PerformanceFirst);
    let urls = load_default_urls();
    assert_eq!(urls.llm_url, "http://localhost:8282");
    assert_eq!(urls.reranker_url, None);
    assert_eq!(urls_for_mode(PerformanceMode::QualityFirst).reranker_url, Some("http://localhost:8080".to_string()));
}

#[test]
fn expander_adds_synonyms_and_keywords() {
    let e = QueryExpander::new();
    let r = e.expand("会议");
    assert_eq!(r[0], "会议");
    assert!(r.contains(&"周会".to_string()));
    assert!(r.contains(&"讨论会".to_string()));
    let plain = e.expand("的");
    assert_eq!(plain, strings(&["的"]));
    assert!(is_stop_word("吗"));
    assert!(!is_stop_word("会议"));
}

#[test]
fn keywords_drop_listed_words() {
    let r = keywords_from_tokens(&strings(&["周五", "的", "会议"]), &strings(&["的"]));
    assert_eq!(r, strings(&["周五", "会议"]));
    let e = QueryExpander::new();
    let k = e.extract_keywords("Rust 的优点");
    assert!(k.contains(&"rust".to_string()));
    assert!(!k.contains(&"的".to_string()));
}

#[test]
fn decision_object_and_tools() {
    let raw = "thinking... {\"tool_to_call\": \"SaveTool\"} done";
    assert_eq!(extract_decision_object(raw).unwrap(), "{\"tool_to_call\": \"SaveTool\"}");
    assert!(extract_decision_object("no object here").is_err());
    assert_eq!(route_for_tool(RoutingDecision { tool_to_call: ToolToCall::DeleteTool }), Route::Delete);
    assert_eq!(route_for_tool(RoutingDecision { tool_to_call: ToolToCall::RecallTool }), Route::Recall);
}

#[test]
fn prompt_messages() {
    let m = get_fact_extraction_prompt("记一下");
    assert_eq!(m.len(), 2);
    assert_eq!(m[1].role, "user");
    assert_eq!(m[1].content, "记一下");
    let q = get_query_rewrite_prompt("q", &vec![]);
    assert_eq!(q[0].content, format!("{}No history.{}", QUERY_REWRITE_HEAD, QUERY_REWRITE_TAIL));
    let h = get_intent_classification_messages("q", &strings(&["User: a", "Assistant: b"]));
    assert_eq!(h.len(), 3);
    assert_eq!(h[1].content, "<Context>\nUser: a\nAssistant: b\n</Context>");
    let r = get_text_modification_prompt("原文", "改成4点");
    assert!(r[0].content.contains("---\n原文\n---"));
}

#[test]
fn search_texts_pick_first_and_join() {
    let (first, joined) = search_texts("q", &strings(&["会议", "周会", "会议 安排"]));
    assert_eq!(first, "会议");
    assert_eq!(joined, "会议 周会 会议 安排");
    let (first, joined) = search_texts("q", &vec![]);
    assert_eq!(first, "q");
    assert_eq!(joined, "");
}

#[test]
fn prompts_with_history() {
    let r = get_routing_prompt("q", &strings(&["User: a"]));
    assert!(r[0].content.contains("User: a"));
    assert!(r[0].content.ends_with("User: a\n"));
    let empty = get_routing_prompt("q", &vec![]);
    assert!(empty[0].content.contains("No conversation history."));
    let d = get_disambiguation_prompt("它的优点", &vec![]);
    assert_eq!(d.len(), 1);
    assert!(d[0].content.starts_with(DISAMBIGUATION_HEAD));
    assert!(d[0].content.ends_with("<User_Input>\n它的优点\n</User_Input>\n<Your_Output>\n"));
    let t = get_tool_routing_prompt("q", &vec![]);
    assert!(t[0].content.ends_with("无对话历史。"));
    assert!(get_routing_gbnf_schema().starts_with("root ::="));
    assert!(get_intent_gbnf_schema().contains("SaveIntent"));
    assert!(get_hyde_prompt_v2().starts_with("You are a memory retrieval engine."));
}
