use memos_assistant::fusion::{
    apply_dynamic_threshold, reciprocal_rank_fusion, sort_by_score_desc, MemoryHit, RankedCandidate,
    RRF_K, SCORE_SCALE,
};
use memos_assistant::retrieval::{
    answer_from_candidates, answer_from_reranked, entity_shortcut, exact_matches, fuse_paths, rank_documents,
    use_entity_filter, DocumentToRank, RankedDocument, ReRankRequest, ReRankStrategy, RecallAnswer,
    ScoreCountMismatch, RERANK_THRESHOLD,
};

fn hit(id: i64, content: &str) -> MemoryHit {
    MemoryHit { id, content: content.to_string() }
}

fn cand(id: i64, score: u64) -> RankedCandidate {
    RankedCandidate { id, content: format!("memo {}", id), fused_score: score }
}

#[test]
fn rrf_accumulates_over_lists() {
    let a = vec![hit(1, "one"), hit(2, "two")];
    let b = vec![hit(2, "two, again"), hit(1, "one, again"), hit(3, "three")];
    let fused = reciprocal_rank_fusion(&vec![a, b], 60);
    assert_eq!(fused.len(), 3);
    let s1 = SCORE_SCALE / 61 + SCORE_SCALE / 62;
    let s3 = SCORE_SCALE / 63;
    assert_eq!(fused[0].id, 1);
    assert_eq!(fused[0].fused_score, s1);
    assert_eq!(fused[1].id, 2);
    assert_eq!(fused[1].fused_score, s1);
    assert_eq!(fused[2].id, 3);
    assert_eq!(fused[2].fused_score, s3);
    assert!(fused[0].fused_score == fused[1].fused_score && fused[1].fused_score > fused[2].fused_score);
    assert_eq!(fused[0].content, "one");
    assert_eq!(fused[1].content, "two");
}

#[test]
fn rrf_exact_terms() {
    let fused = reciprocal_rank_fusion(&vec![vec![hit(7, "x")]], RRF_K);
    assert_eq!(fused.len(), 1);
    assert_eq!(fused[0].fused_score, 16393);
}

#[test]
fn rrf_of_nothing_is_empty() {
    assert!(reciprocal_rank_fusion(&vec![], 60).is_empty());
    assert!(reciprocal_rank_fusion(&vec![vec![], vec![]], 60).is_empty());
}

#[test]
fn sort_is_stable_and_descending() {
    let sorted = sort_by_score_desc(vec![cand(1, 5), cand(2, 9), cand(3, 5), cand(4, 9)]);
    let ids: Vec<i64> = sorted.iter().map(|c| c.id).collect();
    assert_eq!(ids, vec![2, 4, 1, 3]);
}

#[test]
fn threshold_cuts_at_sharp_drop() {
    let kept = apply_dynamic_threshold(vec![cand(1, 900_000), cand(2, 850_000), cand(3, 500_000), cand(4, 450_000)]);
    let ids: Vec<i64> = kept.iter().map(|c| c.id).collect();
    assert_eq!(ids, vec![1, 2]);
}

#[test]
fn threshold_keeps_all_without_sharp_drop() {
    let kept = apply_dynamic_threshold(vec![cand(1, 900_000), cand(2, 800_000), cand(3, 700_000), cand(4, 600_000)]);
    assert_eq!(kept.len(), 4);
}

#[test]
fn threshold_single_candidate_floor() {
    assert_eq!(apply_dynamic_threshold(vec![cand(1, 20_000)]).len(), 1);
    assert!(apply_dynamic_threshold(vec![cand(1, 5_000)]).is_empty());
    assert!(apply_dynamic_threshold(vec![cand(1, 10_000)]).is_empty());
    assert!(apply_dynamic_threshold(vec![]).is_empty());
}

#[test]
fn threshold_first_of_equal_drops() {
    // drops of 300 at index 1 and at index 3; 300 > 30% of 900
    let kept = apply_dynamic_threshold(vec![cand(1, 900), cand(2, 600), cand(3, 500), cand(4, 200)]);
    assert_eq!(kept.len(), 1);
}

#[test]
fn fuse_paths_applies_cutoff() {
    let paths = vec![vec![hit(1, "a"), hit(2, "b")], vec![hit(1, "a")], vec![]];
    let r = fuse_paths(&paths);
    // 1: 1/61 + 1/61, 2: 1/62; the drop exceeds 30%
    assert_eq!(r.len(), 1);
    assert_eq!(r[0].id, 1);
    assert_eq!(r[0].fused_score, 2 * (SCORE_SCALE / 61));
}

#[test]
fn entity_shortcut_scores_one() {
    assert!(!use_entity_filter(&None));
    assert!(!use_entity_filter(&Some(vec![])));
    assert!(use_entity_filter(&Some(vec!["周五".to_string()])));
    let r = exact_matches(vec![hit(4, "d"), hit(2, "b")]);
    assert_eq!(r.len(), 2);
    assert_eq!((r[0].id, r[0].fused_score), (4, SCORE_SCALE));
    assert_eq!((r[1].id, r[1].fused_score), (2, SCORE_SCALE));
    assert!(entity_shortcut(vec![]).is_none());
    let found = entity_shortcut(vec![hit(9, "i")]).unwrap();
    assert_eq!((found[0].id, found[0].fused_score), (9, SCORE_SCALE));
}

#[test]
fn rerank_validates_top_one() {
    let docs = ReRankRequest {
        query: "q".to_string(),
        documents: ["a", "b", "c"].iter().map(|t| DocumentToRank { text: t.to_string() }).collect(),
    };
    let r = rank_documents(docs.clone(), vec![50_000, 400_000, 400_000], ReRankStrategy::ValidateTopOne { threshold: RERANK_THRESHOLD }).unwrap();
    assert_eq!(r, vec![RankedDocument { text: "b".to_string(), score: 400_000 }]);
    let low = rank_documents(docs.clone(), vec![50_000, 90_000, -3], ReRankStrategy::ValidateTopOne { threshold: RERANK_THRESHOLD }).unwrap();
    assert!(low.is_empty());
    let err = rank_documents(docs, vec![1], ReRankStrategy::ValidateTopOne { threshold: 0 });
    assert_eq!(err, Err(ScoreCountMismatch { scores: 1, documents: 3 }));
    assert_eq!(rank_documents(ReRankRequest { query: "q".to_string(), documents: vec![] }, vec![1, 2], ReRankStrategy::ValidateTopOne { threshold: 0 }), Ok(vec![]));
}

#[test]
fn recall_answers() {
    assert_eq!(
        answer_from_candidates("周五", &vec![]),
        RecallAnswer::NothingFound { reply: "关于“周五”，我好像没什么印象...".to_string() }
    );
    let cands = vec![cand(3, 9), cand(5, 8), cand(6, 7), cand(8, 1)];
    assert_eq!(answer_from_candidates("q", &cands), RecallAnswer::Found { memory_id: 3, content: "memo 3".to_string() });
    let accepted = vec![RankedDocument { text: "memo 5".to_string(), score: 1 }];
    assert_eq!(answer_from_reranked("q", &cands, &accepted), RecallAnswer::Found { memory_id: 5, content: "memo 5".to_string() });
    let stray = vec![RankedDocument { text: "elsewhere".to_string(), score: 1 }];
    assert_eq!(answer_from_reranked("q", &cands, &stray), RecallAnswer::Found { memory_id: -1, content: "elsewhere".to_string() });
    assert_eq!(
        answer_from_reranked("q", &cands, &vec![]),
        RecallAnswer::Suggestions {
            reply: "关于“q”，我没有找到直接答案，但发现一些可能相关的内容：\n- memo 3\n- memo 5\n- memo 6".to_string()
        }
    );
}
