//! Recall as a whole: the exact entity shortcut, the fused fuzzy paths, the
//! reranker's "validate top one" strategy, and what recall answers.

use vstd::prelude::*;
use crate::fusion::{
    apply_dynamic_threshold, fused_in_order, reciprocal_rank_fusion, scores_of, sort_desc,
    threshold_keep, total_hits, MemoryHit, RankedCandidate, RRF_K, SCORE_SCALE,
};

verus! {

/// A document with the reranker's relevance score, in units of
/// `SCORE_SCALE` (the service may score below zero).
#[derive(Debug, Clone, PartialEq)]
pub struct RankedDocument {
    pub text: String,
    pub score: i64,
}

/// One document to rerank.
#[derive(Debug, Clone, PartialEq)]
pub struct DocumentToRank {
    pub text: String,
}

/// A query and the documents to rank against it.
#[derive(Debug, Clone, PartialEq)]
pub struct ReRankRequest {
    pub query: String,
    pub documents: Vec<DocumentToRank>,
}

/// The texts of the documents, in order.
pub open spec fn document_texts(d: Seq<DocumentToRank>) -> Seq<String> {
    d.map_values(|x: DocumentToRank| x.text)
}

/// The texts of a request's documents, in the order the service scores them.
pub fn request_texts(request: &ReRankRequest) -> (r: Vec<String>)
    ensures
        r@ == document_texts(request.documents@),
{
    let mut r: Vec<String> = Vec::new();
    let mut i: usize = 0;
    while i < request.documents.len()
        invariant
            i <= request.documents@.len(),
            r@ == document_texts(request.documents@.subrange(0, i as int)),
        decreases request.documents.len() - i,
    {
        r.push(request.documents[i].text.clone());
        assert(document_texts(request.documents@.subrange(0, i + 1)) =~= document_texts(
            request.documents@.subrange(0, i as int),
        ).push(request.documents@[i as int].text));
        i += 1;
    }
    assert(request.documents@.subrange(0, i as int) =~= request.documents@);
    r
}

/// How reranked documents are accepted.
#[derive(Debug, Clone, Copy, PartialEq)]
pub enum ReRankStrategy {
    /// Keep only the best document, and only if it scores at least `threshold`.
    ValidateTopOne { threshold: i64 },
}

/// Relevance a reranked top document needs when recall answers: 0.1.
pub const RERANK_THRESHOLD: i64 = 100_000;

/// The reranker answered with a number of scores other than the number of
/// documents sent.
#[derive(Debug, Clone, Copy, PartialEq, Eq)]
pub struct ScoreCountMismatch {
    pub scores: usize,
    pub documents: usize,
}

/// What recall answers.
#[derive(Debug, Clone, PartialEq)]
pub enum RecallAnswer {
    /// Nothing matched.
    NothingFound { reply: String },
    /// This memory is the answer.
    Found { memory_id: i64, content: String },
    /// The reranker accepted nothing: a summary of the best candidates.
    Suggestions { reply: String },
}

/// Whether the exact entity filter is to be tried first.
pub open spec fn uses_entity_filter(entities: Option<Seq<String>>) -> bool {
    entities is Some && entities->0.len() > 0
}

pub fn use_entity_filter(entities: &Option<Vec<String>>) -> (r: bool)
    ensures
        r == uses_entity_filter(
            match entities {
                Some(v) => Some(v@),
                None => None,
            },
        ),
{
    match entities {
        Some(v) => v.len() > 0,
        None => false,
    }
}

/// The exact entity matches as candidates, in the order found, each with
/// score 1.0.
pub fn exact_matches(hits: Vec<MemoryHit>) -> (r: Vec<RankedCandidate>)
    ensures
        r@.len() == hits@.len(),
        forall|i: int|
            0 <= i < hits@.len() ==> (#[trigger] r@[i]) == (RankedCandidate {
                id: hits@[i].id,
                content: hits@[i].content,
                fused_score: SCORE_SCALE,
            }),
{
    let mut r: Vec<RankedCandidate> = Vec::new();
    let mut i: usize = 0;
    while i < hits.len()
        invariant
            i <= hits@.len(),
            r@.len() == i,
            forall|j: int|
                0 <= j < i ==> (#[trigger] r@[j]) == (RankedCandidate {
                    id: hits@[j].id,
                    content: hits@[j].content,
                    fused_score: SCORE_SCALE,
                }),
        decreases hits.len() - i,
    {
        r.push(RankedCandidate { id: hits[i].id, content: hits[i].content.clone(), fused_score: SCORE_SCALE });
        i += 1;
    }
    r
}

/// What the exact entity filter settles: its matches as candidates when it
/// found any; nothing when the fuzzy paths must run.
pub fn entity_shortcut(hits: Vec<MemoryHit>) -> (r: Option<Vec<RankedCandidate>>)
    ensures
        hits@.len() == 0 ==> r is None,
        hits@.len() > 0 ==> r is Some && r->0@.len() == hits@.len() && forall|i: int|
            0 <= i < hits@.len() ==> (#[trigger] r->0@[i]) == (RankedCandidate {
                id: hits@[i].id,
                content: hits@[i].content,
                fused_score: SCORE_SCALE,
            }),
{
    if hits.len() == 0 {
        None
    } else {
        Some(exact_matches(hits))
    }
}

/// The fuzzy paths fused with `k = 60`, ordered, and cut at the sharpest drop.
pub open spec fn fused_recall(paths: Seq<Vec<MemoryHit>>) -> Seq<RankedCandidate> {
    let sorted = sort_desc(fused_in_order(paths, RRF_K as nat));
    sorted.take(threshold_keep(scores_of(sorted)))
}

/// Fuses the results of the fuzzy retrieval paths and applies the adaptive
/// cutoff.
pub fn fuse_paths(paths: &Vec<Vec<MemoryHit>>) -> (r: Vec<RankedCandidate>)
    requires
        total_hits(paths@, paths@.len() as int) * SCORE_SCALE <= u64::MAX,
    ensures
        r@ == fused_recall(paths@),
{
    let fused = reciprocal_rank_fusion(paths, RRF_K);
    apply_dynamic_threshold(fused)
}

/// Index of the first largest of the first `n` scores.
pub open spec fn first_max_index(s: Seq<i64>, n: int) -> int
    decreases n,
{
    if n <= 1 {
        0
    } else {
        let b = first_max_index(s, n - 1);
        if s[n - 1] > s[b] {
            n - 1
        } else {
            b
        }
    }
}

proof fn lemma_first_max_index_range(s: Seq<i64>, n: int)
    requires
        1 <= n <= s.len(),
    ensures
        0 <= first_max_index(s, n) < n,
    decreases n,
{
    if n > 1 {
        lemma_first_max_index_range(s, n - 1);
    }
}

/// Applies "validate top one" to documents and the scores the reranker gave
/// them, in the same order: the best document (the first of equal best
/// ones, as a stable sort by descending score puts it) if it reaches the
/// threshold, else nothing.
pub fn rank_documents(request: ReRankRequest, scores: Vec<i64>, strategy: ReRankStrategy) -> (r: Result<
    Vec<RankedDocument>,
    ScoreCountMismatch,
>)
    ensures
        request.documents@.len() == 0 ==> r is Ok && r->Ok_0@.len() == 0,
        request.documents@.len() > 0 && scores@.len() != request.documents@.len() ==> r == Err::<
            Vec<RankedDocument>,
            ScoreCountMismatch,
        >(
            ScoreCountMismatch {
                scores: scores@.len() as usize,
                documents: request.documents@.len() as usize,
            },
        ),
        request.documents@.len() > 0 && scores@.len() == request.documents@.len() ==> r is Ok && ({
            let b = first_max_index(scores@, scores@.len() as int);
            let threshold = match strategy {
                ReRankStrategy::ValidateTopOne { threshold } => threshold,
            };
            if scores@[b] >= threshold {
                r->Ok_0@ == seq![
                    RankedDocument { text: document_texts(request.documents@)[b], score: scores@[b] },
                ]
            } else {
                r->Ok_0@.len() == 0
            }
        }),
{
    let documents = request_texts(&request);
    let n = documents.len();
    if n == 0 {
        return Ok(Vec::new());
    }
    if scores.len() != n {
        return Err(ScoreCountMismatch { scores: scores.len(), documents: n });
    }
    let mut best: usize = 0;
    let mut i: usize = 1;
    while i < n
        invariant
            n == scores@.len() == documents@.len(),
            1 <= i <= n,
            best < i,
            best as int == first_max_index(scores@, i as int),
        decreases n - i,
    {
        if scores[i] > scores[best] {
            best = i;
        }
        i += 1;
    }
    proof {
        lemma_first_max_index_range(scores@, n as int);
    }
    let threshold = match strategy {
        ReRankStrategy::ValidateTopOne { threshold } => threshold,
    };
    let mut r: Vec<RankedDocument> = Vec::new();
    if scores[best] >= threshold {
        r.push(RankedDocument { text: documents[best].clone(), score: scores[best] });
    }
    Ok(r)
}

pub const NOTHING_FOUND_HEAD: &'static str = "关于“";

pub const NOTHING_FOUND_TAIL: &'static str = "”，我好像没什么印象...";

pub const SUGGESTIONS_TAIL: &'static str = "”，我没有找到直接答案，但发现一些可能相关的内容：\n";

/// How many candidates a summary shows at most.
pub const SUMMARY_SIZE: usize = 3;

pub open spec fn nothing_found_reply(query: Seq<char>) -> Seq<char> {
    NOTHING_FOUND_HEAD@ + query + NOTHING_FOUND_TAIL@
}

/// The first `n` candidates as lines `- text`, one per line.
pub open spec fn summary_lines(c: Seq<RankedCandidate>, n: int) -> Seq<char>
    decreases n,
{
    if n <= 0 {
        Seq::empty()
    } else if n == 1 {
        "- "@ + c[0].content@
    } else {
        summary_lines(c, n - 1) + "\n"@ + "- "@ + c[n - 1].content@
    }
}

pub open spec fn suggestions_reply(query: Seq<char>, c: Seq<RankedCandidate>) -> Seq<char> {
    NOTHING_FOUND_HEAD@ + query + SUGGESTIONS_TAIL@ + summary_lines(
        c,
        if c.len() < SUMMARY_SIZE {
            c.len() as int
        } else {
            SUMMARY_SIZE as int
        },
    )
}

/// Position of the first candidate whose text is `text`, or -1.
pub open spec fn find_content(c: Seq<RankedCandidate>, text: Seq<char>, n: int) -> int
    decreases n,
{
    if n <= 0 {
        -1
    } else {
        let f = find_content(c, text, n - 1);
        if f >= 0 {
            f
        } else if c[n - 1].content@ == text {
            n - 1
        } else {
            -1
        }
    }
}

proof fn lemma_find_content_stays(c: Seq<RankedCandidate>, text: Seq<char>, m: int, n: int)
    requires
        0 <= m <= n,
        find_content(c, text, m) >= 0,
    ensures
        find_content(c, text, n) == find_content(c, text, m),
    decreases n - m,
{
    if n > m {
        lemma_find_content_stays(c, text, m, n - 1);
    }
}

fn nothing_found(query: &str) -> (r: RecallAnswer)
    ensures
        r is NothingFound && r->NothingFound_reply@ == nothing_found_reply(query@),
{
    RecallAnswer::NothingFound {
        reply: String::from_str(NOTHING_FOUND_HEAD).concat(query).concat(NOTHING_FOUND_TAIL),
    }
}

/// Recall's answer when no reranker is configured: the best candidate.
pub fn answer_from_candidates(query: &str, candidates: &Vec<RankedCandidate>) -> (r: RecallAnswer)
    ensures
        candidates@.len() == 0 ==> r is NothingFound && r->NothingFound_reply@ == nothing_found_reply(
            query@,
        ),
        candidates@.len() > 0 ==> r == (RecallAnswer::Found {
            memory_id: candidates@[0].id,
            content: candidates@[0].content,
        }),
{
    if candidates.len() == 0 {
        return nothing_found(query);
    }
    RecallAnswer::Found { memory_id: candidates[0].id, content: candidates[0].content.clone() }
}

/// Recall's answer after reranking: the accepted document, identified by
/// the first candidate with its text (-1 when none has it), or a summary of
/// the best candidates when the reranker accepted nothing.
pub fn answer_from_reranked(
    query: &str,
    candidates: &Vec<RankedCandidate>,
    accepted: &Vec<RankedDocument>,
) -> (r: RecallAnswer)
    ensures
        candidates@.len() == 0 ==> r is NothingFound && r->NothingFound_reply@ == nothing_found_reply(
            query@,
        ),
        candidates@.len() > 0 && accepted@.len() > 0 ==> ({
            let f = find_content(candidates@, accepted@[0].text@, candidates@.len() as int);
            r == (RecallAnswer::Found {
                memory_id: if f >= 0 {
                    candidates@[f].id
                } else {
                    -1i64
                },
                content: accepted@[0].text,
            })
        }),
        candidates@.len() > 0 && accepted@.len() == 0 ==> r is Suggestions && r->Suggestions_reply@
            == suggestions_reply(query@, candidates@),
{
    let n = candidates.len();
    if n == 0 {
        return nothing_found(query);
    }
    if accepted.len() > 0 {
        let text = &accepted[0].text;
        let mut i: usize = 0;
        while i < n
            invariant
                n == candidates@.len(),
                i <= n,
                accepted@.len() > 0,
                *text == accepted@[0].text,
                find_content(candidates@, text@, i as int) == -1,
            decreases n - i,
        {
            if candidates[i].content == *text {
                assert(find_content(candidates@, text@, i + 1) == i);
                proof {
                    lemma_find_content_stays(candidates@, text@, i + 1, n as int);
                }
                return RecallAnswer::Found { memory_id: candidates[i].id, content: text.clone() };
            }
            i += 1;
        }
        return RecallAnswer::Found { memory_id: -1, content: text.clone() };
    }
    let shown: usize = if n < SUMMARY_SIZE {
        n
    } else {
        SUMMARY_SIZE
    };
    let mut lines = String::new();
    let mut j: usize = 0;
    while j < shown
        invariant
            shown <= n == candidates@.len(),
            j <= shown,
            lines@ == summary_lines(candidates@, j as int),
        decreases shown - j,
    {
        if j == 0 {
            lines = String::from_str("- ").concat(candidates[j].content.as_str());
        } else {
            lines = lines.concat("\n").concat("- ").concat(candidates[j].content.as_str());
        }
        j += 1;
    }
    let reply = String::from_str(NOTHING_FOUND_HEAD).concat(query).concat(SUGGESTIONS_TAIL).concat(
        lines.as_str(),
    );
    RecallAnswer::Suggestions { reply }
}

} // verus!
