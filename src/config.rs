//! Configuration decisions: service addresses, performance mode, and the
//! storage tier of a memory; and the command that enters the dispatcher.

use vstd::prelude::*;
use crate::text::{chars_of, contains_seq, contains_str};

verus! {

/// The one kind of command the dispatcher takes.
#[derive(Debug, Clone, PartialEq)]
pub enum Command {
    ProcessText(String),
}

/// Addresses of the model and store services.
#[derive(Debug, Clone, PartialEq)]
pub struct ServiceUrls {
    pub llm_url: String,
    pub embedding_url: String,
    pub reranker_url: Option<String>,
    pub qdrant_url: String,
}

pub const DEFAULT_LLM_URL: &'static str = "http://localhost:8282";

pub const DEFAULT_EMBEDDING_URL: &'static str = "http://localhost:8181";

pub const DEFAULT_QDRANT_URL: &'static str = "http://localhost:6334";

/// The address of the reranker, which runs only in quality-first mode.
pub const DEFAULT_RERANKER_URL: &'static str = "http://localhost:8080";

/// The local addresses, without a reranker.
pub fn load_default_urls() -> (r: ServiceUrls)
    ensures
        r.llm_url@ == DEFAULT_LLM_URL@,
        r.embedding_url@ == DEFAULT_EMBEDDING_URL@,
        r.reranker_url is None,
        r.qdrant_url@ == DEFAULT_QDRANT_URL@,
{
    ServiceUrls {
        llm_url: String::from_str(DEFAULT_LLM_URL),
        embedding_url: String::from_str(DEFAULT_EMBEDDING_URL),
        reranker_url: None,
        qdrant_url: String::from_str(DEFAULT_QDRANT_URL),
    }
}

/// Whether to spend memory on quality (reranking) or to save it.
#[derive(Debug, Clone, Copy, PartialEq, Eq, Structural)]
pub enum PerformanceMode {
    QualityFirst,
    PerformanceFirst,
}

/// Memory that quality-first mode needs: 12 GiB.
pub const QUALITY_MEMORY_BYTES: u64 = 12 * 1024 * 1024 * 1024;

/// Performance-first when forced, else quality-first exactly when the
/// machine has at least 12 GiB.
pub fn performance_mode_for(forced: bool, total_memory_bytes: u64) -> (r: PerformanceMode)
    ensures
        r == (if !forced && total_memory_bytes >= QUALITY_MEMORY_BYTES {
            PerformanceMode::QualityFirst
        } else {
            PerformanceMode::PerformanceFirst
        }),
{
    if forced {
        PerformanceMode::PerformanceFirst
    } else if total_memory_bytes >= QUALITY_MEMORY_BYTES {
        PerformanceMode::QualityFirst
    } else {
        PerformanceMode::PerformanceFirst
    }
}

/// The service addresses for a mode: the reranker only in quality-first mode.
pub fn urls_for_mode(mode: PerformanceMode) -> (r: ServiceUrls)
    ensures
        r.llm_url@ == DEFAULT_LLM_URL@,
        r.embedding_url@ == DEFAULT_EMBEDDING_URL@,
        r.qdrant_url@ == DEFAULT_QDRANT_URL@,
        mode is QualityFirst ==> r.reranker_url is Some && r.reranker_url->0@ == DEFAULT_RERANKER_URL@,
        mode is PerformanceFirst ==> r.reranker_url is None,
{
    let mut urls = load_default_urls();
    match mode {
        PerformanceMode::QualityFirst => {
            urls.reranker_url = Some(String::from_str(DEFAULT_RERANKER_URL));
        },
        PerformanceMode::PerformanceFirst => {},
    }
    urls
}

/// Where a memory is kept.
#[derive(Debug, Clone, Copy, PartialEq, Eq, Structural)]
pub enum MemoryTier {
    Active,
    Archive,
}

/// Longest content, in characters, that stays active by length alone.
pub const ACTIVE_MAX_CHARS: usize = 500;

pub open spec fn has_archival_keyword(t: Seq<char>) -> bool {
    contains_seq(t, "总结"@) || contains_seq(t, "原理"@) || contains_seq(t, "复盘"@) || contains_seq(
        t,
        "思考"@,
    ) || contains_seq(t, "报告"@) || contains_seq(t, "长期规划"@)
}

/// Reflective or long content is archived; the rest stays active.
pub fn determine_tier(content: &str) -> (r: MemoryTier)
    ensures
        r == (if has_archival_keyword(content@) || content@.len() > ACTIVE_MAX_CHARS {
            MemoryTier::Archive
        } else {
            MemoryTier::Active
        }),
{
    let t = chars_of(content);
    let keyword = contains_str(&t, "总结") || contains_str(&t, "原理") || contains_str(&t, "复盘")
        || contains_str(&t, "思考") || contains_str(&t, "报告") || contains_str(&t, "长期规划");
    if keyword || t.len() > ACTIVE_MAX_CHARS {
        MemoryTier::Archive
    } else {
        MemoryTier::Active
    }
}

} // verus!
