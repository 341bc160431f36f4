//! Reciprocal rank fusion of several retrieval paths, stable ordering by
//! fused score, and the adaptive cutoff at the sharpest score drop.
//!
//! Scores are fixed-point: a score of `SCORE_SCALE` stands for 1.0.

use vstd::prelude::*;

verus! {

/// Fixed-point unit of every score: `SCORE_SCALE` is 1.0.
pub const SCORE_SCALE: u64 = 1_000_000;

/// The rank constant of reciprocal rank fusion used by recall.
pub const RRF_K: u32 = 60;

/// One result of a retrieval path: a stored memory and its text.
pub struct MemoryHit {
    pub id: i64,
    pub content: String,
}

/// A memory with its fused score, produced by one recall.
pub struct RankedCandidate {
    pub id: i64,
    pub content: String,
    pub fused_score: u64,
}

/// What a hit at 0-based `rank` adds to its memory's fused score:
/// `1 / (k + rank + 1)`, in units of `SCORE_SCALE`, rounded down.
pub open spec fn rrf_term(k: nat, rank: int) -> int {
    SCORE_SCALE as int / (k + rank + 1)
}

/// Position of the first candidate among the first `n` of `acc` with this id,
/// or -1.
pub open spec fn find_id(acc: Seq<RankedCandidate>, id: i64, n: int) -> int
    decreases n,
{
    if n <= 0 {
        -1
    } else {
        let f = find_id(acc, id, n - 1);
        if f >= 0 {
            f
        } else if acc[n - 1].id == id {
            n - 1
        } else {
            -1
        }
    }
}

/// Adds `term` to the candidate with `id`, or appends a new candidate with
/// `content` when none has that id yet.
pub open spec fn absorb(acc: Seq<RankedCandidate>, id: i64, content: String, term: int) -> Seq<
    RankedCandidate,
> {
    let f = find_id(acc, id, acc.len() as int);
    if f >= 0 {
        acc.update(
            f,
            RankedCandidate { id, content: acc[f].content, fused_score: (acc[f].fused_score + term) as u64 },
        )
    } else {
        acc.push(RankedCandidate { id, content, fused_score: term as u64 })
    }
}

/// Folds the first `n` hits of one ranked list into `acc`.
pub open spec fn fuse_list(acc: Seq<RankedCandidate>, list: Seq<MemoryHit>, k: nat, n: int) -> Seq<
    RankedCandidate,
>
    decreases n,
{
    if n <= 0 {
        acc
    } else {
        absorb(fuse_list(acc, list, k, n - 1), list[n - 1].id, list[n - 1].content, rrf_term(k, n - 1))
    }
}

/// Folds the first `n` ranked lists, in order, starting from nothing.
pub open spec fn fuse_lists(lists: Seq<Vec<MemoryHit>>, k: nat, n: int) -> Seq<RankedCandidate>
    decreases n,
{
    if n <= 0 {
        Seq::empty()
    } else {
        let prev = fuse_lists(lists, k, n - 1);
        fuse_list(prev, lists[n - 1]@, k, lists[n - 1]@.len() as int)
    }
}

/// Every memory that occurs in some list, once, in order of first
/// occurrence, with the sum of its terms over all lists and the text of its
/// first occurrence.
pub open spec fn fused_in_order(lists: Seq<Vec<MemoryHit>>, k: nat) -> Seq<RankedCandidate> {
    fuse_lists(lists, k, lists.len() as int)
}

/// Number of hits over all lists.
pub open spec fn total_hits(lists: Seq<Vec<MemoryHit>>, n: int) -> int
    decreases n,
{
    if n <= 0 {
        0
    } else {
        total_hits(lists, n - 1) + lists[n - 1]@.len()
    }
}

/// Inserts `c` after every element of the (descending) `s` whose score is at
/// least its own.
pub open spec fn insert_desc(s: Seq<RankedCandidate>, c: RankedCandidate) -> Seq<RankedCandidate>
    decreases s.len(),
{
    if s.len() == 0 {
        seq![c]
    } else if s.last().fused_score >= c.fused_score {
        s.push(c)
    } else {
        insert_desc(s.drop_last(), c).push(s.last())
    }
}

/// `s` stably sorted by descending score: equal scores keep their order.
pub open spec fn sort_desc(s: Seq<RankedCandidate>) -> Seq<RankedCandidate>
    decreases s.len(),
{
    if s.len() == 0 {
        s
    } else {
        insert_desc(sort_desc(s.drop_last()), s.last())
    }
}

/// Scores never increase along `s`.
pub open spec fn is_desc(s: Seq<RankedCandidate>) -> bool {
    forall|i: int, j: int| 0 <= i < j < s.len() ==> s[i].fused_score >= s[j].fused_score
}

/// All scores are at most `bound`.
pub open spec fn scores_at_most(s: Seq<RankedCandidate>, bound: int) -> bool {
    forall|j: int| 0 <= j < s.len() ==> s[j].fused_score <= bound
}

proof fn lemma_insert_desc_lower(s: Seq<RankedCandidate>, c: RankedCandidate, m: int)
    requires
        c.fused_score >= m,
        forall|j: int| 0 <= j < s.len() ==> s[j].fused_score >= m,
    ensures
        forall|i: int| 0 <= i < insert_desc(s, c).len() ==> insert_desc(s, c)[i].fused_score >= m,
    decreases s.len(),
{
    if s.len() == 0 {
        assert(insert_desc(s, c) =~= seq![c]);
    } else if s.last().fused_score >= c.fused_score {
        assert(insert_desc(s, c) =~= s.push(c));
    } else {
        let t = s.drop_last();
        assert forall|j: int| 0 <= j < t.len() implies t[j].fused_score >= m by {
            assert(t[j] == s[j]);
        }
        lemma_insert_desc_lower(t, c, m);
        let u = insert_desc(t, c);
        assert(insert_desc(s, c) == u.push(s.last()));
        assert forall|i: int| 0 <= i < u.push(s.last()).len() implies u.push(s.last())[i].fused_score >= m by {
            if i < u.len() {
                assert(u.push(s.last())[i] == u[i]);
            }
        }
    }
}

proof fn lemma_insert_desc_sorted(s: Seq<RankedCandidate>, c: RankedCandidate)
    requires
        is_desc(s),
    ensures
        is_desc(insert_desc(s, c)),
        insert_desc(s, c).len() == s.len() + 1,
    decreases s.len(),
{
    if s.len() > 0 && s.last().fused_score < c.fused_score {
        let t = s.drop_last();
        lemma_insert_desc_sorted(t, c);
        lemma_insert_desc_lower(t, c, s.last().fused_score as int);
    }
}

/// A stable sort by descending score is ordered by descending score and
/// keeps the length.
pub proof fn lemma_sort_desc_sorted(s: Seq<RankedCandidate>)
    ensures
        is_desc(sort_desc(s)),
        sort_desc(s).len() == s.len(),
    decreases s.len(),
{
    if s.len() > 0 {
        lemma_sort_desc_sorted(s.drop_last());
        lemma_insert_desc_sorted(sort_desc(s.drop_last()), s.last());
    }
}

proof fn lemma_find_id_range(acc: Seq<RankedCandidate>, id: i64, n: int)
    requires
        0 <= n <= acc.len(),
    ensures
        -1 <= find_id(acc, id, n) < n,
        find_id(acc, id, n) >= 0 ==> acc[find_id(acc, id, n)].id == id,
    decreases n,
{
    if n > 0 {
        lemma_find_id_range(acc, id, n - 1);
    }
}

fn copy_candidate(c: &RankedCandidate) -> (r: RankedCandidate)
    ensures
        r == *c,
{
    RankedCandidate { id: c.id, content: c.content.clone(), fused_score: c.fused_score }
}

/// Folds one hit into the running fusion.
fn absorb_exec(acc: &mut Vec<RankedCandidate>, id: i64, content: &String, term: u64, Ghost(bound): Ghost<int>)
    requires
        scores_at_most(old(acc)@, bound),
        0 <= bound,
        bound + term <= u64::MAX,
    ensures
        final(acc)@ == absorb(old(acc)@, id, *content, term as int),
        scores_at_most(final(acc)@, bound + term),
{
    let n = acc.len();
    let mut i: usize = 0;
    while i < n
        invariant
            n == acc@.len(),
            acc@ == old(acc)@,
            i <= n,
            find_id(acc@, id, i as int) == -1,
            scores_at_most(acc@, bound),
            0 <= bound,
            bound + term <= u64::MAX,
        decreases n - i,
    {
        if acc[i].id == id {
            assert(find_id(acc@, id, i + 1) == i);
            assert(acc@[i as int].fused_score <= bound);
            proof {
                lemma_find_first_stays(acc@, id, i + 1, n as int);
            }
            let updated = RankedCandidate {
                id,
                content: acc[i].content.clone(),
                fused_score: acc[i].fused_score + term,
            };
            acc.set(i, updated);
            return;
        }
        i += 1;
    }
    acc.push(RankedCandidate { id, content: content.clone(), fused_score: term });
}

proof fn lemma_find_first_stays(acc: Seq<RankedCandidate>, id: i64, m: int, n: int)
    requires
        0 <= m <= n,
        find_id(acc, id, m) >= 0,
    ensures
        find_id(acc, id, n) == find_id(acc, id, m),
    decreases n - m,
{
    if n > m {
        lemma_find_first_stays(acc, id, m, n - 1);
    }
}

/// Reciprocal rank fusion: each list contributes `1/(k + rank + 1)` to the
/// score of the memory at each 0-based rank; contributions to one memory
/// add up over all lists; the text kept for a memory is the one first met.
/// The result is ordered by descending score, ties in order of first
/// occurrence.
pub fn reciprocal_rank_fusion(lists: &Vec<Vec<MemoryHit>>, k: u32) -> (r: Vec<RankedCandidate>)
    requires
        total_hits(lists@, lists@.len() as int) * SCORE_SCALE <= u64::MAX,
    ensures
        r@ == sort_desc(fused_in_order(lists@, k as nat)),
        is_desc(r@),
{
    let mut acc: Vec<RankedCandidate> = Vec::new();
    let mut li: usize = 0;
    let ghost mut seen: int = 0;
    while li < lists.len()
        invariant
            li <= lists@.len(),
            acc@ == fuse_lists(lists@, k as nat, li as int),
            seen == total_hits(lists@, li as int),
            0 <= seen,
            scores_at_most(acc@, seen * SCORE_SCALE),
            total_hits(lists@, lists@.len() as int) * SCORE_SCALE <= u64::MAX,
        decreases lists.len() - li,
    {
        let list = &lists[li];
        let mut rank: usize = 0;
        proof {
            lemma_total_hits_mono(lists@, li + 1, lists@.len() as int);
        }
        while rank < list.len()
            invariant
                li < lists@.len(),
                *list == lists@[li as int],
                rank <= list@.len(),
                acc@ == fuse_list(fuse_lists(lists@, k as nat, li as int), list@, k as nat, rank as int),
                seen == total_hits(lists@, li as int),
                0 <= seen,
                scores_at_most(acc@, (seen + rank) * SCORE_SCALE),
                (seen + list@.len()) * SCORE_SCALE <= u64::MAX,
            decreases list.len() - rank,
        {
            assert(rank < 20_000_000_000_000) by (nonlinear_arith)
                requires
                    (seen + list@.len()) * SCORE_SCALE <= u64::MAX,
                    rank < list@.len(),
                    seen >= 0,
            ;
            let denom: u64 = k as u64 + rank as u64 + 1;
            let term: u64 = SCORE_SCALE / denom;
            proof {
                assert(term <= SCORE_SCALE) by (nonlinear_arith)
                    requires
                        denom >= 1,
                        term == SCORE_SCALE as int / denom as int,
                ;
                assert((seen + rank) * SCORE_SCALE + SCORE_SCALE == (seen + rank + 1) * SCORE_SCALE)
                    by (nonlinear_arith);
                assert((seen + rank + 1) * SCORE_SCALE <= (seen + list@.len()) * SCORE_SCALE)
                    by (nonlinear_arith)
                    requires
                        rank < list@.len(),
                ;
            }
            absorb_exec(&mut acc, list[rank].id, &list[rank].content, term, Ghost((seen + rank) * SCORE_SCALE));
            proof {
                assert forall|j: int| 0 <= j < acc@.len() implies acc@[j].fused_score <= (seen + rank + 1)
                    * SCORE_SCALE by {}
            }
            rank += 1;
        }
        proof {
            seen = seen + list@.len();
        }
        li += 1;
    }
    proof {
        lemma_sort_desc_sorted(acc@);
    }
    sort_by_score_desc(acc)
}

proof fn lemma_total_hits_mono(lists: Seq<Vec<MemoryHit>>, m: int, n: int)
    requires
        0 <= m <= n,
    ensures
        total_hits(lists, m) <= total_hits(lists, n),
    decreases n - m,
{
    if n > m {
        lemma_total_hits_mono(lists, m, n - 1);
    }
}

/// Stable sort by descending score.
pub fn sort_by_score_desc(v: Vec<RankedCandidate>) -> (r: Vec<RankedCandidate>)
    ensures
        r@ == sort_desc(v@),
{
    let mut out: Vec<RankedCandidate> = Vec::new();
    let mut i: usize = 0;
    while i < v.len()
        invariant
            i <= v@.len(),
            out@ == sort_desc(v@.subrange(0, i as int)),
        decreases v.len() - i,
    {
        let c = copy_candidate(&v[i]);
        assert(v@.subrange(0, i + 1).drop_last() =~= v@.subrange(0, i as int));
        insert_desc_exec(&mut out, c);
        i += 1;
    }
    assert(v@.subrange(0, v@.len() as int) =~= v@);
    out
}

proof fn lemma_insert_step(s: Seq<RankedCandidate>, c: RankedCandidate, p: int)
    requires
        0 < p <= s.len(),
        s[p - 1].fused_score < c.fused_score,
    ensures
        insert_desc(s.subrange(0, p), c) + s.subrange(p, s.len() as int) == insert_desc(
            s.subrange(0, p - 1),
            c,
        ) + s.subrange(p - 1, s.len() as int),
{
    let pre = s.subrange(0, p);
    assert(pre.drop_last() =~= s.subrange(0, p - 1));
    assert(insert_desc(pre, c) == insert_desc(pre.drop_last(), c).push(pre.last()));
    assert(insert_desc(pre.drop_last(), c).push(pre.last()) + s.subrange(p, s.len() as int)
        =~= insert_desc(pre.drop_last(), c) + s.subrange(p - 1, s.len() as int));
}

proof fn lemma_insert_stop(s: Seq<RankedCandidate>, c: RankedCandidate, p: int)
    requires
        0 <= p <= s.len(),
        p == 0 || s[p - 1].fused_score >= c.fused_score,
    ensures
        insert_desc(s.subrange(0, p), c) + s.subrange(p, s.len() as int) =~= s.insert(p, c),
{
    let pre = s.subrange(0, p);
    if p == 0 {
        assert(insert_desc(pre, c) =~= seq![c]);
    } else {
        assert(insert_desc(pre, c) =~= pre.push(c));
    }
}

fn insert_desc_exec(s: &mut Vec<RankedCandidate>, c: RankedCandidate)
    ensures
        final(s)@ == insert_desc(old(s)@, c),
{
    let mut pos: usize = s.len();
    proof {
        assert(s@.subrange(0, s@.len() as int) =~= s@);
        assert(insert_desc(s@, c) =~= insert_desc(s@, c) + s@.subrange(s@.len() as int, s@.len() as int));
    }
    // The new element goes after the last one whose score is at least its own.
    while pos > 0 && s[pos - 1].fused_score < c.fused_score
        invariant
            pos <= s@.len(),
            s@ == old(s)@,
            insert_desc(s@, c) == insert_desc(s@.subrange(0, pos as int), c) + s@.subrange(
                pos as int,
                s@.len() as int,
            ),
        decreases pos,
    {
        proof {
            lemma_insert_step(s@, c, pos as int);
        }
        pos -= 1;
    }
    proof {
        lemma_insert_stop(s@, c, pos as int);
    }
    s.insert(pos, c);
}

/// What the first `n` hits of `list` add to the score of `id`.
pub open spec fn list_score(list: Seq<MemoryHit>, id: i64, k: nat, n: int) -> int
    decreases n,
{
    if n <= 0 {
        0
    } else {
        list_score(list, id, k, n - 1) + if list[n - 1].id == id {
            rrf_term(k, n - 1)
        } else {
            0
        }
    }
}

/// What the first `n` lists add to the score of `id`.
pub open spec fn lists_score(lists: Seq<Vec<MemoryHit>>, id: i64, k: nat, n: int) -> int
    decreases n,
{
    if n <= 0 {
        0
    } else {
        lists_score(lists, id, k, n - 1) + list_score(lists[n - 1]@, id, k, lists[n - 1]@.len() as int)
    }
}

/// No two candidates share an id.
pub open spec fn distinct_ids(s: Seq<RankedCandidate>) -> bool {
    forall|i: int, j: int| 0 <= i < j < s.len() ==> s[i].id != s[j].id
}

/// Each candidate's score is `score(id)`; ids not present score nothing.
pub open spec fn scored_by(acc: Seq<RankedCandidate>, score: spec_fn(i64) -> int) -> bool {
    &&& distinct_ids(acc)
    &&& forall|j: int| 0 <= j < acc.len() ==> acc[j].fused_score == score(acc[j].id)
    &&& forall|x: i64| #[trigger] find_id(acc, x, acc.len() as int) < 0 ==> score(x) == 0
}

proof fn lemma_find_id_absent(acc: Seq<RankedCandidate>, id: i64, n: int)
    requires
        0 <= n <= acc.len(),
        find_id(acc, id, n) < 0,
    ensures
        forall|j: int| 0 <= j < n ==> acc[j].id != id,
    decreases n,
{
    if n > 0 {
        lemma_find_id_absent(acc, id, n - 1);
    }
}

proof fn lemma_find_id_present(acc: Seq<RankedCandidate>, id: i64, j: int, n: int)
    requires
        0 <= j < n <= acc.len(),
        acc[j].id == id,
    ensures
        find_id(acc, id, n) >= 0,
    decreases n,
{
    if n - 1 > j {
        lemma_find_id_present(acc, id, j, n - 1);
        lemma_find_first_stays(acc, id, n - 1, n);
    }
}

proof fn lemma_absorb_scored(
    acc: Seq<RankedCandidate>,
    id: i64,
    content: String,
    term: int,
    score: spec_fn(i64) -> int,
)
    requires
        scored_by(acc, score),
        0 <= term,
        score(id) + term <= u64::MAX,
        forall|x: i64| #[trigger] score(x) >= 0,
    ensures
        scored_by(absorb(acc, id, content, term), |x: i64| score(x) + if x == id { term } else { 0 }),
{
    let next = |x: i64| score(x) + if x == id { term } else { 0 };
    let out = absorb(acc, id, content, term);
    let f = find_id(acc, id, acc.len() as int);
    lemma_find_id_range(acc, id, acc.len() as int);
    if f >= 0 {
        assert forall|j: int| 0 <= j < out.len() implies out[j].fused_score == next(out[j].id) by {
            if j != f {
                assert(acc[j].id != id);
            }
        }
        assert forall|x: i64| find_id(out, x, out.len() as int) < 0 implies next(x) == 0 by {
            lemma_find_id_absent(out, x, out.len() as int);
            if find_id(acc, x, acc.len() as int) >= 0 {
                let g = find_id(acc, x, acc.len() as int);
                lemma_find_id_range(acc, x, acc.len() as int);
                assert(out[g].id == x);
            }
        }
    } else {
        lemma_find_id_absent(acc, id, acc.len() as int);
        assert forall|j: int| 0 <= j < out.len() implies out[j].fused_score == next(out[j].id) by {
            if j < acc.len() {
                assert(acc[j].id != id);
            }
        }
        assert forall|x: i64| find_id(out, x, out.len() as int) < 0 implies next(x) == 0 by {
            lemma_find_id_absent(out, x, out.len() as int);
            assert(out[acc.len() as int].id == id);
            if find_id(acc, x, acc.len() as int) >= 0 {
                let g = find_id(acc, x, acc.len() as int);
                lemma_find_id_range(acc, x, acc.len() as int);
                assert(out[g].id == x);
            }
        }
    }
}

proof fn lemma_list_score_bound(list: Seq<MemoryHit>, id: i64, k: nat, n: int)
    ensures
        0 <= list_score(list, id, k, n) <= (if n > 0 { n } else { 0 }) * SCORE_SCALE,
    decreases n,
{
    if n > 0 {
        lemma_list_score_bound(list, id, k, n - 1);
        assert(rrf_term(k, n - 1) <= SCORE_SCALE) by (nonlinear_arith)
            requires
                k + (n - 1) + 1 >= 1,
        {
            assert(SCORE_SCALE as int / (k + (n - 1) + 1) <= SCORE_SCALE as int);
        }
        assert(rrf_term(k, n - 1) >= 0) by (nonlinear_arith)
            requires
                k + (n - 1) + 1 >= 1,
        ;
        assert((n - 1) * SCORE_SCALE + SCORE_SCALE == n * SCORE_SCALE) by (nonlinear_arith);
    }
}

proof fn lemma_lists_score_bound(lists: Seq<Vec<MemoryHit>>, id: i64, k: nat, n: int)
    requires
        0 <= n <= lists.len(),
    ensures
        0 <= lists_score(lists, id, k, n) <= total_hits(lists, n) * SCORE_SCALE,
    decreases n,
{
    if n > 0 {
        lemma_lists_score_bound(lists, id, k, n - 1);
        lemma_list_score_bound(lists[n - 1]@, id, k, lists[n - 1]@.len() as int);
        assert(total_hits(lists, n - 1) * SCORE_SCALE + lists[n - 1]@.len() * SCORE_SCALE == total_hits(
            lists,
            n,
        ) * SCORE_SCALE) by (nonlinear_arith)
            requires
                total_hits(lists, n) == total_hits(lists, n - 1) + lists[n - 1]@.len(),
        ;
    }
}

proof fn lemma_fuse_list_scored(
    acc: Seq<RankedCandidate>,
    list: Seq<MemoryHit>,
    k: nat,
    n: int,
    base: spec_fn(i64) -> int,
    bound: int,
)
    requires
        0 <= n <= list.len(),
        scored_by(acc, base),
        forall|x: i64| 0 <= #[trigger] base(x) && base(x) + list_score(list, x, k, list.len() as int) <= bound,
        bound <= u64::MAX,
    ensures
        scored_by(fuse_list(acc, list, k, n), |x: i64| base(x) + list_score(list, x, k, n)),
    decreases n,
{
    if n > 0 {
        lemma_fuse_list_scored(acc, list, k, n - 1, base, bound);
        let prev = |x: i64| base(x) + list_score(list, x, k, n - 1);
        let id = list[n - 1].id;
        assert forall|x: i64| #[trigger] prev(x) >= 0 by {
            lemma_list_score_bound(list, x, k, n - 1);
        }
        assert(prev(id) + rrf_term(k, n - 1) <= u64::MAX) by {
            lemma_list_score_prefix(list, id, k, n, list.len() as int);
        }
        assert(rrf_term(k, n - 1) >= 0) by (nonlinear_arith)
            requires
                k + (n - 1) + 1 >= 1,
        ;
        lemma_absorb_scored(fuse_list(acc, list, k, n - 1), id, list[n - 1].content, rrf_term(k, n - 1), prev);
        let got = |x: i64| prev(x) + if x == id { rrf_term(k, n - 1) } else { 0 };
        let want = |x: i64| base(x) + list_score(list, x, k, n);
        assert(got =~= want);
    }
}

proof fn lemma_list_score_prefix(list: Seq<MemoryHit>, id: i64, k: nat, m: int, n: int)
    requires
        0 <= m <= n,
    ensures
        list_score(list, id, k, m) <= list_score(list, id, k, n),
    decreases n - m,
{
    if n > m {
        lemma_list_score_prefix(list, id, k, m, n - 1);
        assert(rrf_term(k, n - 1) >= 0) by (nonlinear_arith)
            requires
                k + (n - 1) + 1 >= 1,
        ;
    }
}

proof fn lemma_fuse_lists_scored(lists: Seq<Vec<MemoryHit>>, k: nat, n: int)
    requires
        0 <= n <= lists.len(),
        total_hits(lists, lists.len() as int) * SCORE_SCALE <= u64::MAX,
    ensures
        scored_by(fuse_lists(lists, k, n), |x: i64| lists_score(lists, x, k, n)),
    decreases n,
{
    if n == 0 {
        let e = fuse_lists(lists, k, 0);
        assert(e.len() == 0);
    } else {
        lemma_fuse_lists_scored(lists, k, n - 1);
        let base = |x: i64| lists_score(lists, x, k, n - 1);
        let list = lists[n - 1]@;
        assert forall|x: i64| 0 <= #[trigger] base(x) && base(x) + list_score(list, x, k, list.len() as int)
            <= total_hits(lists, lists.len() as int) * SCORE_SCALE by {
            lemma_lists_score_bound(lists, x, k, n);
            lemma_lists_score_bound(lists, x, k, n - 1);
            lemma_total_hits_mono(lists, n, lists.len() as int);
            assert(total_hits(lists, n) * SCORE_SCALE <= total_hits(lists, lists.len() as int) * SCORE_SCALE)
                by (nonlinear_arith)
                requires
                    total_hits(lists, n) <= total_hits(lists, lists.len() as int),
            ;
        }
        lemma_fuse_list_scored(
            fuse_lists(lists, k, n - 1),
            list,
            k,
            list.len() as int,
            base,
            total_hits(lists, lists.len() as int) * SCORE_SCALE,
        );
        let got = |x: i64| base(x) + list_score(list, x, k, list.len() as int);
        let want = |x: i64| lists_score(lists, x, k, n);
        assert(got =~= want);
    }
}

/// Scores of the fusion add up: each memory occurs once, and its score is
/// the sum, over all lists and all ranks at which it occurs, of
/// `1/(k + rank + 1)`; a memory that occurs in no list gets no candidate.
pub proof fn lemma_fused_scores_add_up(lists: Seq<Vec<MemoryHit>>, k: nat)
    requires
        total_hits(lists, lists.len() as int) * SCORE_SCALE <= u64::MAX,
    ensures
        distinct_ids(fused_in_order(lists, k)),
        forall|j: int|
            0 <= j < fused_in_order(lists, k).len() ==> (#[trigger] fused_in_order(lists, k)[j]).fused_score
                == lists_score(lists, fused_in_order(lists, k)[j].id, k, lists.len() as int),
        forall|x: i64|
            find_id(fused_in_order(lists, k), x, fused_in_order(lists, k).len() as int) < 0 ==> lists_score(
                lists,
                x,
                k,
                lists.len() as int,
            ) == 0,
{
    lemma_fuse_lists_scored(lists, k, lists.len() as int);
}

/// Score floor that a lone candidate must exceed: 0.01.
pub const SINGLE_CANDIDATE_FLOOR: u64 = 10_000;

/// The scores of `s`, in order.
pub open spec fn scores_of(s: Seq<RankedCandidate>) -> Seq<u64> {
    s.map_values(|c: RankedCandidate| c.fused_score)
}

/// Over the adjacent pairs among the first `n` scores, the first index `i`
/// with the largest positive drop `s[i-1] - s[i]`, and that drop; `(0, 0)`
/// when no score drops.
pub open spec fn largest_drop(s: Seq<u64>, n: int) -> (int, int)
    decreases n,
{
    if n <= 1 {
        (0, 0)
    } else {
        let (bi, bd) = largest_drop(s, n - 1);
        let d = s[n - 2] - s[n - 1];
        if d > bd {
            (n - 1, d)
        } else {
            (bi, bd)
        }
    }
}

/// How many leading candidates the adaptive cutoff keeps: none of an empty
/// list; a lone candidate only above the floor; otherwise those before the
/// largest drop when that drop exceeds 30% of the score before it, else all.
pub open spec fn threshold_keep(s: Seq<u64>) -> int {
    if s.len() == 0 {
        0
    } else if s.len() == 1 {
        if s[0] > SINGLE_CANDIDATE_FLOOR {
            1
        } else {
            0
        }
    } else {
        let (i, d) = largest_drop(s, s.len() as int);
        if i > 0 && d * 10 > s[i - 1] * 3 {
            i
        } else {
            s.len() as int
        }
    }
}

proof fn lemma_largest_drop_range(s: Seq<u64>, n: int)
    requires
        n <= s.len(),
    ensures
        0 <= largest_drop(s, n).0 < (if n >= 1 { n } else { 1 }),
        largest_drop(s, n).0 > 0 ==> largest_drop(s, n).1 == s[largest_drop(s, n).0 - 1]
            - s[largest_drop(s, n).0],
        largest_drop(s, n).0 == 0 ==> largest_drop(s, n).1 == 0,
    decreases n,
{
    if n > 1 {
        lemma_largest_drop_range(s, n - 1);
    }
}

/// When no score falls by more than 30% of the score before it, the
/// adaptive cutoff keeps every one of two or more candidates.
pub proof fn lemma_no_sharp_drop_keeps_all(s: Seq<u64>)
    requires
        s.len() >= 2,
        forall|i: int| 1 <= i < s.len() ==> (s[i - 1] - #[trigger] s[i]) * 10 <= s[i - 1] * 3,
    ensures
        threshold_keep(s) == s.len(),
{
    lemma_largest_drop_range(s, s.len() as int);
    let (i, d) = largest_drop(s, s.len() as int);
    if i > 0 {
        assert((s[i - 1] - s[i]) * 10 <= s[i - 1] * 3);
    }
}

/// Truncates a list ordered by fused score at its sharpest drop, as
/// `threshold_keep` says.
pub fn apply_dynamic_threshold(points: Vec<RankedCandidate>) -> (r: Vec<RankedCandidate>)
    ensures
        r@ == points@.take(threshold_keep(scores_of(points@))),
{
    let ghost s = scores_of(points@);
    let n = points.len();
    if n == 0 {
        assert(points@.take(0) =~= points@);
        return points;
    }
    if n == 1 {
        if points[0].fused_score > SINGLE_CANDIDATE_FLOOR {
            assert(points@.take(1) =~= points@);
            return points;
        } else {
            assert(points@.take(0) =~= Seq::<RankedCandidate>::empty());
            return Vec::new();
        }
    }
    let mut best: usize = 0;
    let mut max_drop: u64 = 0;
    let mut i: usize = 1;
    while i < n
        invariant
            n == points@.len(),
            s == scores_of(points@),
            1 <= i <= n,
            largest_drop(s, i as int) == (best as int, max_drop as int),
        decreases n - i,
    {
        if points[i - 1].fused_score > points[i].fused_score {
            let d = points[i - 1].fused_score - points[i].fused_score;
            if d > max_drop {
                max_drop = d;
                best = i;
            }
        }
        i += 1;
    }
    proof {
        lemma_largest_drop_range(s, n as int);
    }
    if best > 0 && (max_drop as u128) * 10 > (points[best - 1].fused_score as u128) * 3 {
        let mut r: Vec<RankedCandidate> = Vec::new();
        let mut j: usize = 0;
        while j < best
            invariant
                best < n == points@.len(),
                j <= best,
                r@ == points@.take(j as int),
            decreases best - j,
        {
            r.push(copy_candidate(&points[j]));
            assert(points@.take(j + 1) =~= points@.take(j as int).push(points@[j as int]));
            j += 1;
        }
        r
    } else {
        assert(points@.take(n as int) =~= points@);
        points
    }
}

} // verus!
