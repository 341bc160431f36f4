//! The labels of the small classifiers and what their raw outputs mean:
//! label strings to intents, and per-character entity tags to entities.

use vstd::prelude::*;
use crate::dialogue::{ConfirmationDecision, Route, NOTHING_PENDING_REPLY};
use crate::text::{chars_of, starts_with_seq, starts_with_str};

verus! {

/// What a classifier says an utterance is.
#[derive(Debug, Clone, Copy, PartialEq, Eq, Structural)]
pub enum Intent {
    Question,
    Statement,
    Affirm,
    Deny,
    Unknown,
}

/// The label string a model emits for an intent (none for `Unknown`).
pub open spec fn intent_name(i: Intent) -> Seq<char> {
    match i {
        Intent::Question => "Question"@,
        Intent::Statement => "Statement"@,
        Intent::Affirm => "Affirm"@,
        Intent::Deny => "Deny"@,
        Intent::Unknown => ""@,
    }
}

fn intent_name_exec(i: Intent) -> (r: &'static str)
    ensures
        r@ == intent_name(i),
{
    match i {
        Intent::Question => "Question",
        Intent::Statement => "Statement",
        Intent::Affirm => "Affirm",
        Intent::Deny => "Deny",
        Intent::Unknown => "",
    }
}

pub open spec fn is_ascii_upper(c: char) -> bool {
    'A' <= c && c <= 'Z'
}

/// `a` and `b` are the same character up to ASCII case.
pub open spec fn same_ignoring_ascii_case(a: char, b: char) -> bool {
    a == b || (is_ascii_upper(a) && a as u32 + 32 == b as u32) || (is_ascii_upper(b) && b as u32 + 32
        == a as u32)
}

/// `str::eq_ignore_ascii_case`: equal lengths, equal characters up to ASCII case.
pub open spec fn eq_ignore_ascii_case(a: Seq<char>, b: Seq<char>) -> bool {
    a.len() == b.len() && forall|i: int| 0 <= i < a.len() ==> same_ignoring_ascii_case(a[i], b[i])
}

fn eq_ignore_ascii_case_exec(a: &Vec<char>, b: &Vec<char>) -> (r: bool)
    ensures
        r == eq_ignore_ascii_case(a@, b@),
{
    if a.len() != b.len() {
        return false;
    }
    let mut i: usize = 0;
    while i < a.len()
        invariant
            a@.len() == b@.len(),
            i <= a@.len(),
            forall|j: int| 0 <= j < i ==> same_ignoring_ascii_case(a@[j], b@[j]),
        decreases a.len() - i,
    {
        let x = a[i];
        let y = b[i];
        let same = x == y || ('A' <= x && x <= 'Z' && (x as u32) + 32 == y as u32) || ('A' <= y && y
            <= 'Z' && (y as u32) + 32 == x as u32);
        if !same {
            return false;
        }
        i += 1;
    }
    true
}

/// Position of the first of the first `n` intents whose name matches
/// `label` up to ASCII case, or -1.
pub open spec fn find_label(labels: Seq<Intent>, label: Seq<char>, n: int) -> int
    decreases n,
{
    if n <= 0 {
        -1
    } else {
        let f = find_label(labels, label, n - 1);
        if f >= 0 {
            f
        } else if eq_ignore_ascii_case(intent_name(labels[n - 1]), label) {
            n - 1
        } else {
            -1
        }
    }
}

proof fn lemma_find_label_stays(labels: Seq<Intent>, label: Seq<char>, m: int, n: int)
    requires
        0 <= m <= n,
        find_label(labels, label, m) >= 0,
    ensures
        find_label(labels, label, n) == find_label(labels, label, m),
    decreases n - m,
{
    if n > m {
        lemma_find_label_stays(labels, label, m, n - 1);
    }
}

/// The intent that a model's label string names among `labels`; `Unknown`
/// when none does.
pub open spec fn intent_for_label_spec(labels: Seq<Intent>, label: Seq<char>) -> Intent {
    let f = find_label(labels, label, labels.len() as int);
    if f >= 0 {
        labels[f]
    } else {
        Intent::Unknown
    }
}

/// Maps a model's label string to the first of `labels` that it names.
pub fn intent_for_label(labels: &Vec<Intent>, label: &str) -> (r: Intent)
    ensures
        r == intent_for_label_spec(labels@, label@),
{
    let l = chars_of(label);
    let n = labels.len();
    let mut i: usize = 0;
    while i < n
        invariant
            n == labels@.len(),
            i <= n,
            l@ == label@,
            find_label(labels@, label@, i as int) == -1,
        decreases n - i,
    {
        let name = chars_of(intent_name_exec(labels[i]));
        if eq_ignore_ascii_case_exec(&name, &l) {
            assert(find_label(labels@, label@, i + 1) == i);
            proof {
                lemma_find_label_stays(labels@, label@, i + 1, n as int);
            }
            return labels[i];
        }
        i += 1;
    }
    Intent::Unknown
}

/// The confirmation classifier's label as a decision.
pub fn decision_from_label(label: Intent) -> (r: ConfirmationDecision)
    ensures
        r == match label {
            Intent::Affirm => ConfirmationDecision::Affirm,
            Intent::Deny => ConfirmationDecision::Deny,
            _ => ConfirmationDecision::Unclear,
        },
{
    match label {
        Intent::Affirm => ConfirmationDecision::Affirm,
        Intent::Deny => ConfirmationDecision::Deny,
        _ => ConfirmationDecision::Unclear,
    }
}

/// Where the question/statement classifier's label sends an utterance that
/// no rule routed: questions are recalled, statements saved; a yes or no
/// with nothing pending only gets an answer; without a usable label the
/// routing model decides.
pub fn route_for_label(label: Intent) -> (r: Route)
    ensures
        label is Question ==> r == Route::Recall,
        label is Statement ==> r == Route::Save,
        (label is Affirm || label is Deny) ==> r is Reply && r->text@ == NOTHING_PENDING_REPLY@,
        label is Unknown ==> r == Route::AskModel,
{
    match label {
        Intent::Question => Route::Recall,
        Intent::Statement => Route::Save,
        Intent::Affirm | Intent::Deny => Route::Reply { text: String::from_str(NOTHING_PENDING_REPLY) },
        Intent::Unknown => Route::AskModel,
    }
}

/// State of the entity merge: entities so far, and the one being read.
pub open spec fn merge_step(st: (Seq<Seq<char>>, Seq<char>), token: Seq<char>, tag: Seq<char>) -> (
    Seq<Seq<char>>,
    Seq<char>,
) {
    let (ents, cur) = st;
    if starts_with_seq(tag, "B-"@) {
        (if cur.len() > 0 {
            ents.push(cur)
        } else {
            ents
        }, token)
    } else if starts_with_seq(tag, "I-"@) {
        (ents, if cur.len() > 0 {
            cur + token
        } else {
            cur
        })
    } else {
        (if cur.len() > 0 {
            ents.push(cur)
        } else {
            ents
        }, Seq::empty())
    }
}

/// The merge state after the first `n` tagged tokens.
pub open spec fn merge_state(pairs: Seq<(String, String)>, n: int) -> (Seq<Seq<char>>, Seq<char>)
    decreases n,
{
    if n <= 0 {
        (Seq::empty(), Seq::empty())
    } else {
        merge_step(merge_state(pairs, n - 1), pairs[n - 1].0@, pairs[n - 1].1@)
    }
}

/// Entities read from tagged tokens: a `B-` tag starts one, `I-` tags
/// extend it, any other tag ends it.
pub open spec fn merged_entities(pairs: Seq<(String, String)>) -> Seq<Seq<char>> {
    let (ents, cur) = merge_state(pairs, pairs.len() as int);
    if cur.len() > 0 {
        ents.push(cur)
    } else {
        ents
    }
}

/// Joins per-token entity tags into entities.
pub fn merge_entities(pairs: &Vec<(String, String)>) -> (r: Vec<String>)
    ensures
        r@.map_values(|s: String| s@) == merged_entities(pairs@),
{
    let mut ents: Vec<String> = Vec::new();
    let mut cur = String::new();
    let mut i: usize = 0;
    while i < pairs.len()
        invariant
            i <= pairs@.len(),
            (ents@.map_values(|s: String| s@), cur@) == merge_state(pairs@, i as int),
        decreases pairs.len() - i,
    {
        let token = &pairs[i].0;
        let tag = chars_of(pairs[i].1.as_str());
        let ghost before = ents@;
        if starts_with_str(&tag, "B-") {
            if cur.as_str().unicode_len() > 0 {
                ents.push(cur);
                assert(ents@.map_values(|s: String| s@) =~= before.map_values(|s: String| s@).push(
                    ents@.last()@,
                ));
            }
            cur = token.clone();
        } else if starts_with_str(&tag, "I-") {
            if cur.as_str().unicode_len() > 0 {
                cur.append(token.as_str());
            }
        } else {
            if cur.as_str().unicode_len() > 0 {
                ents.push(cur);
                assert(ents@.map_values(|s: String| s@) =~= before.map_values(|s: String| s@).push(
                    ents@.last()@,
                ));
            }
            cur = String::new();
        }
        i += 1;
    }
    if cur.as_str().unicode_len() > 0 {
        let ghost before = ents@;
        ents.push(cur);
        assert(ents@.map_values(|s: String| s@) =~= before.map_values(|s: String| s@).push(
            ents@.last()@,
        ));
    }
    ents
}

} // verus!
