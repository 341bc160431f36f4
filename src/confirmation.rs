//! Reading a yes/no answer from the reply's words.

use vstd::prelude::*;
use crate::dialogue::ConfirmationDecision;
use crate::text::{chars_of, equals_str, lower_of, lowercase, trim_seq, trim_str};

verus! {

pub open spec fn is_affirm_word(t: Seq<char>) -> bool {
    t == "yes"@ || t == "ok"@ || t == "confirm"@ || t == "y"@ || t == "是的"@ || t == "确认"@ || t
        == "好的"@ || t == "对"@ || t == "中"@ || t == "是"@ || t == "确定"@ || t == "好"@
}

pub open spec fn is_deny_word(t: Seq<char>) -> bool {
    t == "no"@ || t == "cancel"@ || t == "n"@ || t == "不是"@ || t == "不用了"@ || t == "取消"@ || t
        == "否"@ || t == "不"@ || t == "算了"@
}

/// The decision that a normalized reply states: one whole affirming word,
/// one whole denying word, or neither.
pub open spec fn decision_of(t: Seq<char>) -> ConfirmationDecision {
    if is_affirm_word(t) {
        ConfirmationDecision::Affirm
    } else if is_deny_word(t) {
        ConfirmationDecision::Deny
    } else {
        ConfirmationDecision::Unclear
    }
}

/// The decision stated by a reply that is already trimmed and lowercased.
pub fn decision_for_normalized(normalized: &str) -> (r: ConfirmationDecision)
    ensures
        r == decision_of(normalized@),
{
    let t = chars_of(normalized);
    if equals_str(&t, "yes") || equals_str(&t, "ok") || equals_str(&t, "confirm") || equals_str(&t, "y")
        || equals_str(&t, "是的") || equals_str(&t, "确认") || equals_str(&t, "好的") || equals_str(
        &t,
        "对",
    ) || equals_str(&t, "中") || equals_str(&t, "是") || equals_str(&t, "确定") || equals_str(&t, "好") {
        return ConfirmationDecision::Affirm;
    }
    if equals_str(&t, "no") || equals_str(&t, "cancel") || equals_str(&t, "n") || equals_str(&t, "不是")
        || equals_str(&t, "不用了") || equals_str(&t, "取消") || equals_str(&t, "否") || equals_str(
        &t,
        "不",
    ) || equals_str(&t, "算了") {
        return ConfirmationDecision::Deny;
    }
    ConfirmationDecision::Unclear
}

/// The decision stated by a reply, read without case and surrounding white
/// space.
pub fn parse_confirmation(text: &str) -> (r: ConfirmationDecision)
    ensures
        r == decision_of(lower_of(trim_seq(text@))),
{
    let trimmed = trim_str(text);
    let lowered = lowercase(trimmed);
    decision_for_normalized(lowered.as_str())
}

} // verus!
