//! Evaluation of the alert rules against one battery reading.
use crate::battery::{status_of, Status};
use crate::cfg::Message;
use vstd::prelude::*;

verus! {

/// Whether a rule fires for a reading: its status names the observed state and
/// the percentage lies within its bounds, which must be in order.
pub open spec fn rule_matches(m: Message, percent: int, status: Status) -> bool {
    &&& status_of(m.status@) == Some(status)
    &&& m.from <= m.to
    &&& m.from <= percent <= m.to
}

/// Indices of the matching rules, in the order of the rules.
pub open spec fn matching_indices(msgs: Seq<(String, Message)>, percent: int, status: Status) -> Seq<
    usize,
>
    decreases msgs.len(),
{
    if msgs.len() == 0 {
        Seq::empty()
    } else {
        let prev = matching_indices(msgs.drop_last(), percent, status);
        if rule_matches(msgs.last().1, percent, status) {
            prev.push((msgs.len() - 1) as usize)
        } else {
            prev
        }
    }
}

/// The matches are exactly the indices of the rules that fire, each once and in
/// increasing order.
pub proof fn lemma_matching_indices(msgs: Seq<(String, Message)>, percent: int, status: Status)
    requires
        msgs.len() <= usize::MAX,
    ensures
        forall|k: int|
            0 <= k < matching_indices(msgs, percent, status).len() ==> {
                let i = #[trigger] matching_indices(msgs, percent, status)[k];
                &&& i < msgs.len()
                &&& rule_matches(msgs[i as int].1, percent, status)
            },
        forall|i: int|
            0 <= i < msgs.len() && rule_matches(#[trigger] msgs[i].1, percent, status)
                ==> matching_indices(msgs, percent, status).contains(i as usize),
        forall|a: int, b: int|
            0 <= a < b < matching_indices(msgs, percent, status).len()
                ==> matching_indices(msgs, percent, status)[a] < matching_indices(
                msgs,
                percent,
                status,
            )[b],
    decreases msgs.len(),
{
    if msgs.len() > 0 {
        let prev = msgs.drop_last();
        lemma_matching_indices(prev, percent, status);
        let pm = matching_indices(prev, percent, status);
        let r = matching_indices(msgs, percent, status);
        assert forall|i: int|
            0 <= i < msgs.len() && rule_matches(#[trigger] msgs[i].1, percent, status) implies r.contains(
            i as usize,
        ) by {
            if i < msgs.len() - 1 {
                assert(prev[i] == msgs[i]);
                let k = choose|k: int| 0 <= k < pm.len() && pm[k] == i as usize;
                assert(r[k] == i as usize);
            } else {
                assert(r[r.len() - 1] == i as usize);
            }
        }
        assert forall|k: int| 0 <= k < r.len() implies {
            let i = #[trigger] r[k];
            &&& i < msgs.len()
            &&& rule_matches(msgs[i as int].1, percent, status)
        } by {
            if k < pm.len() {
                assert(r[k] == pm[k]);
                assert(prev[pm[k] as int] == msgs[pm[k] as int]);
            } else {
                assert(msgs.last() == msgs[msgs.len() - 1]);
            }
        }
        assert forall|a: int, b: int| 0 <= a < b < r.len() implies r[a] < r[b] by {
            assert(pm.len() > 0 ==> pm[a] < prev.len());
            if b < pm.len() {
                assert(r[a] == pm[a] && r[b] == pm[b]);
            } else {
                assert(r[a] == pm[a]);
            }
        }
    }
}

/// With its status matching, a rule whose bounds are in order fires exactly
/// when the percentage lies within them; one whose bounds are inverted never
/// fires.
pub proof fn bounds_decide_match(
    msgs: Seq<(String, Message)>,
    percent: int,
    status: Status,
    i: int,
)
    requires
        msgs.len() <= usize::MAX,
        0 <= i < msgs.len(),
        status_of(msgs[i].1.status@) == Some(status),
    ensures
        msgs[i].1.from <= msgs[i].1.to ==> (matching_indices(msgs, percent, status).contains(
            i as usize,
        ) <==> msgs[i].1.from <= percent <= msgs[i].1.to),
        msgs[i].1.from > msgs[i].1.to ==> !matching_indices(msgs, percent, status).contains(
            i as usize,
        ),
{
    lemma_matching_indices(msgs, percent, status);
    let r = matching_indices(msgs, percent, status);
    if r.contains(i as usize) {
        let k = choose|k: int| 0 <= k < r.len() && r[k] == i as usize;
        assert(rule_matches(msgs[r[k] as int].1, percent, status));
    }
}

/// With its bounds in order and holding the percentage, a rule fires exactly
/// when its status names the observed state; a status that names no state
/// never fires.
pub proof fn status_decides_match(
    msgs: Seq<(String, Message)>,
    percent: int,
    status: Status,
    i: int,
)
    requires
        msgs.len() <= usize::MAX,
        0 <= i < msgs.len(),
        msgs[i].1.from <= percent <= msgs[i].1.to,
    ensures
        matching_indices(msgs, percent, status).contains(i as usize) <==> status_of(
            msgs[i].1.status@,
        ) == Some(status),
        status_of(msgs[i].1.status@) is None ==> !matching_indices(msgs, percent, status).contains(
            i as usize,
        ),
{
    lemma_matching_indices(msgs, percent, status);
    let r = matching_indices(msgs, percent, status);
    if r.contains(i as usize) {
        let k = choose|k: int| 0 <= k < r.len() && r[k] == i as usize;
        assert(rule_matches(msgs[r[k] as int].1, percent, status));
    }
}

/// A rule that was left out for a fault of its own, by index.
#[derive(PartialEq, Eq, Structural, Clone, Copy, Debug)]
pub enum RuleWarning {
    /// Its status names no known state.
    UnknownStatus(usize),
    /// Its status matched but `from` is greater than `to`.
    InvertedBounds(usize),
}

/// The warning, if any, that the rule at index `i` raises.
pub open spec fn warning_for(m: Message, i: usize, status: Status) -> Option<RuleWarning> {
    match status_of(m.status@) {
        None => Some(RuleWarning::UnknownStatus(i)),
        Some(s) => if s == status && m.from > m.to {
            Some(RuleWarning::InvertedBounds(i))
        } else {
            None
        },
    }
}

/// The warnings raised by the rules, in the order of the rules.
pub open spec fn warnings_of(msgs: Seq<(String, Message)>, status: Status) -> Seq<RuleWarning>
    decreases msgs.len(),
{
    if msgs.len() == 0 {
        Seq::empty()
    } else {
        let prev = warnings_of(msgs.drop_last(), status);
        match warning_for(msgs.last().1, (msgs.len() - 1) as usize, status) {
            Some(w) => prev.push(w),
            None => prev,
        }
    }
}

/// Result of evaluating the rules: which matched, and which were faulty.
#[derive(Debug)]
pub struct Evaluation {
    pub matches: Vec<usize>,
    pub warnings: Vec<RuleWarning>,
}

/// Selects the rules that fire for the given reading, and reports faulty ones.
pub fn filter_messages(messages: &Vec<(String, Message)>, battery_percent: i64, status: Status) -> (r:
    Evaluation)
    ensures
        r.matches@ == matching_indices(messages@, battery_percent as int, status),
        r.warnings@ == warnings_of(messages@, status),
{
    let mut matches: Vec<usize> = Vec::new();
    let mut warnings: Vec<RuleWarning> = Vec::new();
    let n = messages.len();
    let mut i: usize = 0;
    while i < n
        invariant
            n == messages@.len(),
            i <= n,
            matches@ == matching_indices(messages@.subrange(0, i as int), battery_percent as int, status),
            warnings@ == warnings_of(messages@.subrange(0, i as int), status),
        decreases n - i,
    {
        let m = &messages[i].1;
        assert(messages@.subrange(0, i + 1).drop_last() =~= messages@.subrange(0, i as int));
        match Status::parse(m.status.as_str()) {
            Err(_) => {
                warnings.push(RuleWarning::UnknownStatus(i));
            },
            Ok(s) => {
                if s == status {
                    if m.from > m.to {
                        warnings.push(RuleWarning::InvertedBounds(i));
                    } else if m.from <= battery_percent && battery_percent <= m.to {
                        matches.push(i);
                    }
                }
            },
        }
        i = i + 1;
    }
    assert(messages@.subrange(0, n as int) =~= messages@);
    Evaluation { matches, warnings }
}

} // verus!
