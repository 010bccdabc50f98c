//! What is handed to the fuzzy matcher, and how the matches it finds are
//! ordered.

use vstd::prelude::*;

use crate::task::{ResolvedTask, SourceKind, Task, TaskModal, TaskSourceKind};

verus! {

/// One text for the fuzzy matcher, with the index of the task it stands for.
#[derive(Debug, PartialEq, Eq)]
pub struct StringMatchCandidate {
    /// The index of the task among all candidates.
    pub id: usize,
    /// The text to match.
    pub string: String,
}

/// The model of [`StringMatchCandidate`].
pub struct Offered {
    /// The index of the task.
    pub id: nat,
    /// The text to match.
    pub string: Seq<char>,
}

impl View for StringMatchCandidate {
    type V = Offered;

    open spec fn view(&self) -> Offered {
        Offered { id: self.id as nat, string: self.string@ }
    }
}

impl DeepView for StringMatchCandidate {
    type V = Offered;

    open spec fn deep_view(&self) -> Offered {
        self@
    }
}

/// A match that the fuzzy matcher found.
#[derive(Debug, PartialEq, Eq)]
pub struct StringMatch {
    /// The index of the task among all candidates.
    pub candidate_id: usize,
    /// The positions in the text that matched the query.
    pub positions: Vec<usize>,
    /// The text that was matched.
    pub string: String,
}

/// The model of [`StringMatch`].
pub struct Match {
    /// The index of the task among all candidates.
    pub candidate_id: nat,
    /// The positions that matched.
    pub positions: Seq<usize>,
    /// The text that was matched.
    pub string: Seq<char>,
}

impl View for StringMatch {
    type V = Match;

    open spec fn view(&self) -> Match {
        Match {
            candidate_id: self.candidate_id as nat,
            positions: self.positions@,
            string: self.string@,
        }
    }
}

impl DeepView for StringMatch {
    type V = Match;

    open spec fn deep_view(&self) -> Match {
        self@
    }
}

/// What the modal offers to the matcher: each candidate that the modal lists,
/// in order, by its index and under the label that is shown.
pub open spec fn offered(
    candidates: Seq<(SourceKind, Task)>,
    modal: TaskModal,
) -> Seq<Offered>
    decreases candidates.len(),
{
    if candidates.len() == 0 {
        Seq::empty()
    } else {
        let rest = offered(candidates.drop_last(), modal);
        let task = candidates.last().1;
        if task.listed_in(modal) {
            rest.push(
                Offered { id: (candidates.len() - 1) as nat, string: task.display_label },
            )
        } else {
            rest
        }
    }
}

/// The candidates that a modal offers to the fuzzy matcher.
pub fn string_match_candidates(
    candidates: &Vec<(TaskSourceKind, ResolvedTask)>,
    task_modal_type: TaskModal,
) -> (res: Vec<StringMatchCandidate>)
    ensures
        res.deep_view() == offered(candidates.deep_view(), task_modal_type),
{
    let mut res: Vec<StringMatchCandidate> = Vec::new();
    let mut index: usize = 0;
    let ghost all = candidates.deep_view();
    assert(res.deep_view() =~= offered(all.take(0), task_modal_type));
    while index < candidates.len()
        invariant
            index <= candidates.len(),
            all == candidates.deep_view(),
            res.deep_view() == offered(all.take(index as int), task_modal_type),
        decreases candidates.len() - index,
    {
        let task = &candidates[index].1;
        let ghost seen = all.take(index as int + 1);
        let ghost before = res.deep_view();
        assert(seen.drop_last() =~= all.take(index as int));
        assert(seen.last() == all[index as int]);
        if task.is_listed_in(task_modal_type) {
            let next = StringMatchCandidate { id: index, string: task.display_label.clone() };
            let ghost pushed = next@;
            res.push(next);
            assert(res.deep_view() =~= before.push(pushed));
        }
        index = index + 1;
    }
    assert(all.take(candidates.len() as int) =~= all);
    res
}

/// Whether a match is of one of the candidates up to `last_used`.
pub open spec fn of_used(last_used: nat) -> spec_fn(Match) -> bool {
    |m: Match| m.candidate_id <= last_used
}

/// Whether a match is of one of the candidates behind `last_used`.
pub open spec fn of_unused(last_used: nat) -> spec_fn(Match) -> bool {
    |m: Match| m.candidate_id > last_used
}

/// The matches with those of used tasks first; within each of the two groups
/// they keep their order.
pub open spec fn used_first(matches: Seq<Match>, last_used: Option<nat>) -> Seq<Match> {
    match last_used {
        Some(last) => matches.filter(of_used(last)) + matches.filter(of_unused(last)),
        None => matches,
    }
}

/// The row of the last used task among the matches, where there is one.
pub open spec fn last_used_row(matches: Seq<Match>, last_used: Option<nat>) -> Option<nat> {
    match last_used {
        Some(last) => {
            let used = matches.filter(of_used(last)).len();
            if used == 0 {
                None
            } else {
                Some((used - 1) as nat)
            }
        },
        None => None,
    }
}

/// Moves the matches of used tasks to the front and counts them.
pub fn move_used_first(matches: Vec<StringMatch>, last_used: usize) -> (res: (
    Vec<StringMatch>,
    usize,
))
    ensures
        res.0.deep_view() == used_first(matches.deep_view(), Some(last_used as nat)),
        res.1 == matches.deep_view().filter(of_used(last_used as nat)).len(),
{
    let ghost all = matches.deep_view();
    let ghost is_used = of_used(last_used as nat);
    let ghost is_unused = of_unused(last_used as nat);
    let mut used: Vec<StringMatch> = Vec::new();
    let mut unused: Vec<StringMatch> = Vec::new();
    proof {
        reveal(Seq::filter);
        assert(used.deep_view() =~= all.take(0).filter(is_used));
        assert(unused.deep_view() =~= all.take(0).filter(is_unused));
    }
    for m in it: matches
        invariant
            all == matches.deep_view(),
            it.seq() == matches@,
            is_used == of_used(last_used as nat),
            is_unused == of_unused(last_used as nat),
            used.deep_view() == all.take(it.index() as int).filter(is_used),
            unused.deep_view() == all.take(it.index() as int).filter(is_unused),
    {
        proof {
            reveal(Seq::filter);
            let seen = all.take(it.index() as int + 1);
            assert(seen.drop_last() =~= all.take(it.index() as int));
            assert(seen.last() == m@);
        }
        let ghost used_before = used.deep_view();
        let ghost unused_before = unused.deep_view();
        let ghost moved = m@;
        if m.candidate_id <= last_used {
            used.push(m);
            assert(used.deep_view() =~= used_before.push(moved));
        } else {
            unused.push(m);
            assert(unused.deep_view() =~= unused_before.push(moved));
        }
    }
    assert(all.take(all.len() as int) =~= all);
    let count: usize = used.len();
    let ghost front = used.deep_view();
    let ghost back = unused.deep_view();
    used.append(&mut unused);
    assert(used.deep_view() =~= front + back);
    (used, count)
}

} // verus!
