//! What holds of the modal as a whole.

use vstd::prelude::*;

pub mod confirming;
pub mod display;
pub mod listing;
pub mod models;
pub mod texts;

use crate::footer::{FooterAction, Modifiers};
use crate::matching::{Match, Offered};
use crate::state::{Action, Answer, ModalState, Run};
use crate::task::{DebugTaskDefinition, Oneshot, SourceKind, Task, TaskModal, TaskOverrides, TypeOfTask};

verus! {

/// Every match is of a used task or of an unused one, so that reordering
/// keeps their number.
pub proof fn lemma_used_first_len(matches: Seq<Match>, last_used: Option<nat>)
    ensures
        crate::matching::used_first(matches, last_used).len() == matches.len(),
    decreases matches.len(),
{
    reveal(Seq::filter);
    if matches.len() > 0 {
        lemma_used_first_len(matches.drop_last(), last_used);
    }
}

/// Whether a match is of a task that the modal counts as used.
pub open spec fn is_used(state: ModalState, m: Match) -> bool {
    state.last_used matches Some(last) && m.candidate_id <= last
}

/// Whether the matches are such as the fuzzy matcher finds among `offers`:
/// each is one of them, with its text.
pub open spec fn found_among(matches: Seq<Match>, offers: Seq<Offered>) -> bool {
    forall|i: int|
        0 <= i < matches.len() ==> exists|j: int|
            0 <= j < offers.len() && (#[trigger] offers[j]).id == (
            #[trigger] matches[i]).candidate_id && offers[j].string == matches[i].string
}

/// The history is on top: once the matches of a query are listed, the rows of
/// the history are exactly those of used tasks, and no row of an unused task
/// is above one of a used task.
pub proof fn law_history_on_top(state: ModalState, query: Seq<char>, found: Seq<Match>)
    ensures
        ({
            let listed = state.listing(query, found);
            &&& forall|row: int|
                0 <= row < listed.matches.len() ==> (listed.row_in_history(row as nat)
                    <==> is_used(state, #[trigger] listed.matches[row]))
            &&& forall|upper: int, lower: int|
                0 <= upper < lower < listed.matches.len() && is_used(
                    state,
                    #[trigger] listed.matches[lower],
                ) ==> is_used(state, #[trigger] listed.matches[upper])
        }),
{
    broadcast use vstd::seq_lib::group_filter_ensures;

    let listed = state.listing(query, found);
    if let Some(last) = state.last_used {
        let used = found.filter(crate::matching::of_used(last));
        let unused = found.filter(crate::matching::of_unused(last));
        assert forall|row: int| 0 <= row < listed.matches.len() implies (listed.row_in_history(
            row as nat,
        ) <==> is_used(state, #[trigger] listed.matches[row])) by {
            if row < used.len() {
                assert(listed.matches[row] == used[row]);
            } else {
                assert(listed.matches[row] == unused[row - used.len()]);
            }
        }
    }
}

/// Listing the matches of a query loses none, adds none and repeats none.
pub proof fn law_listing_keeps_matches(state: ModalState, query: Seq<char>, found: Seq<Match>)
    ensures
        state.listing(query, found).matches.to_multiset() == found.to_multiset(),
        state.listing(query, found).matches.len() == found.len(),
{
    lemma_used_first_len(found, state.last_used);
    if let Some(last) = state.last_used {
        lemma_parts_make_whole(found, last);
        vstd::seq_lib::lemma_multiset_commutative(
            found.filter(crate::matching::of_used(last)),
            found.filter(crate::matching::of_unused(last)),
        );
    }
}

proof fn lemma_parts_make_whole(found: Seq<Match>, last: nat)
    ensures
        found.filter(crate::matching::of_used(last)).to_multiset().add(
            found.filter(crate::matching::of_unused(last)).to_multiset(),
        ) == found.to_multiset(),
    decreases found.len(),
{
    broadcast use vstd::seq_lib::group_to_multiset_ensures;

    reveal(Seq::filter);
    let used = found.filter(crate::matching::of_used(last));
    let unused = found.filter(crate::matching::of_unused(last));
    if found.len() == 0 {
        assert(used.to_multiset().add(unused.to_multiset()) =~= found.to_multiset());
    } else {
        let rest = found.drop_last();
        lemma_parts_make_whole(rest, last);
        assert(found =~= rest.push(found.last()));
        let rest_used = rest.filter(crate::matching::of_used(last));
        let rest_unused = rest.filter(crate::matching::of_unused(last));
        if found.last().candidate_id <= last {
            assert(used == rest_used.push(found.last()));
            assert(unused == rest_unused);
        } else {
            assert(used == rest_used);
            assert(unused == rest_unused.push(found.last()));
        }
        assert(used.to_multiset().add(unused.to_multiset()) =~= found.to_multiset());
    }
}

/// Within the history and within the other rows the matches keep the order in
/// which they were found; without a history all of them do.
pub proof fn law_listing_keeps_order(state: ModalState, query: Seq<char>, found: Seq<Match>)
    ensures
        ({
            let listed = state.listing(query, found).matches;
            match state.last_used {
                Some(last) => {
                    &&& listed.filter(crate::matching::of_used(last)) == found.filter(
                        crate::matching::of_used(last),
                    )
                    &&& listed.filter(crate::matching::of_unused(last)) == found.filter(
                        crate::matching::of_unused(last),
                    )
                },
                None => listed == found,
            }
        }),
{
    if let Some(last) = state.last_used {
        let is_used = crate::matching::of_used(last);
        let is_unused = crate::matching::of_unused(last);
        let used = found.filter(is_used);
        let unused = found.filter(is_unused);
        broadcast use vstd::seq_lib::group_filter_ensures;

        Seq::filter_distributes_over_add(used, unused, is_used);
        Seq::filter_distributes_over_add(used, unused, is_unused);
        lemma_filter_all(used, is_used);
        lemma_filter_all(unused, is_unused);
        lemma_filter_none(used, is_unused);
        lemma_filter_none(unused, is_used);
        assert(used + Seq::empty() =~= used);
        assert(Seq::empty() + unused =~= unused);
    }
}

/// Whether matches stand in the order of their candidates.
pub open spec fn in_candidate_order(matches: Seq<Match>) -> bool {
    forall|i: int, j: int|
        0 <= i < j < matches.len() ==> (#[trigger] matches[i]).candidate_id < (
        #[trigger] matches[j]).candidate_id
}

/// Matches that were found in the order of the candidates are listed in that
/// order.
pub proof fn law_candidate_order_is_kept(state: ModalState, query: Seq<char>, found: Seq<Match>)
    requires
        in_candidate_order(found),
    ensures
        state.listing(query, found).matches == found,
{
    if let Some(last) = state.last_used {
        lemma_ordered_is_regrouped(found, last);
        reveal(regrouped);
    }
}

/// The used matches and then the unused ones.
#[verifier::opaque]
spec fn regrouped(matches: Seq<Match>, last: nat) -> Seq<Match> {
    matches.filter(crate::matching::of_used(last)) + matches.filter(
        crate::matching::of_unused(last),
    )
}

proof fn lemma_ordered_is_regrouped(found: Seq<Match>, last: nat)
    requires
        in_candidate_order(found),
    ensures
        regrouped(found, last) == found,
    decreases found.len(),
{
    if found.len() == 0 || found.last().candidate_id <= last {
        lemma_used_is_regrouped(found, last);
    } else {
        lemma_ordered_is_regrouped(found.drop_last(), last);
        lemma_regrouped_step(found, last);
    }
}

proof fn lemma_regrouped_step(found: Seq<Match>, last: nat)
    requires
        found.len() > 0,
        found.last().candidate_id > last,
    ensures
        regrouped(found, last) == regrouped(found.drop_last(), last).push(found.last()),
{
    reveal(regrouped);
    lemma_filter_step(found, crate::matching::of_used(last));
    lemma_filter_step(found, crate::matching::of_unused(last));
}

proof fn lemma_used_is_regrouped(found: Seq<Match>, last: nat)
    requires
        in_candidate_order(found),
        found.len() > 0 ==> found.last().candidate_id <= last,
    ensures
        regrouped(found, last) == found,
{
    assert forall|i: int| 0 <= i < found.len() implies (#[trigger] found[i]).candidate_id
        <= last by {
        if i < found.len() - 1 {
            assert(found[i].candidate_id < found[found.len() - 1].candidate_id);
        }
    }
    reveal(regrouped);
    lemma_filter_all(found, crate::matching::of_used(last));
    lemma_filter_none(found, crate::matching::of_unused(last));
}

proof fn lemma_filter_step(s: Seq<Match>, pred: spec_fn(Match) -> bool)
    requires
        s.len() > 0,
    ensures
        s.filter(pred) == if pred(s.last()) {
            s.drop_last().filter(pred).push(s.last())
        } else {
            s.drop_last().filter(pred)
        },
{
    reveal(Seq::filter);
}

proof fn lemma_filter_all(s: Seq<Match>, pred: spec_fn(Match) -> bool)
    requires
        forall|i: int| 0 <= i < s.len() ==> pred(#[trigger] s[i]),
    ensures
        s.filter(pred) == s,
    decreases s.len(),
{
    reveal(Seq::filter);
    if s.len() > 0 {
        assert forall|i: int| 0 <= i < s.drop_last().len() implies pred(
            #[trigger] s.drop_last()[i],
        ) by {
            assert(s.drop_last()[i] == s[i]);
        }
        lemma_filter_all(s.drop_last(), pred);
        assert(s.drop_last().push(s.last()) =~= s);
    }
}

proof fn lemma_filter_none(s: Seq<Match>, pred: spec_fn(Match) -> bool)
    requires
        forall|i: int| 0 <= i < s.len() ==> !pred(#[trigger] s[i]),
    ensures
        s.filter(pred) == Seq::<Match>::empty(),
    decreases s.len(),
{
    reveal(Seq::filter);
    if s.len() > 0 {
        assert forall|i: int| 0 <= i < s.drop_last().len() implies !pred(
            #[trigger] s.drop_last()[i],
        ) by {
            assert(s.drop_last()[i] == s[i]);
        }
        lemma_filter_none(s.drop_last(), pred);
    }
}

/// Whether no two matches are of the same candidate.
pub open spec fn distinct_candidates(matches: Seq<Match>) -> bool {
    forall|i: int, j: int|
        0 <= i < j < matches.len() ==> (#[trigger] matches[i]).candidate_id != (
        #[trigger] matches[j]).candidate_id
}

/// No candidate is listed twice where none was found twice.
pub proof fn law_no_candidate_is_listed_twice(
    state: ModalState,
    query: Seq<char>,
    found: Seq<Match>,
)
    requires
        distinct_candidates(found),
    ensures
        distinct_candidates(state.listing(query, found).matches),
{
    if let Some(last) = state.last_used {
        broadcast use vstd::seq_lib::group_filter_ensures;

        let used = found.filter(crate::matching::of_used(last));
        let unused = found.filter(crate::matching::of_unused(last));
        lemma_filter_keeps_distinct(found, crate::matching::of_used(last));
        lemma_filter_keeps_distinct(found, crate::matching::of_unused(last));
        let listed = state.listing(query, found).matches;
        assert forall|i: int, j: int| 0 <= i < j < listed.len() implies (
        #[trigger] listed[i]).candidate_id != (#[trigger] listed[j]).candidate_id by {
            if j < used.len() {
                assert(listed[i] == used[i] && listed[j] == used[j]);
            } else if i < used.len() {
                assert(listed[i] == used[i] && listed[j] == unused[j - used.len()]);
            } else {
                assert(listed[i] == unused[i - used.len()] && listed[j] == unused[j
                    - used.len()]);
            }
        }
    }
}

proof fn lemma_filter_keeps_distinct(s: Seq<Match>, pred: spec_fn(Match) -> bool)
    requires
        distinct_candidates(s),
    ensures
        distinct_candidates(s.filter(pred)),
    decreases s.len(),
{
    if s.len() == 0 {
        lemma_filter_none(s, pred);
    } else {
        let rest = s.drop_last();
        let kept = rest.filter(pred);
        assert(distinct_candidates(rest)) by {
            assert forall|i: int, j: int| 0 <= i < j < rest.len() implies (
            #[trigger] rest[i]).candidate_id != (#[trigger] rest[j]).candidate_id by {
                assert(rest[i] == s[i] && rest[j] == s[j]);
            }
        }
        lemma_filter_keeps_distinct(rest, pred);
        lemma_filter_step(s, pred);
        assert forall|i: int| 0 <= i < kept.len() implies (#[trigger] kept[i]).candidate_id
            != s.last().candidate_id by {
            assert(kept.contains(kept[i]));
            rest.lemma_filter_contains_rev(pred, kept[i]);
            let k = choose|k: int| 0 <= k < rest.len() && rest[k] == kept[i];
            assert(s[k].candidate_id != s[s.len() - 1].candidate_id);
        }
    }
}

/// Repeating an update changes nothing: where the same query gets the same
/// matches, the matcher is asked the same and the modal is left as it was.
pub proof fn law_repeated_update_changes_nothing(
    state: ModalState,
    query: Seq<char>,
    found: Seq<Match>,
    inventory: Option<(Seq<(SourceKind, Task)>, Seq<(SourceKind, Task)>)>,
)
    ensures
        ({
            let listed = state.listing(query, found);
            &&& listed.match_query(query) == state.match_query(query)
            &&& listed.listing(query, found) == listed
            &&& state.candidates is Some ==> listed.loaded(inventory).listing(query, found)
                == listed
        }),
{
}

/// Once the matches of a query are listed, a row is selected wherever there
/// is one, and it is the one that was selected wherever that is still there.
pub proof fn law_selection_is_a_row(state: ModalState, query: Seq<char>, found: Seq<Match>)
    ensures
        ({
            let listed = state.listing(query, found);
            &&& listed.matches.len() > 0 ==> listed.selected < listed.matches.len()
            &&& listed.matches.len() == 0 ==> listed.selected == 0
            &&& state.selected < listed.matches.len() ==> listed.selected == state.selected
        }),
{
    lemma_used_first_len(found, state.last_used);
}

/// What is offered to the matcher: only tasks of the kind that the modal
/// lists, each under the label that is shown, each such task, and each once.
pub proof fn law_offers(candidates: Seq<(SourceKind, Task)>, modal: TaskModal)
    ensures
        ({
            let offers = crate::matching::offered(candidates, modal);
            &&& forall|i: int|
                0 <= i < offers.len() ==> {
                    let offer = #[trigger] offers[i];
                    &&& offer.id < candidates.len()
                    &&& candidates[offer.id as int].1.listed_in(modal)
                    &&& offer.string == candidates[offer.id as int].1.display_label
                }
            &&& forall|id: int|
                0 <= id < candidates.len() && (#[trigger] candidates[id]).1.listed_in(modal)
                    ==> exists|i: int| 0 <= i < offers.len() && (#[trigger] offers[i]).id == id
            &&& forall|i: int, j: int|
                0 <= i < j < offers.len() ==> (#[trigger] offers[i]).id < (
                #[trigger] offers[j]).id
        }),
    decreases candidates.len(),
{
    if candidates.len() > 0 {
        let rest = candidates.drop_last();
        law_offers(rest, modal);
        let offers = crate::matching::offered(candidates, modal);
        let rest_offers = crate::matching::offered(rest, modal);
        assert forall|i: int| 0 <= i < offers.len() implies {
            let offer = #[trigger] offers[i];
            &&& offer.id < candidates.len()
            &&& candidates[offer.id as int].1.listed_in(modal)
            &&& offer.string == candidates[offer.id as int].1.display_label
        } by {
            if i < rest_offers.len() {
                assert(offers[i] == rest_offers[i]);
                assert(rest[rest_offers[i].id as int] == candidates[offers[i].id as int]);
            }
        }
        assert forall|id: int|
            0 <= id < candidates.len() && (#[trigger] candidates[id]).1.listed_in(
                modal,
            ) implies exists|i: int| 0 <= i < offers.len() && (#[trigger] offers[i]).id == id by {
            if id < rest.len() {
                assert(rest[id] == candidates[id]);
                let i = choose|i: int|
                    0 <= i < rest_offers.len() && (#[trigger] rest_offers[i]).id == id;
                assert(offers[i] == rest_offers[i]);
            } else {
                assert(offers[offers.len() - 1].id == id);
            }
        }
        assert forall|i: int, j: int| 0 <= i < j < offers.len() implies (
        #[trigger] offers[i]).id < (#[trigger] offers[j]).id by {
            assert(offers[i] == rest_offers[i]);
            if j < rest_offers.len() {
                assert(offers[j] == rest_offers[j]);
            }
        }
    }
}

/// Whatever the matcher finds among the offers, each row is then of a
/// candidate that is there and that the modal lists, under the label that is
/// shown for it; so the selected row can be confirmed and each row shown.
/// Where the matcher found no candidate twice, no two rows are of the same one.
pub proof fn law_rows_are_candidates(state: ModalState, query: Seq<char>, found: Seq<Match>)
    requires
        found_among(found, state.offers()),
    ensures
        ({
            let listed = state.listing(query, found);
            &&& forall|row: int|
                0 <= row < listed.matches.len() ==> {
                    let m = #[trigger] listed.matches[row];
                    &&& listed.candidates is Some
                    &&& m.candidate_id < listed.candidates->0.len()
                    &&& listed.candidates->0[m.candidate_id as int].1.listed_in(state.modal)
                    &&& listed.candidates->0[m.candidate_id as int].1.display_label == m.string
                    &&& listed.row(row as nat, row == listed.selected) is Some
                }
            &&& listed.selection_in_range()
            &&& distinct_candidates(found) ==> distinct_candidates(listed.matches)
        }),
{
    let listed = state.listing(query, found);
    if distinct_candidates(found) {
        law_no_candidate_is_listed_twice(state, query, found);
    }
    assert forall|row: int| 0 <= row < listed.matches.len() implies {
        let m = #[trigger] listed.matches[row];
        &&& listed.candidates is Some
        &&& m.candidate_id < listed.candidates->0.len()
        &&& listed.candidates->0[m.candidate_id as int].1.listed_in(state.modal)
        &&& listed.candidates->0[m.candidate_id as int].1.display_label == m.string
        &&& listed.row(row as nat, row == listed.selected) is Some
    } by {
        let m = listed.matches[row];
        lemma_listed_was_found(state, query, found, row);
        let i = choose|i: int| 0 <= i < found.len() && found[i] == m;
        let offers = state.offers();
        let j = choose|j: int|
            0 <= j < offers.len() && (#[trigger] offers[j]).id == found[i].candidate_id
                && offers[j].string == found[i].string;
        law_offers(state.candidates->0, state.modal);
        assert(offers[j].id == m.candidate_id);
    }
}

proof fn lemma_listed_was_found(state: ModalState, query: Seq<char>, found: Seq<Match>, row: int)
    requires
        0 <= row < state.listing(query, found).matches.len(),
    ensures
        exists|i: int|
            0 <= i < found.len() && #[trigger] found[i] == state.listing(query, found).matches[row],
{
    let listed = state.listing(query, found).matches;
    if let Some(last) = state.last_used {
        let is_used = crate::matching::of_used(last);
        let is_unused = crate::matching::of_unused(last);
        let used = found.filter(is_used);
        if row < used.len() {
            assert(used.contains(listed[row])) by {
                assert(used[row] == listed[row]);
            }
            found.lemma_filter_contains_rev(is_used, listed[row]);
        } else {
            let unused = found.filter(is_unused);
            assert(unused.contains(listed[row])) by {
                assert(unused[row - used.len()] == listed[row]);
            }
            found.lemma_filter_contains_rev(is_unused, listed[row]);
        }
    } else {
        assert(found[row] == listed[row]);
    }
}

/// The task that an answer is about.
pub open spec fn run_of(answer: Answer) -> Option<Run> {
    match answer {
        Answer::Stay => None,
        Answer::ResolveDebugConfig(run) => Some(run),
        Answer::Finish(Action::Schedule(run)) => Some(run),
        Answer::Finish(_) => None,
    }
}

/// Wherever the matcher found something among the offers, confirming runs the
/// task of the selected row: a list of scripts always schedules it.
pub proof fn law_confirm_runs_the_selected_row(
    state: ModalState,
    query: Seq<char>,
    found: Seq<Match>,
    omit_history_entry: bool,
)
    requires
        found_among(found, state.offers()),
        found.len() > 0,
    ensures
        ({
            let listed = state.listing(query, found);
            let selected = listed.matches[listed.selected as int];
            let (source_kind, task) = listed.candidates->0[selected.candidate_id as int];
            let answer = listed.on_confirm(omit_history_entry);
            &&& run_of(answer) == Some(
                Run {
                    source_kind,
                    task: task.overridden(state.overrides),
                    omit_history_entry,
                },
            )
            &&& state.modal == TaskModal::ScriptModal ==> answer == Answer::Finish(
                Action::Schedule(run_of(answer)->0),
            )
        }),
{
    law_rows_are_candidates(state, query, found);
    law_selection_is_a_row(state, query, found);
    lemma_used_first_len(found, state.last_used);
    let listed = state.listing(query, found);
    let selected = listed.matches[listed.selected as int];
    assert(listed.candidates->0[selected.candidate_id as int].1.listed_in(state.modal));
}

/// Confirming a row does nothing exactly where no task is selected. A task is
/// scheduled at once, unless it is a debug task without a locator: that one
/// is never scheduled, and exactly where it has a configuration it is debugged.
pub proof fn law_confirm_schedules_or_debugs(
    state: ModalState,
    omit_history_entry: bool,
    config: Option<DebugTaskDefinition>,
)
    ensures
        ({
            let answer = state.on_confirm(omit_history_entry);
            match state.selected_task() {
                None => answer is Stay,
                Some((_, task)) => if task.task_type == TypeOfTask::Debug(None) {
                    answer is ResolveDebugConfig
                } else {
                    answer is Finish && answer->Finish_0 is Schedule
                },
            }
        }),
        match crate::state::picked_debug_action(config) {
            Action::Nothing => config is None,
            Action::Schedule(_) => false,
            Action::ShowAttachModal | Action::StartDebugSession => config is Some,
        },
{
}

/// A completion can be reused as a query: once it is, confirming the query
/// spells out a task whose label and command are the completed command.
pub proof fn law_completion_can_be_run(state: ModalState, command: Seq<char>, found: Seq<Match>)
    requires
        state.completion() == Some(command),
        !crate::text::blank(command),
    ensures
        ({
            let listed = state.listing(command, found);
            &&& listed.prompt == command
            &&& listed.oneshot() == Some(
                Oneshot {
                    label: command,
                    command,
                    reveal_target: crate::task::overridden_target(state.overrides),
                },
            )
            &&& forall|task: Task| #[trigger]
                listed.spawned_oneshot(Some(task)) == Some((SourceKind::UserInput, task))
        }),
{
}

/// A blank query spells out no task: confirming it does nothing and leaves
/// the modal open, whatever it would resolve to.
pub proof fn law_blank_query_stays(
    state: ModalState,
    omit_history_entry: bool,
    resolved: Option<Task>,
)
    requires
        crate::text::blank(state.prompt),
    ensures
        state.oneshot() is None,
        state.on_confirm_input(omit_history_entry, resolved) == Answer::Stay,
{
}

/// A modal that was just opened has an empty query and no rows: neither
/// confirmation does anything, and there is nothing to complete.
pub proof fn law_opened_modal_is_empty(
    overrides: Option<TaskOverrides>,
    modal: TaskModal,
    omit_history_entry: bool,
    resolved: Option<Task>,
)
    ensures
        ({
            let state = ModalState::opened(overrides, modal);
            &&& state.prompt.len() == 0
            &&& state.matches.len() == 0
            &&& state.on_confirm(omit_history_entry) == Answer::Stay
            &&& state.on_confirm_input(omit_history_entry, resolved) == Answer::Stay
            &&& state.completion() is None
        }),
{
}

/// Overrides change where a task is revealed and nothing else, and applying
/// them again changes nothing.
pub proof fn law_overrides_change_reveal_target_only(
    task: Task,
    overrides: Option<TaskOverrides>,
)
    ensures
        ({
            let amended = task.overridden(overrides);
            &&& amended == (Task { resolved: amended.resolved, ..task })
            &&& amended.resolved is Some <==> task.resolved is Some
            &&& task.resolved matches Some(resolved) ==> {
                &&& amended.resolved->0.command_label == resolved.command_label
                &&& amended.resolved->0.reveal_target == (
                match crate::task::overridden_target(overrides) {
                    Some(target) => target,
                    None => resolved.reveal_target,
                })
            }
            &&& amended.overridden(overrides) == amended
        }),
{
}

/// Whichever way a task is run, it is run with the overrides applied, and
/// stays out of the history exactly when that was asked for.
pub proof fn law_runs_are_overridden(
    state: ModalState,
    omit_history_entry: bool,
    resolved: Option<Task>,
)
    ensures
        run_of(state.on_confirm(omit_history_entry)) matches Some(run) ==> {
            &&& run.task == run.task.overridden(state.overrides)
            &&& run.omit_history_entry == omit_history_entry
        },
        run_of(state.on_confirm_input(omit_history_entry, resolved)) matches Some(run) ==> {
            &&& run.task == run.task.overridden(state.overrides)
            &&& run.omit_history_entry == omit_history_entry
            &&& run.source_kind == SourceKind::UserInput
        },
{
}

/// A debug task that was typed in is scheduled where it has a locator and a
/// configuration; a debug task from the list is scheduled where it has a
/// locator, whatever its configuration.
pub proof fn law_located_debug_tasks_are_scheduled(
    state: ModalState,
    omit_history_entry: bool,
    resolved: Option<Task>,
)
    ensures
        state.selected_task() matches Some((_, task)) ==> (task.task_type is Debug
            && task.task_type != TypeOfTask::Debug(None)) ==> {
            let answer = state.on_confirm(omit_history_entry);
            &&& answer is Finish
            &&& answer->Finish_0 is Schedule
        },
        run_of(state.on_confirm_input(omit_history_entry, resolved)) matches Some(run) ==> (
        run.task.task_type is Debug && run.task.task_type != TypeOfTask::Debug(None)) ==> {
            &&& crate::state::typed_debug_action(run, true) == Action::Schedule(run)
            &&& crate::state::typed_debug_action(run, false) == Action::Nothing
        },
{
}

/// What the modal was opened with never changes.
pub proof fn law_settings_are_kept(
    state: ModalState,
    inventory: Option<(Seq<(SourceKind, Task)>, Seq<(SourceKind, Task)>)>,
    query: Seq<char>,
    found: Seq<Match>,
    ix: nat,
)
    ensures
        ({
            let same = |next: ModalState|
                next.overrides == state.overrides && next.modal == state.modal
                    && next.placeholder == state.placeholder;
            &&& same(state.loaded(inventory))
            &&& same(state.listing(query, found))
            &&& same(state.after_delete(ix))
        }),
{
}

/// The candidates are taken from the inventory once: a later reading changes
/// nothing.
pub proof fn law_candidates_are_loaded_once(
    state: ModalState,
    first: (Seq<(SourceKind, Task)>, Seq<(SourceKind, Task)>),
    later: Option<(Seq<(SourceKind, Task)>, Seq<(SourceKind, Task)>)>,
)
    ensures
        state.loaded(Some(first)).loaded(later) == state.loaded(Some(first)),
        state.candidates is Some ==> state.loaded(later) == state,
{
}

/// Without an inventory nothing is offered, and the next update asks for it
/// again.
pub proof fn law_without_inventory_nothing_is_offered(state: ModalState, query: Seq<char>)
    requires
        state.candidates is None,
    ensures
        state.loaded(None) == state,
        state.match_query(query).candidates.len() == 0,
{
}

/// From the inventory to the rows: with the tasks that were just loaded, the
/// rows of the history are exactly those of the tasks used before.
pub proof fn law_history_is_what_was_used(
    state: ModalState,
    used: Seq<(SourceKind, Task)>,
    current: Seq<(SourceKind, Task)>,
    query: Seq<char>,
    found: Seq<Match>,
)
    requires
        state.candidates is None,
        found_among(found, state.loaded(Some((used, current))).offers()),
    ensures
        ({
            let listed = state.loaded(Some((used, current))).listing(query, found);
            forall|row: int|
                0 <= row < listed.matches.len() ==> {
                    let id = (#[trigger] listed.matches[row]).candidate_id as int;
                    if listed.row_in_history(row as nat) {
                        id < used.len() && listed.candidates->0[id] == used[id]
                    } else {
                        used.len() <= id < used.len() + current.len()
                            && listed.candidates->0[id] == current[id - used.len()]
                    }
                }
        }),
{
    let loaded = state.loaded(Some((used, current)));
    law_rows_are_candidates(loaded, query, found);
    law_history_on_top(loaded, query, found);
    let listed = loaded.listing(query, found);
    assert forall|row: int| 0 <= row < listed.matches.len() implies {
        let id = (#[trigger] listed.matches[row]).candidate_id as int;
        if listed.row_in_history(row as nat) {
            id < used.len() && listed.candidates->0[id] == used[id]
        } else {
            used.len() <= id < used.len() + current.len() && listed.candidates->0[id]
                == current[id - used.len()]
        }
    } by {
        assert(listed.row_in_history(row as nat) <==> is_used(loaded, listed.matches[row]));
    }
}

/// The candidates that count as used.
pub open spec fn used_candidates(state: ModalState) -> Seq<(SourceKind, Task)> {
    match (state.candidates, state.last_used) {
        (Some(all), Some(last)) => all.take(last as int + 1),
        _ => Seq::empty(),
    }
}

/// The candidates that do not count as used.
pub open spec fn unused_candidates(state: ModalState) -> Seq<(SourceKind, Task)> {
    match (state.candidates, state.last_used) {
        (Some(all), Some(last)) => all.skip(last as int + 1),
        (Some(all), None) => all,
        (None, _) => Seq::empty(),
    }
}

/// Deleting a used task takes it, and nothing else, out of the history.
pub proof fn law_delete_takes_task_out_of_history(state: ModalState, ix: nat)
    requires
        state.inv(),
        state.last_used matches Some(last) && ix <= last,
    ensures
        used_candidates(state.after_delete(ix)) == used_candidates(state).remove(ix as int),
        unused_candidates(state.after_delete(ix)) == unused_candidates(state),
{
    let after = state.after_delete(ix);
    assert(used_candidates(after) =~= used_candidates(state).remove(ix as int));
    assert(unused_candidates(after) =~= unused_candidates(state));
}

/// Deleting a used task leaves the modal as if the inventory had been read
/// without it, so that there is no need to read the inventory again.
pub proof fn law_delete_is_like_reading_again(
    state: ModalState,
    used: Seq<(SourceKind, Task)>,
    current: Seq<(SourceKind, Task)>,
    ix: nat,
)
    requires
        state.candidates is None,
        ix < used.len(),
    ensures
        state.loaded(Some((used, current))).after_delete(ix) == state.loaded(
            Some((used.remove(ix as int), current)),
        ),
{
    let deleted = state.loaded(Some((used, current))).after_delete(ix);
    let read_again = state.loaded(Some((used.remove(ix as int), current)));
    assert(deleted.candidates->0 =~= read_again.candidates->0);
}

/// A deleted task is gone: where all candidates have ids of their own, none
/// that is left has the id that the inventory is told to forget, and all the
/// others are left, in their order.
pub proof fn law_deleted_task_is_gone(state: ModalState, ix: nat)
    requires
        state.candidates matches Some(all) && ix < all.len() && forall|i: int, j: int|
            0 <= i < j < all.len() ==> (#[trigger] all[i]).1.id != (#[trigger] all[j]).1.id,
    ensures
        state.after_delete(ix).candidates is Some,
        ({
            let all = state.candidates->0;
            let left = state.after_delete(ix).candidates->0;
            &&& left == all.take(ix as int) + all.skip(ix as int + 1)
            &&& forall|i: int|
                0 <= i < left.len() ==> (#[trigger] left[i]).1.id != all[ix as int].1.id
        }),
{
    let all = state.candidates->0;
    let left = state.after_delete(ix).candidates->0;
    assert(left =~= all.take(ix as int) + all.skip(ix as int + 1));
    assert forall|i: int| 0 <= i < left.len() implies (#[trigger] left[i]).1.id
        != all[ix as int].1.id by {
        if i < ix {
            assert(left[i] == all[i]);
        } else {
            assert(left[i] == all[i + 1]);
        }
    }
}

/// After a deletion and the update that follows it, each row is again of a
/// candidate that is there, and the selected row can be confirmed.
pub proof fn law_update_after_delete_restores_rows(
    state: ModalState,
    ix: nat,
    found: Seq<Match>,
)
    requires
        found_among(found, state.after_delete(ix).offers()),
    ensures
        ({
            let listed = state.after_delete(ix).listing(state.prompt, found);
            &&& listed.matches.len() > 0 ==> listed.candidates is Some
            &&& forall|row: int|
                0 <= row < listed.matches.len() ==> (#[trigger] listed.matches[row]).candidate_id
                    < listed.candidates->0.len()
            &&& listed.selection_in_range()
            &&& listed.prompt == state.prompt
        }),
{
    let deleted = state.after_delete(ix);
    law_rows_are_candidates(deleted, state.prompt, found);
    let first = deleted.listing(state.prompt, found).matches[0];
}

/// A row speaks of the task that confirming it runs, that completing it
/// completes and that its delete button deletes.
pub proof fn law_row_shows_what_it_runs(state: ModalState, omit_history_entry: bool)
    requires
        state.selected < state.matches.len(),
        state.row(state.selected, true) is Some,
    ensures
        ({
            let row = state.row(state.selected, true)->0;
            let (source_kind, task) = state.selected_task()->0;
            let run = run_of(state.on_confirm(omit_history_entry));
            &&& state.selected_task() is Some
            &&& row.icon == crate::row::source_icon(source_kind)
            &&& row.tooltip == crate::row::tooltip(task)
            &&& row.tags == task.tags
            &&& state.completion() == (match task.resolved {
                Some(resolved) => Some(resolved.command_label),
                None => None,
            })
            &&& run is Some && run->0.task == task.overridden(state.overrides)
            &&& row.delete_candidate matches Some(ix) ==> state.candidates->0[ix as int] == (
                source_kind,
                task,
            )
            &&& row.delete_candidate is Some <==> source_kind == SourceKind::UserInput
                || row.in_history
        }),
{
}

/// The footer offers to run the selected task again exactly when its row is
/// marked as one of the history.
pub proof fn law_footer_agrees_with_row(state: ModalState, modifiers: Modifiers)
    requires
        state.selected < state.matches.len(),
        state.row(state.selected, true) is Some,
    ensures
        ({
            let in_history = state.row(state.selected, true)->0.in_history;
            let label = state.footer_label(modifiers);
            match state.footer_action(modifiers) {
                FooterAction::Confirm => (label == "Rerun"@ <==> in_history) && (label == "Spawn"@
                    <==> !in_history),
                FooterAction::SecondaryConfirm => (label == "Rerun Without History"@
                    <==> in_history) && (label == "Spawn Without History"@ <==> !in_history),
                _ => modifiers.alt && state.prompt.len() > 0,
            }
        }),
{
    reveal_strlit("Rerun");
    reveal_strlit("Spawn");
    reveal_strlit("Rerun Without History");
    reveal_strlit("Spawn Without History");
    assert("Rerun"@[0] == 'R' && "Spawn"@[0] == 'S');
    assert("Rerun Without History"@[0] == 'R' && "Spawn Without History"@[0] == 'S');
}

/// Different rows have different element names.
pub proof fn law_row_ids_are_distinct(a: nat, b: nat)
    requires
        a != b,
    ensures
        crate::row::row_id(a) != crate::row::row_id(b),
{
    if crate::row::row_id(a) == crate::row::row_id(b) {
        let prefix = "tasks-modal-"@;
        let id_a = crate::row::row_id(a);
        let id_b = crate::row::row_id(b);
        assert(crate::text::decimal(a) =~= id_a.skip(prefix.len() as int));
        assert(crate::text::decimal(b) =~= id_b.skip(prefix.len() as int));
        crate::text::lemma_decimal_injective(a, b);
    }
}

} // verus!
