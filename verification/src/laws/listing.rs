//! What loading, searching, listing and deleting come to, in terms of the
//! tasks that go in and come out.

use vstd::prelude::*;

use crate::matching::Match;
use crate::state::ModalState;
use crate::task::{RevealTarget, SourceKind, Task, TaskModal, TaskOverrides};

verus! {

/// Whether a task is of the kind that a modal is for.
pub open spec fn belongs(task: Task, modal: TaskModal) -> bool {
    (modal is ScriptModal && task.task_type is Script) || (modal is DebugModal
        && task.task_type is Debug)
}

/// An opened modal has been asked nothing yet and knows what it was opened
/// with.
pub proof fn law_opened(overrides: Option<TaskOverrides>, modal: TaskModal)
    ensures
        ({
            let state = ModalState::opened(overrides, modal);
            &&& state.candidates is None
            &&& state.overrides == overrides
            &&& state.last_used is None
            &&& state.divider is None
            &&& state.matches.len() == 0
            &&& state.selected == 0
            &&& state.prompt.len() == 0
            &&& state.modal == modal
            &&& state.inv()
            &&& state.placeholder == (if overrides is Some && overrides->0.reveal_target == Some(
                RevealTarget::Center,
            ) {
                "Find a task, or run a command in the central pane"@
            } else {
                "Find a task, or run a command"@
            })
        }),
{
}

/// The invariant says what it is there for.
pub proof fn law_invariant(state: ModalState)
    requires
        state.inv(),
    ensures
        state.last_used is Some ==> state.candidates is Some && state.last_used->0
            < state.candidates->0.len(),
        state.divider is Some ==> state.divider->0 < state.matches.len(),
        forall|upper: int, lower: int|
            state.divider is Some && 0 <= upper <= state.divider->0 < lower < state.matches.len()
                ==> (#[trigger] state.matches[upper]).candidate_id < (
            #[trigger] state.matches[lower]).candidate_id,
{
}

/// Reading the inventory loses no task: the candidates are all used tasks and
/// behind them all current ones, each in its place, and the used ones are
/// known as such. Nothing else of the modal changes.
pub proof fn law_inventory_is_taken_whole(
    state: ModalState,
    used: Seq<(SourceKind, Task)>,
    current: Seq<(SourceKind, Task)>,
)
    requires
        state.candidates is None,
    ensures
        ({
            let loaded = state.loaded(Some((used, current)));
            &&& loaded.candidates is Some
            &&& loaded.candidates->0.len() == used.len() + current.len()
            &&& forall|i: int|
                0 <= i < used.len() ==> #[trigger] loaded.candidates->0[i] == used[i]
            &&& forall|i: int|
                0 <= i < current.len() ==> loaded.candidates->0[used.len() + i]
                    == #[trigger] current[i]
            &&& loaded.last_used is Some <==> used.len() > 0
            &&& used.len() > 0 ==> loaded.last_used->0 + 1 == used.len()
            &&& loaded.matches == state.matches
            &&& loaded.divider == state.divider
            &&& loaded.selected == state.selected
            &&& loaded.prompt == state.prompt
            &&& loaded.overrides == state.overrides
            &&& loaded.modal == state.modal
            &&& loaded.placeholder == state.placeholder
        }),
{
}

/// A search covers every task of the modal's kind, whatever the query and the
/// history: each is offered under its index with the label that is shown,
/// nothing else is, and the query goes to the matcher as it was typed.
pub proof fn law_search_covers_every_task(state: ModalState, query: Seq<char>)
    requires
        state.candidates is Some,
    ensures
        ({
            let all = state.candidates->0;
            let request = state.match_query(query);
            &&& request.query == query
            &&& request.smart_case
            &&& request.max_results == 1000
            &&& forall|id: int|
                0 <= id < all.len() && belongs((#[trigger] all[id]).1, state.modal) ==> exists|
                    i: int,
                |
                    0 <= i < request.candidates.len() && (#[trigger] request.candidates[i]).id
                        == id && request.candidates[i].string == all[id].1.display_label
            &&& forall|i: int|
                0 <= i < request.candidates.len() ==> {
                    let offer = #[trigger] request.candidates[i];
                    &&& offer.id < all.len()
                    &&& belongs(all[offer.id as int].1, state.modal)
                    &&& offer.string == all[offer.id as int].1.display_label
                }
            &&& forall|i: int, j: int|
                0 <= i < j < request.candidates.len() ==> (#[trigger] request.candidates[i]).id < (
                #[trigger] request.candidates[j]).id
        }),
{
    let all = state.candidates->0;
    let offers = state.match_query(query).candidates;
    super::law_offers(all, state.modal);
    assert forall|id: int|
        0 <= id < all.len() && belongs((#[trigger] all[id]).1, state.modal) implies exists|i: int|
        0 <= i < offers.len() && (#[trigger] offers[i]).id == id && offers[i].string
            == all[id].1.display_label by {
        assert(all[id].1.listed_in(state.modal));
        let i = choose|i: int| 0 <= i < offers.len() && (#[trigger] offers[i]).id == id;
        assert(offers[i].string == all[id].1.display_label);
    }
    assert forall|i: int| 0 <= i < offers.len() implies {
        let offer = #[trigger] offers[i];
        &&& offer.id < all.len()
        &&& belongs(all[offer.id as int].1, state.modal)
        &&& offer.string == all[offer.id as int].1.display_label
    } by {
        assert(all[offers[i].id as int].1.listed_in(state.modal));
    }
}

/// What is searched depends on the candidates and the kind of the modal, and
/// on nothing else: not on the query, the history, the rows or the selection.
pub proof fn law_search_depends_on_candidates_alone(
    a: ModalState,
    b: ModalState,
    query_a: Seq<char>,
    query_b: Seq<char>,
)
    requires
        a.candidates == b.candidates,
        a.modal == b.modal,
    ensures
        a.match_query(query_a).candidates == b.match_query(query_b).candidates,
{
}

/// Before there are candidates nothing is searched.
pub proof fn law_search_without_candidates(state: ModalState, query: Seq<char>)
    requires
        state.candidates is None,
    ensures
        state.match_query(query).candidates.len() == 0,
        state.match_query(query).query == query,
        state.match_query(query).smart_case,
        state.match_query(query).max_results == 1000,
{
}

/// A listing is of its query and has a row for each match; the selected row
/// stays, or becomes the last one. The candidates, the history and the
/// settings are kept.
pub proof fn law_listing(state: ModalState, query: Seq<char>, found: Seq<Match>)
    ensures
        ({
            let listed = state.listing(query, found);
            &&& listed.prompt == query
            &&& listed.candidates == state.candidates
            &&& listed.last_used == state.last_used
            &&& listed.overrides == state.overrides
            &&& listed.modal == state.modal
            &&& listed.placeholder == state.placeholder
            &&& listed.matches.len() == found.len()
            &&& found.len() == 0 ==> listed.selected == 0
            &&& state.selected < found.len() ==> listed.selected == state.selected
            &&& 0 < found.len() <= state.selected ==> listed.selected + 1 == found.len()
        }),
{
    super::lemma_used_first_len(found, state.last_used);
}

/// The divider is below the last row of a used task: the rows above it are of
/// candidates up to the last used one, the rows below it of later candidates.
/// Without a history there is none.
pub proof fn law_divider(state: ModalState, query: Seq<char>, found: Seq<Match>)
    ensures
        ({
            let listed = state.listing(query, found);
            &&& state.last_used is None ==> listed.divider is None
            &&& listed.divider is Some ==> listed.divider->0 < listed.matches.len()
            &&& state.last_used is Some ==> forall|row: int|
                0 <= row < listed.matches.len() ==> ((
                #[trigger] listed.matches[row]).candidate_id <= state.last_used->0
                    <==> listed.divider is Some && row <= listed.divider->0)
        }),
{
    super::law_history_on_top(state, query, found);
    let listed = state.listing(query, found);
    if state.last_used is Some {
        assert forall|row: int| 0 <= row < listed.matches.len() implies ((
        #[trigger] listed.matches[row]).candidate_id <= state.last_used->0 <==> listed.divider
            is Some && row <= listed.divider->0) by {
            assert(listed.row_in_history(row as nat) <==> super::is_used(
                state,
                listed.matches[row],
            ));
        }
    }
}

/// Listing moves no match past another of its group: the matches of used
/// tasks, and those of the others, stand in the order in which they were
/// found.
pub proof fn law_groups_keep_their_order(
    state: ModalState,
    query: Seq<char>,
    found: Seq<Match>,
    last: nat,
)
    requires
        state.last_used == Some(last),
    ensures
        state.listing(query, found).matches.filter(|m: Match| m.candidate_id <= last)
            == found.filter(|m: Match| m.candidate_id <= last),
        state.listing(query, found).matches.filter(|m: Match| m.candidate_id > last)
            == found.filter(|m: Match| m.candidate_id > last),
{
    super::law_listing_keeps_order(state, query, found);
    lemma_groups_in_order(state.listing(query, found).matches, found, last);
}

proof fn lemma_groups_in_order(listed: Seq<Match>, found: Seq<Match>, last: nat)
    requires
        listed.filter(crate::matching::of_used(last)) == found.filter(
            crate::matching::of_used(last),
        ),
        listed.filter(crate::matching::of_unused(last)) == found.filter(
            crate::matching::of_unused(last),
        ),
    ensures
        listed.filter(|m: Match| m.candidate_id <= last) == found.filter(
            |m: Match| m.candidate_id <= last,
        ),
        listed.filter(|m: Match| m.candidate_id > last) == found.filter(
            |m: Match| m.candidate_id > last,
        ),
{
    assert(crate::matching::of_used(last) =~= (|m: Match| m.candidate_id <= last));
    assert(crate::matching::of_unused(last) =~= (|m: Match| m.candidate_id > last));
}

/// Without a history the matches are listed as they were found.
pub proof fn law_listing_without_history(state: ModalState, query: Seq<char>, found: Seq<Match>)
    requires
        state.last_used is None,
    ensures
        state.listing(query, found).matches == found,
{
}

/// A row is one of the history where it is not below the divider.
pub proof fn law_row_in_history(state: ModalState, row: nat)
    ensures
        state.row_in_history(row) <==> state.divider is Some && row <= state.divider->0,
{
}

/// The delete button takes one candidate out and closes the gap, or none
/// where there is none at that index; the history gets shorter by one where
/// there is one. The rows, the query, the selection and the settings are left
/// for the update that follows.
pub proof fn law_delete(state: ModalState, ix: nat)
    ensures
        ({
            let after = state.after_delete(ix);
            &&& after.candidates is Some <==> state.candidates is Some
            &&& state.candidates is Some && ix < state.candidates->0.len() ==> {
                let all = state.candidates->0;
                let left = after.candidates->0;
                &&& left.len() + 1 == all.len()
                &&& forall|i: int| 0 <= i < ix ==> #[trigger] left[i] == all[i]
                &&& forall|i: int| ix <= i < left.len() ==> #[trigger] left[i] == all[i + 1]
            }
            &&& state.candidates is Some && ix >= state.candidates->0.len() ==> after.candidates
                == state.candidates
            &&& after.last_used is Some <==> state.last_used is Some && state.last_used->0 > 0
            &&& after.last_used is Some ==> after.last_used->0 + 1 == state.last_used->0
            &&& after.matches == state.matches
            &&& after.divider == state.divider
            &&& after.selected == state.selected
            &&& after.prompt == state.prompt
            &&& after.overrides == state.overrides
            &&& after.modal == state.modal
            &&& after.placeholder == state.placeholder
        }),
{
}

} // verus!
