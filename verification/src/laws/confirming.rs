//! What running, completing and debugging a task comes to, in terms of what
//! was typed, what is selected and what the modal was opened with.

use vstd::prelude::*;

use crate::state::{Action, Answer, ModalState, Run};
use crate::task::{
    AttachConfig, DebugRequestType, DebugTaskDefinition, RevealTarget, SourceKind, Task, TaskModal,
    TaskOverrides,
};
use crate::text::blank;

verus! {

/// Where a task is revealed that would be revealed at `own` by itself.
pub open spec fn revealed_at(
    overrides: Option<TaskOverrides>,
    own: RevealTarget,
) -> RevealTarget {
    if overrides is Some && overrides->0.reveal_target is Some {
        overrides->0.reveal_target->0
    } else {
        own
    }
}

/// Whether a run is of the given task, from the given source and with an entry
/// in the history or without, revealed where the overrides ask for it and
/// otherwise as it is.
pub open spec fn runs_as(
    run: Run,
    source_kind: SourceKind,
    task: Task,
    overrides: Option<TaskOverrides>,
    omit_history_entry: bool,
) -> bool {
    &&& run.source_kind == source_kind
    &&& run.omit_history_entry == omit_history_entry
    &&& run.task.handle == task.handle
    &&& run.task.id == task.id
    &&& run.task.template_label == task.template_label
    &&& run.task.tags == task.tags
    &&& run.task.resolved_label == task.resolved_label
    &&& run.task.display_label == task.display_label
    &&& run.task.task_type == task.task_type
    &&& run.task.resolved is Some <==> task.resolved is Some
    &&& task.resolved is Some ==> {
        &&& run.task.resolved->0.command_label == task.resolved->0.command_label
        &&& run.task.resolved->0.reveal_target == revealed_at(
            overrides,
            task.resolved->0.reveal_target,
        )
    }
}

/// Overrides reveal a task where they ask for it, and touch nothing else;
/// without a target, or without a way to spawn the task, they do nothing.
pub proof fn law_overrides(task: Task, target: RevealTarget, overrides: Option<TaskOverrides>)
    ensures
        ({
            let amended = task.overridden(Some(TaskOverrides { reveal_target: Some(target) }));
            &&& task.resolved is Some ==> amended.resolved is Some
                && amended.resolved->0.reveal_target == target
                && amended.resolved->0.command_label == task.resolved->0.command_label
            &&& amended == (Task { resolved: amended.resolved, ..task })
        }),
        task.overridden(None) == task,
        task.overridden(Some(TaskOverrides { reveal_target: None })) == task,
        task.resolved is None ==> task.overridden(overrides) == task,
{
}

/// Running the typed command runs the typed command: whatever rows are listed
/// or selected, the task is the one that the query resolved to, it counts as
/// typed in, and a script is scheduled at once.
pub proof fn law_typed_command_is_what_runs(
    state: ModalState,
    omit_history_entry: bool,
    typed: Task,
)
    requires
        !blank(state.prompt),
    ensures
        ({
            let answer = state.on_confirm_input(omit_history_entry, Some(typed));
            &&& typed.task_type is Script ==> {
                &&& answer is Finish
                &&& answer->Finish_0 is Schedule
                &&& runs_as(
                    answer->Finish_0->Schedule_0,
                    SourceKind::UserInput,
                    typed,
                    state.overrides,
                    omit_history_entry,
                )
            }
            &&& typed.task_type is Debug ==> {
                &&& answer is ResolveDebugConfig
                &&& runs_as(
                    answer->ResolveDebugConfig_0,
                    SourceKind::UserInput,
                    typed,
                    state.overrides,
                    omit_history_entry,
                )
            }
        }),
{
}

/// What running the typed command does depends on the query being blank or
/// not, on what it resolved to and on the overrides, and on nothing else of
/// the modal.
pub proof fn law_typed_command_ignores_the_rows(
    a: ModalState,
    b: ModalState,
    omit_history_entry: bool,
    resolved: Option<Task>,
)
    requires
        blank(a.prompt) <==> blank(b.prompt),
        a.overrides == b.overrides,
    ensures
        a.on_confirm_input(omit_history_entry, resolved) == b.on_confirm_input(
            omit_history_entry,
            resolved,
        ),
        a.spawned_oneshot(resolved) == b.spawned_oneshot(resolved),
{
}

/// A query that is blank or resolves to nothing runs nothing, and any other
/// one runs something.
pub proof fn law_typed_command_needs_a_task(
    state: ModalState,
    omit_history_entry: bool,
    resolved: Option<Task>,
)
    ensures
        state.on_confirm_input(omit_history_entry, resolved) is Stay <==> blank(state.prompt)
            || resolved is None,
        state.spawned_oneshot(resolved) is None <==> blank(state.prompt) || resolved is None,
        state.spawned_oneshot(resolved) is Some ==> state.spawned_oneshot(resolved)->0 == (
            SourceKind::UserInput,
            resolved->0,
        ),
{
}

/// The template of a typed task says what was typed, to the letter, both as
/// its label and as its command, and has the reveal target of the overrides;
/// there is one for every query that is not blank.
pub proof fn law_template_says_what_was_typed(state: ModalState)
    ensures
        state.oneshot() is Some <==> !blank(state.prompt),
        state.oneshot() is Some ==> {
            let template = state.oneshot()->0;
            &&& template.label == state.prompt
            &&& template.command == state.prompt
            &&& template.reveal_target is Some <==> state.overrides is Some
                && state.overrides->0.reveal_target is Some
            &&& template.reveal_target is Some ==> template.reveal_target
                == state.overrides->0.reveal_target
        },
{
}

/// Confirming a row runs the task of that row, from where it comes: scripts
/// and debug tasks with a locator at once, other debug tasks once they have a
/// configuration.
pub proof fn law_confirmed_row_is_what_runs(state: ModalState, omit_history_entry: bool)
    requires
        state.candidates is Some,
        state.selected < state.matches.len(),
        state.matches[state.selected as int].candidate_id < state.candidates->0.len(),
    ensures
        ({
            let id = state.matches[state.selected as int].candidate_id as int;
            let (source_kind, task) = state.candidates->0[id];
            let answer = state.on_confirm(omit_history_entry);
            &&& task.task_type is Debug && task.task_type->Debug_0 is None ==> {
                &&& answer is ResolveDebugConfig
                &&& runs_as(
                    answer->ResolveDebugConfig_0,
                    source_kind,
                    task,
                    state.overrides,
                    omit_history_entry,
                )
            }
            &&& task.task_type is Script || task.task_type->Debug_0 is Some ==> {
                &&& answer is Finish
                &&& answer->Finish_0 is Schedule
                &&& runs_as(
                    answer->Finish_0->Schedule_0,
                    source_kind,
                    task,
                    state.overrides,
                    omit_history_entry,
                )
            }
        }),
{
}

/// Without a selected row, or without any candidates, confirming does nothing
/// and there is nothing to complete.
pub proof fn law_confirming_needs_a_row(state: ModalState, omit_history_entry: bool)
    requires
        state.candidates is None || state.selected >= state.matches.len(),
    ensures
        state.on_confirm(omit_history_entry) is Stay,
        state.completion() is None,
        state.selection_in_range(),
{
}

/// What confirming and completing do depends on the rows, the selection, the
/// candidates and the overrides, and on nothing else of the modal.
pub proof fn law_confirming_ignores_the_query(
    a: ModalState,
    b: ModalState,
    omit_history_entry: bool,
)
    requires
        a.candidates == b.candidates,
        a.matches == b.matches,
        a.selected == b.selected,
        a.overrides == b.overrides,
    ensures
        a.on_confirm(omit_history_entry) == b.on_confirm(omit_history_entry),
        a.completion() == b.completion(),
        a.selection_in_range() == b.selection_in_range(),
{
}

/// The selected row can be confirmed unless its candidate is gone.
pub proof fn law_selection_in_range(state: ModalState)
    requires
        state.candidates is Some,
        state.selected < state.matches.len(),
    ensures
        state.selected_id() == Some(state.matches[state.selected as int].candidate_id),
        state.selection_in_range() <==> state.matches[state.selected as int].candidate_id
            < state.candidates->0.len(),
{
}

/// There is a candidate index for the selection exactly where a row is selected.
pub proof fn law_selected_id(state: ModalState)
    ensures
        state.selected_id() is Some <==> state.selected < state.matches.len(),
        state.selected_id() is Some ==> state.selected_id()->0
            == state.matches[state.selected as int].candidate_id,
{
}

/// Completing a row gives the command of its task, where the task is there
/// and has one.
pub proof fn law_completion_is_the_command_of_the_row(state: ModalState)
    requires
        state.candidates is Some,
        state.selected < state.matches.len(),
    ensures
        ({
            let id = state.matches[state.selected as int].candidate_id as int;
            let all = state.candidates->0;
            &&& state.completion() is Some <==> id < all.len() && all[id].1.resolved is Some
            &&& state.completion() is Some ==> state.completion()->0
                == all[id].1.resolved->0.command_label
        }),
{
}

/// A debug task from the list: attaching without a process lets the user
/// choose one; attaching to a process, and launching, start a session; without
/// a configuration nothing is done.
pub proof fn law_picked_debug_task(process_id: u32)
    ensures
        crate::state::picked_debug_action(None) is Nothing,
        crate::state::picked_debug_action(
            Some(DebugTaskDefinition { request: DebugRequestType::Launch }),
        ) is StartDebugSession,
        crate::state::picked_debug_action(
            Some(
                DebugTaskDefinition {
                    request: DebugRequestType::Attach(AttachConfig { process_id: None }),
                },
            ),
        ) is ShowAttachModal,
        crate::state::picked_debug_action(
            Some(
                DebugTaskDefinition {
                    request: DebugRequestType::Attach(
                        AttachConfig { process_id: Some(process_id) },
                    ),
                },
            ),
        ) is StartDebugSession,
{
}

/// A debug task that was typed in: without a configuration nothing is done;
/// with one, a task with a locator is scheduled as it is and any other one
/// starts a session.
pub proof fn law_typed_debug_task(run: Run)
    requires
        run.task.task_type is Debug,
    ensures
        crate::state::typed_debug_action(run, false) is Nothing,
        run.task.task_type->Debug_0 is None ==> crate::state::typed_debug_action(
            run,
            true,
        ) is StartDebugSession,
        run.task.task_type->Debug_0 is Some ==> crate::state::typed_debug_action(run, true)
            == Action::Schedule(run),
{
}

/// The history flag is handed on and changes nothing else: two confirmations
/// that differ in it differ in it alone.
pub proof fn law_history_flag_changes_nothing_else(state: ModalState, resolved: Option<Task>)
    ensures
        state.on_confirm(true) == with_flag(state.on_confirm(false), true),
        state.on_confirm(false) == with_flag(state.on_confirm(true), false),
        state.on_confirm_input(true, resolved) == with_flag(
            state.on_confirm_input(false, resolved),
            true,
        ),
        state.on_confirm_input(false, resolved) == with_flag(
            state.on_confirm_input(true, resolved),
            false,
        ),
{
}

/// The same answer with another history flag.
pub open spec fn with_flag(answer: Answer, omit_history_entry: bool) -> Answer {
    match answer {
        Answer::Stay => Answer::Stay,
        Answer::ResolveDebugConfig(run) => Answer::ResolveDebugConfig(
            Run { omit_history_entry, ..run },
        ),
        Answer::Finish(Action::Schedule(run)) => Answer::Finish(
            Action::Schedule(Run { omit_history_entry, ..run }),
        ),
        Answer::Finish(action) => Answer::Finish(action),
    }
}

/// A task is listed in one of the two kinds of modal and not in the other:
/// scripts in that for scripts, debug tasks in that for debugging.
pub proof fn law_each_task_has_its_modal(task: Task)
    ensures
        task.listed_in(TaskModal::ScriptModal) <==> task.task_type is Script,
        task.listed_in(TaskModal::DebugModal) <==> task.task_type is Debug,
{
}

} // verus!
