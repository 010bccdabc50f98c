//! The models leave nothing out: each part of a value is a part of its model.

use vstd::prelude::*;

use crate::footer::{Footer, FooterButton};
use crate::matching::{StringMatch, StringMatchCandidate};
use crate::modal::{
    optional_index, ConfirmStep, InventoryTasks, MatchRequest, TaskRun, WorkspaceAction,
};
use crate::row::{Icon, MatchRow, RowIcon};
use crate::state::{Action, Answer};
use crate::task::{
    OneshotTemplate, ResolvedTask, SourceKind, TaskSourceKind, TaskType,
    TypeOfTask,
};

verus! {

/// The parts of a source.
pub proof fn law_source_model(kind: TaskSourceKind)
    ensures
        kind is UserInput <==> kind@ is UserInput,
        kind is AbsPath <==> kind@ is AbsPath,
        kind is Worktree <==> kind@ is Worktree,
        kind matches TaskSourceKind::Language { name } ==> kind@ == SourceKind::Language(name@),
{
}

/// The parts of a kind of task.
pub proof fn law_type_model(task_type: TaskType)
    ensures
        task_type is Script <==> task_type@ is Script,
        task_type matches TaskType::Debug(args) ==> match args.locator {
            Some(locator) => task_type@ == TypeOfTask::Debug(Some(locator@)),
            None => task_type@ == TypeOfTask::Debug(None),
        },
{
}

/// The parts of a task.
pub proof fn law_task_model(task: ResolvedTask)
    ensures
        task@.handle == task.handle,
        task@.id == task.id@,
        task@.template_label == task.template_label@,
        task@.resolved_label == task.resolved_label@,
        task@.display_label == task.display_label@,
        task@.task_type == task.task_type@,
        task@.tags.len() == task.tags.len(),
        forall|i: int| 0 <= i < task.tags.len() ==> #[trigger] task@.tags[i] == task.tags[i]@,
        task.resolved is Some <==> task@.resolved is Some,
        task.resolved matches Some(resolved) ==> {
            &&& task@.resolved->0.command_label == resolved.command_label@
            &&& task@.resolved->0.reveal_target == resolved.reveal_target
        },
{
}

/// The parts of a template.
pub proof fn law_template_model(template: OneshotTemplate)
    ensures
        template@.label == template.label@,
        template@.command == template.command@,
        template@.reveal_target == template.reveal_target,
{
}

/// The parts of a match and of what is offered to the matcher.
pub proof fn law_match_model(m: StringMatch, offer: StringMatchCandidate)
    ensures
        m@.candidate_id == m.candidate_id,
        m@.positions == m.positions@,
        m@.string == m.string@,
        offer@.id == offer.id,
        offer@.string == offer.string@,
{
}

/// In a list or an option a value has the model that it has alone.
pub proof fn law_models_within_others(
    kind: TaskSourceKind,
    task: ResolvedTask,
    template: OneshotTemplate,
    m: StringMatch,
    offer: StringMatchCandidate,
    row: MatchRow,
    button: FooterButton,
)
    ensures
        kind.deep_view() == kind@,
        task.deep_view() == task@,
        template.deep_view() == template@,
        m.deep_view() == m@,
        offer.deep_view() == offer@,
        row.deep_view() == row@,
        button.deep_view() == button@,
{
}

/// An optional index is there, and is the same number, in its model.
pub proof fn law_index_model(index: usize)
    ensures
        optional_index(None) is None,
        optional_index(Some(index)) is Some,
        optional_index(Some(index))->0 == index,
{
}

/// The parts of a request to the matcher.
pub proof fn law_request_model(request: MatchRequest)
    ensures
        request@.query == request.query@,
        request@.smart_case == request.smart_case,
        request@.max_results == request.max_results,
        request@.candidates.len() == request.candidates.len(),
        forall|i: int|
            0 <= i < request.candidates.len() ==> #[trigger] request@.candidates[i]
                == request.candidates[i]@,
{
}

/// The parts of an inventory.
pub proof fn law_inventory_model(tasks: InventoryTasks)
    ensures
        tasks.deep_view().0.len() == tasks.used.len(),
        tasks.deep_view().1.len() == tasks.current.len(),
        forall|i: int|
            0 <= i < tasks.used.len() ==> #[trigger] tasks.deep_view().0[i] == (
                tasks.used[i].0@,
                tasks.used[i].1@,
            ),
        forall|i: int|
            0 <= i < tasks.current.len() ==> #[trigger] tasks.deep_view().1[i] == (
                tasks.current[i].0@,
                tasks.current[i].1@,
            ),
{
}

/// The parts of a run, an action and an answer.
pub proof fn law_answer_model(run: TaskRun, action: WorkspaceAction, step: ConfirmStep)
    ensures
        run@.source_kind == run.source_kind@,
        run@.task == run.task@,
        run@.omit_history_entry == run.omit_history_entry,
        action is Nothing <==> action@ is Nothing,
        action is ShowAttachModal <==> action@ is ShowAttachModal,
        action is StartDebugSession <==> action@ is StartDebugSession,
        action matches WorkspaceAction::Schedule(run) ==> action@ == Action::Schedule(run@),
        step is Stay <==> step@ is Stay,
        step matches ConfirmStep::ResolveDebugConfig(run) ==> step@ == Answer::ResolveDebugConfig(
            run@,
        ),
        step matches ConfirmStep::Finish(action) ==> step@ == Answer::Finish(action@),
{
}

/// The parts of a row.
pub proof fn law_row_model(row: MatchRow)
    ensures
        row@.id == row.id@,
        row@.icon == row.icon@,
        row@.text == row.label.text@,
        row@.highlight_positions == row.label.highlight_positions@,
        row@.char_count == row.label.char_count,
        row@.in_history == row.in_history,
        row@.tags.len() == row.tags.len(),
        forall|i: int| 0 <= i < row.tags.len() ==> #[trigger] row@.tags[i] == row.tags[i]@,
        row.tooltip is Some <==> row@.tooltip is Some,
        row.tooltip matches Some(text) ==> row@.tooltip == Some(text@),
        row.delete_candidate is Some <==> row@.delete_candidate is Some,
        row.delete_candidate matches Some(ix) ==> row@.delete_candidate == Some(ix as nat),
        row@.hover_labels.len() == row.hover_labels.len(),
        forall|i: int|
            0 <= i < row.hover_labels.len() ==> #[trigger] row@.hover_labels[i]
                == row.hover_labels[i]@,
        row@.selected == row.selected,
{
}

/// The parts of an icon.
pub proof fn law_icon_model(icon: RowIcon)
    ensures
        icon is Terminal <==> icon@ is Terminal,
        icon is Settings <==> icon@ is Settings,
        icon is FileTree <==> icon@ is FileTree,
        icon matches RowIcon::FileType(name) ==> icon@ == Icon::FileType(name@),
{
}

/// The parts of the footer and its buttons.
pub proof fn law_footer_model(footer: Footer, button: FooterButton)
    ensures
        footer.deep_view().right == footer.right@,
        footer.left is Some <==> footer.deep_view().left is Some,
        footer.left matches Some(left) ==> footer.deep_view().left == Some(left@),
        button@.id == button.id@,
        button@.label == button.label@,
        button@.action == button.action,
        button@.needs_key_binding == button.needs_key_binding,
{
}

} // verus!
