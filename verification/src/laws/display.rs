//! What rows and the footer show, in terms of the tasks and keys at hand.

use vstd::prelude::*;

use crate::footer::{FooterAction, InventorySummary, Modifiers};
use crate::row::{row_id, tooltip, Icon};
use crate::state::ModalState;
use crate::task::{SourceKind, Task};
use crate::text::blank;

verus! {

/// Whether the command of a task is to be shown beside its labels: it is none
/// of them.
pub open spec fn has_own_command(task: Task) -> bool {
    &&& task.resolved is Some
    &&& task.resolved->0.command_label != task.display_label
    &&& task.resolved->0.command_label != task.resolved_label
}

/// Whether the label of a task was changed from that of its template.
pub open spec fn has_own_label(task: Task) -> bool {
    task.display_label != task.template_label
}

/// A command that no label shows is at the end of the tooltip.
pub proof fn law_tooltip_ends_with_the_command(task: Task)
    requires
        has_own_command(task),
        !blank(task.resolved->0.command_label),
    ensures
        tooltip(task) is Some,
        ({
            let text = tooltip(task)->0;
            let command = task.resolved->0.command_label;
            &&& text.len() >= command.len()
            &&& text.skip(text.len() - command.len()) == command
        }),
{
    let text = crate::row::tooltip_text(task);
    let command = task.resolved->0.command_label;
    let front = text.take(text.len() - command.len());
    assert(text.skip(text.len() - command.len()) =~= command);
    assert(text =~= front + command);
    super::texts::law_blank_by_parts(front, command);
}

/// A label that was changed from that of the template is in full at the start
/// of the tooltip.
pub proof fn law_tooltip_starts_with_the_label(task: Task)
    requires
        has_own_label(task),
        !blank(task.resolved_label),
    ensures
        tooltip(task) is Some,
        ({
            let text = tooltip(task)->0;
            &&& text.len() >= task.resolved_label.len()
            &&& text.take(task.resolved_label.len() as int) == task.resolved_label
        }),
{
    let text = crate::row::tooltip_text(task);
    let label = task.resolved_label;
    let back = text.skip(label.len() as int);
    assert(text.take(label.len() as int) =~= label);
    assert(text =~= label + back);
    super::texts::law_blank_by_parts(label, back);
}

/// A changed label and a command of its own stand on lines of their own, with
/// nothing else around them.
pub proof fn law_tooltip_of_label_and_command(task: Task)
    requires
        has_own_label(task),
        has_own_command(task),
        !blank(task.resolved_label),
    ensures
        tooltip(task) == Some(
            task.resolved_label + seq!['\n'] + task.resolved->0.command_label,
        ),
{
    law_tooltip_starts_with_the_label(task);
    assert(tooltip(task)->0 =~= task.resolved_label + seq!['\n']
        + task.resolved->0.command_label);
}

/// A blank label puts no line of its own before the command.
pub proof fn law_tooltip_of_command_alone(task: Task)
    requires
        has_own_command(task),
        !blank(task.resolved->0.command_label),
    ensures
        !has_own_label(task) ==> tooltip(task) == Some(task.resolved->0.command_label),
        has_own_label(task) && blank(task.resolved_label) ==> tooltip(task) == Some(
            task.resolved_label + task.resolved->0.command_label,
        ),
{
    law_tooltip_ends_with_the_command(task);
    if !has_own_label(task) {
        assert(tooltip(task)->0 =~= task.resolved->0.command_label);
    }
}

/// Without a command of its own a task has its changed label as its tooltip.
pub proof fn law_tooltip_of_label_alone(task: Task)
    requires
        !has_own_command(task),
    ensures
        has_own_label(task) && !blank(task.resolved_label) ==> tooltip(task) == Some(
            task.resolved_label,
        ),
        !has_own_label(task) || blank(task.resolved_label) ==> tooltip(task) is None,
{
}

/// No tooltip is blank, and there is none exactly where there is nothing to
/// show: no changed label and no command of its own but blank ones.
pub proof fn law_tooltip_is_there_for_something(task: Task)
    ensures
        tooltip(task) is Some ==> !blank(tooltip(task)->0),
        tooltip(task) is Some <==> (has_own_label(task) && !blank(task.resolved_label)) || (
        has_own_command(task) && !blank(task.resolved->0.command_label)),
{
    if has_own_command(task) && !blank(task.resolved->0.command_label) {
        law_tooltip_ends_with_the_command(task);
    } else if has_own_label(task) && !blank(task.resolved_label) {
        law_tooltip_starts_with_the_label(task);
    } else if has_own_command(task) {
        let label = if has_own_label(task) {
            task.resolved_label
        } else {
            Seq::empty()
        };
        super::texts::law_blank_by_parts(label, task.resolved->0.command_label);
    }
}

/// Tasks have the icon of their source: a terminal where they were typed in,
/// settings or a file tree where they are from a file, and the icon of their
/// language, by its lower-case name, where they are from one.
pub proof fn law_icons(name: Seq<char>, lowercase_name: Seq<char>)
    ensures
        crate::row::source_icon(SourceKind::UserInput) is Terminal,
        crate::row::source_icon(SourceKind::AbsPath) is Settings,
        crate::row::source_icon(SourceKind::Worktree) is FileTree,
        crate::row::source_icon(SourceKind::Language(name)) == Icon::FileType(
            crate::text::lowercase(name),
        ),
        crate::row::icon_of(SourceKind::UserInput, lowercase_name) is Terminal,
        crate::row::icon_of(SourceKind::AbsPath, lowercase_name) is Settings,
        crate::row::icon_of(SourceKind::Worktree, lowercase_name) is FileTree,
        crate::row::icon_of(SourceKind::Language(name), lowercase_name) == Icon::FileType(
            lowercase_name,
        ),
{
}

/// An icon that names a language with a name in ASCII has that name in lower
/// case, letter by letter.
pub proof fn law_language_icon(name: Seq<char>, icon: Icon)
    requires
        vstd::utf8::is_ascii_chars(name),
        crate::row::names_ascii_language(SourceKind::Language(name), icon),
    ensures
        icon is FileType,
        icon->FileType_0.len() == name.len(),
        forall|i: int|
            0 <= i < name.len() ==> {
                let lower = #[trigger] icon->FileType_0[i];
                if 0x41 <= name[i] as int <= 0x5a {
                    lower as int == name[i] as int + 32
                } else {
                    lower == name[i]
                }
            },
{
    super::texts::law_ascii_lowercase(name);
}

/// A row shows its match and the task behind it: the text as it was matched,
/// the tags and tooltip of the task, the icon of its source, the mark of the
/// history where it is not below the divider, and a delete button for
/// that very task where it was typed in or is in the history.
pub proof fn law_row_shows_its_task(state: ModalState, ix: nat, selected: bool)
    requires
        state.candidates is Some,
        ix < state.matches.len(),
        state.matches[ix as int].candidate_id < state.candidates->0.len(),
    ensures
        state.row(ix, selected) is Some,
        ({
            let hit = state.matches[ix as int];
            let (source_kind, task) = state.candidates->0[hit.candidate_id as int];
            let row = state.row(ix, selected)->0;
            let used = state.divider is Some && ix <= state.divider->0;
            &&& row.text == hit.string
            &&& row.highlight_positions == hit.positions
            &&& row.char_count == hit.string.len()
            &&& row.tags == task.tags
            &&& row.tooltip == tooltip(task)
            &&& row.icon == crate::row::source_icon(source_kind)
            &&& row.in_history == used
            &&& row.selected == selected
            &&& row.id == row_id(ix)
            &&& row.delete_candidate is Some <==> source_kind is UserInput || used
            &&& row.delete_candidate is Some ==> row.delete_candidate->0 == hit.candidate_id
            &&& row.delete_candidate is None ==> row.hover_labels.len() == 0
            &&& row.delete_candidate is Some ==> {
                &&& row.hover_labels.len() == task.tags.len()
                &&& forall|i: int|
                    0 <= i < task.tags.len() ==> #[trigger] row.hover_labels[i] == seq!['#']
                        + task.tags[i]
            }
        }),
{
}

/// There is no row without candidates, and none of a candidate that is gone.
pub proof fn law_no_row_without_task(state: ModalState, ix: nat, selected: bool)
    requires
        state.candidates is None || state.matches[ix as int].candidate_id
            >= state.candidates->0.len(),
    ensures
        state.row(ix, selected) is None,
{
}

/// The element of a row is named by the place of the row.
pub proof fn law_row_id(ix: nat)
    ensures
        ({
            let prefix = "tasks-modal-"@;
            let id = row_id(ix);
            &&& id.len() > prefix.len()
            &&& id.take(prefix.len() as int) == prefix
            &&& super::texts::numeral_value(id.skip(prefix.len() as int)) == ix
        }),
{
    let prefix = "tasks-modal-"@;
    super::texts::law_decimal_is_a_numeral(ix);
    assert(row_id(ix).take(prefix.len() as int) =~= prefix);
    assert(row_id(ix).skip(prefix.len() as int) =~= crate::text::decimal(ix));
}

/// Labels are made of the tags one by one.
pub proof fn law_labels(tags: Seq<Seq<char>>)
    ensures
        crate::row::labels(tags).len() == tags.len(),
        forall|i: int|
            0 <= i < tags.len() ==> #[trigger] crate::row::labels(tags)[i] == seq!['#'] + tags[i],
{
}

/// There is a footer exactly where there is an inventory; its left button is
/// there exactly where a task was scheduled before, and runs that one again.
pub proof fn law_footer_and_its_left_button(
    state: ModalState,
    inventory: Option<InventorySummary>,
    modifiers: Modifiers,
)
    ensures
        state.footer(inventory, modifiers) is Some <==> inventory is Some,
        inventory is Some ==> {
            let left = state.footer(inventory, modifiers)->0.left;
            &&& left is Some <==> inventory->0.has_scheduled_task
            &&& left is Some ==> {
                &&& left->0.action == FooterAction::Rerun
                &&& left->0.label == "Rerun Last Task"@
                &&& left->0.id == "edit-current-task"@
                &&& !left->0.needs_key_binding
            }
        },
{
}

/// A typed command can be run from the footer: wherever something is typed
/// and either the alternative key is held or nothing was found for it, the
/// right button runs the query, and says so; with the secondary key it leaves
/// the history alone, and says that too.
pub proof fn law_footer_runs_what_was_typed(
    state: ModalState,
    inventory: InventorySummary,
    modifiers: Modifiers,
)
    requires
        state.prompt.len() > 0,
        modifiers.alt || state.matches.len() == 0,
    ensures
        ({
            let right = state.footer(Some(inventory), modifiers)->0.right;
            &&& right.action == (FooterAction::ConfirmInput { secondary: modifiers.secondary })
            &&& modifiers.secondary ==> right.label == "Spawn Oneshot Without History"@
            &&& !modifiers.secondary ==> right.label == "Spawn Oneshot"@
            &&& right.id == "spawn-onehshot"@
            &&& right.needs_key_binding
        }),
{
}

/// In all other cases the right button runs the selected row: it says "Rerun"
/// for one of the history and "Spawn" for any other, and with the secondary
/// key leaves the history alone and says so.
pub proof fn law_footer_runs_the_selected_row(
    state: ModalState,
    inventory: InventorySummary,
    modifiers: Modifiers,
)
    requires
        state.prompt.len() == 0 || (!modifiers.alt && state.matches.len() > 0),
    ensures
        ({
            let right = state.footer(Some(inventory), modifiers)->0.right;
            let used = state.divider is Some && state.selected <= state.divider->0;
            &&& modifiers.secondary ==> right.action == FooterAction::SecondaryConfirm
            &&& !modifiers.secondary ==> right.action == FooterAction::Confirm
            &&& modifiers.secondary && used ==> right.label == "Rerun Without History"@
            &&& modifiers.secondary && !used ==> right.label == "Spawn Without History"@
            &&& !modifiers.secondary && used ==> right.label == "Rerun"@
            &&& !modifiers.secondary && !used ==> right.label == "Spawn"@
            &&& right.id == "spawn"@
            &&& right.needs_key_binding
        }),
{
}

/// A click on the right button is never lost on a typed command: where
/// something is typed and there is no row to confirm, it runs the query.
pub proof fn law_footer_never_confirms_a_missing_row(
    state: ModalState,
    inventory: InventorySummary,
    modifiers: Modifiers,
)
    requires
        state.prompt.len() > 0,
        state.matches.len() == 0,
    ensures
        state.footer(Some(inventory), modifiers)->0.right.action is ConfirmInput,
        state.footer_action(modifiers) is ConfirmInput,
{
}

/// The parts of the footer are those that it is made of.
pub proof fn law_footer_parts(
    state: ModalState,
    inventory: InventorySummary,
    modifiers: Modifiers,
)
    ensures
        state.footer(Some(inventory), modifiers)->0.right.action == state.footer_action(modifiers),
        state.footer(Some(inventory), modifiers)->0.right.label == state.footer_label(modifiers),
{
}

} // verus!
