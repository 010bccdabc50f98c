//! The model of the modal: its state, and what each operation makes of it.

use vstd::prelude::*;

use crate::matching::{last_used_row, offered, used_first, Match, Offered};
use crate::task::{
    overridden_target, DebugRequestType, DebugTaskDefinition, Oneshot, RevealTarget, SourceKind,
    Task, TaskModal, TaskOverrides, TypeOfTask,
};
use crate::text::blank;

verus! {

/// The state of the modal.
pub struct ModalState {
    /// All tasks that can be listed, used ones first; none until loaded.
    pub candidates: Option<Seq<(SourceKind, Task)>>,
    /// Amendments to each task that is run.
    pub overrides: Option<TaskOverrides>,
    /// The index of the last candidate that was used before.
    pub last_used: Option<nat>,
    /// The row behind which the used tasks end.
    pub divider: Option<nat>,
    /// The rows.
    pub matches: Seq<Match>,
    /// The index of the selected row.
    pub selected: nat,
    /// The query that the rows answer.
    pub prompt: Seq<char>,
    /// What an empty query field shows.
    pub placeholder: Seq<char>,
    /// Which kind of task the modal lists.
    pub modal: TaskModal,
}

/// A request to the fuzzy matcher.
pub struct MatchQuery {
    /// The texts to match.
    pub candidates: Seq<Offered>,
    /// The query to match them with.
    pub query: Seq<char>,
    /// Whether an upper-case letter in the query makes case matter.
    pub smart_case: bool,
    /// The largest number of matches to return.
    pub max_results: nat,
}

/// A task on its way to being run.
pub struct Run {
    /// Where the task comes from.
    pub source_kind: SourceKind,
    /// The task, amended.
    pub task: Task,
    /// Whether it stays out of the history.
    pub omit_history_entry: bool,
}

/// What the workspace is asked to do.
pub enum Action {
    /// Nothing.
    Nothing,
    /// To schedule a task.
    Schedule(Run),
    /// To let the user choose a process to attach to.
    ShowAttachModal,
    /// To start a debug session.
    StartDebugSession,
}

/// How the modal answers a confirmation.
pub enum Answer {
    /// It does nothing and stays open.
    Stay,
    /// It asks for the debug configuration of a task, to decide then.
    ResolveDebugConfig(Run),
    /// It hands an action to the workspace and closes.
    Finish(Action),
}

/// The text of an empty query field.
pub open spec fn placeholder(overrides: Option<TaskOverrides>) -> Seq<char> {
    if overridden_target(overrides) == Some(RevealTarget::Center) {
        "Find a task, or run a command in the central pane"@
    } else {
        "Find a task, or run a command"@
    }
}

/// What the workspace does with a debug task without a locator that was
/// picked from the list, once its configuration is known.
pub open spec fn picked_debug_action(config: Option<DebugTaskDefinition>) -> Action {
    match config {
        None => Action::Nothing,
        Some(DebugTaskDefinition { request: DebugRequestType::Attach(attach) }) => if
            attach.process_id is None {
            Action::ShowAttachModal
        } else {
            Action::StartDebugSession
        },
        Some(_) => Action::StartDebugSession,
    }
}

/// What the workspace does with a debug task that was typed in, once it is
/// known whether it has a configuration.
pub open spec fn typed_debug_action(run: Run, has_config: bool) -> Action {
    if !has_config {
        Action::Nothing
    } else if run.task.task_type == TypeOfTask::Debug(None) {
        Action::StartDebugSession
    } else {
        Action::Schedule(run)
    }
}

impl ModalState {
    /// A modal that was just opened.
    pub open spec fn opened(overrides: Option<TaskOverrides>, modal: TaskModal) -> ModalState {
        ModalState {
            candidates: None,
            overrides,
            last_used: None,
            divider: None,
            matches: Seq::empty(),
            selected: 0,
            prompt: Seq::empty(),
            placeholder: placeholder(overrides),
            modal,
        }
    }

    /// What holds of a modal at all times: the used candidates are among the
    /// candidates, the divider is below one of the rows, each row above it is
    /// of an earlier candidate than each row below it, and the placeholder
    /// fits the overrides.
    pub open spec fn inv(self) -> bool {
        &&& self.last_used matches Some(last) ==> (self.candidates matches Some(all)
            && last < all.len())
        &&& self.divider matches Some(row) ==> row < self.matches.len()
        &&& forall|upper: int, lower: int|
            0 <= upper < self.matches.len() && 0 <= lower < self.matches.len()
                && self.row_in_history(upper as nat) && !self.row_in_history(lower as nat) ==> (
            #[trigger] self.matches[upper]).candidate_id < (
            #[trigger] self.matches[lower]).candidate_id
        &&& self.placeholder == placeholder(self.overrides)
    }

    /// The modal once the inventory was read: the candidates are taken over
    /// the first time there is an inventory, and then kept.
    pub open spec fn loaded(
        self,
        inventory: Option<(Seq<(SourceKind, Task)>, Seq<(SourceKind, Task)>)>,
    ) -> ModalState {
        match (self.candidates, inventory) {
            (None, Some((used, current))) => ModalState {
                candidates: Some(used + current),
                last_used: if used.len() == 0 {
                    None
                } else {
                    Some((used.len() - 1) as nat)
                },
                ..self
            },
            _ => self,
        }
    }

    /// What is offered to the fuzzy matcher.
    pub open spec fn offers(self) -> Seq<Offered> {
        match self.candidates {
            Some(candidates) => offered(candidates, self.modal),
            None => Seq::empty(),
        }
    }

    /// The request to the fuzzy matcher for a query.
    pub open spec fn match_query(self, query: Seq<char>) -> MatchQuery {
        MatchQuery { candidates: self.offers(), query, smart_case: true, max_results: 1000 }
    }

    /// The modal once the matches of a query were found.
    pub open spec fn listing(self, query: Seq<char>, matches: Seq<Match>) -> ModalState {
        ModalState {
            matches: used_first(matches, self.last_used),
            divider: last_used_row(matches, self.last_used),
            prompt: query,
            selected: if matches.len() == 0 {
                0
            } else if self.selected < matches.len() {
                self.selected
            } else {
                (matches.len() - 1) as nat
            },
            ..self
        }
    }

    /// The modal without the candidate at an index.
    pub open spec fn without_candidate(self, ix: nat) -> ModalState {
        ModalState {
            candidates: match self.candidates {
                Some(all) => if ix < all.len() {
                    Some(all.remove(ix as int))
                } else {
                    Some(all)
                },
                None => None,
            },
            ..self
        }
    }

    /// The modal after a click on the delete button for a candidate.
    pub open spec fn after_delete(self, ix: nat) -> ModalState {
        ModalState {
            last_used: match self.last_used {
                Some(last) => if last > 0 {
                    Some((last - 1) as nat)
                } else {
                    None
                },
                None => None,
            },
            ..self.without_candidate(ix)
        }
    }

    /// Whether a row is one of the used tasks.
    pub open spec fn row_in_history(self, row: nat) -> bool {
        self.divider matches Some(last) && row <= last
    }

    /// The candidate index of the selected row.
    pub open spec fn selected_id(self) -> Option<nat> {
        if self.selected < self.matches.len() {
            Some(self.matches[self.selected as int].candidate_id)
        } else {
            None
        }
    }

    /// Whether the selected row is of a candidate that is still there.
    pub open spec fn selection_in_range(self) -> bool {
        (self.selected_id(), self.candidates) matches (Some(id), Some(all)) ==> id < all.len()
    }

    /// The task of the selected row.
    pub open spec fn selected_task(self) -> Option<(SourceKind, Task)> {
        match (self.selected_id(), self.candidates) {
            (Some(id), Some(all)) => if id < all.len() {
                Some(all[id as int])
            } else {
                None
            },
            _ => None,
        }
    }

    /// How the modal answers when the selected row is confirmed.
    pub open spec fn on_confirm(self, omit_history_entry: bool) -> Answer {
        match self.selected_task() {
            None => Answer::Stay,
            Some((source_kind, task)) => {
                let run = Run {
                    source_kind,
                    task: task.overridden(self.overrides),
                    omit_history_entry,
                };
                if task.task_type == TypeOfTask::Debug(None) {
                    Answer::ResolveDebugConfig(run)
                } else {
                    Answer::Finish(Action::Schedule(run))
                }
            },
        }
    }

    /// The command of the selected task.
    pub open spec fn completion(self) -> Option<Seq<char>> {
        match self.selected_task() {
            Some((_, task)) => match task.resolved {
                Some(resolved) => Some(resolved.command_label),
                None => None,
            },
            None => None,
        }
    }

    /// The template of the task that the query spells out.
    pub open spec fn oneshot(self) -> Option<Oneshot> {
        if blank(self.prompt) {
            None
        } else {
            Some(
                Oneshot {
                    label: self.prompt,
                    command: self.prompt,
                    reveal_target: overridden_target(self.overrides),
                },
            )
        }
    }

    /// The task that the query spells out, given what its template resolves to.
    pub open spec fn spawned_oneshot(self, resolved: Option<Task>) -> Option<(SourceKind, Task)> {
        match resolved {
            Some(task) => if blank(self.prompt) {
                None
            } else {
                Some((SourceKind::UserInput, task))
            },
            None => None,
        }
    }

    /// How the modal answers when the query itself is confirmed, given what
    /// its template resolves to.
    pub open spec fn on_confirm_input(
        self,
        omit_history_entry: bool,
        resolved: Option<Task>,
    ) -> Answer {
        match self.spawned_oneshot(resolved) {
            None => Answer::Stay,
            Some((source_kind, task)) => {
                let run = Run {
                    source_kind,
                    task: task.overridden(self.overrides),
                    omit_history_entry,
                };
                match task.task_type {
                    TypeOfTask::Script => Answer::Finish(Action::Schedule(run)),
                    TypeOfTask::Debug(_) => Answer::ResolveDebugConfig(run),
                }
            },
        }
    }
}

} // verus!
