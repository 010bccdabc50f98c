//! The modal itself.

use vstd::prelude::*;

use crate::matching::{move_used_first, string_match_candidates, StringMatch, StringMatchCandidate};
use crate::state::{Action, Answer, MatchQuery, ModalState, Run};
use crate::task::{
    DebugRequestType, DebugTaskDefinition, OneshotTemplate, ResolvedTask, RevealTarget, SourceKind,
    Task, TaskModal, TaskOverrides, TaskSourceKind, TaskType,
};
use crate::text::is_blank;

verus! {

/// The largest number of matches that are listed.
pub const MAX_MATCHES: usize = 1000;

/// The tasks that an inventory knows: those that were used before, and those
/// that fit what is open now.
#[derive(Debug, PartialEq, Eq)]
pub struct InventoryTasks {
    /// Tasks used before, the most recent first.
    pub used: Vec<(TaskSourceKind, ResolvedTask)>,
    /// Tasks for what is open now.
    pub current: Vec<(TaskSourceKind, ResolvedTask)>,
}

impl DeepView for InventoryTasks {
    type V = (Seq<(SourceKind, Task)>, Seq<(SourceKind, Task)>);

    open spec fn deep_view(&self) -> Self::V {
        (self.used.deep_view(), self.current.deep_view())
    }
}

/// A request to the fuzzy matcher.
#[derive(Debug, PartialEq, Eq)]
pub struct MatchRequest {
    /// The texts to match.
    pub candidates: Vec<StringMatchCandidate>,
    /// The query to match them with.
    pub query: String,
    /// Whether an upper-case letter in the query makes case matter.
    pub smart_case: bool,
    /// The largest number of matches to return.
    pub max_results: usize,
}

impl View for MatchRequest {
    type V = MatchQuery;

    open spec fn view(&self) -> MatchQuery {
        MatchQuery {
            candidates: self.candidates.deep_view(),
            query: self.query@,
            smart_case: self.smart_case,
            max_results: self.max_results as nat,
        }
    }
}

/// What a new query needs next.
#[derive(Debug, PartialEq, Eq)]
pub enum UpdateStep {
    /// The tasks of the inventory, for this query.
    ReadInventory(String),
    /// The answer of the fuzzy matcher.
    MatchStrings(MatchRequest),
}

/// A task on its way to being run.
#[derive(Debug, PartialEq, Eq)]
pub struct TaskRun {
    /// Where the task comes from.
    pub source_kind: TaskSourceKind,
    /// The task, with the overrides of the modal applied.
    pub task: ResolvedTask,
    /// Whether it stays out of the history.
    pub omit_history_entry: bool,
}

impl View for TaskRun {
    type V = Run;

    open spec fn view(&self) -> Run {
        Run {
            source_kind: self.source_kind@,
            task: self.task@,
            omit_history_entry: self.omit_history_entry,
        }
    }
}

/// What the workspace is asked to do.
#[derive(Debug, PartialEq, Eq)]
pub enum WorkspaceAction {
    /// Nothing.
    Nothing,
    /// To schedule a task.
    Schedule(TaskRun),
    /// To let the user choose a process for the debug configuration at hand.
    ShowAttachModal,
    /// To start a session with the debug configuration at hand.
    StartDebugSession,
}

impl View for WorkspaceAction {
    type V = Action;

    open spec fn view(&self) -> Action {
        match *self {
            WorkspaceAction::Nothing => Action::Nothing,
            WorkspaceAction::Schedule(run) => Action::Schedule(run@),
            WorkspaceAction::ShowAttachModal => Action::ShowAttachModal,
            WorkspaceAction::StartDebugSession => Action::StartDebugSession,
        }
    }
}

/// How the modal answers a confirmation.
#[derive(Debug, PartialEq, Eq)]
pub enum ConfirmStep {
    /// Nothing happens and the modal stays open.
    Stay,
    /// The debug configuration of the task is needed to decide.
    ResolveDebugConfig(TaskRun),
    /// The workspace does this, and the modal closes.
    Finish(WorkspaceAction),
}

impl View for ConfirmStep {
    type V = Answer;

    open spec fn view(&self) -> Answer {
        match *self {
            ConfirmStep::Stay => Answer::Stay,
            ConfirmStep::ResolveDebugConfig(run) => Answer::ResolveDebugConfig(run@),
            ConfirmStep::Finish(action) => Answer::Finish(action@),
        }
    }
}

/// A modal used to spawn new tasks.
#[derive(Debug)]
pub struct TasksModalDelegate {
    candidates: Option<Vec<(TaskSourceKind, ResolvedTask)>>,
    task_overrides: Option<TaskOverrides>,
    last_used_candidate_index: Option<usize>,
    divider_index: Option<usize>,
    matches: Vec<StringMatch>,
    selected_index: usize,
    prompt: String,
    placeholder_text: String,
    /// If this delegate is responsible for running a scripting task or a debugger
    task_modal_type: TaskModal,
}

/// An optional index as a number.
pub open spec fn optional_index(index: Option<usize>) -> Option<nat> {
    match index {
        Some(index) => Some(index as nat),
        None => None,
    }
}

impl View for TasksModalDelegate {
    type V = ModalState;

    closed spec fn view(&self) -> ModalState {
        ModalState {
            candidates: self.candidates.deep_view(),
            overrides: self.task_overrides,
            last_used: optional_index(self.last_used_candidate_index),
            divider: optional_index(self.divider_index),
            matches: self.matches.deep_view(),
            selected: self.selected_index as nat,
            prompt: self.prompt@,
            placeholder: self.placeholder_text@,
            modal: self.task_modal_type,
        }
    }
}

impl TasksModalDelegate {
    /// A modal without any rows yet.
    pub fn new(task_overrides: Option<TaskOverrides>, task_modal_type: TaskModal) -> (res: Self)
        ensures
            res@ == ModalState::opened(task_overrides, task_modal_type),
            res@.inv(),
    {
        let placeholder_text = if let Some(
            TaskOverrides { reveal_target: Some(RevealTarget::Center) },
        ) = &task_overrides {
            "Find a task, or run a command in the central pane".to_owned()
        } else {
            "Find a task, or run a command".to_owned()
        };
        let res = TasksModalDelegate {
            candidates: None,
            task_overrides,
            last_used_candidate_index: None,
            divider_index: None,
            matches: Vec::new(),
            selected_index: 0,
            prompt: String::new(),
            placeholder_text,
            task_modal_type,
        };
        assert(res@.matches =~= Seq::empty());
        res
    }

    /// Starts an update for a new query: asks for the inventory where there
    /// are no candidates yet, and for matches otherwise.
    pub fn update_matches(&self, query: String) -> (step: UpdateStep)
        ensures
            self@.candidates is None ==> (step matches UpdateStep::ReadInventory(q) && q@
                == query@),
            self@.candidates is Some ==> (step matches UpdateStep::MatchStrings(request)
                && request@ == self@.match_query(query@)),
    {
        match &self.candidates {
            Some(candidates) => UpdateStep::MatchStrings(
                MatchRequest {
                    candidates: string_match_candidates(candidates, self.task_modal_type),
                    query,
                    smart_case: true,
                    max_results: MAX_MATCHES,
                },
            ),
            None => UpdateStep::ReadInventory(query),
        }
    }

    /// Goes on with an update once the inventory was read, or turned out not
    /// to be there.
    pub fn inventory_read(
        &mut self,
        query: String,
        inventory: Option<InventoryTasks>,
    ) -> (request: MatchRequest)
        ensures
            final(self)@ == old(self)@.loaded(inventory.deep_view()),
            request@ == final(self)@.match_query(query@),
            old(self)@.inv() ==> final(self)@.inv(),
    {
        if self.candidates.is_none() {
            if let Some(InventoryTasks { used, current }) = inventory {
                self.last_used_candidate_index =
                if used.is_empty() {
                    None
                } else {
                    Some(used.len() - 1)
                };
                let mut new_candidates = used;
                let mut current = current;
                let ghost front = new_candidates.deep_view();
                let ghost back = current.deep_view();
                new_candidates.append(&mut current);
                assert(new_candidates.deep_view() =~= front + back);
                self.candidates = Some(new_candidates);
            }
        }
        let candidates = match &self.candidates {
            Some(candidates) => string_match_candidates(candidates, self.task_modal_type),
            None => Vec::new(),
        };
        assert(candidates.deep_view() =~= self@.offers());
        MatchRequest { candidates, query, smart_case: true, max_results: MAX_MATCHES }
    }

    /// Ends an update: lists the matches of the query, used tasks first.
    pub fn matches_found(&mut self, query: String, matches: Vec<StringMatch>)
        ensures
            final(self)@ == old(self)@.listing(query@, matches.deep_view()),
            old(self)@.inv() ==> final(self)@.inv(),
    {
        let ghost found = matches.deep_view();
        proof {
            crate::laws::lemma_used_first_len(found, self@.last_used);
            crate::laws::law_history_on_top(self@, query@, found);
        }
        match self.last_used_candidate_index {
            Some(last) => {
                let (matches, used) = move_used_first(matches, last);
                self.matches = matches;
                self.divider_index =
                if used == 0 {
                    None
                } else {
                    Some(used - 1)
                };
            },
            None => {
                self.matches = matches;
                self.divider_index = None;
            },
        }
        self.prompt = query;
        if self.matches.is_empty() {
            self.selected_index = 0;
        } else if self.selected_index > self.matches.len() - 1 {
            self.selected_index = self.matches.len() - 1;
        }
    }

    /// Forgets a candidate. Returns the id of the task, for the inventory to
    /// forget it too. The end of the used candidates is left to the caller.
    fn delete_previously_used(&mut self, ix: usize) -> (id: Option<String>)
        ensures
            final(self)@ == old(self)@.without_candidate(ix as nat),
            id.deep_view() == (match old(self)@.candidates {
                Some(all) => if ix < all.len() {
                    Some(all[ix as int].1.id)
                } else {
                    None
                },
                None => None,
            }),
    {
        match &mut self.candidates {
            Some(candidates) => {
                if ix < candidates.len() {
                    let ghost all = candidates.deep_view();
                    let (_, task) = candidates.remove(ix);
                    assert(candidates.deep_view() =~= all.remove(ix as int));
                    Some(task.id)
                } else {
                    None
                }
            },
            None => None,
        }
    }

    /// A click on the delete button for a candidate. Returns the id of the
    /// task, for the inventory to forget it too.
    pub fn delete_clicked(&mut self, ix: usize) -> (id: Option<String>)
        ensures
            final(self)@ == old(self)@.after_delete(ix as nat),
            id.deep_view() == (match old(self)@.candidates {
                Some(all) => if ix < all.len() {
                    Some(all[ix as int].1.id)
                } else {
                    None
                },
                None => None,
            }),
            old(self)@.inv() ==> final(self)@.inv(),
    {
        let id = self.delete_previously_used(ix);
        self.last_used_candidate_index =
        self.last_used_candidate_index.unwrap_or(0).checked_sub(1);
        id
    }

    /// The candidate index of the selected row.
    pub fn selected_candidate(&self) -> (ix: Option<usize>)
        ensures
            optional_index(ix) == self@.selected_id(),
    {
        if self.selected_index < self.matches.len() {
            Some(self.matches[self.selected_index].candidate_id)
        } else {
            None
        }
    }

    /// Confirms the selected row.
    pub fn confirm(&self, omit_history_entry: bool) -> (step: ConfirmStep)
        requires
            self@.selection_in_range(),
        ensures
            step@ == self@.on_confirm(omit_history_entry),
    {
        let ix = match self.selected_candidate() {
            Some(ix) => ix,
            None => return ConfirmStep::Stay,
        };
        let candidates = match &self.candidates {
            Some(candidates) => candidates,
            None => return ConfirmStep::Stay,
        };
        let source_kind = candidates[ix].0.clone();
        let mut task = candidates[ix].1.clone();
        task.apply_overrides(&self.task_overrides);
        let needs_config = match &task.task_type {
            TaskType::Debug(args) => args.locator.is_none(),
            TaskType::Script => false,
        };
        let run = TaskRun { source_kind, task, omit_history_entry };
        if needs_config {
            ConfirmStep::ResolveDebugConfig(run)
        } else {
            ConfirmStep::Finish(WorkspaceAction::Schedule(run))
        }
    }

    /// Ends the confirmation of a debug task from the list, once its
    /// configuration was resolved, or could not be.
    pub fn confirm_debug_config(config: Option<DebugTaskDefinition>) -> (step: ConfirmStep)
        ensures
            step@ == Answer::Finish(crate::state::picked_debug_action(config)),
    {
        let action = match config {
            None => WorkspaceAction::Nothing,
            Some(config) => match config.request {
                DebugRequestType::Attach(attach) => if attach.process_id.is_none() {
                    WorkspaceAction::ShowAttachModal
                } else {
                    WorkspaceAction::StartDebugSession
                },
                DebugRequestType::Launch => WorkspaceAction::StartDebugSession,
            },
        };
        ConfirmStep::Finish(action)
    }

    /// The command of the selected task, to go on typing from.
    pub fn confirm_completion(&self) -> (completion: Option<String>)
        ensures
            completion.deep_view() == self@.completion(),
    {
        let ix = match self.selected_candidate() {
            Some(ix) => ix,
            None => return None,
        };
        match &self.candidates {
            Some(candidates) => {
                if ix < candidates.len() {
                    match &candidates[ix].1.resolved {
                        Some(resolved) => Some(resolved.command_label.clone()),
                        None => None,
                    }
                } else {
                    None
                }
            },
            None => None,
        }
    }

    /// The template of the task that the query spells out, to be resolved.
    pub fn oneshot_template(&self) -> (template: Option<OneshotTemplate>)
        ensures
            template.deep_view() == self@.oneshot(),
    {
        if is_blank(self.prompt.as_str()) {
            return None;
        }
        let mut new_oneshot = OneshotTemplate {
            label: self.prompt.clone(),
            command: self.prompt.clone(),
            reveal_target: None,
        };
        if let Some(TaskOverrides { reveal_target: Some(reveal_target) }) = &self.task_overrides {
            new_oneshot.reveal_target = Some(*reveal_target);
        }
        Some(new_oneshot)
    }

    /// The task that the query spells out, given what its template resolved to.
    pub fn spawn_oneshot(&self, resolved: Option<ResolvedTask>) -> (oneshot: Option<
        (TaskSourceKind, ResolvedTask),
    >)
        ensures
            oneshot.deep_view() == self@.spawned_oneshot(resolved.deep_view()),
    {
        if is_blank(self.prompt.as_str()) {
            return None;
        }
        match resolved {
            Some(task) => Some((TaskSourceKind::UserInput, task)),
            None => None,
        }
    }

    /// Confirms the query itself, given what its template resolved to.
    pub fn confirm_input(
        &self,
        omit_history_entry: bool,
        resolved: Option<ResolvedTask>,
    ) -> (step: ConfirmStep)
        ensures
            step@ == self@.on_confirm_input(omit_history_entry, resolved.deep_view()),
    {
        match self.spawn_oneshot(resolved) {
            None => ConfirmStep::Stay,
            Some((source_kind, mut task)) => {
                task.apply_overrides(&self.task_overrides);
                let is_script = match &task.task_type {
                    TaskType::Script => true,
                    TaskType::Debug(_) => false,
                };
                let run = TaskRun { source_kind, task, omit_history_entry };
                if is_script {
                    ConfirmStep::Finish(WorkspaceAction::Schedule(run))
                } else {
                    ConfirmStep::ResolveDebugConfig(run)
                }
            },
        }
    }

    /// Ends the confirmation of a debug task that was typed in, once it is
    /// known whether it has a debug configuration.
    pub fn confirm_input_debug_config(run: TaskRun, has_config: bool) -> (step: ConfirmStep)
        ensures
            step@ == Answer::Finish(crate::state::typed_debug_action(run@, has_config)),
    {
        if !has_config {
            return ConfirmStep::Finish(WorkspaceAction::Nothing);
        }
        let starts_session = match &run.task.task_type {
            TaskType::Debug(args) => args.locator.is_none(),
            TaskType::Script => false,
        };
        if starts_session {
            ConfirmStep::Finish(WorkspaceAction::StartDebugSession)
        } else {
            ConfirmStep::Finish(WorkspaceAction::Schedule(run))
        }
    }

    /// The rows that a separator follows.
    pub fn separators_after_indices(&self) -> (rows: Vec<usize>)
        ensures
            rows@.map_values(|row: usize| row as nat) == (match self@.divider {
                Some(row) => seq![row],
                None => Seq::empty(),
            }),
    {
        let mut rows: Vec<usize> = Vec::new();
        if let Some(row) = self.divider_index {
            rows.push(row);
        }
        rows
    }

    /// Whether a row is one of the tasks used before.
    pub fn is_row_in_history(&self, row: usize) -> (b: bool)
        ensures
            b == self@.row_in_history(row as nat),
    {
        match self.divider_index {
            Some(last) => row <= last,
            None => false,
        }
    }

    /// The number of rows.
    pub fn match_count(&self) -> (count: usize)
        ensures
            count == self@.matches.len(),
    {
        self.matches.len()
    }

    /// The index of the selected row.
    pub fn selected_index(&self) -> (ix: usize)
        ensures
            ix == self@.selected,
    {
        self.selected_index
    }

    /// Selects a row.
    pub fn set_selected_index(&mut self, ix: usize)
        ensures
            final(self)@ == (ModalState { selected: ix as nat, ..old(self)@ }),
            old(self)@.inv() ==> final(self)@.inv(),
    {
        self.selected_index = ix;
    }

    /// What an empty query field shows.
    pub fn placeholder_text(&self) -> (text: String)
        ensures
            text@ == self@.placeholder,
    {
        self.placeholder_text.clone()
    }

    /// The candidates, once they were loaded.
    pub fn candidates(&self) -> (candidates: &Option<Vec<(TaskSourceKind, ResolvedTask)>>)
        ensures
            candidates.deep_view() == self@.candidates,
    {
        &self.candidates
    }

    /// The rows.
    pub fn matches(&self) -> (matches: &Vec<StringMatch>)
        ensures
            matches.deep_view() == self@.matches,
    {
        &self.matches
    }

    /// The query that the rows answer.
    pub fn prompt(&self) -> (prompt: &str)
        ensures
            prompt@ == self@.prompt,
    {
        self.prompt.as_str()
    }
}

} // verus!
