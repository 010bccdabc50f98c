//! Tasks as the modal sees them: where a task comes from, how it is labelled,
//! what kind of task it is and where it would run.
//!
//! Each type has a model of the same shape, with sequences of characters in
//! place of strings and sequences in place of vectors.

use vstd::prelude::*;

verus! {

/// Which kind of task a modal lists.
#[derive(Clone, Copy, Debug, PartialEq, Eq, Structural)]
pub enum TaskModal {
    /// Scripts, run in a terminal.
    ScriptModal,
    /// Debug scenarios.
    DebugModal,
}

/// Where the terminal of a task is revealed.
#[derive(Clone, Copy, Debug, PartialEq, Eq, Structural)]
pub enum RevealTarget {
    /// The central pane group.
    Center,
    /// The terminal dock.
    Dock,
}

/// Task template amendments to do before resolving the context.
#[derive(Clone, Copy, Debug, PartialEq, Eq)]
pub struct TaskOverrides {
    /// See [`RevealTarget`].
    pub reveal_target: Option<RevealTarget>,
}

impl Default for TaskOverrides {
    fn default() -> (res: Self)
        ensures
            res.reveal_target is None,
    {
        TaskOverrides { reveal_target: None }
    }
}

/// The reveal target that overrides ask for, if any.
pub open spec fn overridden_target(overrides: Option<TaskOverrides>) -> Option<RevealTarget> {
    match overrides {
        Some(overrides) => overrides.reveal_target,
        None => None,
    }
}

/// Where a task comes from.
#[derive(Debug, PartialEq, Eq)]
pub enum TaskSourceKind {
    /// Typed by the user into the modal.
    UserInput,
    /// Read from a file outside of the worktrees.
    AbsPath,
    /// Read from a file of a worktree.
    Worktree,
    /// Provided by a language.
    Language {
        /// The name of the language.
        name: String,
    },
}

/// The model of [`TaskSourceKind`].
pub enum SourceKind {
    /// Typed by the user.
    UserInput,
    /// From a file outside of the worktrees.
    AbsPath,
    /// From a file of a worktree.
    Worktree,
    /// From the language of this name.
    Language(Seq<char>),
}

impl View for TaskSourceKind {
    type V = SourceKind;

    open spec fn view(&self) -> SourceKind {
        match *self {
            TaskSourceKind::UserInput => SourceKind::UserInput,
            TaskSourceKind::AbsPath => SourceKind::AbsPath,
            TaskSourceKind::Worktree => SourceKind::Worktree,
            TaskSourceKind::Language { name } => SourceKind::Language(name@),
        }
    }
}

impl DeepView for TaskSourceKind {
    type V = SourceKind;

    open spec fn deep_view(&self) -> SourceKind {
        self@
    }
}

impl Clone for TaskSourceKind {
    fn clone(&self) -> (res: Self)
        ensures
            res@ == self@,
    {
        match self {
            TaskSourceKind::UserInput => TaskSourceKind::UserInput,
            TaskSourceKind::AbsPath => TaskSourceKind::AbsPath,
            TaskSourceKind::Worktree => TaskSourceKind::Worktree,
            TaskSourceKind::Language { name } => TaskSourceKind::Language { name: name.clone() },
        }
    }
}

/// What a debug task asks for.
#[derive(Debug, PartialEq, Eq)]
pub struct DebugArgs {
    /// The locator that is to find what to debug by running a task first.
    pub locator: Option<String>,
}

/// The kind of a task.
#[derive(Debug, PartialEq, Eq)]
pub enum TaskType {
    /// A command, run in a terminal.
    Script,
    /// A debug scenario.
    Debug(DebugArgs),
}

/// The model of [`TaskType`].
pub enum TypeOfTask {
    /// A command.
    Script,
    /// A debug scenario, with its locator if it has one.
    Debug(Option<Seq<char>>),
}

impl View for TaskType {
    type V = TypeOfTask;

    open spec fn view(&self) -> TypeOfTask {
        match *self {
            TaskType::Script => TypeOfTask::Script,
            TaskType::Debug(args) => TypeOfTask::Debug(args.locator.deep_view()),
        }
    }
}

impl Clone for TaskType {
    fn clone(&self) -> (res: Self)
        ensures
            res@ == self@,
    {
        match self {
            TaskType::Script => TaskType::Script,
            TaskType::Debug(args) => {
                let locator = match &args.locator {
                    Some(locator) => Some(locator.clone()),
                    None => None,
                };
                TaskType::Debug(DebugArgs { locator })
            },
        }
    }
}

/// A process that a debugger attaches to.
#[derive(Clone, Copy, Debug, PartialEq, Eq)]
pub struct AttachConfig {
    /// The process, where it has been chosen.
    pub process_id: Option<u32>,
}

/// How a debug session starts.
#[derive(Clone, Copy, Debug, PartialEq, Eq)]
pub enum DebugRequestType {
    /// By launching a program.
    Launch,
    /// By attaching to a process.
    Attach(AttachConfig),
}

/// A debug scenario that is ready to start.
#[derive(Clone, Copy, Debug, PartialEq, Eq)]
pub struct DebugTaskDefinition {
    /// How its session starts.
    pub request: DebugRequestType,
}

/// How a resolved task is spawned.
#[derive(Debug, PartialEq, Eq)]
pub struct SpawnInTerminal {
    /// The command with its arguments, as shown to the user.
    pub command_label: String,
    /// Where the terminal is revealed.
    pub reveal_target: RevealTarget,
}

/// The model of [`SpawnInTerminal`].
pub struct Spawned {
    /// The command with its arguments.
    pub command_label: Seq<char>,
    /// Where the terminal is revealed.
    pub reveal_target: RevealTarget,
}

impl View for SpawnInTerminal {
    type V = Spawned;

    open spec fn view(&self) -> Spawned {
        Spawned { command_label: self.command_label@, reveal_target: self.reveal_target }
    }
}

impl DeepView for SpawnInTerminal {
    type V = Spawned;

    open spec fn deep_view(&self) -> Spawned {
        self@
    }
}

impl Clone for SpawnInTerminal {
    fn clone(&self) -> (res: Self)
        ensures
            res@ == self@,
    {
        SpawnInTerminal {
            command_label: self.command_label.clone(),
            reveal_target: self.reveal_target,
        }
    }
}

/// A task with its variables filled in.
#[derive(Debug, PartialEq, Eq)]
pub struct ResolvedTask {
    /// The number under which the owner of the modal keeps the task.
    pub handle: usize,
    /// What tells the task from others.
    pub id: String,
    /// The label of the template.
    pub template_label: String,
    /// The tags of the template.
    pub tags: Vec<String>,
    /// The label with all variables filled in.
    pub resolved_label: String,
    /// The label to show, which may be shortened.
    pub display_label: String,
    /// The kind of the task.
    pub task_type: TaskType,
    /// How the task is spawned, where it could be resolved that far.
    pub resolved: Option<SpawnInTerminal>,
}

/// The model of [`ResolvedTask`].
pub struct Task {
    /// The number under which the owner of the modal keeps the task.
    pub handle: nat,
    /// What tells the task from others.
    pub id: Seq<char>,
    /// The label of the template.
    pub template_label: Seq<char>,
    /// The tags of the template.
    pub tags: Seq<Seq<char>>,
    /// The label with all variables filled in.
    pub resolved_label: Seq<char>,
    /// The label to show.
    pub display_label: Seq<char>,
    /// The kind of the task.
    pub task_type: TypeOfTask,
    /// How the task is spawned.
    pub resolved: Option<Spawned>,
}

impl View for ResolvedTask {
    type V = Task;

    open spec fn view(&self) -> Task {
        Task {
            handle: self.handle as nat,
            id: self.id@,
            template_label: self.template_label@,
            tags: self.tags.deep_view(),
            resolved_label: self.resolved_label@,
            display_label: self.display_label@,
            task_type: self.task_type@,
            resolved: self.resolved.deep_view(),
        }
    }
}

impl DeepView for ResolvedTask {
    type V = Task;

    open spec fn deep_view(&self) -> Task {
        self@
    }
}

/// A copy of a list of texts.
pub fn clone_texts(texts: &Vec<String>) -> (res: Vec<String>)
    ensures
        res.deep_view() == texts.deep_view(),
{
    let res = texts.clone();
    assert(res.deep_view() =~= texts.deep_view());
    res
}

impl Clone for ResolvedTask {
    fn clone(&self) -> (res: Self)
        ensures
            res@ == self@,
    {
        let resolved = match &self.resolved {
            Some(resolved) => Some(resolved.clone()),
            None => None,
        };
        ResolvedTask {
            handle: self.handle,
            id: self.id.clone(),
            template_label: self.template_label.clone(),
            tags: clone_texts(&self.tags),
            resolved_label: self.resolved_label.clone(),
            display_label: self.display_label.clone(),
            task_type: self.task_type.clone(),
            resolved,
        }
    }
}

impl Task {
    /// The task as it runs under `overrides`: revealed where they ask for it.
    pub open spec fn overridden(self, overrides: Option<TaskOverrides>) -> Task {
        match (overridden_target(overrides), self.resolved) {
            (Some(target), Some(resolved)) => Task {
                resolved: Some(Spawned { reveal_target: target, ..resolved }),
                ..self
            },
            _ => self,
        }
    }

    /// Whether a modal of the given type lists the task.
    pub open spec fn listed_in(self, modal: TaskModal) -> bool {
        match self.task_type {
            TypeOfTask::Script => modal == TaskModal::ScriptModal,
            TypeOfTask::Debug(_) => modal == TaskModal::DebugModal,
        }
    }
}

impl ResolvedTask {
    /// Reveals the task where the overrides ask for it.
    pub fn apply_overrides(&mut self, overrides: &Option<TaskOverrides>)
        ensures
            final(self)@ == old(self)@.overridden(*overrides),
    {
        if let Some(TaskOverrides { reveal_target: Some(target) }) = overrides {
            if let Some(resolved) = &mut self.resolved {
                resolved.reveal_target = *target;
            }
        }
    }

    /// Whether a modal of the given type lists the task.
    pub fn is_listed_in(&self, modal: TaskModal) -> (b: bool)
        ensures
            b == self@.listed_in(modal),
    {
        match &self.task_type {
            TaskType::Script => modal == TaskModal::ScriptModal,
            TaskType::Debug(_) => modal == TaskModal::DebugModal,
        }
    }
}

/// The template of a task that the user typed in.
#[derive(Debug, PartialEq, Eq)]
pub struct OneshotTemplate {
    /// The label of the task.
    pub label: String,
    /// The command of the task.
    pub command: String,
    /// Where the task is revealed, where that is not left to the default.
    pub reveal_target: Option<RevealTarget>,
}

/// The model of [`OneshotTemplate`].
pub struct Oneshot {
    /// The label of the task.
    pub label: Seq<char>,
    /// The command of the task.
    pub command: Seq<char>,
    /// Where the task is revealed, where that is not left to the default.
    pub reveal_target: Option<RevealTarget>,
}

impl View for OneshotTemplate {
    type V = Oneshot;

    open spec fn view(&self) -> Oneshot {
        Oneshot {
            label: self.label@,
            command: self.command@,
            reveal_target: self.reveal_target,
        }
    }
}

impl DeepView for OneshotTemplate {
    type V = Oneshot;

    open spec fn deep_view(&self) -> Oneshot {
        self@
    }
}

} // verus!
