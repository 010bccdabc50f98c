//! Whole sessions with the modal, with a small inventory and a small fuzzy
//! matcher in place of the real ones.

use tasks_ui::matching::StringMatch;
use tasks_ui::modal::{
    ConfirmStep, InventoryTasks, MatchRequest, TaskRun, TasksModalDelegate, UpdateStep,
    WorkspaceAction,
};
use tasks_ui::task::{
    OneshotTemplate, ResolvedTask, RevealTarget, SpawnInTerminal, TaskModal, TaskSourceKind,
    TaskType,
};

fn task(label: &str, command_label: &str) -> ResolvedTask {
    ResolvedTask {
        handle: 0,
        id: format!("id of {}", label),
        template_label: label.to_string(),
        tags: Vec::new(),
        resolved_label: label.to_string(),
        display_label: label.to_string(),
        task_type: TaskType::Script,
        resolved: Some(SpawnInTerminal {
            command_label: command_label.to_string(),
            reveal_target: RevealTarget::Dock,
        }),
    }
}

fn resolve(template: OneshotTemplate) -> ResolvedTask {
    let mut resolved = task(&template.label, &template.command);
    if let Some(target) = template.reveal_target {
        if let Some(spawn) = &mut resolved.resolved {
            spawn.reveal_target = target;
        }
    }
    resolved
}

/// All tasks that were used, and those for the file that is open.
struct History {
    used: Vec<(TaskSourceKind, ResolvedTask)>,
    current: Vec<(TaskSourceKind, ResolvedTask)>,
    /// The language of the file that is open, where it has one.
    language: Option<String>,
}

impl History {
    /// Whether tasks of a source fit the file that is open.
    fn fits(&self, kind: &TaskSourceKind) -> bool {
        match kind {
            TaskSourceKind::Language { name } => self.language.as_ref() == Some(name),
            _ => true,
        }
    }

    fn open(&mut self, language: &str, current: Vec<(TaskSourceKind, ResolvedTask)>) {
        self.language = Some(language.to_string());
        self.current = current;
    }

    fn tasks(&self) -> InventoryTasks {
        let mut current = Vec::new();
        for (kind, task) in &self.current {
            if self.used.iter().all(|(_, used)| used.id != task.id) {
                current.push((kind.clone(), task.clone()));
            }
        }
        let mut used = Vec::new();
        for (kind, task) in &self.used {
            if self.fits(kind) {
                used.push((kind.clone(), task.clone()));
            }
        }
        InventoryTasks { used, current }
    }

    fn schedule(&mut self, run: TaskRun) {
        if !run.omit_history_entry {
            self.used.retain(|(_, used)| used.id != run.task.id);
            self.used.insert(0, (run.source_kind, run.task));
        }
    }
}

/// Every candidate that holds the characters of the query in their order.
fn match_strings(request: &MatchRequest) -> Vec<StringMatch> {
    let mut found = Vec::new();
    for candidate in &request.candidates {
        let mut positions = Vec::new();
        let mut wanted = request.query.chars().peekable();
        for (position, c) in candidate.string.char_indices() {
            if wanted.peek() == Some(&c) {
                positions.push(position);
                wanted.next();
            }
        }
        if wanted.peek().is_none() && found.len() < request.max_results {
            found.push(StringMatch {
                candidate_id: candidate.id,
                positions,
                string: candidate.string.clone(),
            });
        }
    }
    found
}

fn update(modal: &mut TasksModalDelegate, query: &str, history: &History) {
    let request = match modal.update_matches(query.to_string()) {
        UpdateStep::ReadInventory(query) => modal.inventory_read(query, Some(history.tasks())),
        UpdateStep::MatchStrings(request) => request,
    };
    assert!(request.smart_case);
    assert_eq!(request.max_results, 1000);
    let found = match_strings(&request);
    modal.matches_found(request.query, found);
}

fn open_spawn_tasks(history: &History) -> TasksModalDelegate {
    let mut modal = TasksModalDelegate::new(None, TaskModal::ScriptModal);
    update(&mut modal, "", history);
    modal
}

fn task_names(modal: &TasksModalDelegate) -> Vec<String> {
    modal.matches().iter().map(|hit| hit.string.clone()).collect()
}

fn confirm_input(modal: &TasksModalDelegate, secondary: bool, history: &mut History) {
    let resolved = modal.oneshot_template().map(resolve);
    match modal.confirm_input(secondary, resolved) {
        ConfirmStep::Finish(WorkspaceAction::Schedule(run)) => history.schedule(run),
        other => panic!("the query should have been scheduled: {:?}", other),
    }
}

fn emulate_task_schedule(modal: &TasksModalDelegate, label: &str, history: &mut History) {
    let scheduled = modal
        .candidates()
        .iter()
        .flatten()
        .find(|(_, task)| task.resolved_label == label)
        .map(|(kind, task)| (kind.clone(), task.clone()))
        .unwrap();
    history.schedule(TaskRun {
        source_kind: scheduled.0,
        task: scheduled.1,
        omit_history_entry: false,
    });
}

#[test]
fn test_spawn_tasks_modal_query_reuse() {
    let mut history = History {
        used: Vec::new(),
        current: vec![
            (TaskSourceKind::Worktree, task("another one", "echo 55")),
            (TaskSourceKind::Worktree, task("example task", "echo 4")),
        ],
        language: None,
    };

    let modal = open_spawn_tasks(&history);
    assert_eq!(modal.prompt(), "", "Initial query should be empty");
    assert_eq!(
        task_names(&modal),
        vec!["another one", "example task"],
        "With no global tasks and no open item, a single worktree should be used and its tasks listed"
    );

    let mut modal = open_spawn_tasks(&history);
    assert_eq!(
        task_names(&modal),
        vec!["another one", "example task"],
        "Initial tasks should be listed in alphabetical order"
    );

    let query_str = "tas";
    update(&mut modal, query_str, &history);
    assert_eq!(modal.prompt(), query_str);
    assert_eq!(
        task_names(&modal),
        vec!["example task"],
        "Only one task should match the query {query_str}"
    );

    let completion = modal.confirm_completion().unwrap();
    update(&mut modal, &completion, &history);
    assert_eq!(
        modal.prompt(),
        "echo 4",
        "Query should be set to the selected task's command"
    );
    assert_eq!(
        task_names(&modal),
        Vec::<String>::new(),
        "No task should be listed"
    );
    confirm_input(&modal, false, &mut history);

    let mut modal = open_spawn_tasks(&history);
    assert_eq!(modal.prompt(), "", "Query should be reset after confirming");
    assert_eq!(
        task_names(&modal),
        vec!["echo 4", "another one", "example task"],
        "New oneshot task should be listed first"
    );

    let query_str = "echo 4";
    update(&mut modal, query_str, &history);
    assert_eq!(modal.prompt(), query_str);
    assert_eq!(
        task_names(&modal),
        vec!["echo 4"],
        "New oneshot should match custom command query"
    );

    confirm_input(&modal, false, &mut history);
    let mut modal = open_spawn_tasks(&history);
    assert_eq!(modal.prompt(), "", "Query should be reset after confirming");
    assert_eq!(
        task_names(&modal),
        vec![query_str, "another one", "example task"],
        "Last recently used one show task should be listed first"
    );

    let completion = modal.confirm_completion().unwrap();
    update(&mut modal, &completion, &history);
    assert_eq!(
        modal.prompt(),
        query_str,
        "Query should be set to the custom task's name"
    );
    assert_eq!(
        task_names(&modal),
        vec![query_str],
        "Only custom task should be listed"
    );

    let query_str = format!("{}{}", modal.prompt(), "0");
    update(&mut modal, &query_str, &history);
    assert_eq!(modal.prompt(), "echo 40");
    assert_eq!(
        task_names(&modal),
        Vec::<String>::new(),
        "New oneshot should not match any command query"
    );

    confirm_input(&modal, true, &mut history);
    let modal = open_spawn_tasks(&history);
    assert_eq!(modal.prompt(), "", "Query should be reset after confirming");
    assert_eq!(
        task_names(&modal),
        vec!["echo 4", "another one", "example task"],
        "No query should be added to the list, as it was submitted with secondary action (that maps to omit_history = true)"
    );
    assert_eq!(
        task_names(&open_spawn_tasks(&history)),
        vec!["echo 4", "another one", "example task"],
    );
}

#[test]
fn test_basic_context_for_simple_files() {
    let mut history = History {
        used: Vec::new(),
        current: vec![(
            TaskSourceKind::Worktree,
            task("opened now: /dir", "echo opened now: /dir"),
        )],
        language: None,
    };
    assert_eq!(
        task_names(&open_spawn_tasks(&history)),
        vec!["opened now: /dir".to_string()],
        "When no file is open for a single worktree, should autodetect all worktree-related tasks"
    );

    history.current = vec![
        (
            TaskSourceKind::Worktree,
            task(
                "hello from /dir/file_with.odd_extension:1:1",
                "echo hello from /dir/file_with.odd_extension : 1 : 1",
            ),
        ),
        (
            TaskSourceKind::Worktree,
            task("opened now: /dir", "echo opened now: /dir"),
        ),
    ];
    assert_eq!(
        task_names(&open_spawn_tasks(&history)),
        vec![
            "hello from /dir/file_with.odd_extension:1:1".to_string(),
            "opened now: /dir".to_string(),
        ],
        "Second opened buffer should fill the context, labels should be trimmed if long enough"
    );

    history.current = vec![
        (
            TaskSourceKind::Worktree,
            task(
                "hello from /dir/file_without_extension:2:3",
                "echo hello from /dir/file_without_extension : 2 : 3",
            ),
        ),
        (
            TaskSourceKind::Worktree,
            task("opened now: /dir", "echo opened now: /dir"),
        ),
    ];
    assert_eq!(
        task_names(&open_spawn_tasks(&history)),
        vec![
            "hello from /dir/file_without_extension:2:3".to_string(),
            "opened now: /dir".to_string(),
        ],
        "Opened buffer should fill the context, labels should be trimmed if long enough"
    );
}

fn typescript_tasks(file: &str) -> Vec<(TaskSourceKind, ResolvedTask)> {
    let kind = TaskSourceKind::Language {
        name: "TypeScript".to_string(),
    };
    vec![
        (
            kind.clone(),
            task(&format!("Another task from file {}", file), "npm run lint"),
        ),
        (
            kind.clone(),
            task(
                &format!("TypeScript task from file {}", file),
                "npm run build",
            ),
        ),
        (kind, task("Task without variables", "npm run clean")),
    ]
}

#[test]
fn test_language_task_filtering() {
    let mut history = History {
        used: Vec::new(),
        current: Vec::new(),
        language: None,
    };
    history.open("TypeScript", typescript_tasks("/dir/a1.ts"));
    let modal = open_spawn_tasks(&history);
    assert_eq!(
        task_names(&modal),
        vec![
            "Another task from file /dir/a1.ts",
            "TypeScript task from file /dir/a1.ts",
            "Task without variables",
        ],
        "Should open spawn TypeScript tasks for the opened file, tasks with most template variables above, all groups sorted alphanumerically"
    );
    emulate_task_schedule(
        &modal,
        "TypeScript task from file /dir/a1.ts",
        &mut history,
    );

    assert_eq!(
        task_names(&open_spawn_tasks(&history)),
        vec![
            "TypeScript task from file /dir/a1.ts",
            "Another task from file /dir/a1.ts",
            "Task without variables",
        ],
        "After spawning the task and getting it into the history, it should be up in the sort as recently used. Tasks with the same labels and context are deduplicated."
    );

    history.open("TypeScript", typescript_tasks("/dir/a2.ts"));
    assert_eq!(
        task_names(&open_spawn_tasks(&history)),
        vec![
            "TypeScript task from file /dir/a1.ts",
            "Another task from file /dir/a2.ts",
            "TypeScript task from file /dir/a2.ts",
            "Task without variables",
        ],
        "Even when both TS files are open, should only show the history (on the top), and tasks, resolved for the current file"
    );

    history.open(
        "Rust",
        vec![(
            TaskSourceKind::Language {
                name: "Rust".to_string(),
            },
            task("Rust task", "cargo check"),
        )],
    );
    let modal = open_spawn_tasks(&history);
    assert_eq!(
        task_names(&modal),
        vec!["Rust task"],
        "Even when both TS files are open and one TS task spawned, opened file's language tasks should be displayed only"
    );
    emulate_task_schedule(&modal, "Rust task", &mut history);
    history.open("TypeScript", typescript_tasks("/dir/a2.ts"));

    assert_eq!(
        task_names(&open_spawn_tasks(&history)),
        vec![
            "TypeScript task from file /dir/a1.ts",
            "Another task from file /dir/a2.ts",
            "TypeScript task from file /dir/a2.ts",
            "Task without variables",
        ],
        "After closing all but *.rs tabs, running a Rust task and switching back to TS tasks, same TS spawn history should be restored"
    );
}
