//! The operations of the modal one by one.

use tasks_ui::matching::{move_used_first, string_match_candidates, StringMatch};
use tasks_ui::modal::{
    ConfirmStep, InventoryTasks, TaskRun, TasksModalDelegate, UpdateStep, WorkspaceAction,
};
use tasks_ui::task::{
    AttachConfig, DebugArgs, DebugRequestType, DebugTaskDefinition, OneshotTemplate, ResolvedTask,
    RevealTarget, SpawnInTerminal, TaskModal, TaskOverrides, TaskSourceKind, TaskType,
};

const CENTER: Option<TaskOverrides> = Some(TaskOverrides {
    reveal_target: Some(RevealTarget::Center),
});

fn script(id: &str, label: &str, command: &str) -> ResolvedTask {
    ResolvedTask {
        handle: 0,
        id: id.to_string(),
        template_label: label.to_string(),
        tags: Vec::new(),
        resolved_label: label.to_string(),
        display_label: label.to_string(),
        task_type: TaskType::Script,
        resolved: Some(SpawnInTerminal {
            command_label: command.to_string(),
            reveal_target: RevealTarget::Dock,
        }),
    }
}

fn debug(id: &str, label: &str, locator: Option<&str>) -> ResolvedTask {
    let mut task = script(id, label, label);
    task.task_type = TaskType::Debug(DebugArgs {
        locator: locator.map(|locator| locator.to_string()),
    });
    task
}

fn hit(candidate_id: usize, string: &str) -> StringMatch {
    StringMatch {
        candidate_id,
        positions: vec![0],
        string: string.to_string(),
    }
}

fn entry(task: ResolvedTask) -> (TaskSourceKind, ResolvedTask) {
    (TaskSourceKind::Worktree, task)
}

fn loaded(
    overrides: Option<TaskOverrides>,
    modal_type: TaskModal,
    used: Vec<ResolvedTask>,
    current: Vec<ResolvedTask>,
) -> TasksModalDelegate {
    let mut modal = TasksModalDelegate::new(overrides, modal_type);
    modal.inventory_read(
        String::new(),
        Some(InventoryTasks {
            used: used.into_iter().map(entry).collect(),
            current: current.into_iter().map(entry).collect(),
        }),
    );
    modal
}

fn ids(modal: &TasksModalDelegate) -> Vec<usize> {
    modal.matches().iter().map(|m| m.candidate_id).collect()
}

fn candidate_ids(modal: &TasksModalDelegate) -> Vec<String> {
    modal
        .candidates()
        .iter()
        .flatten()
        .map(|(_, task)| task.id.clone())
        .collect()
}

fn three_used_two_current() -> TasksModalDelegate {
    loaded(
        None,
        TaskModal::ScriptModal,
        vec![
            script("u0", "used 0", "run 0"),
            script("u1", "used 1", "run 1"),
            script("u2", "used 2", "run 2"),
        ],
        vec![
            script("c0", "current 0", "run 3"),
            script("c1", "current 1", "run 4"),
        ],
    )
}

#[test]
fn opened_modal_is_empty() {
    let modal = TasksModalDelegate::new(None, TaskModal::ScriptModal);
    assert_eq!(modal.match_count(), 0);
    assert_eq!(modal.selected_index(), 0);
    assert_eq!(modal.prompt(), "");
    assert_eq!(modal.placeholder_text(), "Find a task, or run a command");
    assert!(modal.candidates().is_none());
    assert_eq!(modal.separators_after_indices(), Vec::<usize>::new());
    assert_eq!(modal.confirm(false), ConfirmStep::Stay);
    assert_eq!(modal.confirm_completion(), None);
    assert_eq!(modal.oneshot_template(), None);
    assert_eq!(
        modal.confirm_input(false, Some(script("x", "x", "x"))),
        ConfirmStep::Stay
    );
}

#[test]
fn placeholder_names_the_central_pane() {
    let center = TasksModalDelegate::new(CENTER, TaskModal::ScriptModal);
    assert_eq!(
        center.placeholder_text(),
        "Find a task, or run a command in the central pane"
    );
    for overrides in [
        Some(TaskOverrides::default()),
        Some(TaskOverrides {
            reveal_target: Some(RevealTarget::Dock),
        }),
    ] {
        let modal = TasksModalDelegate::new(overrides, TaskModal::DebugModal);
        assert_eq!(modal.placeholder_text(), "Find a task, or run a command");
    }
}

#[test]
fn scripts_and_debug_tasks_are_offered_apart() {
    let candidates = vec![
        entry(script("a", "build", "make")),
        entry(debug("b", "attach", None)),
        entry(script("c", "test", "make test")),
        entry(debug("d", "launch", Some("cargo"))),
    ];
    let scripts: Vec<(usize, String)> =
        string_match_candidates(&candidates, TaskModal::ScriptModal)
            .into_iter()
            .map(|c| (c.id, c.string))
            .collect();
    assert_eq!(
        scripts,
        vec![(0, "build".to_string()), (2, "test".to_string())]
    );
    let debugs: Vec<(usize, String)> = string_match_candidates(&candidates, TaskModal::DebugModal)
        .into_iter()
        .map(|c| (c.id, c.string))
        .collect();
    assert_eq!(
        debugs,
        vec![(1, "attach".to_string()), (3, "launch".to_string())]
    );
}

#[test]
fn the_display_label_is_offered() {
    let mut task = script("a", "template", "make");
    task.display_label = "shown".to_string();
    let offers = string_match_candidates(&vec![entry(task)], TaskModal::ScriptModal);
    assert_eq!(offers[0].string, "shown");
}

#[test]
fn inventory_is_read_once() {
    let mut modal = TasksModalDelegate::new(None, TaskModal::ScriptModal);
    assert_eq!(
        modal.update_matches("q".to_string()),
        UpdateStep::ReadInventory("q".to_string())
    );
    let nothing = modal.inventory_read("q".to_string(), None);
    assert!(nothing.candidates.is_empty());
    assert_eq!(
        modal.update_matches("q".to_string()),
        UpdateStep::ReadInventory("q".to_string())
    );
    let request = modal.inventory_read(
        "q".to_string(),
        Some(InventoryTasks {
            used: vec![],
            current: vec![entry(script("a", "build", "make"))],
        }),
    );
    assert_eq!(request.query, "q");
    assert_eq!(request.candidates.len(), 1);
    assert!(request.smart_case);
    assert_eq!(request.max_results, 1000);
    let again = modal.inventory_read(
        "r".to_string(),
        Some(InventoryTasks {
            used: vec![entry(script("b", "other", "other"))],
            current: vec![],
        }),
    );
    assert_eq!(again.candidates[0].string, "build");
    assert_eq!(candidate_ids(&modal), vec!["a"]);
    match modal.update_matches("s".to_string()) {
        UpdateStep::MatchStrings(request) => {
            assert_eq!(request.query, "s");
            assert_eq!(request.candidates[0].string, "build");
        }
        other => panic!("expected a request to the matcher: {:?}", other),
    }
}

#[test]
fn used_tasks_are_listed_first_in_their_order() {
    let mut modal = three_used_two_current();
    modal.matches_found(
        "q".to_string(),
        vec![
            hit(4, "e"),
            hit(2, "c"),
            hit(3, "d"),
            hit(0, "a"),
            hit(1, "b"),
        ],
    );
    assert_eq!(ids(&modal), vec![2, 0, 1, 4, 3]);
    assert_eq!(modal.separators_after_indices(), vec![2]);
    let in_history: Vec<bool> = (0..5).map(|row| modal.is_row_in_history(row)).collect();
    assert_eq!(in_history, vec![true, true, true, false, false]);
    assert_eq!(modal.prompt(), "q");
}

#[test]
fn matches_in_candidate_order_stay_in_it() {
    let mut modal = three_used_two_current();
    modal.matches_found(
        "".to_string(),
        vec![hit(0, "a"), hit(2, "c"), hit(3, "d"), hit(4, "e")],
    );
    assert_eq!(ids(&modal), vec![0, 2, 3, 4]);
    assert_eq!(modal.separators_after_indices(), vec![1]);
}

#[test]
fn no_candidate_is_listed_twice() {
    let mut modal = three_used_two_current();
    modal.matches_found(
        "".to_string(),
        vec![hit(4, "e"), hit(1, "b"), hit(3, "d"), hit(0, "a")],
    );
    let mut listed = ids(&modal);
    listed.sort();
    assert_eq!(listed, vec![0, 1, 3, 4]);
}

#[test]
fn repeating_an_update_changes_nothing() {
    let found = || vec![hit(3, "d"), hit(1, "b"), hit(4, "e"), hit(0, "a")];
    let mut modal = three_used_two_current();
    modal.set_selected_index(9);
    let first = modal.update_matches("q".to_string());
    modal.matches_found("q".to_string(), found());
    let before = format!("{:?}", modal);
    assert_eq!(modal.selected_index(), 3);
    assert_eq!(ids(&modal), vec![1, 0, 3, 4]);
    assert_eq!(modal.update_matches("q".to_string()), first);
    modal.matches_found("q".to_string(), found());
    assert_eq!(format!("{:?}", modal), before);
}

#[test]
fn no_separator_without_used_matches() {
    let mut modal = three_used_two_current();
    modal.matches_found("q".to_string(), vec![hit(4, "e"), hit(3, "d")]);
    assert_eq!(ids(&modal), vec![4, 3]);
    assert_eq!(modal.separators_after_indices(), Vec::<usize>::new());

    let mut modal = loaded(
        None,
        TaskModal::ScriptModal,
        vec![],
        vec![script("a", "a", "a"), script("b", "b", "b")],
    );
    modal.matches_found("q".to_string(), vec![hit(1, "b"), hit(0, "a")]);
    assert_eq!(ids(&modal), vec![1, 0]);
    assert_eq!(modal.separators_after_indices(), Vec::<usize>::new());
}

#[test]
fn moving_used_matches_counts_them() {
    let (moved, used) = move_used_first(vec![hit(7, "h"), hit(1, "b"), hit(5, "f")], 5);
    let order: Vec<usize> = moved.iter().map(|m| m.candidate_id).collect();
    assert_eq!(order, vec![1, 5, 7]);
    assert_eq!(used, 2);
}

#[test]
fn selection_stays_among_the_rows() {
    let mut modal = three_used_two_current();
    modal.matches_found(
        "".to_string(),
        vec![hit(0, "a"), hit(1, "b"), hit(2, "c"), hit(3, "d")],
    );
    modal.set_selected_index(2);
    modal.matches_found("a".to_string(), vec![hit(0, "a"), hit(1, "b"), hit(2, "c")]);
    assert_eq!(modal.selected_index(), 2);
    modal.matches_found("ab".to_string(), vec![hit(0, "a"), hit(1, "b")]);
    assert_eq!(modal.selected_index(), 1);
    modal.matches_found("abc".to_string(), vec![]);
    assert_eq!(modal.selected_index(), 0);
    assert_eq!(modal.selected_candidate(), None);
}

#[test]
fn confirm_schedules_the_selected_script() {
    let mut modal = three_used_two_current();
    modal.matches_found("".to_string(), vec![hit(3, "d"), hit(1, "b")]);
    modal.set_selected_index(1);
    assert_eq!(modal.selected_candidate(), Some(3));
    for omit in [false, true] {
        assert_eq!(
            modal.confirm(omit),
            ConfirmStep::Finish(WorkspaceAction::Schedule(TaskRun {
                source_kind: TaskSourceKind::Worktree,
                task: script("c0", "current 0", "run 3"),
                omit_history_entry: omit,
            }))
        );
    }
    modal.set_selected_index(2);
    assert_eq!(modal.confirm(false), ConfirmStep::Stay);
}

#[test]
fn runs_keep_the_handle_of_their_task() {
    let mut first = script("a", "a", "a");
    first.handle = 5;
    let mut second = script("b", "b", "b");
    second.handle = 8;
    let mut modal = loaded(CENTER, TaskModal::ScriptModal, vec![first], vec![second]);
    modal.matches_found("".to_string(), vec![hit(1, "b")]);
    match modal.confirm(false) {
        ConfirmStep::Finish(WorkspaceAction::Schedule(run)) => assert_eq!(run.task.handle, 8),
        other => panic!("expected a scheduled task: {:?}", other),
    }
}

#[test]
fn confirm_applies_the_overrides() {
    let mut unresolved = script("b", "b", "b");
    unresolved.resolved = None;
    let mut modal = loaded(
        CENTER,
        TaskModal::ScriptModal,
        vec![],
        vec![script("a", "a", "run a"), unresolved],
    );
    modal.matches_found("".to_string(), vec![hit(0, "a"), hit(1, "b")]);
    match modal.confirm(false) {
        ConfirmStep::Finish(WorkspaceAction::Schedule(run)) => assert_eq!(
            run.task.resolved,
            Some(SpawnInTerminal {
                command_label: "run a".to_string(),
                reveal_target: RevealTarget::Center,
            })
        ),
        other => panic!("expected a scheduled task: {:?}", other),
    }
    modal.set_selected_index(1);
    match modal.confirm(false) {
        ConfirmStep::Finish(WorkspaceAction::Schedule(run)) => assert_eq!(run.task.resolved, None),
        other => panic!("expected a scheduled task: {:?}", other),
    }
}

#[test]
fn confirm_asks_for_the_configuration_of_debug_tasks_without_locator() {
    let mut modal = loaded(
        None,
        TaskModal::DebugModal,
        vec![],
        vec![debug("a", "a", None), debug("b", "b", Some("cargo"))],
    );
    modal.matches_found("".to_string(), vec![hit(0, "a"), hit(1, "b")]);
    assert_eq!(
        modal.confirm(true),
        ConfirmStep::ResolveDebugConfig(TaskRun {
            source_kind: TaskSourceKind::Worktree,
            task: debug("a", "a", None),
            omit_history_entry: true,
        })
    );
    modal.set_selected_index(1);
    assert_eq!(
        modal.confirm(true),
        ConfirmStep::Finish(WorkspaceAction::Schedule(TaskRun {
            source_kind: TaskSourceKind::Worktree,
            task: debug("b", "b", Some("cargo")),
            omit_history_entry: true,
        }))
    );
}

#[test]
fn debug_configuration_decides_what_the_workspace_does() {
    let attach = |process_id: Option<u32>| DebugTaskDefinition {
        request: DebugRequestType::Attach(AttachConfig { process_id }),
    };
    let launch = DebugTaskDefinition {
        request: DebugRequestType::Launch,
    };
    assert_eq!(
        TasksModalDelegate::confirm_debug_config(None),
        ConfirmStep::Finish(WorkspaceAction::Nothing)
    );
    assert_eq!(
        TasksModalDelegate::confirm_debug_config(Some(attach(None))),
        ConfirmStep::Finish(WorkspaceAction::ShowAttachModal)
    );
    assert_eq!(
        TasksModalDelegate::confirm_debug_config(Some(attach(Some(7)))),
        ConfirmStep::Finish(WorkspaceAction::StartDebugSession)
    );
    assert_eq!(
        TasksModalDelegate::confirm_debug_config(Some(launch)),
        ConfirmStep::Finish(WorkspaceAction::StartDebugSession)
    );
}

#[test]
fn completion_is_the_command_of_the_selected_task() {
    let mut unresolved = script("b", "b", "b");
    unresolved.resolved = None;
    let mut modal = loaded(
        None,
        TaskModal::ScriptModal,
        vec![],
        vec![script("a", "a", "run a"), unresolved],
    );
    modal.matches_found(
        "".to_string(),
        vec![hit(0, "a"), hit(1, "b"), hit(9, "gone")],
    );
    assert_eq!(modal.confirm_completion(), Some("run a".to_string()));
    modal.set_selected_index(1);
    assert_eq!(modal.confirm_completion(), None);
    modal.set_selected_index(2);
    assert_eq!(modal.confirm_completion(), None);
    modal.set_selected_index(3);
    assert_eq!(modal.confirm_completion(), None);
}

#[test]
fn completion_can_be_run_as_a_query() {
    let mut modal = loaded(
        CENTER,
        TaskModal::ScriptModal,
        vec![],
        vec![script("a", "a", "run a")],
    );
    modal.matches_found("a".to_string(), vec![hit(0, "a")]);
    let completion = modal.confirm_completion().unwrap();
    modal.matches_found(completion, vec![]);
    assert_eq!(modal.prompt(), "run a");
    assert_eq!(
        modal.oneshot_template(),
        Some(OneshotTemplate {
            label: "run a".to_string(),
            command: "run a".to_string(),
            reveal_target: Some(RevealTarget::Center),
        })
    );
}

#[test]
fn oneshot_keeps_the_query_as_typed() {
    let mut modal = TasksModalDelegate::new(None, TaskModal::ScriptModal);
    modal.matches_found("  ls -l ".to_string(), vec![]);
    assert_eq!(
        modal.oneshot_template(),
        Some(OneshotTemplate {
            label: "  ls -l ".to_string(),
            command: "  ls -l ".to_string(),
            reveal_target: None,
        })
    );
    let resolved = script("x", "  ls -l ", "  ls -l ");
    assert_eq!(
        modal.spawn_oneshot(Some(resolved.clone())),
        Some((TaskSourceKind::UserInput, resolved))
    );
    assert_eq!(modal.spawn_oneshot(None), None);
    assert_eq!(modal.confirm_input(false, None), ConfirmStep::Stay);
}

#[test]
fn blank_queries_run_nothing() {
    let mut modal = TasksModalDelegate::new(None, TaskModal::ScriptModal);
    for query in ["", " ", "\t\n\r", "\u{a0}\u{3000}", "\u{2028}\u{85}"] {
        modal.matches_found(query.to_string(), vec![]);
        assert_eq!(modal.oneshot_template(), None);
        assert_eq!(modal.spawn_oneshot(Some(script("x", "x", "x"))), None);
        assert_eq!(
            modal.confirm_input(false, Some(script("x", "x", "x"))),
            ConfirmStep::Stay
        );
    }
}

#[test]
fn input_is_scheduled_with_the_overrides() {
    let mut modal = TasksModalDelegate::new(CENTER, TaskModal::ScriptModal);
    modal.matches_found("ls".to_string(), vec![]);
    let mut expected = script("x", "ls", "ls");
    expected.resolved = Some(SpawnInTerminal {
        command_label: "ls".to_string(),
        reveal_target: RevealTarget::Center,
    });
    assert_eq!(
        modal.confirm_input(true, Some(script("x", "ls", "ls"))),
        ConfirmStep::Finish(WorkspaceAction::Schedule(TaskRun {
            source_kind: TaskSourceKind::UserInput,
            task: expected,
            omit_history_entry: true,
        }))
    );
}

#[test]
fn typed_debug_tasks_need_a_configuration() {
    let mut modal = TasksModalDelegate::new(None, TaskModal::DebugModal);
    modal.matches_found("dbg".to_string(), vec![]);
    for locator in [None, Some("cargo")] {
        let run = match modal.confirm_input(false, Some(debug("x", "dbg", locator))) {
            ConfirmStep::ResolveDebugConfig(run) => run,
            other => panic!("expected a request for the configuration: {:?}", other),
        };
        assert_eq!(run.task, debug("x", "dbg", locator));
        let expected = match locator {
            None => WorkspaceAction::StartDebugSession,
            Some(_) => WorkspaceAction::Schedule(TaskRun {
                source_kind: TaskSourceKind::UserInput,
                task: debug("x", "dbg", locator),
                omit_history_entry: false,
            }),
        };
        assert_eq!(
            TasksModalDelegate::confirm_input_debug_config(run, true),
            ConfirmStep::Finish(expected)
        );
    }
    let run = TaskRun {
        source_kind: TaskSourceKind::UserInput,
        task: debug("x", "dbg", Some("cargo")),
        omit_history_entry: false,
    };
    assert_eq!(
        TasksModalDelegate::confirm_input_debug_config(run, false),
        ConfirmStep::Finish(WorkspaceAction::Nothing)
    );
}

#[test]
fn deleting_names_the_task_to_forget() {
    let mut modal = three_used_two_current();
    assert_eq!(modal.delete_clicked(1), Some("u1".to_string()));
    assert_eq!(candidate_ids(&modal), vec!["u0", "u2", "c0", "c1"]);
    assert_eq!(modal.delete_clicked(4), None);
    assert_eq!(candidate_ids(&modal), vec!["u0", "u2", "c0", "c1"]);
    let mut empty = TasksModalDelegate::new(None, TaskModal::ScriptModal);
    assert_eq!(empty.delete_clicked(0), None);
    assert!(empty.candidates().is_none());
}

#[test]
fn delete_button_moves_the_end_of_the_history() {
    let mut modal = three_used_two_current();
    assert_eq!(modal.delete_clicked(0), Some("u0".to_string()));
    modal.matches_found(
        "".to_string(),
        vec![hit(3, "current 1"), hit(1, "used 2"), hit(2, "current 0")],
    );
    assert_eq!(ids(&modal), vec![1, 3, 2]);
    assert_eq!(modal.separators_after_indices(), vec![0]);
    assert_eq!(modal.delete_clicked(1), Some("u2".to_string()));
    assert_eq!(modal.delete_clicked(0), Some("u1".to_string()));
    assert_eq!(candidate_ids(&modal), vec!["c0", "c1"]);
    modal.matches_found("".to_string(), vec![hit(1, "b"), hit(0, "a")]);
    assert_eq!(ids(&modal), vec![1, 0]);
    assert_eq!(modal.separators_after_indices(), Vec::<usize>::new());
}

#[test]
fn deleting_is_like_reading_the_inventory_without_the_task() {
    let mut deleted = three_used_two_current();
    deleted.delete_clicked(1);
    let mut read = loaded(
        None,
        TaskModal::ScriptModal,
        vec![
            script("u0", "used 0", "run 0"),
            script("u2", "used 2", "run 2"),
        ],
        vec![
            script("c0", "current 0", "run 3"),
            script("c1", "current 1", "run 4"),
        ],
    );
    assert_eq!(deleted.candidates(), read.candidates());
    for modal in [&mut deleted, &mut read] {
        modal.matches_found("".to_string(), vec![hit(2, "c"), hit(1, "b"), hit(0, "a")]);
        assert_eq!(ids(modal), vec![1, 0, 2]);
        assert_eq!(modal.separators_after_indices(), vec![1]);
    }
}
