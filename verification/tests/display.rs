//! What rows and the footer show, and the text helpers behind them.

use tasks_ui::footer::{Footer, FooterAction, FooterButton, InventorySummary, Modifiers};
use tasks_ui::matching::StringMatch;
use tasks_ui::modal::{InventoryTasks, TasksModalDelegate};
use tasks_ui::row::{icon_for, icon_for_source, tag_labels, tooltip_for, RowIcon, MAX_TAG_LEN};
use tasks_ui::task::{
    ResolvedTask, RevealTarget, SpawnInTerminal, TaskModal, TaskSourceKind, TaskType,
};
use tasks_ui::text::{is_blank, push_decimal, tag_label};

fn task(template: &str, resolved: &str, display: &str, command: Option<&str>) -> ResolvedTask {
    ResolvedTask {
        handle: 0,
        id: "id".to_string(),
        template_label: template.to_string(),
        tags: vec!["rust-test".to_string(), "a longer tag".to_string()],
        resolved_label: resolved.to_string(),
        display_label: display.to_string(),
        task_type: TaskType::Script,
        resolved: command.map(|command| SpawnInTerminal {
            command_label: command.to_string(),
            reveal_target: RevealTarget::Dock,
        }),
    }
}

fn hit(candidate_id: usize, string: &str) -> StringMatch {
    StringMatch {
        candidate_id,
        positions: vec![1, 3],
        string: string.to_string(),
    }
}

fn modal() -> TasksModalDelegate {
    let mut modal = TasksModalDelegate::new(None, TaskModal::ScriptModal);
    modal.inventory_read(
        String::new(),
        Some(InventoryTasks {
            used: vec![(
                TaskSourceKind::Language {
                    name: "TypeScript".to_string(),
                },
                task("l", "l", "l", Some("run l")),
            )],
            current: vec![
                (TaskSourceKind::AbsPath, task("m", "m", "m", Some("m"))),
                (TaskSourceKind::UserInput, task("n", "n", "n", None)),
            ],
        }),
    );
    modal.matches_found(
        "q".to_string(),
        vec![hit(1, "m"), hit(0, "l\u{e9}gende"), hit(2, "n"), hit(8, "gone")],
    );
    modal
}

#[test]
fn row_of_a_used_task() {
    let row = modal().render_match(0, true).unwrap();
    assert_eq!(row.id, "tasks-modal-0");
    assert_eq!(row.icon, RowIcon::FileType("typescript".to_string()));
    assert_eq!(row.label.text, "l\u{e9}gende");
    assert_eq!(row.label.highlight_positions, vec![1, 3]);
    assert_eq!(row.label.char_count, 7);
    assert!(row.in_history);
    assert_eq!(row.tags, vec!["rust-test", "a longer tag"]);
    assert_eq!(row.hover_labels, vec!["#rust-test", "#a longer tag"]);
    assert_eq!(row.tooltip, Some("run l".to_string()));
    assert_eq!(row.delete_candidate, Some(0));
    assert!(row.selected);
}

#[test]
fn row_of_an_unused_task() {
    let row = modal().render_match(1, false).unwrap();
    assert_eq!(row.id, "tasks-modal-1");
    assert_eq!(row.icon, RowIcon::Settings);
    assert!(!row.in_history);
    assert_eq!(row.tooltip, None);
    assert_eq!(row.delete_candidate, None);
    assert_eq!(row.hover_labels, Vec::<String>::new());
    assert!(!row.selected);
}

#[test]
fn row_of_a_typed_task_can_be_deleted() {
    let row = modal().render_match(2, false).unwrap();
    assert_eq!(row.icon, RowIcon::Terminal);
    assert!(!row.in_history);
    assert_eq!(row.delete_candidate, Some(2));
}

#[test]
fn no_row_without_a_candidate() {
    assert_eq!(modal().render_match(3, false), None);
    let empty = TasksModalDelegate::new(None, TaskModal::ScriptModal);
    assert_eq!(empty.render_match(0, false), None);
}

#[test]
fn row_delete_button_deletes_the_task_of_the_row() {
    let mut modal = modal();
    let row = modal.render_match(0, true).unwrap();
    assert_eq!(
        modal.delete_clicked(row.delete_candidate.unwrap()),
        Some("id".to_string())
    );
    assert_eq!(modal.candidates().as_ref().unwrap().len(), 2);
}

#[test]
fn icons_follow_the_source() {
    assert_eq!(
        icon_for_source(&TaskSourceKind::Worktree),
        RowIcon::FileTree
    );
    let language = TaskSourceKind::Language {
        name: "C++ \u{c4}\u{3a3}".to_string(),
    };
    assert_eq!(
        icon_for_source(&language),
        RowIcon::FileType("c++ \u{e4}\u{3c2}".to_string())
    );
    assert_eq!(
        icon_for(&language, "x".to_string()),
        RowIcon::FileType("x".to_string())
    );
    assert_eq!(
        icon_for(&TaskSourceKind::UserInput, "x".to_string()),
        RowIcon::Terminal
    );
}

#[test]
fn tooltip_shows_what_the_label_leaves_out() {
    let text = |task: ResolvedTask| tooltip_for(&task);
    assert_eq!(text(task("a", "a", "a", None)), None);
    assert_eq!(text(task("a", "a", "a", Some("a"))), None);
    assert_eq!(
        text(task("a", "a", "a", Some("run"))),
        Some("run".to_string())
    );
    assert_eq!(
        text(task("a $X", "a long", "a l\u{2026}", None)),
        Some("a long".to_string())
    );
    assert_eq!(
        text(task("a $X", "a long", "a l\u{2026}", Some("run"))),
        Some("a long\nrun".to_string())
    );
    assert_eq!(
        text(task("a $X", "a long", "a l\u{2026}", Some("a long"))),
        Some("a long".to_string())
    );
    assert_eq!(text(task("a $X", "  ", "x", None)), None);
    assert_eq!(text(task("a $X", "  ", "x", Some("run"))), Some("  run".to_string()));
    assert_eq!(text(task("a", "a", "a", Some(" \u{2003}"))), None);
}

#[test]
fn tags_are_labelled() {
    assert_eq!(tag_label(""), "#");
    assert_eq!(tag_label("x y"), "#x y");
    assert_eq!(
        tag_labels(&vec!["a".to_string(), "b".to_string()]),
        vec!["#a", "#b"]
    );
    assert_eq!(MAX_TAG_LEN, 10);
}

#[test]
fn decimals_are_those_of_the_standard_library() {
    for n in [0, 7, 9, 10, 11, 99, 100, 909, 12345, usize::MAX] {
        let mut text = "n=".to_string();
        push_decimal(&mut text, n);
        assert_eq!(text, format!("n={}", n));
    }
}

#[test]
fn white_space_is_that_of_unicode() {
    let spaces = [
        '\u{9}', '\u{a}', '\u{b}', '\u{c}', '\u{d}', '\u{20}', '\u{85}', '\u{a0}', '\u{1680}',
        '\u{2000}', '\u{2001}', '\u{2002}', '\u{2003}', '\u{2004}', '\u{2005}', '\u{2006}',
        '\u{2007}', '\u{2008}', '\u{2009}', '\u{200a}', '\u{2028}', '\u{2029}', '\u{202f}',
        '\u{205f}', '\u{3000}',
    ];
    let mut found = Vec::new();
    for c in '\0'..=char::MAX {
        if is_blank(&c.to_string()) {
            found.push(c);
        }
    }
    assert_eq!(found, spaces.to_vec());
    assert!(is_blank(""));
    assert!(is_blank(&spaces.iter().collect::<String>()));
    assert!(!is_blank(" x "));
    assert!(!is_blank("x "));
    assert!(!is_blank(" x"));
}

fn footer_of(modal: &TasksModalDelegate, alt: bool, secondary: bool) -> Footer {
    modal
        .render_footer(
            Some(InventorySummary {
                has_scheduled_task: false,
            }),
            Modifiers { alt, secondary },
        )
        .unwrap()
}

#[test]
fn footer_needs_an_inventory() {
    let modifiers = Modifiers {
        alt: false,
        secondary: false,
    };
    assert_eq!(modal().render_footer(None, modifiers), None);
}

#[test]
fn footer_offers_to_rerun_the_last_task() {
    let modifiers = Modifiers {
        alt: false,
        secondary: false,
    };
    let footer = modal()
        .render_footer(
            Some(InventorySummary {
                has_scheduled_task: true,
            }),
            modifiers,
        )
        .unwrap();
    assert_eq!(
        footer.left,
        Some(FooterButton {
            id: "edit-current-task",
            label: "Rerun Last Task",
            action: FooterAction::Rerun,
            needs_key_binding: false,
        })
    );
    assert!(footer.left.unwrap().is_shown(false));
    assert!(footer.left.unwrap().is_shown(true));
    assert_eq!(footer_of(&modal(), false, false).left, None);
}

#[test]
fn footer_follows_the_selected_row() {
    let mut modal = modal();
    let right = footer_of(&modal, false, false).right;
    assert_eq!(right.id, "spawn");
    assert_eq!(right.label, "Rerun");
    assert_eq!(right.action, FooterAction::Confirm);
    assert!(!right.is_shown(false));
    assert!(right.is_shown(true));
    let right = footer_of(&modal, false, true).right;
    assert_eq!(right.label, "Rerun Without History");
    assert_eq!(right.action, FooterAction::SecondaryConfirm);
    modal.set_selected_index(1);
    assert_eq!(footer_of(&modal, false, false).right.label, "Spawn");
    assert_eq!(
        footer_of(&modal, false, true).right.label,
        "Spawn Without History"
    );
}

#[test]
fn footer_offers_the_query_as_a_command() {
    let mut modal = modal();
    let right = footer_of(&modal, true, false).right;
    assert_eq!(right.id, "spawn-onehshot");
    assert_eq!(right.label, "Spawn Oneshot");
    assert_eq!(right.action, FooterAction::ConfirmInput { secondary: false });
    let right = footer_of(&modal, true, true).right;
    assert_eq!(right.label, "Spawn Oneshot Without History");
    assert_eq!(right.action, FooterAction::ConfirmInput { secondary: true });
    modal.matches_found("zzz".to_string(), vec![]);
    assert_eq!(footer_of(&modal, false, false).right.label, "Spawn Oneshot");
    modal.matches_found("".to_string(), vec![]);
    assert_eq!(footer_of(&modal, true, false).right.label, "Spawn");
}
