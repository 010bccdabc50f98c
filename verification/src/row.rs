//! What a row of the list shows.

use vstd::prelude::*;
use vstd::string::*;

use crate::modal::TasksModalDelegate;
use crate::state::ModalState;
use crate::task::{ResolvedTask, SourceKind, Task, TaskSourceKind};
use crate::text::{is_blank, push_decimal, tag_label};

verus! {

/// The largest number of characters of a tag that a row shows.
pub const MAX_TAG_LEN: usize = 10;

/// The icon in front of a row.
#[derive(Debug, PartialEq, Eq)]
pub enum RowIcon {
    /// A terminal.
    Terminal,
    /// Settings.
    Settings,
    /// A file tree.
    FileTree,
    /// The icon of the file type of this name, where it has one.
    FileType(String),
}

/// The model of [`RowIcon`].
pub enum Icon {
    /// A terminal.
    Terminal,
    /// Settings.
    Settings,
    /// A file tree.
    FileTree,
    /// The icon of the file type of this name.
    FileType(Seq<char>),
}

impl View for RowIcon {
    type V = Icon;

    open spec fn view(&self) -> Icon {
        match *self {
            RowIcon::Terminal => Icon::Terminal,
            RowIcon::Settings => Icon::Settings,
            RowIcon::FileTree => Icon::FileTree,
            RowIcon::FileType(name) => Icon::FileType(name@),
        }
    }
}

/// The icon for a source of tasks, given the lower-case name of a language.
pub open spec fn icon_of(source_kind: SourceKind, lowercase_name: Seq<char>) -> Icon {
    match source_kind {
        SourceKind::UserInput => Icon::Terminal,
        SourceKind::AbsPath => Icon::Settings,
        SourceKind::Worktree => Icon::FileTree,
        SourceKind::Language(_) => Icon::FileType(lowercase_name),
    }
}

/// The icon of the tasks of a source.
pub open spec fn source_icon(source_kind: SourceKind) -> Icon {
    icon_of(
        source_kind,
        match source_kind {
            SourceKind::Language(name) => crate::text::lowercase(name),
            _ => Seq::empty(),
        },
    )
}

/// Whether an icon is the one of the plain lower-case name, where the tasks
/// are those of a language with a name in ASCII.
pub open spec fn names_ascii_language(source_kind: SourceKind, icon: Icon) -> bool {
    source_kind matches SourceKind::Language(name) ==> vstd::utf8::is_ascii_chars(name) ==> icon
        == Icon::FileType(crate::text::ascii_lowercase(name))
}

/// The label of a row in full, where it differs from the one shown, and below
/// it the command, where that is no label of the task.
pub open spec fn tooltip_text(task: Task) -> Seq<char> {
    let label = if task.display_label != task.template_label {
        task.resolved_label
    } else {
        Seq::empty()
    };
    match task.resolved {
        Some(resolved) => if resolved.command_label != task.display_label
            && resolved.command_label != task.resolved_label {
            if crate::text::blank(label) {
                label + resolved.command_label
            } else {
                label.push('\n') + resolved.command_label
            }
        } else {
            label
        },
        None => label,
    }
}

/// The tooltip of a row, unless it would be blank.
pub open spec fn tooltip(task: Task) -> Option<Seq<char>> {
    if crate::text::blank(tooltip_text(task)) {
        None
    } else {
        Some(tooltip_text(task))
    }
}

/// The name of the element of a row.
pub open spec fn row_id(row: nat) -> Seq<char> {
    "tasks-modal-"@ + crate::text::decimal(row)
}

/// The text of a row with the characters that matched the query.
#[derive(Debug, PartialEq, Eq)]
pub struct HighlightedMatch {
    /// The text.
    pub text: String,
    /// The positions that matched.
    pub highlight_positions: Vec<usize>,
    /// The number of characters of the text.
    pub char_count: usize,
}

/// What a row shows.
#[derive(Debug, PartialEq, Eq)]
pub struct MatchRow {
    /// The name of its element.
    pub id: String,
    /// The icon in front.
    pub icon: RowIcon,
    /// The label, with what matched.
    pub label: HighlightedMatch,
    /// Whether the row is marked as one of the tasks used before.
    pub in_history: bool,
    /// The tags, to be shown shortened to [`MAX_TAG_LEN`] characters.
    pub tags: Vec<String>,
    /// What hovering over the label shows.
    pub tooltip: Option<String>,
    /// The index of the candidate that the delete button deletes, which
    /// hovering brings up where there is one.
    pub delete_candidate: Option<usize>,
    /// The labels that hovering shows beside the delete button.
    pub hover_labels: Vec<String>,
    /// Whether the row is the selected one.
    pub selected: bool,
}

/// The model of [`MatchRow`].
pub struct Row {
    /// The name of its element.
    pub id: Seq<char>,
    /// The icon in front.
    pub icon: Icon,
    /// The label.
    pub text: Seq<char>,
    /// The positions of the label that matched the query.
    pub highlight_positions: Seq<usize>,
    /// The number of characters of the label.
    pub char_count: nat,
    /// Whether the row is marked as one of the tasks used before.
    pub in_history: bool,
    /// The tags.
    pub tags: Seq<Seq<char>>,
    /// What hovering over the label shows.
    pub tooltip: Option<Seq<char>>,
    /// The index of the candidate that the delete button deletes.
    pub delete_candidate: Option<nat>,
    /// The labels that hovering shows beside the delete button.
    pub hover_labels: Seq<Seq<char>>,
    /// Whether the row is the selected one.
    pub selected: bool,
}

impl View for MatchRow {
    type V = Row;

    open spec fn view(&self) -> Row {
        Row {
            id: self.id@,
            icon: self.icon@,
            text: self.label.text@,
            highlight_positions: self.label.highlight_positions@,
            char_count: self.label.char_count as nat,
            in_history: self.in_history,
            tags: self.tags.deep_view(),
            tooltip: self.tooltip.deep_view(),
            delete_candidate: crate::modal::optional_index(self.delete_candidate),
            hover_labels: self.hover_labels.deep_view(),
            selected: self.selected,
        }
    }
}

impl DeepView for MatchRow {
    type V = Row;

    open spec fn deep_view(&self) -> Row {
        self@
    }
}

/// The labels of tags.
pub open spec fn labels(tags: Seq<Seq<char>>) -> Seq<Seq<char>> {
    tags.map_values(|tag: Seq<char>| crate::text::tag_label_text(tag))
}

impl ModalState {
    /// Whether a row can be deleted: it was typed in or used before.
    pub open spec fn deletable(self, ix: nat, source_kind: SourceKind) -> bool {
        source_kind == SourceKind::UserInput || self.row_in_history(ix)
    }

    /// The row at an index, where its candidate is still there.
    pub open spec fn row(self, ix: nat, selected: bool) -> Option<Row> {
        let hit = self.matches[ix as int];
        match self.candidates {
            Some(all) => if hit.candidate_id < all.len() {
                let (source_kind, task) = all[hit.candidate_id as int];
                let deletable = self.deletable(ix, source_kind);
                Some(
                    Row {
                        id: row_id(ix),
                        icon: source_icon(source_kind),
                        text: hit.string,
                        highlight_positions: hit.positions,
                        char_count: hit.string.len(),
                        in_history: self.row_in_history(ix),
                        tags: task.tags,
                        tooltip: tooltip(task),
                        delete_candidate: if deletable {
                            Some(hit.candidate_id)
                        } else {
                            None
                        },
                        hover_labels: if deletable {
                            labels(task.tags)
                        } else {
                            Seq::empty()
                        },
                        selected,
                    },
                )
            } else {
                None
            },
            None => None,
        }
    }
}

/// The labels of tags, each behind a `#`.
pub fn tag_labels(tags: &Vec<String>) -> (res: Vec<String>)
    ensures
        res.deep_view() == labels(tags.deep_view()),
{
    let mut res: Vec<String> = Vec::new();
    let mut i: usize = 0;
    while i < tags.len()
        invariant
            i <= tags.len(),
            res.len() == i,
            forall|j: int|
                0 <= j < i ==> (#[trigger] res[j])@ == crate::text::tag_label_text(tags[j]@),
        decreases tags.len() - i,
    {
        res.push(tag_label(tags[i].as_str()));
        i = i + 1;
    }
    assert(res.deep_view() =~= labels(tags.deep_view()));
    res
}

/// The icon for a source of tasks, given the lower-case name of a language.
pub fn icon_for(source_kind: &TaskSourceKind, lowercase_name: String) -> (icon: RowIcon)
    ensures
        icon@ == icon_of(source_kind@, lowercase_name@),
{
    match source_kind {
        TaskSourceKind::UserInput => RowIcon::Terminal,
        TaskSourceKind::AbsPath => RowIcon::Settings,
        TaskSourceKind::Worktree => RowIcon::FileTree,
        TaskSourceKind::Language { .. } => RowIcon::FileType(lowercase_name),
    }
}

/// The icon for a source of tasks.
pub fn icon_for_source(source_kind: &TaskSourceKind) -> (icon: RowIcon)
    ensures
        icon@ == source_icon(source_kind@),
        names_ascii_language(source_kind@, icon@),
{
    let lowercase_name = match source_kind {
        TaskSourceKind::Language { name } => name.as_str().to_lowercase(),
        _ => String::new(),
    };
    icon_for(source_kind, lowercase_name)
}

/// The tooltip of the row of a task.
pub fn tooltip_for(task: &ResolvedTask) -> (res: Option<String>)
    ensures
        res.deep_view() == tooltip(task@),
{
    let mut text = if task.display_label != task.template_label {
        task.resolved_label.clone()
    } else {
        String::new()
    };
    if let Some(resolved) = &task.resolved {
        if resolved.command_label != task.display_label && resolved.command_label
            != task.resolved_label {
            let ghost label = text@;
            if !is_blank(text.as_str()) {
                proof {
                    reveal_strlit("\n");
                }
                text.append("\n");
                assert(text@ =~= label.push('\n'));
            }
            text.append(resolved.command_label.as_str());
        }
    }
    if is_blank(text.as_str()) {
        None
    } else {
        Some(text)
    }
}

impl TasksModalDelegate {
    /// What the row at an index shows.
    pub fn render_match(&self, ix: usize, selected: bool) -> (row: Option<MatchRow>)
        requires
            self@.candidates is Some ==> ix < self@.matches.len(),
        ensures
            row.deep_view() == self@.row(ix as nat, selected),
            row matches Some(row) ==> names_ascii_language(
                self@.candidates->0[self@.matches[ix as int].candidate_id as int].0,
                row.icon@,
            ),
    {
        let candidates = match self.candidates() {
            Some(candidates) => candidates,
            None => return None,
        };
        let hit = &self.matches()[ix];
        if hit.candidate_id >= candidates.len() {
            return None;
        }
        let source_kind = &candidates[hit.candidate_id].0;
        let task = &candidates[hit.candidate_id].1;
        let mut id = "tasks-modal-".to_owned();
        push_decimal(&mut id, ix);
        let in_history = self.is_row_in_history(ix);
        let typed_in = match source_kind {
            TaskSourceKind::UserInput => true,
            _ => false,
        };
        let label = HighlightedMatch {
            text: hit.string.clone(),
            highlight_positions: hit.positions.clone(),
            char_count: hit.string.as_str().unicode_len(),
        };
        let (delete_candidate, hover_labels) = if typed_in || in_history {
            (Some(hit.candidate_id), tag_labels(&task.tags))
        } else {
            (None, Vec::new())
        };
        let row = MatchRow {
            id,
            icon: icon_for_source(source_kind),
            label,
            in_history,
            tags: crate::task::clone_texts(&task.tags),
            tooltip: tooltip_for(task),
            delete_candidate,
            hover_labels,
            selected,
        };
        proof {
            assert(hit@ == self@.matches[ix as int]);
            let pair = self@.candidates->0[hit.candidate_id as int];
            assert(pair == (source_kind@, task@));
            assert(row.label.highlight_positions@ =~= hit.positions@);
            if !(typed_in || in_history) {
                assert(row.hover_labels.deep_view() =~= Seq::empty());
            }
        }
        Some(row)
    }
}

} // verus!
