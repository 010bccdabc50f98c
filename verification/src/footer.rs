//! What the footer of the modal shows.

use vstd::prelude::*;

use crate::modal::TasksModalDelegate;
use crate::state::ModalState;

verus! {

/// The modifier keys that are held down.
#[derive(Clone, Copy, Debug, PartialEq, Eq)]
pub struct Modifiers {
    /// The alternative key.
    pub alt: bool,
    /// The secondary modifier of the platform.
    pub secondary: bool,
}

/// What the footer reads of the inventory.
#[derive(Clone, Copy, Debug, PartialEq, Eq)]
pub struct InventorySummary {
    /// Whether some task was scheduled before.
    pub has_scheduled_task: bool,
}

/// What a button of the footer dispatches.
#[derive(Clone, Copy, Debug, PartialEq, Eq)]
pub enum FooterAction {
    /// To run the last task again.
    Rerun,
    /// To run the query as a command.
    ConfirmInput {
        /// Whether it stays out of the history.
        secondary: bool,
    },
    /// To run the selected task, out of the history.
    SecondaryConfirm,
    /// To run the selected task.
    Confirm,
}

/// A button of the footer.
#[derive(Clone, Copy, Debug, PartialEq, Eq)]
pub struct FooterButton {
    /// The name of its element.
    pub id: &'static str,
    /// Its label.
    pub label: &'static str,
    /// What it dispatches.
    pub action: FooterAction,
    /// Whether it is shown only where its action has a key binding.
    pub needs_key_binding: bool,
}

/// The model of [`FooterButton`].
pub struct ButtonModel {
    /// The name of its element.
    pub id: Seq<char>,
    /// Its label.
    pub label: Seq<char>,
    /// What it dispatches.
    pub action: FooterAction,
    /// Whether it is shown only where its action has a key binding.
    pub needs_key_binding: bool,
}

impl View for FooterButton {
    type V = ButtonModel;

    open spec fn view(&self) -> ButtonModel {
        ButtonModel {
            id: self.id@,
            label: self.label@,
            action: self.action,
            needs_key_binding: self.needs_key_binding,
        }
    }
}

impl DeepView for FooterButton {
    type V = ButtonModel;

    open spec fn deep_view(&self) -> ButtonModel {
        self@
    }
}

impl FooterButton {
    /// Whether the button is shown, given whether its action has a key binding.
    pub fn is_shown(&self, has_key_binding: bool) -> (b: bool)
        ensures
            b == (self@.needs_key_binding ==> has_key_binding),
    {
        has_key_binding || !self.needs_key_binding
    }
}

/// The footer.
#[derive(Clone, Copy, Debug, PartialEq, Eq)]
pub struct Footer {
    /// The button on the left, where there is one.
    pub left: Option<FooterButton>,
    /// The button on the right.
    pub right: FooterButton,
}

/// The model of [`Footer`].
pub struct FooterModel {
    /// The button on the left, where there is one.
    pub left: Option<ButtonModel>,
    /// The button on the right.
    pub right: ButtonModel,
}

impl DeepView for Footer {
    type V = FooterModel;

    open spec fn deep_view(&self) -> FooterModel {
        FooterModel { left: self.left.deep_view(), right: self.right@ }
    }
}

impl ModalState {
    /// Whether the button on the right runs the query itself, not a row.
    pub open spec fn footer_offers_oneshot(self, modifiers: Modifiers) -> bool {
        (modifiers.alt || self.matches.len() == 0) && self.prompt.len() > 0
    }

    /// What the button on the right dispatches.
    pub open spec fn footer_action(self, modifiers: Modifiers) -> FooterAction {
        if self.footer_offers_oneshot(modifiers) {
            FooterAction::ConfirmInput { secondary: modifiers.secondary }
        } else if modifiers.secondary {
            FooterAction::SecondaryConfirm
        } else {
            FooterAction::Confirm
        }
    }

    /// The label of the button on the right.
    pub open spec fn footer_label(self, modifiers: Modifiers) -> Seq<char> {
        let recent = self.row_in_history(self.selected);
        match self.footer_action(modifiers) {
            FooterAction::ConfirmInput { secondary } => if secondary {
                "Spawn Oneshot Without History"@
            } else {
                "Spawn Oneshot"@
            },
            FooterAction::SecondaryConfirm => if recent {
                "Rerun Without History"@
            } else {
                "Spawn Without History"@
            },
            _ => if recent {
                "Rerun"@
            } else {
                "Spawn"@
            },
        }
    }

    /// The footer; there is none without an inventory.
    pub open spec fn footer(
        self,
        inventory: Option<InventorySummary>,
        modifiers: Modifiers,
    ) -> Option<FooterModel> {
        match inventory {
            Some(inventory) => Some(
                FooterModel {
                    left: if inventory.has_scheduled_task {
                        Some(
                            ButtonModel {
                                id: "edit-current-task"@,
                                label: "Rerun Last Task"@,
                                action: FooterAction::Rerun,
                                needs_key_binding: false,
                            },
                        )
                    } else {
                        None
                    },
                    right: ButtonModel {
                        id: if self.footer_offers_oneshot(modifiers) {
                            "spawn-onehshot"@
                        } else {
                            "spawn"@
                        },
                        label: self.footer_label(modifiers),
                        action: self.footer_action(modifiers),
                        needs_key_binding: true,
                    },
                },
            ),
            None => None,
        }
    }
}

impl TasksModalDelegate {
    /// What the footer shows.
    pub fn render_footer(
        &self,
        inventory: Option<InventorySummary>,
        modifiers: Modifiers,
    ) -> (footer: Option<Footer>)
        ensures
            footer.deep_view() == self@.footer(inventory, modifiers),
    {
        let is_recent_selected = self.is_row_in_history(self.selected_index());
        let left = match inventory {
            None => return None,
            Some(inventory) => if inventory.has_scheduled_task {
                Some(
                    FooterButton {
                        id: "edit-current-task",
                        label: "Rerun Last Task",
                        action: FooterAction::Rerun,
                        needs_key_binding: false,
                    },
                )
            } else {
                None
            },
        };
        let right = if (modifiers.alt || self.match_count() == 0) && !self.prompt().is_empty() {
            FooterButton {
                id: "spawn-onehshot",
                label: if modifiers.secondary {
                    "Spawn Oneshot Without History"
                } else {
                    "Spawn Oneshot"
                },
                action: FooterAction::ConfirmInput { secondary: modifiers.secondary },
                needs_key_binding: true,
            }
        } else if modifiers.secondary {
            FooterButton {
                id: "spawn",
                label: if is_recent_selected {
                    "Rerun Without History"
                } else {
                    "Spawn Without History"
                },
                action: FooterAction::SecondaryConfirm,
                needs_key_binding: true,
            }
        } else {
            FooterButton {
                id: "spawn",
                label: if is_recent_selected {
                    "Rerun"
                } else {
                    "Spawn"
                },
                action: FooterAction::Confirm,
                needs_key_binding: true,
            }
        };
        Some(Footer { left, right })
    }
}

} // verus!
