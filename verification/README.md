# tasks_ui

The decisions behind the modal that spawns tasks: what it lists and in which
order, what its rows and its footer show, and what confirming, completing or
deleting an entry does. It is verified with Verus; what it takes on trust is
what `src/text.rs` says of `str::trim` and `str::to_lowercase`.

- `src/task.rs` tasks as the modal sees them
- `src/matching.rs` what the fuzzy matcher is offered, and the order of its matches
- `src/state.rs` the model of the modal, and what each operation makes of it
- `src/modal.rs` the modal
- `src/row.rs`, `src/footer.rs` what a row and the footer show
- `src/text.rs` white space, numerals and labels
- `src/laws.rs` what holds of the modal as a whole
- `app/` the picker on screen, with what only the editor can do

An operation that needs something of the editor half-way is split there: it
returns what it needs, and another operation takes the answer.

1. `update_matches` asks for the tasks of the inventory or for fuzzy matches;
   `inventory_read` takes the former and asks for the latter;
   `matches_found` takes the latter.
2. `confirm` and `confirm_input` may ask for the debug configuration of a task;
   `confirm_debug_config` and `confirm_input_debug_config` take it.
   `confirm_input` takes what the template of `oneshot_template` resolves to.
