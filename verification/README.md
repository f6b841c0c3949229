# ankitui_tui

The terminal interface of a spaced-repetition flashcard program, written in
Verus: the state of the interface, the commands that change it, the screen
components and how keys move them, the settings and configuration, the
caches and metrics, each with a contract that Verus proves.

## Layout

- `src/` — the verified library.
  - `store.rs`, `app_commands.rs`, `controller.rs`, `outcomes.rs`,
    `tag_deletion.rs`: the application store and the commands that change
    it, with the core work they leave named as requests and the core's
    answers taken back by `finish_*` functions.
  - `dispatch.rs`, `input.rs`, `command.rs`: keys, mouse and paste events
    turned into commands, depending on the screen shown.
  - `screens_components.rs`, `card_component.rs`, `deck_selector.rs`,
    `settings.rs`, `help.rs`, `components.rs`: the screen components.
  - `facade.rs`, `registry.rs`, `dispatcher.rs`, `tui_app.rs`: the
    component layer that owns the components, routes actions to the one of
    the screen shown, and logs events on `events.rs`'s bus.
  - `state_manager.rs`, `ui_state.rs`, `domain_state.rs`, `screens.rs`:
    screen state machines and their histories.
  - `config_manager.rs`, `app_config.rs`: configuration values and edits.
  - `performance.rs`: metrics and the render cache.
  - `loading.rs`: the loader's record of background loading operations,
    and the load times of the completed ones.
  - `error_management.rs`, `app_status.rs`, `viewmodels.rs`, `requests.rs`,
    `model.rs`: error handling, application status and plain data.
  - `text.rs`, `ui_map.rs`, `clock.rs`, `ids.rs`: text helpers, a small
    string map, and the wrappers around the clock and identifiers.
- `tests/` — tests of the library on concrete values.
- `app/` — the program around the library: terminal set-up, the event
  loop, drawing with ratatui, configuration and data files, and the
  learning core the program is given.

## Maps kept as lists

Where a map is keyed by text — the interface values of the store, the
load times of each operation, the registered components, the error
records — the library keeps it as a `Vec` of pairs in which no key occurs
twice, with that as an invariant, and states its contracts over the map the
pairs stand for (`UiMap` and its view, for instance). Verus's specification
of `std::collections::HashMap` proves little about `String` keys, and the
order in which a hash map is walked cannot be named in a contract; a list
of pairs gives both an exact view and a fixed order. The deck statistics of
the render cache are kept the same way, by deck id. An integer key would
let a `HashMap` be specified there, but a full cache drops the entry
updated longest ago, and among entries updated at the same moment the one
that leaves would depend on the order in which the hash map is walked,
which no contract can name; in a list it is the first of them, and the
contract says so. The
loader's operations are kept as a list by id too, so that clearing away the
completed ones can be stated with the order of those that stay.
