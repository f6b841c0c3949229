//! The deck selection and management component: the deck list, the
//! management actions, and the fields edited to create, rename, import or
//! export a deck.
use vstd::prelude::*;
use vstd::string::*;
use crate::ids::{id_to_text, uuid_text};
use crate::input::Action;
use crate::model::{CardSummary, DeckSummary};
use crate::screens::AppState;
use crate::text::{
    contains_text, lemma_text_lt_irreflexive, lemma_text_lt_total, lemma_text_lt_transitive, lowercase,
    str_contains, string_pop, string_push, text_less, text_lt, to_lowercase,
};

verus! {

/// What the deck component is doing.
#[derive(Debug, Clone, Copy, PartialEq, Eq, Structural)]
pub enum DeckSelectionMode {
    Browse,
    Select,
    Manage,
    ManageCards,
    Edit,
    Create,
    Delete,
    Import,
    Export,
    Statistics,
}

/// How the deck list is ordered.
#[derive(Debug, Clone, Copy, PartialEq, Eq, Structural)]
pub enum DeckSortOrder {
    Name,
    Created,
    Modified,
    CardCount,
}

/// The number of management actions offered for a deck.
pub const MANAGEMENT_ACTIONS: usize = 6;

/// The number of actions offered for a card.
pub const CARD_ACTIONS: usize = 6;

/// A deck as the component shows it: id, name, description, and the
/// creation and modification times by which it can be ordered.
pub type DeckRow = (u128, Seq<char>, Option<Seq<char>>, i64, i64);

pub open spec fn deck_summary_row(d: DeckSummary) -> DeckRow {
    (
        d.uuid,
        d.name@,
        match d.description {
            Some(s) => Some(s@),
            None => None,
        },
        d.created_at,
        d.modified_at,
    )
}

/// The rows of a list of decks.
pub open spec fn deck_rows(d: Seq<DeckSummary>) -> Seq<DeckRow> {
    d.map_values(|x: DeckSummary| deck_summary_row(x))
}

/// A card as the component shows it: its id, front, back and tags.
pub type CardRow = (u128, Seq<char>, Seq<char>, Seq<Seq<char>>);

/// The row of a card.
pub open spec fn card_row(x: CardSummary) -> CardRow {
    (x.id, x.front@, x.back@, x.tags@.map_values(|t: String| t@))
}

/// The rows of a list of cards.
pub open spec fn card_rows(c: Seq<CardSummary>) -> Seq<CardRow> {
    c.map_values(|x: CardSummary| card_row(x))
}

/// The component as a value.
#[verifier::ext_equal]
pub struct DeckSelectorView {
    pub decks: Seq<DeckRow>,
    pub selected_deck: nat,
    /// The highlighted row of the deck list as drawn.
    pub list_selected: Option<nat>,
    pub mode: DeckSelectionMode,
    pub search_query: Seq<char>,
    pub sort_order: DeckSortOrder,
    pub edit_field: Seq<char>,
    pub edit_position: nat,
    pub show_confirm_dialog: bool,
    pub confirm_message: Seq<char>,
    /// The cards of the selected deck.
    pub cards: Seq<CardRow>,
    pub selected_card: nat,
    pub card_list_selected: Option<nat>,
    pub selected_card_action: nat,
    pub selected_management_action: nat,
    /// 0: the deck list has the focus; 1: the actions panel.
    pub focus_area: nat,
}

/// The deck selection component.
pub struct DeckSelector {
    decks: Vec<DeckSummary>,
    selected_deck: usize,
    list_selected: Option<usize>,
    mode: DeckSelectionMode,
    search_query: String,
    sort_order: DeckSortOrder,
    edit_field: String,
    edit_position: usize,
    show_confirm_dialog: bool,
    confirm_message: String,
    cards: Vec<CardSummary>,
    selected_card: usize,
    card_list_selected: Option<usize>,
    selected_card_action: usize,
    selected_management_action: usize,
    focus_area: usize,
}

pub open spec fn opt_nat(o: Option<usize>) -> Option<nat> {
    match o {
        Some(i) => Some(i as nat),
        None => None,
    }
}

impl View for DeckSelector {
    type V = DeckSelectorView;

    closed spec fn view(&self) -> DeckSelectorView {
        DeckSelectorView {
            decks: deck_rows(self.decks@),
            selected_deck: self.selected_deck as nat,
            list_selected: opt_nat(self.list_selected),
            mode: self.mode,
            search_query: self.search_query@,
            sort_order: self.sort_order,
            edit_field: self.edit_field@,
            edit_position: self.edit_position as nat,
            show_confirm_dialog: self.show_confirm_dialog,
            confirm_message: self.confirm_message@,
            cards: card_rows(self.cards@),
            selected_card: self.selected_card as nat,
            card_list_selected: opt_nat(self.card_list_selected),
            selected_card_action: self.selected_card_action as nat,
            selected_management_action: self.selected_management_action as nat,
            focus_area: self.focus_area as nat,
        }
    }
}

/// The bounds every state of the component keeps: selections inside their
/// lists (or 0 for an empty list), the focus on one of two areas, the edit
/// position on one of two fields, action selections among the actions.
pub open spec fn selector_ok(v: DeckSelectorView) -> bool {
    &&& (if v.decks.len() == 0 {
        v.selected_deck == 0
    } else {
        v.selected_deck < v.decks.len()
    })
    &&& (if v.cards.len() == 0 {
        v.selected_card == 0
    } else {
        v.selected_card < v.cards.len()
    })
    &&& v.edit_position < 2
    &&& v.focus_area < 2
    &&& v.selected_management_action < MANAGEMENT_ACTIONS
    &&& v.selected_card_action < CARD_ACTIONS
}

/// Whether a deck is selected.
pub open spec fn has_selection(v: DeckSelectorView) -> bool {
    v.selected_deck < v.decks.len()
}

/// The name of the selected deck.
pub open spec fn selected_name(v: DeckSelectorView) -> Seq<char> {
    v.decks[v.selected_deck as int].1
}

/// The id of the selected deck.
pub open spec fn selected_uuid(v: DeckSelectorView) -> u128 {
    v.decks[v.selected_deck as int].0
}

/// The question asked before deleting a deck.
pub open spec fn delete_question(name: Seq<char>) -> Seq<char> {
    "Delete deck '"@ + name + "'?"@
}

pub open spec fn move_up_spec(v: DeckSelectorView) -> DeckSelectorView {
    if v.selected_deck > 0 {
        DeckSelectorView {
            selected_deck: (v.selected_deck - 1) as nat,
            list_selected: Some((v.selected_deck - 1) as nat),
            ..v
        }
    } else {
        v
    }
}

pub open spec fn move_down_spec(v: DeckSelectorView) -> DeckSelectorView {
    if v.selected_deck + 1 < v.decks.len() {
        DeckSelectorView { selected_deck: v.selected_deck + 1, list_selected: Some(v.selected_deck + 1), ..v }
    } else {
        v
    }
}

pub open spec fn move_card_up_spec(v: DeckSelectorView) -> DeckSelectorView {
    if v.selected_card > 0 {
        DeckSelectorView {
            selected_card: (v.selected_card - 1) as nat,
            card_list_selected: Some((v.selected_card - 1) as nat),
            ..v
        }
    } else {
        v
    }
}

pub open spec fn move_card_down_spec(v: DeckSelectorView) -> DeckSelectorView {
    if v.selected_card + 1 < v.cards.len() {
        DeckSelectorView {
            selected_card: v.selected_card + 1,
            card_list_selected: Some(v.selected_card + 1),
            ..v
        }
    } else {
        v
    }
}

pub open spec fn card_action_up_spec(v: DeckSelectorView) -> DeckSelectorView {
    if v.selected_card_action > 0 {
        DeckSelectorView { selected_card_action: (v.selected_card_action - 1) as nat, ..v }
    } else {
        v
    }
}

pub open spec fn card_action_down_spec(v: DeckSelectorView) -> DeckSelectorView {
    if v.selected_card_action + 1 < CARD_ACTIONS {
        DeckSelectorView { selected_card_action: v.selected_card_action + 1, ..v }
    } else {
        v
    }
}

/// Enter the given mode with an empty field on the name.
pub open spec fn fresh_mode(v: DeckSelectorView, mode: DeckSelectionMode) -> DeckSelectorView {
    DeckSelectorView { mode, edit_field: Seq::empty(), edit_position: 0, ..v }
}

/// Running the highlighted management action on the selected deck.
pub open spec fn management_action_spec(v: DeckSelectorView) -> DeckSelectorView {
    let name = selected_name(v);
    let a = v.selected_management_action;
    if a == 0 {
        DeckSelectorView { mode: DeckSelectionMode::Edit, edit_field: name, edit_position: 0, ..v }
    } else if a == 1 {
        DeckSelectorView { show_confirm_dialog: true, confirm_message: delete_question(name), ..v }
    } else if a == 2 {
        DeckSelectorView { mode: DeckSelectionMode::Export, edit_field: name + ".toml"@, ..v }
    } else if a == 3 {
        DeckSelectorView { mode: DeckSelectionMode::Import, edit_field: Seq::empty(), ..v }
    } else if a == 4 {
        DeckSelectorView {
            mode: DeckSelectionMode::Statistics,
            edit_field: uuid_text(selected_uuid(v)),
            ..v
        }
    } else if a == 5 {
        DeckSelectorView {
            mode: DeckSelectionMode::ManageCards,
            selected_card: 0,
            selected_card_action: 0,
            focus_area: 0,
            card_list_selected: if v.cards.len() > 0 {
                Some(0)
            } else {
                None
            },
            ..v
        }
    } else {
        v
    }
}

/// Enter: answer the dialog, run the highlighted action, or finish the
/// current editing step.
pub open spec fn select_spec(v: DeckSelectorView) -> DeckSelectorView {
    if v.show_confirm_dialog {
        DeckSelectorView {
            mode: DeckSelectionMode::Manage,
            show_confirm_dialog: false,
            confirm_message: Seq::empty(),
            ..v
        }
    } else if !has_selection(v) {
        v
    } else {
        match v.mode {
            DeckSelectionMode::Manage => if v.focus_area == 0 {
                v
            } else {
                management_action_spec(v)
            },
            DeckSelectionMode::Edit | DeckSelectionMode::Create => {
                let p = (v.edit_position + 1) % 2;
                DeckSelectorView {
                    edit_position: p,
                    mode: if p == 0 {
                        DeckSelectionMode::Manage
                    } else {
                        v.mode
                    },
                    ..v
                }
            },
            DeckSelectionMode::Delete | DeckSelectionMode::Statistics | DeckSelectionMode::ManageCards => {
                DeckSelectorView { mode: DeckSelectionMode::Manage, ..v }
            },
            DeckSelectionMode::Import | DeckSelectionMode::Export => if v.edit_field.len() > 0 {
                DeckSelectorView { mode: DeckSelectionMode::Manage, ..v }
            } else {
                v
            },
            _ => v,
        }
    }
}

/// Escape: close the dialog, leave the current editing mode, or leave the
/// component for the main menu.
pub open spec fn cancel_spec(v: DeckSelectorView) -> (DeckSelectorView, Option<AppState>) {
    if v.show_confirm_dialog {
        (
            DeckSelectorView {
                show_confirm_dialog: false,
                confirm_message: Seq::empty(),
                mode: DeckSelectionMode::Manage,
                ..v
            },
            None,
        )
    } else {
        match v.mode {
            DeckSelectionMode::Edit | DeckSelectionMode::Create | DeckSelectionMode::Delete
            | DeckSelectionMode::Import | DeckSelectionMode::Export | DeckSelectionMode::Statistics
            | DeckSelectionMode::ManageCards => (
                DeckSelectorView {
                    show_confirm_dialog: false,
                    ..fresh_mode(v, DeckSelectionMode::Manage)
                },
                None,
            ),
            _ => (v, Some(AppState::MainMenu)),
        }
    }
}

/// A typed character: text in the fields being edited, shortcuts while
/// managing decks.
pub open spec fn char_spec(v: DeckSelectorView, c: char) -> DeckSelectorView {
    match v.mode {
        DeckSelectionMode::Edit | DeckSelectionMode::Create => if v.edit_position == 0 {
            DeckSelectorView { edit_field: v.edit_field.push(c), ..v }
        } else {
            v
        },
        DeckSelectionMode::Import | DeckSelectionMode::Export => DeckSelectorView {
            edit_field: v.edit_field.push(c),
            ..v
        },
        DeckSelectionMode::Manage => if c == 'c' || c == 'C' {
            fresh_mode(v, DeckSelectionMode::Create)
        } else if c == 'd' || c == 'D' {
            if has_selection(v) {
                DeckSelectorView {
                    confirm_message: delete_question(selected_name(v)),
                    show_confirm_dialog: true,
                    ..v
                }
            } else {
                v
            }
        } else if c == 'i' || c == 'I' {
            fresh_mode(v, DeckSelectionMode::Import)
        } else if c == 'e' || c == 'E' {
            if has_selection(v) {
                DeckSelectorView {
                    edit_field: uuid_text(selected_uuid(v)),
                    mode: DeckSelectionMode::Export,
                    ..v
                }
            } else {
                v
            }
        } else if c == 's' || c == 'S' {
            if has_selection(v) {
                DeckSelectorView {
                    edit_field: uuid_text(selected_uuid(v)),
                    mode: DeckSelectionMode::Statistics,
                    ..v
                }
            } else {
                v
            }
        } else {
            v
        },
        _ => v,
    }
}

/// The text after a backspace: the last character removed, if any.
pub open spec fn backspaced(s: Seq<char>) -> Seq<char> {
    if s.len() > 0 {
        s.drop_last()
    } else {
        s
    }
}

pub open spec fn backspace_spec(v: DeckSelectorView) -> DeckSelectorView {
    match v.mode {
        DeckSelectionMode::Edit | DeckSelectionMode::Create => if v.edit_position == 0 {
            DeckSelectorView { edit_field: backspaced(v.edit_field), ..v }
        } else {
            v
        },
        DeckSelectionMode::Import | DeckSelectionMode::Export => DeckSelectorView {
            edit_field: backspaced(v.edit_field),
            ..v
        },
        _ => v,
    }
}

/// What an action does to the component, and the screen it asks for.
pub open spec fn deck_action_spec(v: DeckSelectorView, action: Action) -> (DeckSelectorView, Option<AppState>) {
    match action {
        Action::Up => (
            match v.mode {
                DeckSelectionMode::Manage => if v.focus_area == 0 {
                    move_up_spec(v)
                } else if v.selected_management_action > 0 {
                    DeckSelectorView {
                        selected_management_action: (v.selected_management_action - 1) as nat,
                        ..v
                    }
                } else {
                    v
                },
                DeckSelectionMode::ManageCards => move_card_up_spec(v),
                _ => v,
            },
            None,
        ),
        Action::Down => (
            match v.mode {
                DeckSelectionMode::Manage => if v.focus_area == 0 {
                    move_down_spec(v)
                } else if v.selected_management_action + 1 < MANAGEMENT_ACTIONS {
                    DeckSelectorView { selected_management_action: v.selected_management_action + 1, ..v }
                } else {
                    v
                },
                DeckSelectionMode::ManageCards => move_card_down_spec(v),
                _ => v,
            },
            None,
        ),
        Action::Left => (
            match v.mode {
                DeckSelectionMode::ManageCards => card_action_up_spec(v),
                DeckSelectionMode::Manage => if v.focus_area > 0 {
                    DeckSelectorView { focus_area: (v.focus_area - 1) as nat, ..v }
                } else {
                    v
                },
                _ => v,
            },
            None,
        ),
        Action::Right => (
            match v.mode {
                DeckSelectionMode::ManageCards => card_action_down_spec(v),
                DeckSelectionMode::Manage => if v.focus_area < 1 {
                    DeckSelectorView { focus_area: v.focus_area + 1, ..v }
                } else {
                    v
                },
                _ => v,
            },
            None,
        ),
        Action::Tab => (
            if v.mode == DeckSelectionMode::Manage {
                DeckSelectorView {
                    focus_area: if v.focus_area == 0 {
                        1
                    } else {
                        0
                    },
                    ..v
                }
            } else {
                v
            },
            None,
        ),
        Action::Select => (select_spec(v), None),
        Action::Cancel => cancel_spec(v),
        Action::Create => (fresh_mode(v, DeckSelectionMode::Create), None),
        Action::Delete => (
            if has_selection(v) && v.mode == DeckSelectionMode::Manage {
                DeckSelectorView {
                    mode: DeckSelectionMode::Delete,
                    show_confirm_dialog: true,
                    confirm_message: delete_question(selected_name(v)),
                    ..v
                }
            } else {
                v
            },
            None,
        ),
        Action::Edit => (
            if has_selection(v) {
                DeckSelectorView {
                    mode: DeckSelectionMode::Edit,
                    edit_field: selected_name(v),
                    edit_position: 0,
                    ..v
                }
            } else {
                v
            },
            None,
        ),
        Action::Char(c) => (char_spec(v, c), None),
        Action::Backspace => (backspace_spec(v), None),
        _ => (v, None),
    }
}

/// An operation on decks that the component leaves to the application.
#[derive(Debug)]
#[allow(inconsistent_fields)]
pub enum DeckOperation {
    Create { name: String, description: Option<String> },
    Update { deck_uuid: u128, name: Option<String>, description: Option<String> },
    Delete { deck_uuid: u128 },
    Import { file_path: String },
    Export { deck_uuid: u128, include_state: bool, file_path: String },
    ViewStatistics { deck_uuid: u128 },
}

/// An operation as a value.
pub enum DeckOperationView {
    Create { name: Seq<char> },
    Update { deck_uuid: u128, name: Seq<char> },
    Delete { deck_uuid: u128 },
    Import { file_path: Seq<char> },
    Export { deck_uuid: u128, file_path: Seq<char> },
    ViewStatistics { deck_uuid: u128 },
}

/// The operation as a value; the component never sets a description, and
/// an export always includes the scheduling state.
pub open spec fn operation_view(op: DeckOperation) -> Option<DeckOperationView> {
    match op {
        DeckOperation::Create { name, description: None } => Some(DeckOperationView::Create { name: name@ }),
        DeckOperation::Update { deck_uuid, name: Some(n), description: None } => Some(
            DeckOperationView::Update { deck_uuid, name: n@ },
        ),
        DeckOperation::Delete { deck_uuid } => Some(DeckOperationView::Delete { deck_uuid }),
        DeckOperation::Import { file_path } => Some(DeckOperationView::Import { file_path: file_path@ }),
        DeckOperation::Export { deck_uuid, include_state: true, file_path } => Some(
            DeckOperationView::Export { deck_uuid, file_path: file_path@ },
        ),
        DeckOperation::ViewStatistics { deck_uuid } => Some(DeckOperationView::ViewStatistics { deck_uuid }),
        _ => None,
    }
}

/// The operation that the component's state asks the application for.
pub open spec fn pending_operation_spec(v: DeckSelectorView) -> Option<DeckOperationView> {
    match v.mode {
        DeckSelectionMode::Edit => if v.edit_position == 0 && v.edit_field.len() > 0 && has_selection(v) {
            Some(DeckOperationView::Update { deck_uuid: selected_uuid(v), name: v.edit_field })
        } else {
            None
        },
        DeckSelectionMode::Create => if v.edit_position == 0 && v.edit_field.len() > 0 {
            Some(DeckOperationView::Create { name: v.edit_field })
        } else {
            None
        },
        DeckSelectionMode::Delete => if has_selection(v) {
            Some(DeckOperationView::Delete { deck_uuid: selected_uuid(v) })
        } else {
            None
        },
        DeckSelectionMode::Import => if v.edit_field.len() > 0 {
            Some(DeckOperationView::Import { file_path: v.edit_field })
        } else {
            None
        },
        DeckSelectionMode::Export => if has_selection(v) {
            Some(
                DeckOperationView::Export { deck_uuid: selected_uuid(v), file_path: selected_name(v) + ".toml"@ },
            )
        } else {
            None
        },
        DeckSelectionMode::Statistics => if has_selection(v) {
            Some(DeckOperationView::ViewStatistics { deck_uuid: selected_uuid(v) })
        } else {
            None
        },
        _ => None,
    }
}

/// A mode entered with its editing state reset.
pub open spec fn reset_to_mode(v: DeckSelectorView, mode: DeckSelectionMode) -> DeckSelectorView {
    DeckSelectorView {
        mode,
        edit_field: Seq::empty(),
        edit_position: 0,
        show_confirm_dialog: false,
        confirm_message: Seq::empty(),
        ..v
    }
}

/// Whether row `a` comes strictly before row `b` in the given order: by
/// name, creation time or modification time. The component knows no card
/// counts, so that order goes by name too.
pub open spec fn row_before(order: DeckSortOrder, a: DeckRow, b: DeckRow) -> bool {
    match order {
        DeckSortOrder::Created => a.3 < b.3,
        DeckSortOrder::Modified => a.4 < b.4,
        _ => text_lt(a.1, b.1),
    }
}

/// Whether `p` lists each position below `n` exactly once.
pub open spec fn is_permutation(p: Seq<int>, n: nat) -> bool {
    &&& p.len() == n
    &&& forall|k: int| 0 <= k < n ==> 0 <= #[trigger] p[k] < n
    &&& forall|a: int, b: int| 0 <= a < b < n ==> p[a] != p[b]
}

/// Whether `new` holds the rows of `old` rearranged by `p`, in the given
/// order, with rows that the order does not tell apart in their old order.
pub open spec fn stable_sorted_by(order: DeckSortOrder, old: Seq<DeckRow>, new: Seq<DeckRow>, p: Seq<int>) -> bool {
    &&& is_permutation(p, old.len())
    &&& new.len() == old.len()
    &&& forall|k: int| 0 <= k < new.len() ==> #[trigger] new[k] == old[p[k]]
    &&& forall|a: int, b: int| 0 <= a < b < new.len() ==> !row_before(order, new[b], new[a])
    &&& forall|a: int, b: int|
        0 <= a < b < new.len() && !row_before(order, new[a], new[b]) ==> p[a] < p[b]
}

/// Whether `new` is the stable sort of `old` in the given order.
pub open spec fn sorted_rows(order: DeckSortOrder, old: Seq<DeckRow>, new: Seq<DeckRow>) -> bool {
    exists|p: Seq<int>| stable_sorted_by(order, old, new, p)
}

/// Whether a row matches a lower-case query by name or description.
pub open spec fn row_matches(row: DeckRow, lower: Seq<char>) -> bool {
    contains_text(lowercase(row.1), lower) || match row.2 {
        Some(desc) => contains_text(lowercase(desc), lower),
        None => false,
    }
}

/// The test that keeps a row for a lower-case query.
pub open spec fn row_query(lower: Seq<char>) -> spec_fn(DeckRow) -> bool {
    |r: DeckRow| row_matches(r, lower)
}

/// The rows the list shows: all of them for an empty query, else those
/// whose name or description holds the query, case aside.
pub open spec fn filtered_rows(v: DeckSelectorView) -> Seq<DeckRow> {
    if v.search_query.len() == 0 {
        v.decks
    } else {
        v.decks.filter(row_query(lowercase(v.search_query)))
    }
}

/// Each order is a strict weak order: no row comes before one that comes
/// before it, and a row that comes before another comes before or after any third.
pub proof fn lemma_row_order(order: DeckSortOrder, x: DeckRow, y: DeckRow, z: DeckRow)
    ensures
        row_before(order, x, y) ==> !row_before(order, y, x),
        row_before(order, x, z) ==> row_before(order, x, y) || row_before(order, y, z),
{
    match order {
        DeckSortOrder::Created => {},
        DeckSortOrder::Modified => {},
        _ => {
            if text_lt(x.1, y.1) && text_lt(y.1, x.1) {
                lemma_text_lt_transitive(x.1, y.1, x.1);
                lemma_text_lt_irreflexive(x.1);
            }
            if text_lt(x.1, z.1) && !text_lt(x.1, y.1) && !text_lt(y.1, z.1) {
                lemma_text_lt_total(x.1, y.1);
                if x.1 != y.1 {
                    lemma_text_lt_transitive(y.1, x.1, z.1);
                }
            }
        },
    }
}

/// Inserting row `x`, taken from position `i` of `src`, after the rows not
/// after it and before those it comes before keeps a partial stable sort.
proof fn lemma_insert_sorted(
    order: DeckSortOrder,
    src: Seq<DeckRow>,
    rows: Seq<DeckRow>,
    p: Seq<int>,
    i: int,
    j: int,
)
    requires
        0 <= i < src.len(),
        rows.len() == i,
        p.len() == i,
        0 <= j <= i,
        forall|k: int| 0 <= k < i ==> 0 <= #[trigger] p[k] < i,
        forall|a: int, b: int| 0 <= a < b < i ==> p[a] != p[b],
        forall|k: int| 0 <= k < i ==> #[trigger] rows[k] == src[p[k]],
        forall|a: int, b: int| 0 <= a < b < i ==> !row_before(order, rows[b], rows[a]),
        forall|a: int, b: int| 0 <= a < b < i && !row_before(order, rows[a], rows[b]) ==> p[a] < p[b],
        forall|k: int| j <= k < i ==> row_before(order, src[i], #[trigger] rows[k]),
        j > 0 ==> !row_before(order, src[i], rows[j - 1]),
    ensures
        ({
            let rows2 = rows.insert(j, src[i]);
            let p2 = p.insert(j, i);
            &&& rows2.len() == i + 1
            &&& p2.len() == i + 1
            &&& forall|k: int| 0 <= k < i + 1 ==> 0 <= #[trigger] p2[k] < i + 1
            &&& forall|a: int, b: int| 0 <= a < b < i + 1 ==> p2[a] != p2[b]
            &&& forall|k: int| 0 <= k < i + 1 ==> #[trigger] rows2[k] == src[p2[k]]
            &&& forall|a: int, b: int| 0 <= a < b < i + 1 ==> !row_before(order, rows2[b], rows2[a])
            &&& forall|a: int, b: int|
                0 <= a < b < i + 1 && !row_before(order, rows2[a], rows2[b]) ==> p2[a] < p2[b]
        }),
{
    let x = src[i];
    let rows2 = rows.insert(j, x);
    let p2 = p.insert(j, i);
    assert forall|k: int| 0 <= k < i + 1 implies 0 <= #[trigger] p2[k] < i + 1 && rows2[k] == src[p2[k]] by {
        if k > j {
            assert(p2[k] == p[k - 1]);
            assert(rows2[k] == rows[k - 1]);
        } else if k < j {
            assert(p2[k] == p[k]);
        }
    }
    assert forall|a: int, b: int| 0 <= a < b < i + 1 implies p2[a] != p2[b] by {
        if a < j && b > j {
            assert(p2[b] == p[b - 1]);
        } else if a > j {
            assert(p2[a] == p[a - 1]);
            assert(p2[b] == p[b - 1]);
        } else if a < j && b < j {
        } else if a == j {
            assert(p2[b] == p[b - 1]);
        } else {
            assert(p2[a] == p[a]);
        }
    }
    assert forall|a: int, b: int| 0 <= a < b < i + 1 implies !row_before(order, rows2[b], rows2[a]) by {
        if b < j {
        } else if b == j {
            lemma_row_order(order, x, rows[j - 1], rows[a]);
        } else if a < j {
            assert(rows2[b] == rows[b - 1]);
        } else if a == j {
            assert(rows2[b] == rows[b - 1]);
            assert(row_before(order, x, rows[b - 1]));
            lemma_row_order(order, x, rows[b - 1], x);
        } else {
            assert(rows2[a] == rows[a - 1]);
            assert(rows2[b] == rows[b - 1]);
        }
    }
    assert forall|a: int, b: int|
        0 <= a < b < i + 1 && !row_before(order, rows2[a], rows2[b]) implies p2[a] < p2[b] by {
        if b < j {
        } else if b == j {
            assert(p2[a] == p[a]);
        } else if a < j {
            assert(rows2[b] == rows[b - 1]);
            assert(p2[b] == p[b - 1]);
        } else if a == j {
            assert(rows2[b] == rows[b - 1]);
            assert(row_before(order, x, rows[b - 1]));
        } else {
            assert(rows2[a] == rows[a - 1]);
            assert(rows2[b] == rows[b - 1]);
            assert(p2[a] == p[a - 1]);
            assert(p2[b] == p[b - 1]);
        }
    }
}

/// Whether deck `a` comes strictly before deck `b` in the given order.
fn deck_before(order: DeckSortOrder, a: &DeckSummary, b: &DeckSummary) -> (r: bool)
    ensures
        r == row_before(order, deck_summary_row(*a), deck_summary_row(*b)),
{
    match order {
        DeckSortOrder::Created => a.created_at < b.created_at,
        DeckSortOrder::Modified => a.modified_at < b.modified_at,
        _ => text_less(a.name.as_str(), b.name.as_str()),
    }
}

/// A stably sorted copy of a deck list, by insertion.
fn sorted_copy(order: DeckSortOrder, decks: &Vec<DeckSummary>) -> (out: Vec<DeckSummary>)
    ensures
        sorted_rows(order, deck_rows(decks@), deck_rows(out@)),
{
    let n = decks.len();
    let ghost src = deck_rows(decks@);
    let ghost mut p: Seq<int> = Seq::empty();
    let mut out: Vec<DeckSummary> = Vec::new();
    let mut i: usize = 0;
    while i < n
        invariant
            n == decks@.len(),
            src == deck_rows(decks@),
            i <= n,
            out@.len() == i,
            p.len() == i,
            forall|k: int| 0 <= k < i ==> 0 <= #[trigger] p[k] < i,
            forall|a: int, b: int| 0 <= a < b < i ==> p[a] != p[b],
            forall|k: int| 0 <= k < i ==> #[trigger] deck_rows(out@)[k] == src[p[k]],
            forall|a: int, b: int|
                0 <= a < b < i ==> !row_before(order, deck_rows(out@)[b], deck_rows(out@)[a]),
            forall|a: int, b: int|
                0 <= a < b < i && !row_before(order, deck_rows(out@)[a], deck_rows(out@)[b]) ==> p[a] < p[b],
        decreases n - i,
    {
        let x = decks[i].copy();
        assert(deck_summary_row(x) == src[i as int]);
        let mut j: usize = i;
        while j > 0 && deck_before(order, &x, &out[j - 1])
            invariant
                j <= i,
                out@.len() == i,
                deck_summary_row(x) == src[i as int],
                forall|k: int| j <= k < i ==> row_before(order, src[i as int], #[trigger] deck_rows(out@)[k]),
            decreases j,
        {
            j = j - 1;
        }
        proof {
            lemma_insert_sorted(order, src, deck_rows(out@), p, i as int, j as int);
        }
        let ghost rows = deck_rows(out@);
        out.insert(j, x);
        proof {
            assert(deck_rows(out@) =~= rows.insert(j as int, src[i as int]));
            p = p.insert(j as int, i as int);
        }
        i = i + 1;
    }
    assert(stable_sorted_by(order, src, deck_rows(out@), p));
    out
}

impl DeckSelector {
    #[verifier::type_invariant]
    closed spec fn inv(&self) -> bool {
        selector_ok(self@)
    }

    /// An empty component managing decks, with the first row highlighted.
    pub fn new() -> (s: DeckSelector)
        ensures
            s@.decks.len() == 0,
            s@.selected_deck == 0,
            s@.list_selected == Some(0nat),
            s@.mode == DeckSelectionMode::Manage,
            s@.search_query.len() == 0,
            s@.sort_order == DeckSortOrder::Name,
            s@.edit_field.len() == 0,
            s@.edit_position == 0,
            !s@.show_confirm_dialog,
            s@.confirm_message.len() == 0,
            s@.cards.len() == 0,
            s@.selected_card == 0,
            s@.card_list_selected == Some(0nat),
            s@.selected_card_action == 0,
            s@.selected_management_action == 0,
            s@.focus_area == 0,
    {
        DeckSelector {
            decks: Vec::new(),
            selected_deck: 0,
            list_selected: Some(0),
            mode: DeckSelectionMode::Manage,
            search_query: String::new(),
            sort_order: DeckSortOrder::Name,
            edit_field: String::new(),
            edit_position: 0,
            show_confirm_dialog: false,
            confirm_message: String::new(),
            cards: Vec::new(),
            selected_card: 0,
            card_list_selected: Some(0),
            selected_card_action: 0,
            selected_management_action: 0,
            focus_area: 0,
        }
    }

    /// The bounds the component keeps hold of every state.
    pub fn check_bounds(&self)
        ensures
            selector_ok(self@),
    {
        proof {
            use_type_invariant(self);
        }
    }

    /// The selected deck, if the list has one.
    pub fn selected_deck(&self) -> (d: Option<&DeckSummary>)
        ensures
            has_selection(self@) <==> d is Some,
            d matches Some(x) ==> deck_summary_row(*x) == self@.decks[self@.selected_deck as int],
    {
        proof {
            use_type_invariant(self);
        }
        if self.selected_deck < self.decks.len() {
            assert(deck_summary_row(self.decks@[self.selected_deck as int]) == self@.decks[self@.selected_deck as int]);
            Some(&self.decks[self.selected_deck])
        } else {
            None
        }
    }

    /// The selected deck (another name for `selected_deck`).
    pub fn get_selected_deck(&self) -> (d: Option<&DeckSummary>)
        ensures
            has_selection(self@) <==> d is Some,
            d matches Some(x) ==> deck_summary_row(*x) == self@.decks[self@.selected_deck as int],
    {
        self.selected_deck()
    }

    /// Replaces the deck list and selects its first deck.
    pub fn update_decks(&mut self, decks: Vec<DeckSummary>)
        ensures
            final(self)@ == (DeckSelectorView {
                decks: deck_rows(decks@),
                selected_deck: 0,
                list_selected: if decks@.len() > 0 {
                    Some(0nat)
                } else {
                    None
                },
                ..old(self)@
            }),
    {
        proof {
            use_type_invariant(&*self);
        }
        let list_selected = if decks.len() > 0 {
            Some(0)
        } else {
            None
        };
        self.selected_deck = 0;
        self.decks = decks;
        self.list_selected = list_selected;
        assert(final(self)@ =~= (DeckSelectorView {
            decks: deck_rows(decks@),
            selected_deck: 0,
            list_selected: if decks@.len() > 0 {
                Some(0nat)
            } else {
                None
            },
            ..old(self)@
        }));
    }

    /// Takes the deck list loaded from the core: on a failure the list is
    /// emptied and the failure is reported.
    pub fn apply_loaded_decks(&mut self, loaded: Result<Vec<DeckSummary>, String>) -> (r: Result<(), String>)
        ensures
            match loaded {
                Ok(d) => r is Ok && final(self)@ == (DeckSelectorView {
                    decks: deck_rows(d@),
                    selected_deck: 0,
                    list_selected: if d@.len() > 0 {
                        Some(0nat)
                    } else {
                        None
                    },
                    ..old(self)@
                }),
                Err(e) => (r matches Err(t) && t@ == "Failed to load decks: "@ + e@) && final(self)@ == (
                DeckSelectorView { decks: Seq::empty(), selected_deck: 0, list_selected: None, ..old(self)@ }),
            },
    {
        match loaded {
            Ok(d) => {
                self.update_decks(d);
                Ok(())
            },
            Err(e) => {
                self.update_decks(Vec::new());
                Err(String::from_str("Failed to load decks: ").concat(e.as_str()))
            },
        }
    }

    /// Takes the cards loaded from the core for the selected deck: on a
    /// failure the card list is emptied and the failure is reported.
    pub fn apply_loaded_cards(&mut self, loaded: Result<Vec<CardSummary>, String>) -> (r: Result<(), String>)
        ensures
            match loaded {
                Ok(c) => r is Ok && final(self)@ == (DeckSelectorView {
                    cards: card_rows(c@),
                    selected_card: 0,
                    card_list_selected: if c@.len() > 0 {
                        Some(0nat)
                    } else {
                        None
                    },
                    ..old(self)@
                }),
                Err(e) => (r matches Err(t) && t@ == "Failed to load cards: "@ + e@) && final(self)@ == (
                DeckSelectorView {
                    cards: Seq::empty(),
                    selected_card: 0,
                    card_list_selected: None,
                    ..old(self)@
                }),
            },
    {
        proof {
            use_type_invariant(&*self);
        }
        let (cards, r) = match loaded {
            Ok(c) => (c, Ok(())),
            Err(e) => (Vec::new(), Err(String::from_str("Failed to load cards: ").concat(e.as_str()))),
        };
        let card_list_selected = if cards.len() > 0 {
            Some(0)
        } else {
            None
        };
        self.selected_card = 0;
        self.cards = cards;
        self.card_list_selected = card_list_selected;
        assert(final(self)@.cards =~= card_rows(cards@));
        assert(final(self)@.decks =~= old(self)@.decks);
        r
    }

    /// Moves the deck selection up, stopping at the first deck.
    pub fn move_up(&mut self)
        ensures
            final(self)@ == move_up_spec(old(self)@),
    {
        proof {
            use_type_invariant(&*self);
        }
        if self.selected_deck > 0 {
            self.selected_deck = self.selected_deck - 1;
            self.list_selected = Some(self.selected_deck);
        }
        assert(final(self)@ =~= move_up_spec(old(self)@));
    }

    /// Moves the deck selection down, stopping at the last deck.
    pub fn move_down(&mut self)
        ensures
            final(self)@ == move_down_spec(old(self)@),
    {
        proof {
            use_type_invariant(&*self);
        }
        if self.selected_deck < self.decks.len().saturating_sub(1) {
            self.selected_deck = self.selected_deck + 1;
            self.list_selected = Some(self.selected_deck);
        }
        assert(final(self)@ =~= move_down_spec(old(self)@));
    }

    /// Moves the card selection up, stopping at the first card.
    pub fn move_card_up(&mut self)
        ensures
            final(self)@ == move_card_up_spec(old(self)@),
    {
        proof {
            use_type_invariant(&*self);
        }
        if self.selected_card > 0 {
            self.selected_card = self.selected_card - 1;
            self.card_list_selected = Some(self.selected_card);
        }
        assert(final(self)@ =~= move_card_up_spec(old(self)@));
    }

    /// Moves the card selection down, stopping at the last card.
    pub fn move_card_down(&mut self)
        ensures
            final(self)@ == move_card_down_spec(old(self)@),
    {
        proof {
            use_type_invariant(&*self);
        }
        if self.selected_card < self.cards.len().saturating_sub(1) {
            self.selected_card = self.selected_card + 1;
            self.card_list_selected = Some(self.selected_card);
        }
        assert(final(self)@ =~= move_card_down_spec(old(self)@));
    }

    /// Moves the card action selection up, stopping at the first action.
    pub fn move_card_action_up(&mut self)
        ensures
            final(self)@ == card_action_up_spec(old(self)@),
    {
        proof {
            use_type_invariant(&*self);
        }
        if self.selected_card_action > 0 {
            self.selected_card_action = self.selected_card_action - 1;
        }
        assert(final(self)@ =~= card_action_up_spec(old(self)@));
    }

    /// Moves the card action selection down, stopping at the last action.
    pub fn move_card_action_down(&mut self)
        ensures
            final(self)@ == card_action_down_spec(old(self)@),
    {
        proof {
            use_type_invariant(&*self);
        }
        if self.selected_card_action < CARD_ACTIONS - 1 {
            self.selected_card_action = self.selected_card_action + 1;
        }
        assert(final(self)@ =~= card_action_down_spec(old(self)@));
    }

    /// The index of the selected deck.
    pub fn selected_index(&self) -> (i: usize)
        ensures
            i as nat == self@.selected_deck,
    {
        self.selected_deck
    }

    /// The decks, in list order.
    pub fn decks(&self) -> (d: &Vec<DeckSummary>)
        ensures
            deck_rows(d@) == self@.decks,
    {
        &self.decks
    }

    /// The cards of the selected deck.
    pub fn cards(&self) -> (c: &Vec<CardSummary>)
        ensures
            card_rows(c@) == self@.cards,
    {
        &self.cards
    }

    /// The current mode.
    pub fn current_mode(&self) -> (m: DeckSelectionMode)
        ensures
            m == self@.mode,
    {
        self.mode
    }

    /// The text being edited.
    pub fn edit_field(&self) -> (s: &str)
        ensures
            s@ == self@.edit_field,
    {
        self.edit_field.as_str()
    }

    /// Replaces the text being edited.
    pub fn set_edit_field(&mut self, content: String)
        ensures
            final(self)@ == (DeckSelectorView { edit_field: content@, ..old(self)@ }),
    {
        proof {
            use_type_invariant(&*self);
        }
        self.edit_field = content;
        assert(final(self)@ =~= (DeckSelectorView { edit_field: content@, ..old(self)@ }));
    }

    /// The field being edited: 0 the name, 1 the description.
    pub fn edit_position(&self) -> (p: usize)
        ensures
            p as nat == self@.edit_position,
    {
        self.edit_position
    }

    /// Whether the confirmation dialog is open.
    pub fn show_confirm_dialog(&self) -> (b: bool)
        ensures
            b == self@.show_confirm_dialog,
    {
        self.show_confirm_dialog
    }

    /// The question of the confirmation dialog.
    pub fn confirm_message(&self) -> (s: &str)
        ensures
            s@ == self@.confirm_message,
    {
        self.confirm_message.as_str()
    }

    /// The highlighted row of the deck list.
    pub fn list_selected(&self) -> (i: Option<usize>)
        ensures
            opt_nat(i) == self@.list_selected,
    {
        self.list_selected
    }

    /// The highlighted row of the card list.
    pub fn card_list_selected(&self) -> (i: Option<usize>)
        ensures
            opt_nat(i) == self@.card_list_selected,
    {
        self.card_list_selected
    }

    /// The operation that the current state asks the application for.
    pub fn get_pending_operation(&self) -> (op: Option<DeckOperation>)
        ensures
            match op {
                Some(o) => operation_view(o) is Some && operation_view(o) == pending_operation_spec(self@),
                None => pending_operation_spec(self@) is None,
            },
    {
        proof {
            use_type_invariant(self);
        }
        match self.mode {
            DeckSelectionMode::Edit => {
                if self.edit_position == 0 && self.edit_field.unicode_len() > 0 {
                    if let Some(deck) = self.selected_deck() {
                        return Some(
                            DeckOperation::Update {
                                deck_uuid: deck.uuid,
                                name: Some(self.edit_field.clone()),
                                description: None,
                            },
                        );
                    }
                }
            },
            DeckSelectionMode::Create => {
                if self.edit_position == 0 && self.edit_field.unicode_len() > 0 {
                    return Some(DeckOperation::Create { name: self.edit_field.clone(), description: None });
                }
            },
            DeckSelectionMode::Delete => {
                if let Some(deck) = self.selected_deck() {
                    return Some(DeckOperation::Delete { deck_uuid: deck.uuid });
                }
            },
            DeckSelectionMode::Import => {
                if self.edit_field.unicode_len() > 0 {
                    return Some(DeckOperation::Import { file_path: self.edit_field.clone() });
                }
            },
            DeckSelectionMode::Export => {
                if let Some(deck) = self.selected_deck() {
                    return Some(
                        DeckOperation::Export {
                            deck_uuid: deck.uuid,
                            include_state: true,
                            file_path: deck.name.clone().concat(".toml"),
                        },
                    );
                }
            },
            DeckSelectionMode::Statistics => {
                if let Some(deck) = self.selected_deck() {
                    return Some(DeckOperation::ViewStatistics { deck_uuid: deck.uuid });
                }
            },
            _ => {},
        }
        None
    }

    /// Switches mode, resetting the editing state.
    pub fn set_mode(&mut self, mode: DeckSelectionMode)
        ensures
            final(self)@ == reset_to_mode(old(self)@, mode),
    {
        proof {
            use_type_invariant(&*self);
        }
        self.mode = mode;
        self.edit_field = String::new();
        self.edit_position = 0;
        self.show_confirm_dialog = false;
        self.confirm_message = String::new();
        assert(final(self)@ =~= reset_to_mode(old(self)@, mode));
    }

    /// Returns to managing decks once the application has run the pending
    /// operation.
    pub fn clear_pending_operation(&mut self)
        ensures
            final(self)@ == (DeckSelectorView {
                selected_card_action: 0,
                ..reset_to_mode(old(self)@, DeckSelectionMode::Manage)
            }),
    {
        proof {
            use_type_invariant(&*self);
        }
        self.mode = DeckSelectionMode::Manage;
        self.edit_field = String::new();
        self.edit_position = 0;
        self.show_confirm_dialog = false;
        self.confirm_message = String::new();
        self.selected_card_action = 0;
        assert(final(self)@ =~= (DeckSelectorView {
            selected_card_action: 0,
            ..reset_to_mode(old(self)@, DeckSelectionMode::Manage)
        }));
    }

    /// Orders the deck list by the component's sort order, stably.
    pub fn update(&mut self)
        ensures
            final(self)@ == (DeckSelectorView { decks: final(self)@.decks, ..old(self)@ }),
            sorted_rows(old(self)@.sort_order, old(self)@.decks, final(self)@.decks),
    {
        self.sort_decks();
    }

    /// Orders the deck list by the sort order, stably.
    fn sort_decks(&mut self)
        ensures
            final(self)@ == (DeckSelectorView { decks: final(self)@.decks, ..old(self)@ }),
            sorted_rows(old(self)@.sort_order, old(self)@.decks, final(self)@.decks),
    {
        proof {
            use_type_invariant(&*self);
        }
        let sorted = sorted_copy(self.sort_order, &self.decks);
        self.decks = sorted;
    }

    /// The decks the list shows: all of them for an empty search query,
    /// else those whose name or description holds the query, case aside.
    pub fn filter_decks(&self) -> (r: Vec<&DeckSummary>)
        ensures
            r@.map_values(|d: &DeckSummary| deck_summary_row(*d)) == filtered_rows(self@),
    {
        let n = self.decks.len();
        let mut r: Vec<&DeckSummary> = Vec::new();
        if self.search_query.unicode_len() == 0 {
            let mut i: usize = 0;
            while i < n
                invariant
                    n == self.decks@.len(),
                    i <= n,
                    r@.len() == i,
                    r@.map_values(|d: &DeckSummary| deck_summary_row(*d)) == deck_rows(self.decks@).take(i as int),
                decreases n - i,
            {
                let ghost before = r@;
                r.push(&self.decks[i]);
                proof {
                    let f = |d: &DeckSummary| deck_summary_row(*d);
                    assert forall|k: int| 0 <= k < i + 1 implies r@.map_values(f)[k] == deck_rows(self.decks@).take(
                        i + 1,
                    )[k] by {
                        if k < i {
                            assert(r@[k] == before[k]);
                            assert(before.map_values(f)[k] == deck_rows(self.decks@).take(i as int)[k]);
                        }
                    }
                    assert(r@.map_values(f) =~= deck_rows(self.decks@).take(i + 1));
                }
                i = i + 1;
            }
            assert(deck_rows(self.decks@).take(n as int) =~= deck_rows(self.decks@));
            return r;
        }
        let lower = to_lowercase(self.search_query.as_str());
        let ghost rows = deck_rows(self.decks@);
        let ghost pred = row_query(lower@);
        let mut i: usize = 0;
        assert(rows.take(0).filter(pred) =~= Seq::<DeckRow>::empty());
        while i < n
            invariant
                n == self.decks@.len(),
                rows == deck_rows(self.decks@),
                pred == row_query(lower@),
                i <= n,
                r@.map_values(|d: &DeckSummary| deck_summary_row(*d)) == rows.take(i as int).filter(pred),
            decreases n - i,
        {
            let d = &self.decks[i];
            let name = to_lowercase(d.name.as_str());
            let mut m = str_contains(name.as_str(), lower.as_str());
            if !m {
                match &d.description {
                    Some(desc) => {
                        let l = to_lowercase(desc.as_str());
                        m = str_contains(l.as_str(), lower.as_str());
                    },
                    None => {},
                }
            }
            let ghost old_r = r@;
            if m {
                r.push(d);
            }
            proof {
                let t1 = rows.take(i + 1);
                assert(t1.drop_last() =~= rows.take(i as int));
                assert(t1.last() == deck_summary_row(*d));
                assert(pred(t1.last()) == m);
                assert(t1.filter(pred) == if pred(t1.last()) {
                    t1.drop_last().filter(pred).push(t1.last())
                } else {
                    t1.drop_last().filter(pred)
                }) by {
                    reveal_with_fuel(Seq::filter, 1);
                }
                if m {
                    assert(r@.map_values(|x: &DeckSummary| deck_summary_row(*x)) =~= old_r.map_values(
                        |x: &DeckSummary| deck_summary_row(*x),
                    ).push(deck_summary_row(*d)));
                } else {
                    assert(r@ == old_r);
                }
            }
            i = i + 1;
        }
        assert(rows.take(n as int) =~= rows);
        r
    }

    /// The area with the focus: 0 the deck list, 1 the actions panel.
    pub fn focus_area(&self) -> (f: usize)
        ensures
            f as nat == self@.focus_area,
    {
        self.focus_area
    }

    /// The highlighted management action.
    pub fn selected_management_action(&self) -> (a: usize)
        ensures
            a as nat == self@.selected_management_action,
    {
        self.selected_management_action
    }

    /// The highlighted card.
    pub fn selected_card(&self) -> (i: usize)
        ensures
            i as nat == self@.selected_card,
    {
        self.selected_card
    }

    /// The highlighted card action.
    pub fn selected_card_action(&self) -> (a: usize)
        ensures
            a as nat == self@.selected_card_action,
    {
        self.selected_card_action
    }

    /// The component's name.
    pub fn name(&self) -> (n: &'static str)
        ensures
            n@ == "deck_selection"@,
    {
        "deck_selection"
    }
}


impl DeckSelector {
    fn delete_question_of(name: &String) -> (q: String)
        ensures
            q@ == delete_question(name@),
    {
        String::from_str("Delete deck '").concat(name.as_str()).concat("'?")
    }

    fn management_action(&mut self)
        requires
            has_selection(old(self)@),
        ensures
            final(self)@ == management_action_spec(old(self)@),
    {
        proof {
            use_type_invariant(&*self);
        }
        let ghost v = self@;
        let name = self.decks[self.selected_deck].name.clone();
        let uuid = self.decks[self.selected_deck].uuid;
        assert(name@ == selected_name(v) && uuid == selected_uuid(v));
        let a = self.selected_management_action;
        if a == 0 {
            self.mode = DeckSelectionMode::Edit;
            self.edit_field = name;
            self.edit_position = 0;
        } else if a == 1 {
            self.show_confirm_dialog = true;
            self.confirm_message = Self::delete_question_of(&name);
        } else if a == 2 {
            self.mode = DeckSelectionMode::Export;
            self.edit_field = name.concat(".toml");
        } else if a == 3 {
            self.mode = DeckSelectionMode::Import;
            self.edit_field = String::new();
        } else if a == 4 {
            self.mode = DeckSelectionMode::Statistics;
            self.edit_field = id_to_text(uuid);
        } else if a == 5 {
            self.mode = DeckSelectionMode::ManageCards;
            self.selected_card = 0;
            self.selected_card_action = 0;
            self.focus_area = 0;
            self.card_list_selected = if self.cards.len() > 0 {
                Some(0)
            } else {
                None
            };
        }
        assert(final(self)@ =~= management_action_spec(v));
    }

    fn select_action(&mut self)
        ensures
            final(self)@ == select_spec(old(self)@),
    {
        proof {
            use_type_invariant(&*self);
        }
        let ghost v = self@;
        if self.show_confirm_dialog {
            self.mode = DeckSelectionMode::Manage;
            self.show_confirm_dialog = false;
            self.confirm_message = String::new();
        } else if self.selected_deck < self.decks.len() {
            match self.mode {
                DeckSelectionMode::Manage => {
                    if self.focus_area != 0 {
                        self.management_action();
                    }
                },
                DeckSelectionMode::Edit | DeckSelectionMode::Create => {
                    let p = (self.edit_position + 1) % 2;
                    self.edit_position = p;
                    if p == 0 {
                        self.mode = DeckSelectionMode::Manage;
                    }
                },
                DeckSelectionMode::Delete | DeckSelectionMode::Statistics | DeckSelectionMode::ManageCards => {
                    self.mode = DeckSelectionMode::Manage;
                },
                DeckSelectionMode::Import | DeckSelectionMode::Export => {
                    if self.edit_field.unicode_len() > 0 {
                        self.mode = DeckSelectionMode::Manage;
                    }
                },
                _ => {},
            }
        }
        assert(final(self)@ =~= select_spec(v));
    }

    fn cancel_action(&mut self) -> (next: Option<AppState>)
        ensures
            (final(self)@, next) == cancel_spec(old(self)@),
    {
        proof {
            use_type_invariant(&*self);
        }
        let ghost v = self@;
        if self.show_confirm_dialog {
            self.show_confirm_dialog = false;
            self.confirm_message = String::new();
            self.mode = DeckSelectionMode::Manage;
            assert(final(self)@ =~= cancel_spec(v).0);
            return None;
        }
        match self.mode {
            DeckSelectionMode::Edit | DeckSelectionMode::Create | DeckSelectionMode::Delete
            | DeckSelectionMode::Import | DeckSelectionMode::Export | DeckSelectionMode::Statistics
            | DeckSelectionMode::ManageCards => {
                self.mode = DeckSelectionMode::Manage;
                self.edit_field = String::new();
                self.edit_position = 0;
                self.show_confirm_dialog = false;
                assert(final(self)@ =~= cancel_spec(v).0);
                None
            },
            _ => Some(AppState::MainMenu),
        }
    }

    fn push_edit(&mut self, c: char)
        ensures
            final(self)@ == (DeckSelectorView { edit_field: old(self)@.edit_field.push(c), ..old(self)@ }),
    {
        proof {
            use_type_invariant(&*self);
        }
        let mut f = self.edit_field.clone();
        string_push(&mut f, c);
        self.edit_field = f;
        assert(final(self)@ =~= (DeckSelectorView { edit_field: old(self)@.edit_field.push(c), ..old(self)@ }));
    }

    fn pop_edit(&mut self)
        ensures
            final(self)@ == (DeckSelectorView { edit_field: backspaced(old(self)@.edit_field), ..old(self)@ }),
    {
        proof {
            use_type_invariant(&*self);
        }
        let mut f = self.edit_field.clone();
        string_pop(&mut f);
        self.edit_field = f;
        assert(final(self)@ =~= (DeckSelectorView {
            edit_field: backspaced(old(self)@.edit_field),
            ..old(self)@
        }));
    }

    fn char_action(&mut self, c: char)
        ensures
            final(self)@ == char_spec(old(self)@, c),
    {
        proof {
            use_type_invariant(&*self);
        }
        let ghost v = self@;
        match self.mode {
            DeckSelectionMode::Edit | DeckSelectionMode::Create => {
                if self.edit_position == 0 {
                    self.push_edit(c);
                }
            },
            DeckSelectionMode::Import | DeckSelectionMode::Export => {
                self.push_edit(c);
            },
            DeckSelectionMode::Manage => {
                if c == 'c' || c == 'C' {
                    self.mode = DeckSelectionMode::Create;
                    self.edit_field = String::new();
                    self.edit_position = 0;
                } else if c == 'd' || c == 'D' {
                    if self.selected_deck < self.decks.len() {
                        let q = Self::delete_question_of(&self.decks[self.selected_deck].name);
                        self.confirm_message = q;
                        self.show_confirm_dialog = true;
                    }
                } else if c == 'i' || c == 'I' {
                    self.mode = DeckSelectionMode::Import;
                    self.edit_field = String::new();
                    self.edit_position = 0;
                } else if c == 'e' || c == 'E' {
                    if self.selected_deck < self.decks.len() {
                        self.edit_field = id_to_text(self.decks[self.selected_deck].uuid);
                        self.mode = DeckSelectionMode::Export;
                    }
                } else if c == 's' || c == 'S' {
                    if self.selected_deck < self.decks.len() {
                        self.edit_field = id_to_text(self.decks[self.selected_deck].uuid);
                        self.mode = DeckSelectionMode::Statistics;
                    }
                }
            },
            _ => {},
        }
        assert(final(self)@ =~= char_spec(v, c));
    }

    fn backspace_action(&mut self)
        ensures
            final(self)@ == backspace_spec(old(self)@),
    {
        proof {
            use_type_invariant(&*self);
        }
        match self.mode {
            DeckSelectionMode::Edit | DeckSelectionMode::Create => {
                if self.edit_position == 0 {
                    self.pop_edit();
                }
            },
            DeckSelectionMode::Import | DeckSelectionMode::Export => {
                self.pop_edit();
            },
            _ => {},
        }
    }

    /// Handles an action: moves selections and focus, runs management
    /// actions, edits fields; answers the screen to switch to, if any.
    pub fn handle_action(&mut self, action: Action) -> (next: Option<AppState>)
        ensures
            (final(self)@, next) == deck_action_spec(old(self)@, action),
    {
        proof {
            use_type_invariant(&*self);
        }
        let ghost v = self@;
        match action {
            Action::Up => {
                match self.mode {
                    DeckSelectionMode::Manage => {
                        if self.focus_area == 0 {
                            self.move_up();
                        } else if self.selected_management_action > 0 {
                            self.selected_management_action = self.selected_management_action - 1;
                        }
                    },
                    DeckSelectionMode::ManageCards => self.move_card_up(),
                    _ => {},
                }
                assert(final(self)@ =~= deck_action_spec(v, action).0);
                None
            },
            Action::Down => {
                match self.mode {
                    DeckSelectionMode::Manage => {
                        if self.focus_area == 0 {
                            self.move_down();
                        } else if self.selected_management_action < MANAGEMENT_ACTIONS - 1 {
                            self.selected_management_action = self.selected_management_action + 1;
                        }
                    },
                    DeckSelectionMode::ManageCards => self.move_card_down(),
                    _ => {},
                }
                assert(final(self)@ =~= deck_action_spec(v, action).0);
                None
            },
            Action::Left => {
                match self.mode {
                    DeckSelectionMode::ManageCards => self.move_card_action_up(),
                    DeckSelectionMode::Manage => {
                        if self.focus_area > 0 {
                            self.focus_area = self.focus_area - 1;
                        }
                    },
                    _ => {},
                }
                assert(final(self)@ =~= deck_action_spec(v, action).0);
                None
            },
            Action::Right => {
                match self.mode {
                    DeckSelectionMode::ManageCards => self.move_card_action_down(),
                    DeckSelectionMode::Manage => {
                        if self.focus_area < 1 {
                            self.focus_area = self.focus_area + 1;
                        }
                    },
                    _ => {},
                }
                assert(final(self)@ =~= deck_action_spec(v, action).0);
                None
            },
            Action::Tab => {
                if self.mode == DeckSelectionMode::Manage {
                    self.focus_area = if self.focus_area == 0 {
                        1
                    } else {
                        0
                    };
                }
                assert(final(self)@ =~= deck_action_spec(v, action).0);
                None
            },
            Action::Select => {
                self.select_action();
                None
            },
            Action::Cancel => self.cancel_action(),
            Action::Create => {
                self.mode = DeckSelectionMode::Create;
                self.edit_field = String::new();
                self.edit_position = 0;
                assert(final(self)@ =~= deck_action_spec(v, action).0);
                None
            },
            Action::Delete => {
                if self.selected_deck < self.decks.len() && self.mode == DeckSelectionMode::Manage {
                    let q = Self::delete_question_of(&self.decks[self.selected_deck].name);
                    self.mode = DeckSelectionMode::Delete;
                    self.show_confirm_dialog = true;
                    self.confirm_message = q;
                }
                assert(final(self)@ =~= deck_action_spec(v, action).0);
                None
            },
            Action::Edit => {
                if self.selected_deck < self.decks.len() {
                    let name = self.decks[self.selected_deck].name.clone();
                    self.mode = DeckSelectionMode::Edit;
                    self.edit_field = name;
                    self.edit_position = 0;
                }
                assert(final(self)@ =~= deck_action_spec(v, action).0);
                None
            },
            Action::Char(c) => {
                self.char_action(c);
                None
            },
            Action::Backspace => {
                self.backspace_action();
                None
            },
            _ => None,
        }
    }
}

/// In deck management, moving the focus to the actions panel and running
/// "Edit Deck Properties" on the selected deck opens it for editing under
/// its own name: the operation asked for is an update of that deck, never
/// the creation of a new one.
pub proof fn lemma_edit_action_updates_selected_deck(v: DeckSelectorView)
    requires
        v.mode == DeckSelectionMode::Manage,
        !v.show_confirm_dialog,
        has_selection(v),
        v.selected_management_action == 0,
        v.focus_area < 2,
        selected_name(v).len() > 0,
    ensures
        ({
            let w = deck_action_spec(deck_action_spec(v, Action::Right).0, Action::Select).0;
            &&& w.mode == DeckSelectionMode::Edit
            &&& w.edit_field == selected_name(v)
            &&& w.decks == v.decks && w.selected_deck == v.selected_deck
            &&& pending_operation_spec(w) == Some(
                DeckOperationView::Update { deck_uuid: selected_uuid(v), name: selected_name(v) },
            )
            &&& !(pending_operation_spec(w) matches Some(DeckOperationView::Create { .. }))
        }),
{
}

/// In deck management with the deck list focused, down selects the deck
/// just below (staying on the last) and up the deck just above (staying on
/// the first); down then up returns to the deck left, unless it was the
/// last.
pub proof fn lemma_deck_list_moves_by_one(v: DeckSelectorView)
    requires
        v.mode == DeckSelectionMode::Manage,
        v.focus_area == 0,
        v.selected_deck < v.decks.len(),
    ensures
        deck_action_spec(v, Action::Down).0.selected_deck == if v.selected_deck + 1 < v.decks.len() {
            v.selected_deck + 1
        } else {
            v.selected_deck
        },
        deck_action_spec(v, Action::Up).0.selected_deck == if v.selected_deck > 0 {
            v.selected_deck - 1
        } else {
            0
        },
        deck_action_spec(v, Action::Down).0.decks == v.decks,
        deck_action_spec(v, Action::Up).0.decks == v.decks,
        v.selected_deck + 1 < v.decks.len() ==> deck_action_spec(deck_action_spec(v, Action::Down).0, Action::Up).0.selected_deck
            == v.selected_deck,
{
}

/// Running the export or the statistics action on the selected deck asks
/// for that operation on that deck: an export to a file named after the
/// deck, or its statistics.
pub proof fn lemma_export_and_statistics_target_selected_deck(v: DeckSelectorView)
    requires
        v.mode == DeckSelectionMode::Manage,
        !v.show_confirm_dialog,
        has_selection(v),
        v.focus_area == 1,
    ensures
        v.selected_management_action == 2 ==> pending_operation_spec(deck_action_spec(v, Action::Select).0) == Some(
            DeckOperationView::Export { deck_uuid: selected_uuid(v), file_path: selected_name(v) + ".toml"@ },
        ),
        v.selected_management_action == 4 ==> pending_operation_spec(deck_action_spec(v, Action::Select).0) == Some(
            DeckOperationView::ViewStatistics { deck_uuid: selected_uuid(v) },
        ),
        v.selected_management_action == 1 ==> deck_action_spec(v, Action::Select).0.show_confirm_dialog
            && deck_action_spec(v, Action::Select).0.mode == DeckSelectionMode::Manage,
{
}

} // verus!
