//! What the application does with a command: the change of the state store
//! and the one piece of outside work (a core request) left to perform.
use vstd::prelude::*;
use vstd::string::*;
use crate::command::{Command, CommandKind, CommandType, CommandTypeView, Rating, Screen, spec_rating_of};
use crate::model::{CardSummary, DeckSummary, SessionState};
use crate::store::{
    MessageLevel, StoreMessage, UiAppState, MAIN_MENU_ITEMS, SETTINGS_ITEMS, flag_text, history_after,
    ui_flag, bool_text, is_true_text,
};
use crate::text::{
    contains_text, decimal, lemma_parse_decimal, lowercase, parse_unsigned, parse_u32, parse_usize, str_contains,
    str_eq, string_pop, to_lowercase, u64_to_text,
};
use crate::tui_error::TuiError;
use crate::ui_map::UiMap;

verus! {

/// A message as a value.
pub struct MessageView {
    pub level: MessageLevel,
    pub title: Seq<char>,
    pub content: Seq<char>,
}

/// The store as a value.
#[verifier::ext_equal]
pub struct StoreView {
    pub screen: Screen,
    pub history: Seq<Screen>,
    pub ui: Map<Seq<char>, Seq<char>>,
    pub deck_list_selected: Option<usize>,
    pub selected_deck_id: Option<u128>,
    pub showing_answer: bool,
    pub card_study: bool,
    pub session: Option<SessionState>,
    pub main_menu_selected: usize,
    pub settings_selected: usize,
    pub theme: Seq<char>,
    pub display_name: Seq<char>,
    pub auto_advance: bool,
    pub show_progress: bool,
    pub message: Option<MessageView>,
    pub loading: bool,
    pub error: Option<Seq<char>>,
    pub actions: Seq<Seq<char>>,
}

pub open spec fn opt_text(o: Option<String>) -> Option<Seq<char>> {
    match o {
        Some(s) => Some(s@),
        None => None,
    }
}

pub open spec fn texts_of(v: Seq<String>) -> Seq<Seq<char>> {
    v.map_values(|s: String| s@)
}

pub open spec fn message_view(m: Option<StoreMessage>) -> Option<MessageView> {
    match m {
        Some(m) => Some(MessageView { level: m.level, title: m.title@, content: m.content@ }),
        None => None,
    }
}

impl View for UiAppState {
    type V = StoreView;

    open spec fn view(&self) -> StoreView {
        StoreView {
            screen: self.current_screen,
            history: self.navigation_history@,
            ui: self.ui_state@,
            deck_list_selected: self.deck_list_selected,
            selected_deck_id: self.selected_deck_id,
            showing_answer: self.showing_answer,
            card_study: self.current_card_study,
            session: self.current_session,
            main_menu_selected: self.main_menu_selected,
            settings_selected: self.settings_selected,
            theme: self.user_preferences.theme@,
            display_name: self.user_preferences.display_name@,
            auto_advance: self.user_preferences.auto_advance,
            show_progress: self.user_preferences.show_progress,
            message: message_view(self.message),
            loading: self.loading,
            error: opt_text(self.error),
            actions: texts_of(self.action_history@),
        }
    }
}

/// Outside work that a command leaves to the application after the store has changed.
#[derive(Debug, Clone, Copy, PartialEq, Eq, Structural)]
pub enum CoreRequest {
    /// Start a study session on the deck.
    StartStudySession(u128),
    EndStudySession,
    RateCard(Rating),
    SkipCurrentCard,
    BuryCard,
    SuspendCard,
    UnburyCard,
    UnsuspendCard,
    /// Remove the tag at this position of the tag list from every card.
    DeleteSelectedTag(usize),
    CleanOrphanedMedia,
    RefreshCoreData,
    DataImport,
    DataExport,
    DataBackup,
    DataRestore,
    DataClear,
    /// Delete the deck at `index` of the `count` decks listed.
    DeleteDeckAt { uuid: u128, index: usize, count: usize },
    /// Create the deck that the command names.
    CreateDeck,
    DeleteDeck(u128),
    RefreshDeckStatistics(u128),
    LoadDeckStatistics(u128),
    Quit,
}

/// The data a command may read from the core, fetched before it runs.
pub struct CommandContext {
    /// Every deck with its cards, or the error of fetching them.
    pub decks: Result<Vec<(DeckSummary, Vec<CardSummary>)>, String>,
    /// The theme of the saved configuration, when a configuration is loaded.
    pub config_theme: Option<String>,
}

/// The context as a value: deck ids, names and descriptions, tags, theme.
pub struct ContextView {
    pub decks: Result<Seq<(u128, Seq<char>, Option<Seq<char>>)>, Seq<char>>,
    pub tags: Set<Seq<char>>,
    pub config_theme: Option<Seq<char>>,
}

pub open spec fn deck_row(d: (DeckSummary, Vec<CardSummary>)) -> (u128, Seq<char>, Option<Seq<char>>) {
    (
        d.0.uuid,
        d.0.name@,
        match d.0.description {
            Some(s) => Some(s@),
            None => None,
        },
    )
}

/// The set of tags used by any card of any deck.
pub open spec fn tag_set(decks: Seq<(DeckSummary, Vec<CardSummary>)>) -> Set<Seq<char>> {
    Set::new(
        |t: Seq<char>|
            exists|i: int, j: int, k: int|
                #![trigger decks[i].1@[j].tags@[k]]
                0 <= i < decks.len() && 0 <= j < decks[i].1@.len() && 0 <= k
                    < decks[i].1@[j].tags@.len() && decks[i].1@[j].tags@[k]@ == t,
    )
}


/// The tags met before position (i, j, k): deck i, card j, tag k.
pub open spec fn tags_before(decks: Seq<(DeckSummary, Vec<CardSummary>)>, i: int, j: int, k: int) -> Set<Seq<char>> {
    Set::new(
        |t: Seq<char>|
            exists|a: int, b: int, c: int|
                #![trigger decks[a].1@[b].tags@[c]]
                0 <= a < decks.len() && 0 <= b < decks[a].1@.len() && 0 <= c
                    < decks[a].1@[b].tags@.len() && decks[a].1@[b].tags@[c]@ == t && (a < i || (a
                    == i && (b < j || (b == j && c < k)))),
    )
}

fn texts_contain(seen: &Vec<String>, t: &String) -> (b: bool)
    ensures
        b == exists|i: int| 0 <= i < seen@.len() && (#[trigger] seen@[i])@ == t@,
{
    let n = seen.len();
    let mut i: usize = 0;
    while i < n
        invariant
            n == seen@.len(),
            i <= n,
            forall|j: int| 0 <= j < i ==> (#[trigger] seen@[j])@ != t@,
        decreases n - i,
    {
        if str_eq(seen[i].as_str(), t.as_str()) {
            return true;
        }
        i = i + 1;
    }
    false
}

pub open spec fn texts_view(v: Seq<String>) -> Seq<Seq<char>> {
    v.map_values(|s: String| s@)
}

/// The number of different tags used by the cards of the decks.
pub fn distinct_tag_count(decks: &Vec<(DeckSummary, Vec<CardSummary>)>) -> (n: usize)
    ensures
        tag_set(decks@).finite(),
        n == tag_set(decks@).len(),
{
    let ghost d = decks@;
    let mut seen: Vec<String> = Vec::new();
    let nd = decks.len();
    let mut i: usize = 0;
    proof {
        assert(texts_view(seen@).to_set() =~= tags_before(d, 0, 0, 0));
    }
    while i < nd
        invariant
            d == decks@,
            nd == d.len(),
            i <= nd,
            texts_view(seen@).no_duplicates(),
            texts_view(seen@).to_set() == tags_before(d, i as int, 0, 0),
        decreases nd - i,
    {
        let cards = &decks[i].1;
        let nc = cards.len();
        let mut j: usize = 0;
        while j < nc
            invariant
                d == decks@,
                nd == d.len(),
                i < nd,
                cards@ == d[i as int].1@,
                nc == cards@.len(),
                j <= nc,
                texts_view(seen@).no_duplicates(),
                texts_view(seen@).to_set() == tags_before(d, i as int, j as int, 0),
            decreases nc - j,
        {
            let tags = &cards[j].tags;
            let nt = tags.len();
            let mut k: usize = 0;
            while k < nt
                invariant
                    d == decks@,
                    nd == d.len(),
                    i < nd,
                    cards@ == d[i as int].1@,
                    nc == cards@.len(),
                    j < nc,
                    tags@ == d[i as int].1@[j as int].tags@,
                    nt == tags@.len(),
                    k <= nt,
                    texts_view(seen@).no_duplicates(),
                    texts_view(seen@).to_set() == tags_before(d, i as int, j as int, k as int),
                decreases nt - k,
            {
                let t = &tags[k];
                let ghost old_seen = texts_view(seen@);
                let present = texts_contain(&seen, t);
                if !present {
                    seen.push(t.clone());
                }
                proof {
                    let sv = texts_view(seen@);
                    if !present {
                        assert(sv =~= old_seen.push(t@));
                        assert forall|x: int, y: int| 0 <= x < sv.len() && 0 <= y < sv.len() && x != y implies sv[x] != sv[y] by {
                            if x < old_seen.len() && y < old_seen.len() {
                            } else if x < old_seen.len() {
                                assert(seen@[x]@ == old_seen[x]);
                            } else if y < old_seen.len() {
                                assert(seen@[y]@ == old_seen[y]);
                            }
                        }
                    } else {
                        let w = choose|w: int| 0 <= w < seen@.len() && (#[trigger] seen@[w])@ == t@;
                        assert(old_seen[w] == t@);
                    }
                    let target = tags_before(d, i as int, j as int, (k + 1) as int);
                    let prev = tags_before(d, i as int, j as int, k as int);
                    assert forall|x: Seq<char>| sv.to_set().contains(x) <==> target.contains(x) by {
                        if target.contains(x) {
                            let (a, b, c) = choose|a: int, b: int, c: int|
                                #![trigger d[a].1@[b].tags@[c]]
                                0 <= a < d.len() && 0 <= b < d[a].1@.len() && 0 <= c
                                    < d[a].1@[b].tags@.len() && d[a].1@[b].tags@[c]@ == x && (a < i || (a
                                    == i && (b < j || (b == j && c < k + 1))));
                            if !(a == i && b == j && c == k) {
                                assert(prev.contains(x));
                                assert(old_seen.to_set().contains(x));
                                let w = choose|w: int| 0 <= w < old_seen.len() && old_seen[w] == x;
                                if !present {
                                    assert(sv[w] == x);
                                } else {
                                    assert(sv[w] == x);
                                }
                            } else {
                                assert(x == t@);
                                if !present {
                                    assert(sv[old_seen.len() as int] == x);
                                } else {
                                    let w = choose|w: int| 0 <= w < seen@.len() && (#[trigger] seen@[w])@ == t@;
                                    assert(sv[w] == x);
                                }
                            }
                        }
                        if sv.to_set().contains(x) {
                            let w = choose|w: int| 0 <= w < sv.len() && sv[w] == x;
                            if w < old_seen.len() {
                                assert(old_seen.to_set().contains(x));
                                assert(prev.contains(x));
                                let (a, b, c) = choose|a: int, b: int, c: int|
                                    #![trigger d[a].1@[b].tags@[c]]
                                    0 <= a < d.len() && 0 <= b < d[a].1@.len() && 0 <= c
                                        < d[a].1@[b].tags@.len() && d[a].1@[b].tags@[c]@ == x && (a < i || (a
                                        == i && (b < j || (b == j && c < k))));
                                assert(target.contains(x));
                            } else {
                                assert(x == t@);
                                assert(d[i as int].1@[j as int].tags@[k as int]@ == x);
                                assert(target.contains(x));
                            }
                        }
                    }
                    assert(sv.to_set() =~= target);
                }
                k = k + 1;
            }
            proof {
                let a1 = tags_before(d, i as int, j as int, nt as int);
                let a2 = tags_before(d, i as int, (j + 1) as int, 0);
                assert forall|x: Seq<char>| a1.contains(x) <==> a2.contains(x) by {
                    if a1.contains(x) {
                        let (a, b, c) = choose|a: int, b: int, c: int|
                            #![trigger d[a].1@[b].tags@[c]]
                            0 <= a < d.len() && 0 <= b < d[a].1@.len() && 0 <= c
                                < d[a].1@[b].tags@.len() && d[a].1@[b].tags@[c]@ == x && (a < i || (a
                                == i && (b < j || (b == j && c < nt))));
                        assert(a2.contains(x));
                    }
                    if a2.contains(x) {
                        let (a, b, c) = choose|a: int, b: int, c: int|
                            #![trigger d[a].1@[b].tags@[c]]
                            0 <= a < d.len() && 0 <= b < d[a].1@.len() && 0 <= c
                                < d[a].1@[b].tags@.len() && d[a].1@[b].tags@[c]@ == x && (a < i || (a
                                == i && (b < j + 1 || (b == j + 1 && c < 0))));
                        assert(a1.contains(x));
                    }
                }
                assert(a1 =~= a2);
            }
            j = j + 1;
        }
        proof {
            let a1 = tags_before(d, i as int, nc as int, 0);
            let a2 = tags_before(d, (i + 1) as int, 0, 0);
            assert forall|x: Seq<char>| a1.contains(x) <==> a2.contains(x) by {
                if a1.contains(x) {
                    let (a, b, c) = choose|a: int, b: int, c: int|
                        #![trigger d[a].1@[b].tags@[c]]
                        0 <= a < d.len() && 0 <= b < d[a].1@.len() && 0 <= c
                            < d[a].1@[b].tags@.len() && d[a].1@[b].tags@[c]@ == x && (a < i || (a
                            == i && (b < nc || (b == nc && c < 0))));
                    assert(a2.contains(x));
                }
                if a2.contains(x) {
                    let (a, b, c) = choose|a: int, b: int, c: int|
                        #![trigger d[a].1@[b].tags@[c]]
                        0 <= a < d.len() && 0 <= b < d[a].1@.len() && 0 <= c
                            < d[a].1@[b].tags@.len() && d[a].1@[b].tags@[c]@ == x && (a < i + 1 || (a
                            == i + 1 && (b < 0 || (b == 0 && c < 0))));
                    assert(a1.contains(x));
                }
            }
            assert(a1 =~= a2);
        }
        i = i + 1;
    }
    proof {
        let a1 = tags_before(d, nd as int, 0, 0);
        assert forall|x: Seq<char>| a1.contains(x) <==> tag_set(d).contains(x) by {
            if tag_set(d).contains(x) {
                let (a, b, c) = choose|a: int, b: int, c: int|
                    #![trigger d[a].1@[b].tags@[c]]
                    0 <= a < d.len() && 0 <= b < d[a].1@.len() && 0 <= c
                        < d[a].1@[b].tags@.len() && d[a].1@[b].tags@[c]@ == x;
                assert(a1.contains(x));
            }
        }
        assert(a1 =~= tag_set(d));
        texts_view(seen@).unique_seq_to_set();
    }
    seen.len()
}

impl View for CommandContext {
    type V = ContextView;

    open spec fn view(&self) -> ContextView {
        ContextView {
            decks: match self.decks {
                Ok(v) => Ok(v@.map_values(|d: (DeckSummary, Vec<CardSummary>)| deck_row(d))),
                Err(e) => Err(e@),
            },
            tags: match self.decks {
                Ok(v) => tag_set(v@),
                Err(_) => Set::empty(),
            },
            config_theme: match self.config_theme {
                Some(t) => Some(t@),
                None => None,
            },
        }
    }
}

/// The result of a command as a value: the new store and the outside work,
/// or the text of the error that stopped it.
pub type ExecView = Result<(StoreView, Option<CoreRequest>), Seq<char>>;

/// Goes to a screen.
pub open spec fn nav(v: StoreView, target: Screen) -> StoreView {
    StoreView { screen: target, history: history_after(v.screen, target, v.history), ..v }
}

/// Shows a message.
pub open spec fn msg(v: StoreView, level: MessageLevel, title: Seq<char>, content: Seq<char>) -> StoreView {
    StoreView { message: Some(MessageView { level, title, content }), ..v }
}

/// Sets an interface value.
pub open spec fn set_ui(v: StoreView, k: Seq<char>, val: Seq<char>) -> StoreView {
    StoreView { ui: v.ui.insert(k, val), ..v }
}

/// Sets an interface value only when absent.
pub open spec fn init_ui(v: StoreView, k: Seq<char>, val: Seq<char>) -> StoreView {
    if v.ui.contains_key(k) {
        v
    } else {
        set_ui(v, k, val)
    }
}

/// The interface value of a key read as a `usize`; absent or unreadable gives `d`.
pub open spec fn ui_usize(m: Map<Seq<char>, Seq<char>>, k: Seq<char>, d: nat) -> nat {
    if m.contains_key(k) {
        match parse_unsigned(m[k], usize::MAX as nat) {
            Some(v) => v,
            None => d,
        }
    } else {
        d
    }
}

/// The interface value of a key read as a `u32`; absent or unreadable gives `d`.
pub open spec fn ui_u32(m: Map<Seq<char>, Seq<char>>, k: Seq<char>, d: nat) -> nat {
    if m.contains_key(k) {
        match parse_unsigned(m[k], u32::MAX as nat) {
            Some(v) => v,
            None => d,
        }
    } else {
        d
    }
}

/// Sets a number.
pub open spec fn set_num(v: StoreView, k: Seq<char>, n: nat) -> StoreView {
    set_ui(v, k, decimal(n))
}

/// Flips a flag whose absence reads as `d`.
pub open spec fn flip(v: StoreView, k: Seq<char>, d: bool) -> StoreView {
    set_ui(v, k, flag_text(!ui_flag(v.ui, k, d)))
}

impl UiAppState {
    /// Reads a number, with a default for absent or unreadable values.
    pub fn read_usize(&self, key: &str, default: usize) -> (n: usize)
        requires
            self.wf(),
        ensures
            n as nat == ui_usize(self.ui_state@, key@, default as nat),
    {
        match self.ui_state.get(key) {
            Some(s) => match parse_usize(s.as_str()) {
                Some(v) => v,
                None => default,
            },
            None => default,
        }
    }

    /// Writes a number.
    pub fn write_usize(&mut self, key: &str, n: usize)
        requires
            old(self).wf(),
        ensures
            final(self).wf(),
            final(self)@ == set_num(old(self)@, key@, n as nat),
            final(self).loading == old(self).loading,
            final(self).user_preferences == old(self).user_preferences,
            final(self).current_session == old(self).current_session,
    {
        let t = u64_to_text(n as u64);
        self.ui_state.insert(String::from_str(key), t);
        assert(final(self)@ =~= set_num(old(self)@, key@, n as nat));
    }

    /// Writes a text.
    pub fn write_text(&mut self, key: &str, value: &str)
        requires
            old(self).wf(),
        ensures
            final(self).wf(),
            final(self)@ == set_ui(old(self)@, key@, value@),
            final(self).loading == old(self).loading,
            final(self).user_preferences == old(self).user_preferences,
            final(self).current_session == old(self).current_session,
    {
        self.ui_state.insert(String::from_str(key), String::from_str(value));
        assert(final(self)@ =~= set_ui(old(self)@, key@, value@));
    }

    /// Writes a text only when the key is absent.
    pub fn init_text(&mut self, key: &str, value: &str)
        requires
            old(self).wf(),
        ensures
            final(self).wf(),
            final(self)@ == init_ui(old(self)@, key@, value@),
            final(self).loading == old(self).loading,
            final(self).user_preferences == old(self).user_preferences,
            final(self).current_session == old(self).current_session,
    {
        self.ui_state.or_insert(String::from_str(key), String::from_str(value));
        assert(final(self)@ =~= init_ui(old(self)@, key@, value@));
    }

    /// Flips a flag whose absence reads as `default`.
    pub fn flip_flag(&mut self, key: &str, default: bool)
        requires
            old(self).wf(),
        ensures
            final(self).wf(),
            final(self)@ == flip(old(self)@, key@, default),
            final(self).loading == old(self).loading,
            final(self).user_preferences == old(self).user_preferences,
            final(self).current_session == old(self).current_session,
    {
        let current = match self.ui_state.get(key) {
            Some(s) => is_true_text(s.as_str()),
            None => default,
        };
        self.ui_state.insert(String::from_str(key), bool_text(!current));
        assert(final(self)@ =~= flip(old(self)@, key@, default));
    }

    /// Shows a message.
    pub fn say(&mut self, level: MessageLevel, title: &str, content: &str)
        ensures
            final(self).wf() == old(self).wf(),
            final(self)@ == msg(old(self)@, level, title@, content@),
            final(self).loading == old(self).loading,
            final(self).user_preferences == old(self).user_preferences,
            final(self).current_session == old(self).current_session,
    {
        self.message = Some(StoreMessage::new(level, title, content));
        assert(final(self)@ =~= msg(old(self)@, level, title@, content@));
    }

    /// Goes to a screen.
    pub fn go(&mut self, target: Screen)
        ensures
            final(self).wf() == old(self).wf(),
            final(self)@ == nav(old(self)@, target),
            final(self).loading == old(self).loading,
            final(self).user_preferences == old(self).user_preferences,
            final(self).current_session == old(self).current_session,
    {
        self.navigate_to(target);
        assert(final(self)@ =~= nav(old(self)@, target));
    }
}

} // verus!

verus! {

pub open spec fn sel_or_zero(o: Option<usize>) -> int {
    match o {
        Some(i) => i as int,
        None => 0,
    }
}

pub open spec fn with_list_selection(v: StoreView, i: int) -> StoreView {
    StoreView { deck_list_selected: Some(i as usize), ..v }
}

pub open spec fn with_selected_deck(v: StoreView, id: u128) -> StoreView {
    StoreView { selected_deck_id: Some(id), ..v }
}

/// The screen that a main-menu entry opens; later entries open nothing.
pub open spec fn main_menu_selection_spec(v: StoreView, idx: int) -> StoreView {
    if idx == 0 {
        nav(v, Screen::DeckSelection)
    } else if idx == 1 {
        nav(v, Screen::DeckManagement)
    } else if idx == 2 {
        nav(v, Screen::Statistics)
    } else if idx == 3 {
        nav(v, Screen::Settings)
    } else {
        v
    }
}

/// Enter on the deck list: study the highlighted deck.
pub open spec fn confirm_deck_spec(v: StoreView, c: ContextView) -> ExecView {
    match c.decks {
        Err(e) => Err(e),
        Ok(d) => if d.len() == 0 {
            Ok(
                (
                    msg(v, MessageLevel::Warning, "No Decks"@, "No decks available. Create a deck first."@),
                    None,
                ),
            )
        } else {
            let idx = sel_or_zero(v.deck_list_selected);
            if idx < d.len() {
                Ok(
                    (
                        with_selected_deck(v, d[idx].0),
                        Some(CoreRequest::StartStudySession(d[idx].0)),
                    ),
                )
            } else {
                Ok((msg(v, MessageLevel::Error, "Error"@, "Invalid deck selection"@), None))
            }
        },
    }
}

/// The data operation of an entry of the data screen.
pub open spec fn data_request(idx: int) -> Option<CoreRequest> {
    if idx == 0 {
        Some(CoreRequest::DataImport)
    } else if idx == 1 {
        Some(CoreRequest::DataExport)
    } else if idx == 2 {
        Some(CoreRequest::DataBackup)
    } else if idx == 3 {
        Some(CoreRequest::DataRestore)
    } else if idx == 4 {
        Some(CoreRequest::DataClear)
    } else {
        None
    }
}

/// Enter, depending on the screen.
pub open spec fn confirm_spec(v: StoreView, c: ContextView) -> ExecView {
    match v.screen {
        Screen::MainMenu => Ok((main_menu_selection_spec(v, v.main_menu_selected as int), None)),
        Screen::DeckSelection | Screen::DeckManagement => confirm_deck_spec(v, c),
        Screen::UiSettings => {
            let idx = ui_usize(v.ui, "ui_settings_index"@, 0);
            if idx == 2 {
                Ok((flip(v, "auto_advance"@, false), None))
            } else if idx == 3 {
                Ok((flip(v, "show_progress"@, true), None))
            } else {
                Ok((v, None))
            }
        },
        Screen::DataManage => Ok((v, data_request(ui_usize(v.ui, "data_index"@, 0) as int))),
        _ => Ok((v, None)),
    }
}

/// Study the selected deck, or else the one highlighted in the list.
pub open spec fn start_default_spec(v: StoreView, c: ContextView) -> ExecView {
    match v.selected_deck_id {
        Some(id) => Ok((v, Some(CoreRequest::StartStudySession(id)))),
        None => match c.decks {
            Err(e) => Err(e),
            Ok(d) => {
                let idx = sel_or_zero(v.deck_list_selected);
                if idx < d.len() {
                    Ok(
                        (
                            with_selected_deck(v, d[idx].0),
                            Some(CoreRequest::StartStudySession(d[idx].0)),
                        ),
                    )
                } else {
                    Ok((v, None))
                }
            },
        },
    }
}

/// The deck above in the list, wrapping to the last.
pub open spec fn deck_up_spec(v: StoreView, c: ContextView) -> ExecView {
    match c.decks {
        Err(e) => Err(e),
        Ok(d) => if d.len() == 0 {
            Ok((v, None))
        } else {
            let cur = sel_or_zero(v.deck_list_selected);
            Ok((with_list_selection(v, if cur == 0 { d.len() - 1 } else { cur - 1 }), None))
        },
    }
}

/// The deck below in the list, wrapping to the first.
pub open spec fn deck_down_spec(v: StoreView, c: ContextView) -> ExecView {
    match c.decks {
        Err(e) => Err(e),
        Ok(d) => if d.len() == 0 {
            Ok((v, None))
        } else {
            let cur = sel_or_zero(v.deck_list_selected);
            Ok((with_list_selection(v, if cur >= d.len() - 1 { 0 } else { cur + 1 }), None))
        },
    }
}

/// The statistics tab after scrolling: three tabs, no wrap.
pub open spec fn stats_scroll_spec(v: StoreView, down: bool) -> StoreView {
    let idx = ui_usize(v.ui, "stats_tab"@, 0);
    set_num(
        v,
        "stats_tab"@,
        if down {
            if idx + 1 < 2 {
                idx + 1
            } else {
                2
            }
        } else {
            if idx > 0 {
                (idx - 1) as nat
            } else {
                0
            }
        },
    )
}

/// Select on the interface settings: flip the highlighted switch.
pub open spec fn select_spec(v: StoreView) -> StoreView {
    if v.screen == Screen::UiSettings {
        let idx = ui_usize(v.ui, "ui_settings_index"@, 0);
        if idx == 2 {
            flip(v, "auto_advance"@, false)
        } else if idx == 3 {
            flip(v, "show_progress"@, false)
        } else {
            v
        }
    } else {
        v
    }
}

pub open spec fn create_deck_prompt_spec(v: StoreView) -> StoreView {
    msg(
        set_ui(nav(v, Screen::DeckManagement), "deck_management_mode"@, "create"@),
        MessageLevel::Info,
        "Create Deck"@,
        "Use the CLI to create new decks: ankitui create-deck"@,
    )
}

/// Delete: on deck management the highlighted deck; elsewhere go there first.
pub open spec fn delete_deck_prompt_spec(v: StoreView, c: ContextView) -> ExecView {
    if v.screen == Screen::DeckManagement {
        let sel = sel_or_zero(v.deck_list_selected);
        match c.decks {
            Err(e) => Err(e),
            Ok(d) => if sel < d.len() {
                Ok(
                    (
                        v,
                        Some(
                            CoreRequest::DeleteDeckAt {
                                uuid: d[sel].0,
                                index: sel as usize,
                                count: d.len() as usize,
                            },
                        ),
                    ),
                )
            } else {
                Ok((v, None))
            },
        }
    } else {
        Ok(
            (
                msg(
                    set_ui(nav(v, Screen::DeckManagement), "deck_management_mode"@, "delete"@),
                    MessageLevel::Info,
                    "Delete Deck"@,
                    "Select a deck and press D or Delete to remove it"@,
                ),
                None,
            ),
        )
    }
}

/// The map after setting each pair in turn.
pub open spec fn insert_pairs(m: Map<Seq<char>, Seq<char>>, p: Seq<(Seq<char>, Seq<char>)>) -> Map<
    Seq<char>,
    Seq<char>,
>
    decreases p.len(),
{
    if p.len() == 0 {
        m
    } else {
        insert_pairs(m, p.drop_last()).insert(p.last().0, p.last().1)
    }
}

pub open spec fn update_theme_spec(v: StoreView, t: Seq<char>) -> StoreView {
    msg(
        StoreView { theme: t, ..set_ui(v, "theme"@, t) },
        MessageLevel::Success,
        "Theme Updated"@,
        "Theme changed to "@ + t,
    )
}

pub open spec fn update_language_spec(v: StoreView, l: Seq<char>) -> StoreView {
    msg(
        v,
        MessageLevel::Info,
        "Language"@,
        "Language setting '"@ + l + "' noted. Full language support coming soon."@,
    )
}

pub open spec fn study_goals_spec(v: StoreView, cards: nat, minutes: nat) -> StoreView {
    msg(
        set_num(set_num(v, "daily_goal_cards"@, cards), "daily_goal_minutes"@, minutes),
        MessageLevel::Success,
        "Study Goals Updated"@,
        "Daily goals: "@ + decimal(cards) + " cards, "@ + decimal(minutes) + " minutes"@,
    )
}

/// Page up and home: top of the deck list, first statistics tab.
pub open spec fn top_spec(v: StoreView) -> StoreView {
    match v.screen {
        Screen::DeckSelection => with_list_selection(v, 0),
        Screen::Statistics => set_ui(v, "stats_tab"@, "0"@),
        _ => v,
    }
}

/// Page down: bottom of the deck list (a failed deck fetch is an error),
/// last statistics tab.
pub open spec fn page_down_spec(v: StoreView, c: ContextView) -> ExecView {
    match v.screen {
        Screen::DeckSelection => match c.decks {
            Err(e) => Err(e),
            Ok(d) => if d.len() > 0 {
                Ok((with_list_selection(v, d.len() - 1), None))
            } else {
                Ok((v, None))
            },
        },
        Screen::Statistics => Ok((set_ui(v, "stats_tab"@, "2"@), None)),
        _ => Ok((v, None)),
    }
}

/// End: bottom of the deck list (a failed deck fetch changes nothing),
/// last statistics tab.
pub open spec fn end_spec(v: StoreView, c: ContextView) -> StoreView {
    match v.screen {
        Screen::DeckSelection => match c.decks {
            Ok(d) => if d.len() > 0 {
                with_list_selection(v, d.len() - 1)
            } else {
                v
            },
            Err(_) => v,
        },
        Screen::Statistics => set_ui(v, "stats_tab"@, "2"@),
        _ => v,
    }
}

pub open spec fn start_search_spec(v: StoreView) -> StoreView {
    init_ui(
        init_ui(
            init_ui(init_ui(nav(v, Screen::Search), "search_type"@, "Decks"@), "search_query"@, ""@),
            "search_result_index"@,
            "0"@,
        ),
        "search_result_count"@,
        "0"@,
    )
}

pub open spec fn ui_text_or(m: Map<Seq<char>, Seq<char>>, k: Seq<char>, d: Seq<char>) -> Seq<char> {
    if m.contains_key(k) {
        m[k]
    } else {
        d
    }
}

/// Typed search input: extend the query, note the kind of search.
pub open spec fn search_text_spec(v: StoreView, q: Seq<char>, decks: bool) -> StoreView {
    let cur = ui_text_or(v.ui, "search_query"@, ""@);
    set_ui(
        set_ui(v, "search_query"@, cur + q),
        "search_type"@,
        if decks {
            "Decks"@
        } else {
            "Cards"@
        },
    )
}

pub open spec fn search_backspace_spec(v: StoreView) -> StoreView {
    if v.ui.contains_key("search_query"@) && v.ui["search_query"@].len() > 0 {
        set_ui(v, "search_query"@, v.ui["search_query"@].drop_last())
    } else {
        v
    }
}

pub open spec fn search_down_spec(v: StoreView) -> StoreView {
    let idx = ui_usize(v.ui, "search_result_index"@, 0);
    let max = ui_usize(v.ui, "search_result_count"@, 1);
    if idx + 1 < max {
        set_num(v, "search_result_index"@, idx + 1)
    } else {
        v
    }
}

pub open spec fn search_up_spec(v: StoreView) -> StoreView {
    let idx = ui_usize(v.ui, "search_result_index"@, 0);
    if idx > 0 {
        set_num(v, "search_result_index"@, (idx - 1) as nat)
    } else {
        v
    }
}

/// Whether a deck matches a lower-case query by name or description.
pub open spec fn deck_matches(row: (u128, Seq<char>, Option<Seq<char>>), lower: Seq<char>) -> bool {
    contains_text(lowercase(row.1), lower) || match row.2 {
        Some(desc) => contains_text(lowercase(desc), lower),
        None => false,
    }
}

/// The test that keeps a deck in the results of a lower-case query.
pub open spec fn deck_query(lower: Seq<char>) -> spec_fn((u128, Seq<char>, Option<Seq<char>>)) -> bool {
    |r: (u128, Seq<char>, Option<Seq<char>>)| deck_matches(r, lower)
}

/// Choosing a search result: on a deck search, study the chosen matching deck.
pub open spec fn search_select_spec(v: StoreView, c: ContextView) -> ExecView {
    let idx = ui_usize(v.ui, "search_result_index"@, 0);
    let stype = ui_text_or(v.ui, "search_type"@, "Decks"@);
    if stype == "Decks"@ {
        let v1 = set_num(v, "search_result_selected"@, idx);
        match c.decks {
            Err(_) => Ok((v1, None)),
            Ok(d) => {
                let lower = lowercase(ui_text_or(v1.ui, "search_query"@, ""@));
                let matching = d.filter(deck_query(lower));
                if idx < matching.len() {
                    Ok(
                        (
                            with_selected_deck(v1, matching[idx as int].0),
                            Some(CoreRequest::StartStudySession(matching[idx as int].0)),
                        ),
                    )
                } else {
                    Ok((v1, None))
                }
            },
        }
    } else {
        Ok((v, None))
    }
}

/// The last remembered screen, or the main menu.
pub open spec fn back_spec(v: StoreView) -> StoreView {
    if v.history.len() > 0 {
        StoreView { screen: v.history.last(), history: v.history.drop_last(), ..v }
    } else {
        StoreView { screen: Screen::MainMenu, ..v }
    }
}

/// Back: settings pages return to settings; search, help and deck
/// management to the main menu; other screens to the last remembered one.
pub open spec fn navigate_back_spec(v: StoreView) -> StoreView {
    match v.screen {
        Screen::StudyPrefs | Screen::UiSettings | Screen::DataManage | Screen::TagManagement
        | Screen::MediaManagement => nav(v, Screen::Settings),
        Screen::Search | Screen::Help | Screen::DeckManagement => nav(v, Screen::MainMenu),
        _ => back_spec(v),
    }
}

/// The settings page of an entry of the settings menu.
pub open spec fn settings_target(idx: int) -> Screen {
    if idx == 0 {
        Screen::StudyPrefs
    } else if idx == 1 {
        Screen::UiSettings
    } else if idx == 2 {
        Screen::DataManage
    } else if idx == 3 {
        Screen::TagManagement
    } else if idx == 4 {
        Screen::MediaManagement
    } else {
        Screen::Settings
    }
}

/// Opening a settings page, with its values initialised when absent.
pub open spec fn confirm_setting_spec(v: StoreView) -> StoreView {
    let target = settings_target(v.settings_selected as int);
    let v1 = nav(v, target);
    match target {
        Screen::StudyPrefs => init_ui(
            init_ui(init_ui(v1, "prefs_index"@, "0"@), "new_cards_per_day"@, "20"@),
            "max_reviews_per_day"@,
            "200"@,
        ),
        Screen::UiSettings => init_ui(v1, "ui_settings_index"@, "0"@),
        Screen::DataManage => init_ui(v1, "data_index"@, "0"@),
        Screen::TagManagement => init_ui(v1, "tag_index"@, "0"@),
        Screen::MediaManagement => init_ui(v1, "media_index"@, "0"@),
        _ => v1,
    }
}

/// Tab on the search screen: switch between deck and card search.
pub open spec fn toggle_card_side_spec(v: StoreView) -> StoreView {
    if v.screen == Screen::Search {
        let cur = ui_text_or(v.ui, "search_type"@, "Decks"@);
        set_ui(
            v,
            "search_type"@,
            if cur == "Decks"@ {
                "Cards"@
            } else {
                "Decks"@
            },
        )
    } else {
        v
    }
}

/// The themes, in cycling order.
pub open spec fn theme_name(i: int) -> Seq<char> {
    if i == 0 {
        "default"@
    } else if i == 1 {
        "dark"@
    } else {
        "light"@
    }
}

/// The position of a theme in the cycle; unknown themes count as the first.
pub open spec fn theme_index(t: Seq<char>) -> int {
    if t == "default"@ {
        0
    } else if t == "dark"@ {
        1
    } else if t == "light"@ {
        2
    } else {
        0
    }
}

/// A counter after a step left (down, not below 0) or right (up by one).
pub open spec fn step(val: nat, dec: bool) -> nat {
    if dec {
        if val > 0 {
            (val - 1) as nat
        } else {
            0
        }
    } else {
        val + 1
    }
}

/// Left and right: change the highlighted value of a settings page.
pub open spec fn left_right_spec(v: StoreView, dec: bool) -> StoreView {
    match v.screen {
        Screen::StudyPrefs => {
            let idx = ui_usize(v.ui, "prefs_index"@, 0);
            if idx == 0 {
                set_num(v, "new_cards_per_day"@, step(ui_u32(v.ui, "new_cards_per_day"@, 20), dec))
            } else if idx == 1 {
                set_num(v, "max_reviews_per_day"@, step(ui_u32(v.ui, "max_reviews_per_day"@, 200), dec))
            } else if idx == 2 {
                flip(v, "auto_advance"@, false)
            } else if idx == 3 {
                flip(v, "show_hint"@, true)
            } else {
                v
            }
        },
        Screen::UiSettings => {
            let idx = ui_usize(v.ui, "ui_settings_index"@, 0);
            if idx == 1 {
                let ci = theme_index(ui_text_or(v.ui, "theme"@, v.theme));
                let ni = if dec {
                    if ci > 0 {
                        ci - 1
                    } else {
                        0
                    }
                } else {
                    if ci + 1 < 2 {
                        ci + 1
                    } else {
                        2
                    }
                };
                StoreView { theme: theme_name(ni), ..set_ui(v, "theme"@, theme_name(ni)) }
            } else if idx == 2 {
                flip(v, "auto_advance"@, false)
            } else if idx == 3 {
                flip(v, "show_progress"@, false)
            } else {
                v
            }
        },
        Screen::DataManage => {
            let idx = ui_usize(v.ui, "data_index"@, 0);
            set_num(
                v,
                "data_index"@,
                if dec {
                    step(idx, true)
                } else if idx + 1 < 4 {
                    idx + 1
                } else {
                    4
                },
            )
        },
        _ => v,
    }
}

/// One step up of a counter, stopping at 0.
pub open spec fn dec_ui(v: StoreView, k: Seq<char>) -> StoreView {
    let idx = ui_usize(v.ui, k, 0);
    if idx > 0 {
        set_num(v, k, (idx - 1) as nat)
    } else {
        v
    }
}

/// One step down of a counter, stopping before `limit`.
pub open spec fn inc_ui(v: StoreView, k: Seq<char>, limit: nat) -> StoreView {
    let idx = ui_usize(v.ui, k, 0);
    if idx + 1 < limit {
        set_num(v, k, idx + 1)
    } else {
        v
    }
}

pub open spec fn menu_up(v: StoreView) -> StoreView {
    StoreView {
        main_menu_selected: if v.main_menu_selected > 0 {
            (v.main_menu_selected - 1) as usize
        } else {
            0
        },
        ..v
    }
}

pub open spec fn menu_down(v: StoreView) -> StoreView {
    StoreView {
        main_menu_selected: if v.main_menu_selected + 1 < MAIN_MENU_ITEMS {
            (v.main_menu_selected + 1) as usize
        } else {
            v.main_menu_selected
        },
        ..v
    }
}

pub open spec fn settings_up(v: StoreView) -> StoreView {
    StoreView {
        settings_selected: if v.settings_selected > 0 {
            (v.settings_selected - 1) as usize
        } else {
            0
        },
        ..v
    }
}

pub open spec fn settings_down(v: StoreView) -> StoreView {
    StoreView {
        settings_selected: if v.settings_selected + 1 < SETTINGS_ITEMS {
            (v.settings_selected + 1) as usize
        } else {
            v.settings_selected
        },
        ..v
    }
}

/// The number of tags the tag page moves over: all distinct tags, or one
/// when the decks could not be read.
pub open spec fn tag_count(c: ContextView) -> nat {
    match c.decks {
        Ok(_) => c.tags.len(),
        Err(_) => 1,
    }
}

/// Up, depending on the screen.
pub open spec fn nav_up_spec(v: StoreView, c: ContextView) -> ExecView {
    match v.screen {
        Screen::MainMenu => Ok((menu_up(v), None)),
        Screen::DeckSelection | Screen::DeckManagement => deck_up_spec(v, c),
        Screen::StudyPrefs => Ok((dec_ui(v, "prefs_index"@), None)),
        Screen::UiSettings => Ok((dec_ui(v, "ui_settings_index"@), None)),
        Screen::DataManage => Ok((dec_ui(v, "data_index"@), None)),
        Screen::Help => Ok((dec_ui(v, "help_category"@), None)),
        Screen::Settings => Ok((settings_up(v), None)),
        Screen::TagManagement => {
            let idx = ui_usize(v.ui, "tag_index"@, 0);
            let tc = tag_count(c);
            let max_idx: nat = if tc > 0 {
                (tc - 1) as nat
            } else {
                0
            };
            if idx > 0 && idx <= max_idx {
                Ok((set_num(v, "tag_index"@, (idx - 1) as nat), None))
            } else if idx > max_idx {
                Ok((set_num(v, "tag_index"@, max_idx), None))
            } else {
                Ok((v, None))
            }
        },
        Screen::MediaManagement => Ok((dec_ui(v, "media_index"@), None)),
        _ => Ok((v, None)),
    }
}

/// Down, depending on the screen.
pub open spec fn nav_down_spec(v: StoreView, c: ContextView) -> ExecView {
    match v.screen {
        Screen::MainMenu => Ok((menu_down(v), None)),
        Screen::DeckSelection | Screen::DeckManagement => deck_down_spec(v, c),
        Screen::StudyPrefs => Ok((inc_ui(v, "prefs_index"@, 4), None)),
        Screen::UiSettings => Ok((inc_ui(v, "ui_settings_index"@, 4), None)),
        Screen::DataManage => Ok((inc_ui(v, "data_index"@, 5), None)),
        Screen::Help => Ok((inc_ui(v, "help_category"@, 4), None)),
        Screen::Settings => Ok((settings_down(v), None)),
        Screen::TagManagement => {
            let tc = tag_count(c);
            Ok((inc_ui(v, "tag_index"@, if tc > 1 { tc } else { 1 }), None))
        },
        Screen::MediaManagement => Ok((inc_ui(v, "media_index"@, 9), None)),
        _ => Ok((v, None)),
    }
}

/// What executing a command does: the new store and the outside work left,
/// or the error of the deck fetch it needed.
pub open spec fn execute_spec(v: StoreView, cmd: CommandTypeView, c: ContextView) -> ExecView {
    match cmd {
        CommandKind::NavigateToMainMenu => Ok((nav(v, Screen::MainMenu), None)),
        CommandKind::Confirm => confirm_spec(v, c),
        CommandKind::StartStudySessionDefault => start_default_spec(v, c),
        CommandKind::SelectPreviousDeck => deck_up_spec(v, c),
        CommandKind::SelectNextDeck => deck_down_spec(v, c),
        CommandKind::NavigateTo(s) => Ok((nav(v, s), None)),
        CommandKind::SkipCurrentCard => Ok((v, Some(CoreRequest::SkipCurrentCard))),
        CommandKind::PauseSession => Ok(
            (
                msg(
                    v,
                    MessageLevel::Info,
                    "Session Paused"@,
                    "Study session paused. Press any key to resume."@,
                ),
                None,
            ),
        ),
        CommandKind::ResumeSession => Ok(
            (msg(v, MessageLevel::Success, "Session Resumed"@, "Study session resumed."@), None),
        ),
        CommandKind::RefreshScreen | CommandKind::LoadDecks => Ok(
            (v, Some(CoreRequest::RefreshCoreData)),
        ),
        CommandKind::ScrollStatsUp => Ok((stats_scroll_spec(v, false), None)),
        CommandKind::ScrollStatsDown => Ok((stats_scroll_spec(v, true), None)),
        CommandKind::Select => Ok((select_spec(v), None)),
        CommandKind::EndStudySession => Ok((v, Some(CoreRequest::EndStudySession))),
        CommandKind::ShowAnswer => Ok((StoreView { showing_answer: true, ..v }, None)),
        CommandKind::RateCurrentCard(r) => Ok((v, Some(CoreRequest::RateCard(spec_rating_of(r))))),
        CommandKind::RefreshStatistics => match v.selected_deck_id {
            Some(id) => Ok((v, Some(CoreRequest::RefreshDeckStatistics(id)))),
            None => Ok((v, None)),
        },
        CommandKind::BuryCard => Ok((v, Some(CoreRequest::BuryCard))),
        CommandKind::SuspendCard => Ok((v, Some(CoreRequest::SuspendCard))),
        CommandKind::UnburyCard => Ok((v, Some(CoreRequest::UnburyCard))),
        CommandKind::UnsuspendCard => Ok((v, Some(CoreRequest::UnsuspendCard))),
        CommandKind::DeleteSelectedTag => Ok(
            (v, Some(CoreRequest::DeleteSelectedTag(ui_usize(v.ui, "tag_index"@, 0) as usize))),
        ),
        CommandKind::CleanOrphanedMedia => Ok((v, Some(CoreRequest::CleanOrphanedMedia))),
        CommandKind::CreateDeckPrompt => Ok((create_deck_prompt_spec(v), None)),
        CommandKind::ExportDeck => Ok((v, Some(CoreRequest::DataExport))),
        CommandKind::DeleteDeckPrompt => delete_deck_prompt_spec(v, c),
        CommandKind::CreateCardPrompt => Ok(
            (
                msg(
                    v,
                    MessageLevel::Warning,
                    "Create Card"@,
                    "Card creation is not available in TUI mode. Please use the CLI or import from file."@,
                ),
                None,
            ),
        ),
        CommandKind::LoadUserPreferences => match c.config_theme {
            Some(t) => Ok((StoreView { theme: t, ..v }, None)),
            None => Ok((v, None)),
        },
        CommandKind::UpdateUserPreferences(p) => Ok((StoreView { ui: insert_pairs(v.ui, p), ..v }, None)),
        CommandKind::UpdateTheme(t) => Ok((update_theme_spec(v, t), None)),
        CommandKind::UpdateLanguage(l) => Ok((update_language_spec(v, l), None)),
        CommandKind::UpdateStudyGoals(cards, minutes) => Ok(
            (study_goals_spec(v, cards as nat, minutes as nat), None),
        ),
        CommandKind::LoadStatistics(id) => Ok((v, Some(CoreRequest::LoadDeckStatistics(id)))),
        CommandKind::NavigatePageUp | CommandKind::NavigateHome => Ok((top_spec(v), None)),
        CommandKind::NavigatePageDown => page_down_spec(v, c),
        CommandKind::NavigateEnd => Ok((end_spec(v, c), None)),
        CommandKind::Quit => Ok((v, Some(CoreRequest::Quit))),
        CommandKind::ShowHelp => Ok((nav(v, Screen::Help), None)),
        CommandKind::StartSearch => Ok((start_search_spec(v), None)),
        CommandKind::SearchDecks(q) => Ok((search_text_spec(v, q, true), None)),
        CommandKind::SearchCards(q) => Ok((search_text_spec(v, q, false), None)),
        CommandKind::SearchBackspace => Ok((search_backspace_spec(v), None)),
        CommandKind::SearchResultDown => Ok((search_down_spec(v), None)),
        CommandKind::SearchResultUp => Ok((search_up_spec(v), None)),
        CommandKind::SearchSelectResult => search_select_spec(v, c),
        CommandKind::NavigateBack => Ok((navigate_back_spec(v), None)),
        CommandKind::ConfirmSetting => Ok((confirm_setting_spec(v), None)),
        CommandKind::ToggleCardSide => Ok((toggle_card_side_spec(v), None)),
        CommandKind::NavigateLeft => Ok((left_right_spec(v, true), None)),
        CommandKind::NavigateRight => Ok((left_right_spec(v, false), None)),
        CommandKind::NavigateUp => nav_up_spec(v, c),
        CommandKind::NavigateDown => nav_down_spec(v, c),
        CommandKind::CreateDeck(_, _) => Ok((v, Some(CoreRequest::CreateDeck))),
        CommandKind::DeleteDeck(id) => Ok((v, Some(CoreRequest::DeleteDeck(id)))),
        _ => Ok((v, None)),
    }
}

/// The inputs on which a command's arithmetic overflows: a counter at its
/// largest value stepped up once more.
pub open spec fn overflows(v: StoreView, cmd: CommandTypeView) -> bool {
    match cmd {
        CommandKind::ScrollStatsDown => ui_usize(v.ui, "stats_tab"@, 0) == usize::MAX,
        CommandKind::NavigateRight => match v.screen {
            Screen::DataManage => ui_usize(v.ui, "data_index"@, 0) == usize::MAX,
            Screen::StudyPrefs => {
                let idx = ui_usize(v.ui, "prefs_index"@, 0);
                (idx == 0 && ui_u32(v.ui, "new_cards_per_day"@, 20) == u32::MAX) || (idx == 1
                    && ui_u32(v.ui, "max_reviews_per_day"@, 200) == u32::MAX)
            },
            _ => false,
        },
        _ => false,
    }
}

} // verus!

verus! {

/// The result of `execute_command` as a value.
pub open spec fn exec_result_view(r: Result<Option<CoreRequest>, TuiError>, post: StoreView) -> ExecView {
    match r {
        Ok(q) => Ok((post, q)),
        Err(TuiError::Core(s)) => Err(s@),
        Err(TuiError::State { message }) => Err(message@),
    }
}

fn deck_fetch_error(e: &String) -> (r: TuiError)
    ensures
        r == TuiError::Core(*e),
{
    TuiError::Core(e.clone())
}

pub(crate) fn selection_or_zero(o: Option<usize>) -> (i: usize)
    ensures
        i as int == sel_or_zero(o),
{
    match o {
        Some(i) => i,
        None => 0,
    }
}

fn main_menu_selection(state: &mut UiAppState, idx: usize)
    ensures
        final(state).wf() == old(state).wf(),
        final(state)@ == main_menu_selection_spec(old(state)@, idx as int),
{
    if idx == 0 {
        state.go(Screen::DeckSelection);
    } else if idx == 1 {
        state.go(Screen::DeckManagement);
    } else if idx == 2 {
        state.go(Screen::Statistics);
    } else if idx == 3 {
        state.go(Screen::Settings);
    }
}

fn confirm_deck(state: &mut UiAppState, ctx: &CommandContext) -> (r: Result<Option<CoreRequest>, TuiError>)
    ensures
        final(state).wf() == old(state).wf(),
        exec_result_view(r, final(state)@) == confirm_deck_spec(old(state)@, ctx@),
        r is Err ==> final(state)@ == old(state)@,
{
    let decks = match &ctx.decks {
        Ok(d) => d,
        Err(e) => {
            return Err(deck_fetch_error(e));
        },
    };
    if decks.len() == 0 {
        state.say(MessageLevel::Warning, "No Decks", "No decks available. Create a deck first.");
        return Ok(None);
    }
    let idx = selection_or_zero(state.deck_list_selected);
    if idx < decks.len() {
        let id = decks[idx].0.uuid;
        state.selected_deck_id = Some(id);
        assert(final(state)@ =~= with_selected_deck(old(state)@, id));
        Ok(Some(CoreRequest::StartStudySession(id)))
    } else {
        state.say(MessageLevel::Error, "Error", "Invalid deck selection");
        Ok(None)
    }
}

fn data_request_of(idx: usize) -> (r: Option<CoreRequest>)
    ensures
        r == data_request(idx as int),
{
    match idx {
        0 => Some(CoreRequest::DataImport),
        1 => Some(CoreRequest::DataExport),
        2 => Some(CoreRequest::DataBackup),
        3 => Some(CoreRequest::DataRestore),
        4 => Some(CoreRequest::DataClear),
        _ => None,
    }
}

fn confirm(state: &mut UiAppState, ctx: &CommandContext) -> (r: Result<Option<CoreRequest>, TuiError>)
    requires
        old(state).wf(),
    ensures
        final(state).wf(),
        exec_result_view(r, final(state)@) == confirm_spec(old(state)@, ctx@),
        r is Err ==> final(state)@ == old(state)@,
{
    match state.current_screen {
        Screen::MainMenu => {
            let sel = state.main_menu_selected;
            main_menu_selection(state, sel);
            Ok(None)
        },
        Screen::DeckSelection | Screen::DeckManagement => confirm_deck(state, ctx),
        Screen::UiSettings => {
            let idx = state.read_usize("ui_settings_index", 0);
            if idx == 2 {
                state.flip_flag("auto_advance", false);
            } else if idx == 3 {
                state.flip_flag("show_progress", true);
            }
            Ok(None)
        },
        Screen::DataManage => {
            let idx = state.read_usize("data_index", 0);
            Ok(data_request_of(idx))
        },
        _ => Ok(None),
    }
}

fn start_default(state: &mut UiAppState, ctx: &CommandContext) -> (r: Result<Option<CoreRequest>, TuiError>)
    ensures
        final(state).wf() == old(state).wf(),
        exec_result_view(r, final(state)@) == start_default_spec(old(state)@, ctx@),
        r is Err ==> final(state)@ == old(state)@,
{
    match state.selected_deck_id {
        Some(id) => Ok(Some(CoreRequest::StartStudySession(id))),
        None => {
            let decks = match &ctx.decks {
                Ok(d) => d,
                Err(e) => {
                    return Err(deck_fetch_error(e));
                },
            };
            let idx = selection_or_zero(state.deck_list_selected);
            if idx < decks.len() {
                let id = decks[idx].0.uuid;
                state.selected_deck_id = Some(id);
                assert(final(state)@ =~= with_selected_deck(old(state)@, id));
                Ok(Some(CoreRequest::StartStudySession(id)))
            } else {
                Ok(None)
            }
        },
    }
}

fn deck_up(state: &mut UiAppState, ctx: &CommandContext) -> (r: Result<Option<CoreRequest>, TuiError>)
    ensures
        final(state).wf() == old(state).wf(),
        exec_result_view(r, final(state)@) == deck_up_spec(old(state)@, ctx@),
        r is Err ==> final(state)@ == old(state)@,
{
    let count = match &ctx.decks {
        Ok(d) => d.len(),
        Err(e) => {
            return Err(deck_fetch_error(e));
        },
    };
    if count == 0 {
        return Ok(None);
    }
    let cur = selection_or_zero(state.deck_list_selected);
    let new_sel = if cur == 0 {
        count - 1
    } else {
        cur - 1
    };
    state.deck_list_selected = Some(new_sel);
    assert(final(state)@ =~= with_list_selection(old(state)@, new_sel as int));
    Ok(None)
}

fn deck_down(state: &mut UiAppState, ctx: &CommandContext) -> (r: Result<Option<CoreRequest>, TuiError>)
    ensures
        final(state).wf() == old(state).wf(),
        exec_result_view(r, final(state)@) == deck_down_spec(old(state)@, ctx@),
        r is Err ==> final(state)@ == old(state)@,
{
    let count = match &ctx.decks {
        Ok(d) => d.len(),
        Err(e) => {
            return Err(deck_fetch_error(e));
        },
    };
    if count == 0 {
        return Ok(None);
    }
    let cur = selection_or_zero(state.deck_list_selected);
    let new_sel = if cur >= count - 1 {
        0
    } else {
        cur + 1
    };
    state.deck_list_selected = Some(new_sel);
    assert(final(state)@ =~= with_list_selection(old(state)@, new_sel as int));
    Ok(None)
}

fn stats_scroll(state: &mut UiAppState, down: bool)
    requires
        old(state).wf(),
        down ==> ui_usize(old(state)@.ui, "stats_tab"@, 0) < usize::MAX,
    ensures
        final(state).wf(),
        final(state)@ == stats_scroll_spec(old(state)@, down),
{
    let idx = state.read_usize("stats_tab", 0);
    let new_idx = if down {
        if idx + 1 < 2 {
            idx + 1
        } else {
            2
        }
    } else {
        if idx > 0 {
            idx - 1
        } else {
            0
        }
    };
    state.write_usize("stats_tab", new_idx);
}

fn select(state: &mut UiAppState)
    requires
        old(state).wf(),
    ensures
        final(state).wf(),
        final(state)@ == select_spec(old(state)@),
{
    if state.current_screen == Screen::UiSettings {
        let idx = state.read_usize("ui_settings_index", 0);
        if idx == 2 {
            state.flip_flag("auto_advance", false);
        } else if idx == 3 {
            state.flip_flag("show_progress", false);
        }
    }
}

fn create_deck_prompt(state: &mut UiAppState)
    requires
        old(state).wf(),
    ensures
        final(state).wf(),
        final(state)@ == create_deck_prompt_spec(old(state)@),
{
    state.go(Screen::DeckManagement);
    state.write_text("deck_management_mode", "create");
    state.say(MessageLevel::Info, "Create Deck", "Use the CLI to create new decks: ankitui create-deck");
}

fn delete_deck_prompt(state: &mut UiAppState, ctx: &CommandContext) -> (r: Result<Option<CoreRequest>, TuiError>)
    requires
        old(state).wf(),
    ensures
        final(state).wf(),
        exec_result_view(r, final(state)@) == delete_deck_prompt_spec(old(state)@, ctx@),
        r is Err ==> final(state)@ == old(state)@,
{
    if state.current_screen == Screen::DeckManagement {
        let sel = selection_or_zero(state.deck_list_selected);
        let decks = match &ctx.decks {
            Ok(d) => d,
            Err(e) => {
                return Err(deck_fetch_error(e));
            },
        };
        if sel < decks.len() {
            Ok(Some(CoreRequest::DeleteDeckAt { uuid: decks[sel].0.uuid, index: sel, count: decks.len() }))
        } else {
            Ok(None)
        }
    } else {
        state.go(Screen::DeckManagement);
        state.write_text("deck_management_mode", "delete");
        state.say(MessageLevel::Info, "Delete Deck", "Select a deck and press D or Delete to remove it");
        Ok(None)
    }
}

fn update_user_preferences(state: &mut UiAppState, prefs: &Vec<(String, String)>)
    requires
        old(state).wf(),
    ensures
        final(state).wf(),
        final(state)@ == (StoreView {
            ui: insert_pairs(old(state)@.ui, crate::command::pairs_view(*prefs)),
            ..old(state)@
        }),
{
    let ghost p = crate::command::pairs_view(*prefs);
    let n = prefs.len();
    let mut i: usize = 0;
    while i < n
        invariant
            n == prefs@.len(),
            i <= n,
            p == crate::command::pairs_view(*prefs),
            state.wf(),
            state@ == (StoreView { ui: insert_pairs(old(state)@.ui, p.take(i as int)), ..old(state)@ }),
        decreases n - i,
    {
        let k = prefs[i].0.clone();
        let val = prefs[i].1.clone();
        state.ui_state.insert(k, val);
        proof {
            assert(p.take(i + 1).drop_last() =~= p.take(i as int));
            assert(p.take(i + 1).last() == p[i as int]);
        }
        i = i + 1;
        assert(state@ =~= (StoreView { ui: insert_pairs(old(state)@.ui, p.take(i as int)), ..old(state)@ }));
    }
    assert(p.take(n as int) =~= p);
}

fn update_theme(state: &mut UiAppState, theme: &String)
    requires
        old(state).wf(),
    ensures
        final(state).wf(),
        final(state)@ == update_theme_spec(old(state)@, theme@),
{
    state.ui_state.insert(String::from_str("theme"), theme.clone());
    state.user_preferences.theme = theme.clone();
    let text = String::from_str("Theme changed to ").concat(theme.as_str());
    state.message = Some(
        StoreMessage { level: MessageLevel::Success, title: String::from_str("Theme Updated"), content: text },
    );
    assert(final(state)@ =~= update_theme_spec(old(state)@, theme@));
}

fn update_language(state: &mut UiAppState, language: &String)
    ensures
        final(state).wf() == old(state).wf(),
        final(state)@ == update_language_spec(old(state)@, language@),
{
    let text = String::from_str("Language setting '").concat(language.as_str()).concat(
        "' noted. Full language support coming soon.",
    );
    state.message = Some(
        StoreMessage { level: MessageLevel::Info, title: String::from_str("Language"), content: text },
    );
    assert(final(state)@ =~= update_language_spec(old(state)@, language@));
}

fn study_goals(state: &mut UiAppState, cards: u32, minutes: u32)
    requires
        old(state).wf(),
    ensures
        final(state).wf(),
        final(state)@ == study_goals_spec(old(state)@, cards as nat, minutes as nat),
{
    state.write_usize("daily_goal_cards", cards as usize);
    state.write_usize("daily_goal_minutes", minutes as usize);
    let c = u64_to_text(cards as u64);
    let m = u64_to_text(minutes as u64);
    let text = String::from_str("Daily goals: ").concat(c.as_str()).concat(" cards, ").concat(
        m.as_str(),
    ).concat(" minutes");
    state.message = Some(
        StoreMessage {
            level: MessageLevel::Success,
            title: String::from_str("Study Goals Updated"),
            content: text,
        },
    );
    assert(final(state)@ =~= study_goals_spec(old(state)@, cards as nat, minutes as nat));
}

fn top(state: &mut UiAppState)
    requires
        old(state).wf(),
    ensures
        final(state).wf(),
        final(state)@ == top_spec(old(state)@),
{
    match state.current_screen {
        Screen::DeckSelection => {
            state.deck_list_selected = Some(0);
            assert(final(state)@ =~= with_list_selection(old(state)@, 0));
        },
        Screen::Statistics => {
            state.write_text("stats_tab", "0");
        },
        _ => {},
    }
}

fn page_down(state: &mut UiAppState, ctx: &CommandContext) -> (r: Result<Option<CoreRequest>, TuiError>)
    requires
        old(state).wf(),
    ensures
        final(state).wf(),
        exec_result_view(r, final(state)@) == page_down_spec(old(state)@, ctx@),
        r is Err ==> final(state)@ == old(state)@,
{
    match state.current_screen {
        Screen::DeckSelection => {
            let count = match &ctx.decks {
                Ok(d) => d.len(),
                Err(e) => {
                    return Err(deck_fetch_error(e));
                },
            };
            if count > 0 {
                state.deck_list_selected = Some(count - 1);
                assert(final(state)@ =~= with_list_selection(old(state)@, count - 1));
            }
            Ok(None)
        },
        Screen::Statistics => {
            state.write_text("stats_tab", "2");
            Ok(None)
        },
        _ => Ok(None),
    }
}

fn end(state: &mut UiAppState, ctx: &CommandContext)
    requires
        old(state).wf(),
    ensures
        final(state).wf(),
        final(state)@ == end_spec(old(state)@, ctx@),
{
    match state.current_screen {
        Screen::DeckSelection => {
            if let Ok(d) = &ctx.decks {
                let count = d.len();
                if count > 0 {
                    state.deck_list_selected = Some(count - 1);
                    assert(final(state)@ =~= with_list_selection(old(state)@, count - 1));
                }
            }
        },
        Screen::Statistics => {
            state.write_text("stats_tab", "2");
        },
        _ => {},
    }
}

fn start_search(state: &mut UiAppState)
    requires
        old(state).wf(),
    ensures
        final(state).wf(),
        final(state)@ == start_search_spec(old(state)@),
{
    state.go(Screen::Search);
    state.init_text("search_type", "Decks");
    state.init_text("search_query", "");
    state.init_text("search_result_index", "0");
    state.init_text("search_result_count", "0");
}

pub(crate) fn text_or(state: &UiAppState, key: &str, default: &str) -> (s: String)
    requires
        state.wf(),
    ensures
        s@ == ui_text_or(state@.ui, key@, default@),
{
    match state.ui_state.get(key) {
        Some(s) => s.clone(),
        None => String::from_str(default),
    }
}

fn search_text(state: &mut UiAppState, q: &String, decks: bool)
    requires
        old(state).wf(),
    ensures
        final(state).wf(),
        final(state)@ == search_text_spec(old(state)@, q@, decks),
{
    let cur = text_or(state, "search_query", "");
    let new_query = cur.concat(q.as_str());
    state.ui_state.insert(String::from_str("search_query"), new_query);
    if decks {
        state.ui_state.insert(String::from_str("search_type"), String::from_str("Decks"));
    } else {
        state.ui_state.insert(String::from_str("search_type"), String::from_str("Cards"));
    }
    assert(final(state)@ =~= search_text_spec(old(state)@, q@, decks));
}

fn search_backspace(state: &mut UiAppState)
    requires
        old(state).wf(),
    ensures
        final(state).wf(),
        final(state)@ == search_backspace_spec(old(state)@),
{
    let query = match state.ui_state.get("search_query") {
        Some(q) => q.clone(),
        None => {
            return;
        },
    };
    if query.unicode_len() > 0 {
        let mut shorter = query;
        let _ = string_pop(&mut shorter);
        state.ui_state.insert(String::from_str("search_query"), shorter);
        assert(final(state)@ =~= search_backspace_spec(old(state)@));
    }
}

fn search_down(state: &mut UiAppState)
    requires
        old(state).wf(),
    ensures
        final(state).wf(),
        final(state)@ == search_down_spec(old(state)@),
{
    let idx = state.read_usize("search_result_index", 0);
    let max = state.read_usize("search_result_count", 1);
    let limit = if max > 0 {
        max - 1
    } else {
        0
    };
    if idx < limit {
        state.write_usize("search_result_index", idx + 1);
    }
}

fn search_up(state: &mut UiAppState)
    requires
        old(state).wf(),
    ensures
        final(state).wf(),
        final(state)@ == search_up_spec(old(state)@),
{
    let idx = state.read_usize("search_result_index", 0);
    if idx > 0 {
        state.write_usize("search_result_index", idx - 1);
    }
}

fn deck_matches_exec(d: &DeckSummary, lower: &String) -> (b: bool)
    ensures
        b == deck_matches(
            (
                d.uuid,
                d.name@,
                match d.description {
                    Some(s) => Some(s@),
                    None => None,
                },
            ),
            lower@,
        ),
{
    let name = to_lowercase(d.name.as_str());
    if str_contains(name.as_str(), lower.as_str()) {
        return true;
    }
    match &d.description {
        Some(desc) => {
            let l = to_lowercase(desc.as_str());
            str_contains(l.as_str(), lower.as_str())
        },
        None => false,
    }
}

fn search_select(state: &mut UiAppState, ctx: &CommandContext) -> (r: Result<Option<CoreRequest>, TuiError>)
    requires
        old(state).wf(),
    ensures
        final(state).wf(),
        exec_result_view(r, final(state)@) == search_select_spec(old(state)@, ctx@),
        r is Err ==> final(state)@ == old(state)@,
{
    let idx = state.read_usize("search_result_index", 0);
    let stype = text_or(state, "search_type", "Decks");
    if !str_eq(stype.as_str(), "Decks") {
        return Ok(None);
    }
    state.write_usize("search_result_selected", idx);
    let ghost v1 = state@;
    let decks = match &ctx.decks {
        Ok(d) => d,
        Err(_) => {
            return Ok(None);
        },
    };
    let query = text_or(state, "search_query", "");
    let lower = to_lowercase(query.as_str());
    let ghost rows = ctx@.decks->Ok_0;
    let ghost pred = deck_query(lower@);
    let mut matching: Vec<u128> = Vec::new();
    let n = decks.len();
    let mut i: usize = 0;
    proof {
        assert(rows.take(0).filter(pred) =~= Seq::<(u128, Seq<char>, Option<Seq<char>>)>::empty());
    }
    while i < n
        invariant
            n == decks@.len(),
            pred == deck_query(lower@),
            rows == decks@.map_values(|d: (DeckSummary, Vec<CardSummary>)| deck_row(d)),
            i <= n,
            matching@ == rows.take(i as int).filter(pred).map_values(
                |r: (u128, Seq<char>, Option<Seq<char>>)| r.0,
            ),
        decreases n - i,
    {
        let m = deck_matches_exec(&decks[i].0, &lower);
        let ghost old_matching = matching@;
        if m {
            matching.push(decks[i].0.uuid);
        }
        proof {
            let t1 = rows.take(i + 1);
            let f0 = rows.take(i as int).filter(pred);
            assert(t1.drop_last() =~= rows.take(i as int));
            assert(t1.last() == deck_row(decks@[i as int]));
            let dd = decks@[i as int].0;
            assert(deck_row(decks@[i as int]) == (dd.uuid, dd.name@, match dd.description {
                Some(x) => Some(x@),
                None => None,
            }));
            assert(pred(t1.last()) == deck_matches(t1.last(), lower@));
            assert(pred(t1.last()) == m);
            assert(t1.filter(pred) == if pred(t1.last()) {
                t1.drop_last().filter(pred).push(t1.last())
            } else {
                t1.drop_last().filter(pred)
            }) by {
                reveal_with_fuel(Seq::filter, 1);
            }
            if m {
                assert(f0.push(t1.last()).map_values(
                    |r: (u128, Seq<char>, Option<Seq<char>>)| r.0,
                ) =~= f0.map_values(|r: (u128, Seq<char>, Option<Seq<char>>)| r.0).push(
                    decks@[i as int].0.uuid,
                ));
                assert(matching@ =~= old_matching.push(decks@[i as int].0.uuid));
            }
        }
        i = i + 1;
    }
    assert(rows.take(n as int) =~= rows);
    if idx < matching.len() {
        let id = matching[idx];
        state.selected_deck_id = Some(id);
        assert(final(state)@ =~= with_selected_deck(v1, id));
        Ok(Some(CoreRequest::StartStudySession(id)))
    } else {
        Ok(None)
    }
}


impl UiAppState {
    /// Reads a number as a `u32`, with a default for absent or unreadable values.
    pub fn read_u32(&self, key: &str, default: u32) -> (n: u32)
        requires
            self.wf(),
        ensures
            n as nat == ui_u32(self.ui_state@, key@, default as nat),
    {
        match self.ui_state.get(key) {
            Some(s) => match parse_u32(s.as_str()) {
                Some(v) => v,
                None => default,
            },
            None => default,
        }
    }
}

fn navigate_back(state: &mut UiAppState)
    ensures
        final(state).wf() == old(state).wf(),
        final(state)@ == navigate_back_spec(old(state)@),
{
    match state.current_screen {
        Screen::StudyPrefs | Screen::UiSettings | Screen::DataManage | Screen::TagManagement
        | Screen::MediaManagement => {
            state.go(Screen::Settings);
        },
        Screen::Search | Screen::Help | Screen::DeckManagement => {
            state.go(Screen::MainMenu);
        },
        _ => {
            state.navigate_back();
            assert(final(state)@ =~= navigate_back_spec(old(state)@));
        },
    }
}

fn settings_target_of(idx: usize) -> (s: Screen)
    ensures
        s == settings_target(idx as int),
{
    if idx == 0 {
        Screen::StudyPrefs
    } else if idx == 1 {
        Screen::UiSettings
    } else if idx == 2 {
        Screen::DataManage
    } else if idx == 3 {
        Screen::TagManagement
    } else if idx == 4 {
        Screen::MediaManagement
    } else {
        Screen::Settings
    }
}

fn confirm_setting(state: &mut UiAppState)
    requires
        old(state).wf(),
    ensures
        final(state).wf(),
        final(state)@ == confirm_setting_spec(old(state)@),
{
    let target = settings_target_of(state.settings_selected);
    state.go(target);
    match target {
        Screen::StudyPrefs => {
            state.init_text("prefs_index", "0");
            state.init_text("new_cards_per_day", "20");
            state.init_text("max_reviews_per_day", "200");
        },
        Screen::UiSettings => {
            state.init_text("ui_settings_index", "0");
        },
        Screen::DataManage => {
            state.init_text("data_index", "0");
        },
        Screen::TagManagement => {
            state.init_text("tag_index", "0");
        },
        Screen::MediaManagement => {
            state.init_text("media_index", "0");
        },
        _ => {},
    }
}

pub(crate) fn toggle_card_side(state: &mut UiAppState)
    requires
        old(state).wf(),
    ensures
        final(state).wf(),
        final(state)@ == toggle_card_side_spec(old(state)@),
{
    if state.current_screen == Screen::Search {
        let cur = text_or(state, "search_type", "Decks");
        if str_eq(cur.as_str(), "Decks") {
            state.write_text("search_type", "Cards");
        } else {
            state.write_text("search_type", "Decks");
        }
    }
}

pub(crate) fn step_u32(val: u32, dec: bool) -> (r: u32)
    requires
        dec || val < u32::MAX,
    ensures
        r as nat == step(val as nat, dec),
{
    if dec {
        val.saturating_sub(1)
    } else {
        val + 1
    }
}

pub(crate) fn theme_index_of(t: &String) -> (i: usize)
    ensures
        i as int == theme_index(t@),
{
    if str_eq(t.as_str(), "default") {
        0
    } else if str_eq(t.as_str(), "dark") {
        1
    } else if str_eq(t.as_str(), "light") {
        2
    } else {
        0
    }
}

pub(crate) fn theme_name_of(i: usize) -> (s: String)
    ensures
        s@ == theme_name(i as int),
{
    if i == 0 {
        String::from_str("default")
    } else if i == 1 {
        String::from_str("dark")
    } else {
        String::from_str("light")
    }
}

fn left_right(state: &mut UiAppState, dec: bool)
    requires
        old(state).wf(),
        !overflows(
            old(state)@,
            if dec {
                CommandKind::NavigateLeft
            } else {
                CommandKind::NavigateRight
            },
        ),
    ensures
        final(state).wf(),
        final(state)@ == left_right_spec(old(state)@, dec),
{
    match state.current_screen {
        Screen::StudyPrefs => {
            let idx = state.read_usize("prefs_index", 0);
            if idx == 0 {
                let val = state.read_u32("new_cards_per_day", 20);
                let nv = step_u32(val, dec);
                state.write_usize("new_cards_per_day", nv as usize);
            } else if idx == 1 {
                let val = state.read_u32("max_reviews_per_day", 200);
                let nv = step_u32(val, dec);
                state.write_usize("max_reviews_per_day", nv as usize);
            } else if idx == 2 {
                state.flip_flag("auto_advance", false);
            } else if idx == 3 {
                state.flip_flag("show_hint", true);
            }
        },
        Screen::UiSettings => {
            let idx = state.read_usize("ui_settings_index", 0);
            if idx == 1 {
                let theme = if state.ui_state.contains_key("theme") {
                    text_or(state, "theme", "")
                } else {
                    state.user_preferences.theme.clone()
                };
                let ci = theme_index_of(&theme);
                let ni: usize = if dec {
                    ci.saturating_sub(1)
                } else if ci + 1 < 2 {
                    ci + 1
                } else {
                    2
                };
                let name = theme_name_of(ni);
                state.write_text("theme", name.as_str());
                state.user_preferences.theme = name;
                assert(final(state)@ =~= left_right_spec(old(state)@, dec));
            } else if idx == 2 {
                state.flip_flag("auto_advance", false);
            } else if idx == 3 {
                state.flip_flag("show_progress", false);
            }
        },
        Screen::DataManage => {
            let idx = state.read_usize("data_index", 0);
            let ni: usize = if dec {
                idx.saturating_sub(1)
            } else if idx + 1 < 4 {
                idx + 1
            } else {
                4
            };
            state.write_usize("data_index", ni);
        },
        _ => {},
    }
}

fn dec_counter(state: &mut UiAppState, key: &str)
    requires
        old(state).wf(),
    ensures
        final(state).wf(),
        final(state)@ == dec_ui(old(state)@, key@),
{
    let idx = state.read_usize(key, 0);
    if idx > 0 {
        state.write_usize(key, idx - 1);
    }
}

fn inc_counter(state: &mut UiAppState, key: &str, limit: usize)
    requires
        old(state).wf(),
    ensures
        final(state).wf(),
        final(state)@ == inc_ui(old(state)@, key@, limit as nat),
{
    let idx = state.read_usize(key, 0);
    if limit > 0 && idx < limit - 1 {
        state.write_usize(key, idx + 1);
    }
}

fn tag_count_of(ctx: &CommandContext) -> (n: usize)
    ensures
        n as nat == tag_count(ctx@),
{
    match &ctx.decks {
        Ok(d) => distinct_tag_count(d),
        Err(_) => 1,
    }
}

fn nav_up(state: &mut UiAppState, ctx: &CommandContext) -> (r: Result<Option<CoreRequest>, TuiError>)
    requires
        old(state).wf(),
    ensures
        final(state).wf(),
        exec_result_view(r, final(state)@) == nav_up_spec(old(state)@, ctx@),
        r is Err ==> final(state)@ == old(state)@,
{
    match state.current_screen {
        Screen::MainMenu => {
            state.navigate_main_menu_up();
            assert(final(state)@ =~= menu_up(old(state)@));
            Ok(None)
        },
        Screen::DeckSelection | Screen::DeckManagement => deck_up(state, ctx),
        Screen::StudyPrefs => {
            dec_counter(state, "prefs_index");
            Ok(None)
        },
        Screen::UiSettings => {
            dec_counter(state, "ui_settings_index");
            Ok(None)
        },
        Screen::DataManage => {
            dec_counter(state, "data_index");
            Ok(None)
        },
        Screen::Help => {
            dec_counter(state, "help_category");
            Ok(None)
        },
        Screen::Settings => {
            state.navigate_settings_up();
            assert(final(state)@ =~= settings_up(old(state)@));
            Ok(None)
        },
        Screen::TagManagement => {
            let tc = tag_count_of(ctx);
            let idx = state.read_usize("tag_index", 0);
            let max_idx = tc.saturating_sub(1);
            if idx > 0 && idx <= max_idx {
                state.write_usize("tag_index", idx - 1);
            } else if idx > max_idx {
                state.write_usize("tag_index", max_idx);
            }
            Ok(None)
        },
        Screen::MediaManagement => {
            dec_counter(state, "media_index");
            Ok(None)
        },
        _ => Ok(None),
    }
}

fn nav_down(state: &mut UiAppState, ctx: &CommandContext) -> (r: Result<Option<CoreRequest>, TuiError>)
    requires
        old(state).wf(),
    ensures
        final(state).wf(),
        exec_result_view(r, final(state)@) == nav_down_spec(old(state)@, ctx@),
        r is Err ==> final(state)@ == old(state)@,
{
    match state.current_screen {
        Screen::MainMenu => {
            state.navigate_main_menu_down();
            assert(final(state)@ =~= menu_down(old(state)@));
            Ok(None)
        },
        Screen::DeckSelection | Screen::DeckManagement => deck_down(state, ctx),
        Screen::StudyPrefs => {
            inc_counter(state, "prefs_index", 4);
            Ok(None)
        },
        Screen::UiSettings => {
            inc_counter(state, "ui_settings_index", 4);
            Ok(None)
        },
        Screen::DataManage => {
            inc_counter(state, "data_index", 5);
            Ok(None)
        },
        Screen::Help => {
            inc_counter(state, "help_category", 4);
            Ok(None)
        },
        Screen::Settings => {
            state.navigate_settings_down();
            assert(final(state)@ =~= settings_down(old(state)@));
            Ok(None)
        },
        Screen::TagManagement => {
            let tc = tag_count_of(ctx);
            let limit: usize = if tc > 1 { tc } else { 1 };
            inc_counter(state, "tag_index", limit);
            Ok(None)
        },
        Screen::MediaManagement => {
            inc_counter(state, "media_index", 9);
            Ok(None)
        },
        _ => Ok(None),
    }
}


/// Whether running the command reads the deck list from the core.
pub open spec fn reads_decks(v: StoreView, cmd: CommandTypeView) -> bool {
    match cmd {
        CommandKind::Confirm => v.screen == Screen::DeckSelection || v.screen == Screen::DeckManagement,
        CommandKind::StartStudySessionDefault => v.selected_deck_id is None,
        CommandKind::SelectPreviousDeck | CommandKind::SelectNextDeck => true,
        CommandKind::DeleteDeckPrompt => v.screen == Screen::DeckManagement,
        CommandKind::NavigatePageDown | CommandKind::NavigateEnd => v.screen == Screen::DeckSelection,
        CommandKind::SearchSelectResult => ui_text_or(v.ui, "search_type"@, "Decks"@) == "Decks"@,
        CommandKind::NavigateUp | CommandKind::NavigateDown => v.screen == Screen::DeckSelection || v.screen
            == Screen::DeckManagement || v.screen == Screen::TagManagement,
        _ => false,
    }
}

/// Whether the command's arithmetic would overflow on this state; such a
/// command is refused by `execute_command`'s precondition.
pub fn command_would_overflow(state: &UiAppState, command: &Command) -> (b: bool)
    requires
        state.wf(),
    ensures
        b == overflows(state@, command@.command_type),
{
    match &command.command_type {
        CommandKind::ScrollStatsDown => state.read_usize("stats_tab", 0) == usize::MAX,
        CommandKind::NavigateRight => match state.current_screen {
            Screen::DataManage => state.read_usize("data_index", 0) == usize::MAX,
            Screen::StudyPrefs => {
                let idx = state.read_usize("prefs_index", 0);
                (idx == 0 && state.read_u32("new_cards_per_day", 20) == u32::MAX) || (idx == 1
                    && state.read_u32("max_reviews_per_day", 200) == u32::MAX)
            },
            _ => false,
        },
        _ => false,
    }
}

/// Whether the command needs the deck list in its context; when it does not,
/// the context's deck list is never read.
pub fn needs_deck_list(state: &UiAppState, command: &Command) -> (b: bool)
    requires
        state.wf(),
    ensures
        b == reads_decks(state@, command@.command_type),
{
    match &command.command_type {
        CommandKind::Confirm => state.current_screen == Screen::DeckSelection || state.current_screen
            == Screen::DeckManagement,
        CommandKind::StartStudySessionDefault => state.selected_deck_id.is_none(),
        CommandKind::SelectPreviousDeck | CommandKind::SelectNextDeck => true,
        CommandKind::DeleteDeckPrompt => state.current_screen == Screen::DeckManagement,
        CommandKind::NavigatePageDown | CommandKind::NavigateEnd => state.current_screen
            == Screen::DeckSelection,
        CommandKind::SearchSelectResult => {
            let t = text_or(state, "search_type", "Decks");
            str_eq(t.as_str(), "Decks")
        },
        CommandKind::NavigateUp | CommandKind::NavigateDown => state.current_screen == Screen::DeckSelection
            || state.current_screen == Screen::DeckManagement || state.current_screen
            == Screen::TagManagement,
        _ => false,
    }
}

/// Runs a command against the state store. The store changes as
/// `execute_spec` says; the result names the outside work left to do, or
/// carries the error of the deck fetch the command needed, in which case the
/// store is unchanged. A move within a page keeps the page counters within
/// their pages.
pub fn execute_command(state: &mut UiAppState, command: &Command, ctx: &CommandContext) -> (r: Result<
    Option<CoreRequest>,
    TuiError,
>)
    requires
        old(state).wf(),
        !overflows(old(state)@, command@.command_type),
    ensures
        final(state).wf(),
        exec_result_view(r, final(state)@) == execute_spec(old(state)@, command@.command_type, ctx@),
        r is Err ==> final(state)@ == old(state)@,
        counters_in_range(old(state)@.ui) && moves_within_page(command@.command_type) ==> counters_in_range(
            final(state)@.ui,
        ),
{
    let r = run_command(state, command, ctx);
    proof {
        if counters_in_range(old(state)@.ui) && moves_within_page(command@.command_type) {
            lemma_counters_stay_in_range(old(state)@, command@.command_type, ctx@);
        }
    }
    r
}

/// One step of `execute_command`, by the kind of command.
#[verifier::spinoff_prover]
#[verifier::rlimit(60)]
fn run_command(state: &mut UiAppState, command: &Command, ctx: &CommandContext) -> (r: Result<
    Option<CoreRequest>,
    TuiError,
>)
    requires
        old(state).wf(),
        !overflows(old(state)@, command@.command_type),
    ensures
        final(state).wf(),
        exec_result_view(r, final(state)@) == execute_spec(old(state)@, command@.command_type, ctx@),
        r is Err ==> final(state)@ == old(state)@,
{
    match &command.command_type {
        CommandKind::NavigateToMainMenu => {
            state.go(Screen::MainMenu);
            Ok(None)
        },
        CommandKind::Confirm => confirm(state, ctx),
        CommandKind::StartStudySessionDefault => start_default(state, ctx),
        CommandKind::SelectPreviousDeck => deck_up(state, ctx),
        CommandKind::SelectNextDeck => deck_down(state, ctx),
        CommandKind::NavigateTo(s) => {
            state.go(*s);
            Ok(None)
        },
        CommandKind::SkipCurrentCard => Ok(Some(CoreRequest::SkipCurrentCard)),
        CommandKind::PauseSession => {
            state.say(
                MessageLevel::Info,
                "Session Paused",
                "Study session paused. Press any key to resume.",
            );
            Ok(None)
        },
        CommandKind::ResumeSession => {
            state.say(MessageLevel::Success, "Session Resumed", "Study session resumed.");
            Ok(None)
        },
        CommandKind::RefreshScreen | CommandKind::LoadDecks => Ok(Some(CoreRequest::RefreshCoreData)),
        CommandKind::ScrollStatsUp => {
            stats_scroll(state, false);
            Ok(None)
        },
        CommandKind::ScrollStatsDown => {
            stats_scroll(state, true);
            Ok(None)
        },
        CommandKind::Select => {
            select(state);
            Ok(None)
        },
        CommandKind::EndStudySession => Ok(Some(CoreRequest::EndStudySession)),
        CommandKind::ShowAnswer => {
            state.showing_answer = true;
            assert(final(state)@ =~= (StoreView { showing_answer: true, ..old(state)@ }));
            Ok(None)
        },
        CommandKind::RateCurrentCard(rating) => Ok(Some(CoreRequest::RateCard(rating.to_rating()))),
        CommandKind::RefreshStatistics => match state.selected_deck_id {
            Some(id) => Ok(Some(CoreRequest::RefreshDeckStatistics(id))),
            None => Ok(None),
        },
        CommandKind::BuryCard => Ok(Some(CoreRequest::BuryCard)),
        CommandKind::SuspendCard => Ok(Some(CoreRequest::SuspendCard)),
        CommandKind::UnburyCard => Ok(Some(CoreRequest::UnburyCard)),
        CommandKind::UnsuspendCard => Ok(Some(CoreRequest::UnsuspendCard)),
        CommandKind::DeleteSelectedTag => {
            let idx = state.read_usize("tag_index", 0);
            Ok(Some(CoreRequest::DeleteSelectedTag(idx)))
        },
        CommandKind::CleanOrphanedMedia => Ok(Some(CoreRequest::CleanOrphanedMedia)),
        CommandKind::CreateDeckPrompt => {
            create_deck_prompt(state);
            Ok(None)
        },
        CommandKind::ExportDeck => Ok(Some(CoreRequest::DataExport)),
        CommandKind::DeleteDeckPrompt => delete_deck_prompt(state, ctx),
        CommandKind::CreateCardPrompt => {
            state.say(
                MessageLevel::Warning,
                "Create Card",
                "Card creation is not available in TUI mode. Please use the CLI or import from file.",
            );
            Ok(None)
        },
        CommandKind::LoadUserPreferences => {
            match &ctx.config_theme {
                Some(t) => {
                    state.user_preferences.theme = t.clone();
                    assert(final(state)@ =~= (StoreView { theme: t@, ..old(state)@ }));
                },
                None => {},
            }
            Ok(None)
        },
        CommandKind::UpdateUserPreferences(prefs) => {
            update_user_preferences(state, prefs);
            Ok(None)
        },
        CommandKind::UpdateTheme(theme) => {
            update_theme(state, theme);
            Ok(None)
        },
        CommandKind::UpdateLanguage(language) => {
            update_language(state, language);
            Ok(None)
        },
        CommandKind::UpdateStudyGoals(cards, minutes) => {
            study_goals(state, *cards, *minutes);
            Ok(None)
        },
        CommandKind::LoadStatistics(id) => Ok(Some(CoreRequest::LoadDeckStatistics(*id))),
        CommandKind::NavigatePageUp | CommandKind::NavigateHome => {
            top(state);
            Ok(None)
        },
        CommandKind::NavigatePageDown => page_down(state, ctx),
        CommandKind::NavigateEnd => {
            end(state, ctx);
            Ok(None)
        },
        CommandKind::Quit => Ok(Some(CoreRequest::Quit)),
        CommandKind::ShowHelp => {
            state.go(Screen::Help);
            Ok(None)
        },
        CommandKind::StartSearch => {
            start_search(state);
            Ok(None)
        },
        CommandKind::SearchDecks(q) => {
            search_text(state, q, true);
            Ok(None)
        },
        CommandKind::SearchCards(q) => {
            search_text(state, q, false);
            Ok(None)
        },
        CommandKind::SearchBackspace => {
            search_backspace(state);
            Ok(None)
        },
        CommandKind::SearchResultDown => {
            search_down(state);
            Ok(None)
        },
        CommandKind::SearchResultUp => {
            search_up(state);
            Ok(None)
        },
        CommandKind::SearchSelectResult => search_select(state, ctx),
        CommandKind::NavigateBack => {
            navigate_back(state);
            Ok(None)
        },
        CommandKind::ConfirmSetting => {
            confirm_setting(state);
            Ok(None)
        },
        CommandKind::ToggleCardSide => {
            toggle_card_side(state);
            Ok(None)
        },
        CommandKind::NavigateLeft => {
            left_right(state, true);
            Ok(None)
        },
        CommandKind::NavigateRight => {
            left_right(state, false);
            Ok(None)
        },
        CommandKind::NavigateUp => nav_up(state, ctx),
        CommandKind::NavigateDown => nav_down(state, ctx),
        CommandKind::CreateDeck(_, _) => Ok(Some(CoreRequest::CreateDeck)),
        CommandKind::DeleteDeck(id) => Ok(Some(CoreRequest::DeleteDeck(*id))),
        _ => Ok(None),
    }
}

/// The five position counters of the settings, data, help and
/// statistics pages are each within their page: four study preferences,
/// four interface settings, five data operations, four help categories and
/// three statistics tabs. An absent or unreadable counter reads as 0.
pub open spec fn counters_in_range(ui: Map<Seq<char>, Seq<char>>) -> bool {
    &&& ui_usize(ui, "prefs_index"@, 0) <= 3
    &&& ui_usize(ui, "ui_settings_index"@, 0) <= 3
    &&& ui_usize(ui, "data_index"@, 0) <= 4
    &&& ui_usize(ui, "help_category"@, 0) <= 3
    &&& ui_usize(ui, "stats_tab"@, 0) <= 2
}

/// The commands that move within a page.
pub open spec fn moves_within_page(cmd: CommandTypeView) -> bool {
    match cmd {
        CommandKind::NavigateUp | CommandKind::NavigateDown | CommandKind::NavigateLeft | CommandKind::NavigateRight
        | CommandKind::ScrollStatsUp | CommandKind::ScrollStatsDown | CommandKind::NavigatePageUp
        | CommandKind::NavigatePageDown | CommandKind::NavigateHome | CommandKind::NavigateEnd => true,
        _ => false,
    }
}

/// The facts about the keys of the interface values that the counter law
/// needs: a number written under a key reads back, and the five counters'
/// keys differ from one another and from the other keys a move writes.
proof fn lemma_counter_keys()
    ensures
        forall|m: Map<Seq<char>, Seq<char>>, k: Seq<char>, n: nat|
            n <= usize::MAX ==> #[trigger] ui_usize(m.insert(k, decimal(n)), k, 0) == n,
        "0"@ == decimal(0),
        "2"@ == decimal(2),
        "prefs_index"@ != "ui_settings_index"@,
        "prefs_index"@ != "data_index"@,
        "prefs_index"@ != "help_category"@,
        "prefs_index"@ != "stats_tab"@,
        "ui_settings_index"@ != "data_index"@,
        "ui_settings_index"@ != "help_category"@,
        "ui_settings_index"@ != "stats_tab"@,
        "data_index"@ != "help_category"@,
        "data_index"@ != "stats_tab"@,
        "help_category"@ != "stats_tab"@,
        "new_cards_per_day"@ != "prefs_index"@,
        "new_cards_per_day"@ != "ui_settings_index"@,
        "new_cards_per_day"@ != "data_index"@,
        "new_cards_per_day"@ != "help_category"@,
        "new_cards_per_day"@ != "stats_tab"@,
        "max_reviews_per_day"@ != "prefs_index"@,
        "max_reviews_per_day"@ != "ui_settings_index"@,
        "max_reviews_per_day"@ != "data_index"@,
        "max_reviews_per_day"@ != "help_category"@,
        "max_reviews_per_day"@ != "stats_tab"@,
        "auto_advance"@ != "prefs_index"@,
        "auto_advance"@ != "ui_settings_index"@,
        "auto_advance"@ != "data_index"@,
        "auto_advance"@ != "help_category"@,
        "auto_advance"@ != "stats_tab"@,
        "show_hint"@ != "prefs_index"@,
        "show_hint"@ != "ui_settings_index"@,
        "show_hint"@ != "data_index"@,
        "show_hint"@ != "help_category"@,
        "show_hint"@ != "stats_tab"@,
        "theme"@ != "prefs_index"@,
        "theme"@ != "ui_settings_index"@,
        "theme"@ != "data_index"@,
        "theme"@ != "help_category"@,
        "theme"@ != "stats_tab"@,
        "show_progress"@ != "prefs_index"@,
        "show_progress"@ != "ui_settings_index"@,
        "show_progress"@ != "data_index"@,
        "show_progress"@ != "help_category"@,
        "show_progress"@ != "stats_tab"@,
        "tag_index"@ != "prefs_index"@,
        "tag_index"@ != "ui_settings_index"@,
        "tag_index"@ != "data_index"@,
        "tag_index"@ != "help_category"@,
        "tag_index"@ != "stats_tab"@,
        "media_index"@ != "prefs_index"@,
        "media_index"@ != "ui_settings_index"@,
        "media_index"@ != "data_index"@,
        "media_index"@ != "help_category"@,
        "media_index"@ != "stats_tab"@,
{
    reveal_strlit("prefs_index");
    reveal_strlit("ui_settings_index");
    reveal_strlit("data_index");
    reveal_strlit("help_category");
    reveal_strlit("stats_tab");
    reveal_strlit("new_cards_per_day");
    reveal_strlit("max_reviews_per_day");
    reveal_strlit("auto_advance");
    reveal_strlit("show_hint");
    reveal_strlit("theme");
    reveal_strlit("show_progress");
    reveal_strlit("tag_index");
    reveal_strlit("media_index");
    reveal_strlit("0");
    reveal_strlit("2");
    assert forall|m: Map<Seq<char>, Seq<char>>, k: Seq<char>, n: nat| n <= usize::MAX implies #[trigger] ui_usize(
        m.insert(k, decimal(n)),
        k,
        0,
    ) == n by {
        lemma_parse_decimal(n, usize::MAX as nat);
    }
    assert("0"@ =~= decimal(0));
    assert("2"@ =~= decimal(2));
    assert("prefs_index"@[0] == 'p' && "ui_settings_index"@[0] == 'u' && "data_index"@[0] == 'd'
        && "help_category"@[0] == 'h' && "stats_tab"@[0] == 's' && "stats_tab"@[1] == 't');
    assert("new_cards_per_day"@[0] == 'n' && "max_reviews_per_day"@[0] == 'm' && "auto_advance"@[0] == 'a'
        && "show_hint"@[1] == 'h' && "theme"@[0] == 't' && "show_progress"@[0] == 's' && "tag_index"@[0] == 't'
        && "media_index"@[0] == 'm');
}

proof fn lemma_up_in_range(v: StoreView, c: ContextView)
    requires
        counters_in_range(v.ui),
    ensures
        nav_up_spec(v, c) matches Ok(r) ==> counters_in_range(r.0.ui),
{
    lemma_counter_keys();
}

proof fn lemma_down_in_range(v: StoreView, c: ContextView)
    requires
        counters_in_range(v.ui),
    ensures
        nav_down_spec(v, c) matches Ok(r) ==> counters_in_range(r.0.ui),
{
    lemma_counter_keys();
}

proof fn lemma_left_right_in_range(v: StoreView, dec: bool)
    requires
        counters_in_range(v.ui),
    ensures
        counters_in_range(left_right_spec(v, dec).ui),
{
    lemma_counter_keys();
}

proof fn lemma_tabs_in_range(v: StoreView, c: ContextView, down: bool)
    requires
        counters_in_range(v.ui),
    ensures
        counters_in_range(stats_scroll_spec(v, down).ui),
        counters_in_range(top_spec(v).ui),
        counters_in_range(end_spec(v, c).ui),
        page_down_spec(v, c) matches Ok(r) ==> counters_in_range(r.0.ui),
{
    lemma_counter_keys();
}

/// Moving within a page keeps each of the five page counters within its
/// page: none goes past its last entry or below the first.
pub proof fn lemma_counters_stay_in_range(v: StoreView, cmd: CommandTypeView, c: ContextView)
    requires
        counters_in_range(v.ui),
        moves_within_page(cmd),
    ensures
        execute_spec(v, cmd, c) matches Ok(r) ==> counters_in_range(r.0.ui),
{
    match cmd {
        CommandKind::NavigateUp => lemma_up_in_range(v, c),
        CommandKind::NavigateDown => lemma_down_in_range(v, c),
        CommandKind::NavigateLeft => lemma_left_right_in_range(v, true),
        CommandKind::NavigateRight => lemma_left_right_in_range(v, false),
        CommandKind::ScrollStatsUp => lemma_tabs_in_range(v, c, false),
        CommandKind::ScrollStatsDown => lemma_tabs_in_range(v, c, true),
        _ => lemma_tabs_in_range(v, c, true),
    }
}

/// Confirming main-menu entry 0, 1, 2 or 3 opens the deck list, deck
/// management, the statistics or the settings, exactly as navigating to
/// that screen does; the number keys 1 to 4 open the same screens.
pub proof fn lemma_menu_entry_opens_its_screen(v: StoreView, c: ContextView)
    requires
        v.screen == Screen::MainMenu,
        v.main_menu_selected < 4,
    ensures
        ({
            let target = if v.main_menu_selected == 0 {
                Screen::DeckSelection
            } else if v.main_menu_selected == 1 {
                Screen::DeckManagement
            } else if v.main_menu_selected == 2 {
                Screen::Statistics
            } else {
                Screen::Settings
            };
            &&& execute_spec(v, CommandKind::Confirm, c) == execute_spec(v, CommandKind::NavigateTo(target), c)
            &&& execute_spec(v, CommandKind::Confirm, c) matches Ok((w, None)) && w.screen == target
                && w.history == v.history.push(Screen::MainMenu)
        }),
{
}

/// With a deck list of `n` decks and the highlight on deck `cur`, the
/// previous deck is the one just above (the last one from the first), the
/// next deck is the one just below (the first one from the last), and
/// each undoes the other; nothing else changes.
pub proof fn lemma_previous_next_deck(v: StoreView, c: ContextView, cur: usize)
    requires
        c.decks is Ok,
        c.decks->Ok_0.len() > 0,
        c.decks->Ok_0.len() <= usize::MAX,
        v.deck_list_selected == Some(cur),
        cur < c.decks->Ok_0.len(),
    ensures
        ({
            let n = c.decks->Ok_0.len();
            let up = if cur == 0 { n - 1 } else { cur - 1 };
            let down = if cur == n - 1 { 0 } else { cur + 1 };
            &&& execute_spec(v, CommandKind::SelectPreviousDeck, c) == Ok::<(StoreView, Option<CoreRequest>), Seq<char>>(
                (StoreView { deck_list_selected: Some(up as usize), ..v }, None),
            )
            &&& execute_spec(v, CommandKind::SelectNextDeck, c) == Ok::<(StoreView, Option<CoreRequest>), Seq<char>>(
                (StoreView { deck_list_selected: Some(down as usize), ..v }, None),
            )
            &&& execute_spec(v, CommandKind::SelectPreviousDeck, c) matches Ok((w, _)) && execute_spec(
                w,
                CommandKind::SelectNextDeck,
                c,
            ) == Ok::<(StoreView, Option<CoreRequest>), Seq<char>>((v, None))
            &&& execute_spec(v, CommandKind::SelectNextDeck, c) matches Ok((w, _)) && execute_spec(
                w,
                CommandKind::SelectPreviousDeck,
                c,
            ) == Ok::<(StoreView, Option<CoreRequest>), Seq<char>>((v, None))
        }),
{
    let n = c.decks->Ok_0.len();
    let up = if cur == 0 { n - 1 } else { cur - 1 };
    let down = if cur == n - 1 { 0 } else { cur + 1 };
    assert(StoreView { deck_list_selected: Some(cur), ..StoreView { deck_list_selected: Some(up as usize), ..v } }
        == v);
    assert(StoreView { deck_list_selected: Some(cur), ..StoreView { deck_list_selected: Some(down as usize), ..v } }
        == v);
}

/// On the main menu, down moves the highlight one entry lower and up one
/// entry higher, stopping at the first and last of the five entries; down
/// then up returns to the entry left, unless it was the last. The settings
/// menu moves the same way over its five entries.
pub proof fn lemma_menu_moves_by_one(v: StoreView, c: ContextView)
    requires
        v.screen == Screen::MainMenu || v.screen == Screen::Settings,
        v.main_menu_selected < 5,
        v.settings_selected < 5,
    ensures
        v.screen == Screen::MainMenu ==> {
            let i = v.main_menu_selected;
            &&& execute_spec(v, CommandKind::NavigateDown, c) == Ok::<(StoreView, Option<CoreRequest>), Seq<char>>(
                (StoreView { main_menu_selected: if i < 4 { (i + 1) as usize } else { i }, ..v }, None),
            )
            &&& execute_spec(v, CommandKind::NavigateUp, c) == Ok::<(StoreView, Option<CoreRequest>), Seq<char>>(
                (StoreView { main_menu_selected: if i > 0 { (i - 1) as usize } else { 0 }, ..v }, None),
            )
            &&& i < 4 ==> (execute_spec(v, CommandKind::NavigateDown, c) matches Ok((w, _)) && execute_spec(
                w,
                CommandKind::NavigateUp,
                c,
            ) == Ok::<(StoreView, Option<CoreRequest>), Seq<char>>((v, None)))
        },
        v.screen == Screen::Settings ==> {
            let i = v.settings_selected;
            &&& execute_spec(v, CommandKind::NavigateDown, c) == Ok::<(StoreView, Option<CoreRequest>), Seq<char>>(
                (StoreView { settings_selected: if i < 4 { (i + 1) as usize } else { i }, ..v }, None),
            )
            &&& execute_spec(v, CommandKind::NavigateUp, c) == Ok::<(StoreView, Option<CoreRequest>), Seq<char>>(
                (StoreView { settings_selected: if i > 0 { (i - 1) as usize } else { 0 }, ..v }, None),
            )
        },
{
    let i = v.main_menu_selected;
    assert(StoreView { main_menu_selected: i, ..StoreView { main_menu_selected: (i + 1) as usize, ..v } } == v);
}

/// On the deck list and in deck management, up and down are the previous
/// and next deck.
pub proof fn lemma_deck_screens_arrows_move_decks(v: StoreView, c: ContextView)
    requires
        v.screen == Screen::DeckSelection || v.screen == Screen::DeckManagement,
    ensures
        execute_spec(v, CommandKind::NavigateUp, c) == execute_spec(v, CommandKind::SelectPreviousDeck, c),
        execute_spec(v, CommandKind::NavigateDown, c) == execute_spec(v, CommandKind::SelectNextDeck, c),
{
}

} // verus!
