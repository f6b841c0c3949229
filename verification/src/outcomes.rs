//! What the application records once the core has answered a request:
//! each function takes the core's answer as a plain value.
use vstd::prelude::*;
use vstd::string::*;
use crate::app_commands::{StoreView, msg, nav};
use crate::command::Screen;
use crate::ids::{id_to_text, uuid_text};
use crate::model::SessionState;
use crate::store::{MessageLevel, StoreMessage, UiAppState};
use crate::text::{decimal, u64_to_text};
use crate::tui_error::TuiError;

verus! {

/// The error of a core call, with the text that says which call failed.
pub open spec fn core_failure(prefix: Seq<char>, e: Seq<char>) -> Seq<char> {
    prefix + e
}

fn core_error(prefix: &str, e: &String) -> (r: TuiError)
    ensures
        r matches TuiError::Core(t) && t@ == core_failure(prefix@, e@),
{
    TuiError::Core(String::from_str(prefix).concat(e.as_str()))
}

/// The deck that a study session would start on: the selected deck. With
/// none selected, a warning is shown and no session starts.
pub fn begin_study_session(state: &mut UiAppState) -> (deck: Option<u128>)
    ensures
        deck == old(state).selected_deck_id,
        final(state).wf() == old(state).wf(),
        deck is Some ==> final(state)@ == old(state)@,
        deck is None ==> final(state)@ == msg(
            old(state)@,
            MessageLevel::Warning,
            "No Deck Selected"@,
            "Please select a deck first"@,
        ),
{
    match state.selected_deck_id {
        Some(id) => Some(id),
        None => {
            state.message = Some(StoreMessage::warning("No Deck Selected", "Please select a deck first"));
            assert(final(state)@ =~= msg(
                old(state)@,
                MessageLevel::Warning,
                "No Deck Selected"@,
                "Please select a deck first"@,
            ));
            None
        },
    }
}

/// A fresh session on a deck, started at `start`.
pub open spec fn fresh_session(deck: u128, start: i64) -> SessionState {
    SessionState {
        deck_id: deck,
        cards_studied: 0,
        total_cards: 0,
        start_time: start,
        remaining_new: 0,
        remaining_review: 0,
    }
}

/// The store once a study session has started on a deck at `start`.
pub open spec fn session_started(v: StoreView, deck: u128, start: i64) -> StoreView {
    msg(
        StoreView { session: Some(fresh_session(deck, start)), card_study: true, ..nav(v, Screen::StudySession) },
        MessageLevel::Success,
        "Study Session Started"@,
        "Good luck with your studying!"@,
    )
}

/// Records the core's answer to starting a session on `deck`: on success the
/// study screen opens with a fresh session; a failure is returned as a core
/// error and changes nothing.
pub fn finish_study_session_start(state: &mut UiAppState, deck: u128, outcome: &Result<(), String>) -> (r:
    Result<(), TuiError>)
    ensures
        final(state).wf() == old(state).wf(),
        outcome is Ok ==> {
            &&& r is Ok
            &&& final(state).current_session matches Some(s) && final(state)@ == session_started(
                old(state)@,
                deck,
                s.start_time,
            )
        },
        outcome matches Err(e) ==> (r matches Err(TuiError::Core(t)) && t@ == core_failure(
            "Failed to start study session: "@,
            e@,
        )) && final(state)@ == old(state)@,
{
    match outcome {
        Err(e) => Err(core_error("Failed to start study session: ", e)),
        Ok(_) => {
            state.go(Screen::StudySession);
            state.say(MessageLevel::Success, "Study Session Started", "Good luck with your studying!");
            let session = SessionState::new(deck);
            let ghost start = session.start_time;
            state.current_session = Some(session);
            state.current_card_study = true;
            assert(final(state)@ =~= session_started(old(state)@, deck, start));
            Ok(())
        },
    }
}

/// The store once a session has ended after `studied` cards.
pub open spec fn session_ended(v: StoreView, studied: nat) -> StoreView {
    msg(
        nav(StoreView { session: None, card_study: false, showing_answer: false, ..v }, Screen::DeckSelection),
        MessageLevel::Success,
        "Session Complete"@,
        "Cards studied: "@ + decimal(studied),
    )
}

/// Records the core's answer to ending the session: the number of cards
/// studied, or the error, which changes nothing.
pub fn finish_study_session_end(state: &mut UiAppState, outcome: &Result<u64, String>) -> (r: Result<
    (),
    TuiError,
>)
    ensures
        final(state).wf() == old(state).wf(),
        match outcome {
            Ok(n) => r is Ok && final(state)@ == session_ended(old(state)@, *n as nat),
            Err(e) => (r matches Err(TuiError::Core(t)) && t@ == core_failure(
                "Failed to end study session: "@,
                e@,
            )) && final(state)@ == old(state)@,
        },
{
    match outcome {
        Err(e) => Err(core_error("Failed to end study session: ", e)),
        Ok(n) => {
            state.current_session = None;
            state.current_card_study = false;
            state.showing_answer = false;
            state.go(Screen::DeckSelection);
            let count = u64_to_text(*n);
            let text = String::from_str("Cards studied: ").concat(count.as_str());
            state.message = Some(
                StoreMessage { level: MessageLevel::Success, title: String::from_str("Session Complete"), content: text },
            );
            assert(final(state)@ =~= session_ended(old(state)@, *n as nat));
            Ok(())
        },
    }
}

/// Records the core's answer to rating the current card: the answer is
/// hidden again for the next card.
pub fn finish_card_rating(state: &mut UiAppState, outcome: &Result<(), String>) -> (r: Result<(), TuiError>)
    ensures
        final(state).wf() == old(state).wf(),
        match outcome {
            Ok(_) => r is Ok && final(state)@ == (StoreView { showing_answer: false, ..old(state)@ }),
            Err(e) => (r matches Err(TuiError::Core(t)) && t@ == core_failure("Failed to rate card: "@, e@))
                && final(state)@ == old(state)@,
        },
{
    match outcome {
        Err(e) => Err(core_error("Failed to rate card: ", e)),
        Ok(_) => {
            state.showing_answer = false;
            assert(final(state)@ =~= (StoreView { showing_answer: false, ..old(state)@ }));
            Ok(())
        },
    }
}

/// How a card is put aside.
#[derive(Debug, Clone, Copy, PartialEq, Eq, Structural)]
pub enum SetAside {
    /// Until the next session.
    Bury,
    /// Until it is unsuspended.
    Suspend,
}

pub open spec fn set_aside_failure(kind: SetAside) -> Seq<char> {
    match kind {
        SetAside::Bury => "Failed to bury card: "@,
        SetAside::Suspend => "Failed to suspend card: "@,
    }
}

/// The message once a card has been put aside.
pub open spec fn set_aside_message(v: StoreView, kind: SetAside) -> StoreView {
    match kind {
        SetAside::Bury => msg(v, MessageLevel::Info, "Card Buried"@, "Card will appear again in the next session"@),
        SetAside::Suspend => msg(
            v,
            MessageLevel::Warning,
            "Card Suspended"@,
            "Card will not appear until unsuspended"@,
        ),
    }
}

/// Records the core's answers to putting the current card aside and then
/// moving to the next card. `skipped` is only read when `set_aside`
/// succeeded: the answer is hidden before the move, and the message comes
/// only after both succeeded.
pub fn finish_set_aside(
    state: &mut UiAppState,
    kind: SetAside,
    set_aside: &Result<(), String>,
    skipped: Result<(), TuiError>,
) -> (r: Result<(), TuiError>)
    ensures
        final(state).wf() == old(state).wf(),
        match set_aside {
            Err(e) => (r matches Err(TuiError::Core(t)) && t@ == core_failure(set_aside_failure(kind), e@))
                && final(state)@ == old(state)@,
            Ok(_) => match skipped {
                Err(_) => r == skipped && final(state)@ == (StoreView {
                    showing_answer: false,
                    ..old(state)@
                }),
                Ok(_) => r is Ok && final(state)@ == set_aside_message(
                    StoreView { showing_answer: false, ..old(state)@ },
                    kind,
                ),
            },
        },
{
    match set_aside {
        Err(e) => match kind {
            SetAside::Bury => Err(core_error("Failed to bury card: ", e)),
            SetAside::Suspend => Err(core_error("Failed to suspend card: ", e)),
        },
        Ok(_) => {
            state.showing_answer = false;
            assert(state@ =~= (StoreView { showing_answer: false, ..old(state)@ }));
            match skipped {
                Err(e) => Err(e),
                Ok(_) => {
                    match kind {
                        SetAside::Bury => state.say(
                            MessageLevel::Info,
                            "Card Buried",
                            "Card will appear again in the next session",
                        ),
                        SetAside::Suspend => state.say(
                            MessageLevel::Warning,
                            "Card Suspended",
                            "Card will not appear until unsuspended",
                        ),
                    }
                    Ok(())
                },
            }
        },
    }
}

/// How a card is brought back.
#[derive(Debug, Clone, Copy, PartialEq, Eq, Structural)]
pub enum Restore {
    Unbury,
    Unsuspend,
}

pub open spec fn restore_failure(kind: Restore) -> Seq<char> {
    match kind {
        Restore::Unbury => "Failed to unbury card: "@,
        Restore::Unsuspend => "Failed to unsuspend card: "@,
    }
}

pub open spec fn restore_message(v: StoreView, kind: Restore) -> StoreView {
    match kind {
        Restore::Unbury => msg(v, MessageLevel::Info, "Card Unburied"@, "Card will appear in the next session"@),
        Restore::Unsuspend => msg(
            v,
            MessageLevel::Info,
            "Card Unsuspended"@,
            "Card will appear in the learning queue"@,
        ),
    }
}

/// Records the outcome of bringing the current card back, once the session
/// had a current card and knew its deck. `outcome` is `None` when the core
/// was not asked, because the deck's cards could not be read or did not
/// hold the card; the message is shown in that case too.
pub fn finish_restore(state: &mut UiAppState, kind: Restore, outcome: &Option<Result<(), String>>) -> (r: Result<
    (),
    TuiError,
>)
    ensures
        final(state).wf() == old(state).wf(),
        match outcome {
            Some(Err(e)) => (r matches Err(TuiError::Core(t)) && t@ == core_failure(restore_failure(kind), e@))
                && final(state)@ == old(state)@,
            _ => r is Ok && final(state)@ == restore_message(old(state)@, kind),
        },
{
    match outcome {
        Some(Err(e)) => match kind {
            Restore::Unbury => Err(core_error("Failed to unbury card: ", e)),
            Restore::Unsuspend => Err(core_error("Failed to unsuspend card: ", e)),
        },
        _ => {
            match kind {
                Restore::Unbury => state.say(
                    MessageLevel::Info,
                    "Card Unburied",
                    "Card will appear in the next session",
                ),
                Restore::Unsuspend => state.say(
                    MessageLevel::Info,
                    "Card Unsuspended",
                    "Card will appear in the learning queue",
                ),
            }
            Ok(())
        },
    }
}

/// The sum of the counts of the successful cleanups.
pub open spec fn cleaned_total(results: Seq<Result<usize, String>>) -> nat
    decreases results.len(),
{
    if results.len() == 0 {
        0
    } else {
        cleaned_total(results.drop_last()) + match results.last() {
            Ok(n) => n as nat,
            Err(_) => 0nat,
        }
    }
}

/// The message after cleaning the media of `deck_count` decks.
pub open spec fn media_cleanup_message(v: StoreView, deck_count: nat, total: nat) -> StoreView {
    if deck_count == 0 {
        msg(v, MessageLevel::Info, "No Decks"@, "No decks found to clean media from"@)
    } else if total > 0 {
        msg(
            v,
            MessageLevel::Success,
            "Media Cleaned"@,
            "Removed "@ + decimal(total) + " orphaned media file(s)"@,
        )
    } else {
        msg(v, MessageLevel::Info, "No Orphaned Media"@, "All media files are referenced by cards"@)
    }
}

/// Records the results of cleaning each deck's media; failed decks count
/// for nothing.
pub fn finish_media_cleanup(state: &mut UiAppState, deck_count: usize, results: &Vec<Result<usize, String>>)
    requires
        cleaned_total(results@) <= u64::MAX,
    ensures
        final(state).wf() == old(state).wf(),
        final(state)@ == media_cleanup_message(old(state)@, deck_count as nat, cleaned_total(results@)),
{
    if deck_count == 0 {
        state.say(MessageLevel::Info, "No Decks", "No decks found to clean media from");
        return ;
    }
    let mut total: u64 = 0;
    let mut i: usize = 0;
    while i < results.len()
        invariant
            i <= results@.len(),
            total as nat == cleaned_total(results@.take(i as int)),
            cleaned_total(results@) <= u64::MAX,
        decreases results@.len() - i,
    {
        proof {
            assert(results@.take(i + 1).drop_last() =~= results@.take(i as int));
            lemma_cleaned_total_prefix(results@, i as int + 1);
        }
        match &results[i] {
            Ok(n) => {
                total = total + *n as u64;
            },
            Err(_) => {},
        }
        i = i + 1;
    }
    assert(results@.take(results@.len() as int) =~= results@);
    if total > 0 {
        let count = u64_to_text(total);
        let text = String::from_str("Removed ").concat(count.as_str()).concat(" orphaned media file(s)");
        state.message = Some(
            StoreMessage { level: MessageLevel::Success, title: String::from_str("Media Cleaned"), content: text },
        );
        assert(final(state)@ =~= media_cleanup_message(old(state)@, deck_count as nat, cleaned_total(results@)));
    } else {
        state.say(MessageLevel::Info, "No Orphaned Media", "All media files are referenced by cards");
    }
}

/// A prefix's total is at most the whole total.
proof fn lemma_cleaned_total_prefix(results: Seq<Result<usize, String>>, k: int)
    requires
        0 <= k <= results.len(),
    ensures
        cleaned_total(results.take(k)) <= cleaned_total(results),
    decreases results.len() - k,
{
    if k < results.len() {
        lemma_cleaned_total_prefix(results, k + 1);
        assert(results.take(k + 1).drop_last() =~= results.take(k));
    } else {
        assert(results.take(k) =~= results);
    }
}

/// Whether the counts of the successful cleanups add up to at most
/// `u64::MAX`, the bound under which `finish_media_cleanup` can add them.
pub fn cleaned_total_fits(results: &Vec<Result<usize, String>>) -> (b: bool)
    ensures
        b == (cleaned_total(results@) <= u64::MAX),
{
    let mut total: u64 = 0;
    let mut i: usize = 0;
    while i < results.len()
        invariant
            i <= results@.len(),
            total as nat == cleaned_total(results@.take(i as int)),
        decreases results@.len() - i,
    {
        proof {
            assert(results@.take(i + 1).drop_last() =~= results@.take(i as int));
        }
        match &results[i] {
            Ok(n) => {
                let add = *n as u64;
                if add > u64::MAX - total {
                    proof {
                        lemma_cleaned_total_prefix(results@, i as int + 1);
                    }
                    return false;
                }
                total = total + add;
            },
            Err(_) => {},
        }
        i = i + 1;
    }
    assert(results@.take(results@.len() as int) =~= results@);
    true
}

/// Records the core's answer to creating the deck `name`.
pub fn finish_deck_creation(state: &mut UiAppState, name: &String, outcome: &Result<(), String>)
    ensures
        final(state).wf() == old(state).wf(),
        final(state)@ == match outcome {
            Ok(_) => msg(
                old(state)@,
                MessageLevel::Success,
                "Deck Created"@,
                "Deck '"@ + name@ + "' created successfully"@,
            ),
            Err(e) => msg(old(state)@, MessageLevel::Error, "Deck Creation Failed"@, e@),
        },
{
    match outcome {
        Ok(_) => {
            let text = String::from_str("Deck '").concat(name.as_str()).concat("' created successfully");
            state.message = Some(
                StoreMessage { level: MessageLevel::Success, title: String::from_str("Deck Created"), content: text },
            );
        },
        Err(e) => {
            state.message = Some(
                StoreMessage {
                    level: MessageLevel::Error,
                    title: String::from_str("Deck Creation Failed"),
                    content: e.clone(),
                },
            );
        },
    }
    assert(final(state)@ =~= match outcome {
        Ok(_) => msg(
            old(state)@,
            MessageLevel::Success,
            "Deck Created"@,
            "Deck '"@ + name@ + "' created successfully"@,
        ),
        Err(e) => msg(old(state)@, MessageLevel::Error, "Deck Creation Failed"@, e@),
    });
}

/// Records the core's answer to deleting a deck by its id.
pub fn finish_deck_deletion(state: &mut UiAppState, outcome: &Result<(), String>)
    ensures
        final(state).wf() == old(state).wf(),
        final(state)@ == match outcome {
            Ok(_) => msg(old(state)@, MessageLevel::Success, "Deck Deleted"@, "Deck deleted successfully"@),
            Err(e) => msg(old(state)@, MessageLevel::Error, "Delete Failed"@, e@),
        },
{
    match outcome {
        Ok(_) => {
            state.say(MessageLevel::Success, "Deck Deleted", "Deck deleted successfully");
        },
        Err(e) => {
            state.message = Some(
                StoreMessage { level: MessageLevel::Error, title: String::from_str("Delete Failed"), content: e.clone() },
            );
            assert(final(state)@ =~= msg(old(state)@, MessageLevel::Error, "Delete Failed"@, e@));
        },
    }
}

/// The list selection after the deck at `index` of `count` was deleted: the
/// same position, kept inside the shorter list.
pub open spec fn selection_after_delete(index: nat, count: nat) -> nat {
    let new_len: nat = if count > 0 {
        (count - 1) as nat
    } else {
        0
    };
    if new_len == 0 {
        0
    } else if index < new_len - 1 {
        index
    } else {
        (new_len - 1) as nat
    }
}

/// Records the core's answer to deleting the deck named `name`, listed at
/// `index` of `count` decks on the deck management screen.
pub fn finish_listed_deck_deletion(
    state: &mut UiAppState,
    index: usize,
    count: usize,
    name: &String,
    outcome: &Result<(), String>,
)
    ensures
        final(state).wf() == old(state).wf(),
        final(state)@ == match outcome {
            Ok(_) => msg(
                StoreView {
                    deck_list_selected: Some(selection_after_delete(index as nat, count as nat) as usize),
                    ..old(state)@
                },
                MessageLevel::Success,
                "Deck Deleted"@,
                "'"@ + name@ + "' has been deleted"@,
            ),
            Err(e) => msg(
                old(state)@,
                MessageLevel::Error,
                "Delete Failed"@,
                "Failed to delete '"@ + name@ + "': "@ + e@,
            ),
        },
{
    match outcome {
        Err(e) => {
            let text = String::from_str("Failed to delete '").concat(name.as_str()).concat("': ").concat(
                e.as_str(),
            );
            state.message = Some(
                StoreMessage { level: MessageLevel::Error, title: String::from_str("Delete Failed"), content: text },
            );
        },
        Ok(_) => {
            let new_len = count.saturating_sub(1);
            let sel = if new_len == 0 {
                0
            } else if index < new_len - 1 {
                index
            } else {
                new_len - 1
            };
            state.deck_list_selected = Some(sel);
            let text = String::from_str("'").concat(name.as_str()).concat("' has been deleted");
            state.message = Some(
                StoreMessage { level: MessageLevel::Success, title: String::from_str("Deck Deleted"), content: text },
            );
        },
    }
    assert(final(state)@ =~= match outcome {
        Ok(_) => msg(
            StoreView {
                deck_list_selected: Some(selection_after_delete(index as nat, count as nat) as usize),
                ..old(state)@
            },
            MessageLevel::Success,
            "Deck Deleted"@,
            "'"@ + name@ + "' has been deleted"@,
        ),
        Err(e) => msg(
            old(state)@,
            MessageLevel::Error,
            "Delete Failed"@,
            "Failed to delete '"@ + name@ + "': "@ + e@,
        ),
    });
}

/// Records the answer to refreshing the selected deck's statistics: a
/// message only when they could be read.
pub fn finish_statistics_refresh(state: &mut UiAppState, outcome: &Result<(), String>)
    ensures
        final(state).wf() == old(state).wf(),
        final(state)@ == match outcome {
            Ok(_) => msg(
                old(state)@,
                MessageLevel::Success,
                "Statistics Refreshed"@,
                "Deck statistics have been updated"@,
            ),
            Err(_) => old(state)@,
        },
{
    if outcome.is_ok() {
        state.say(MessageLevel::Success, "Statistics Refreshed", "Deck statistics have been updated");
    }
}

/// Records the answer to loading a deck's statistics: a message naming the
/// deck's id only when they could be read.
pub fn finish_statistics_load(state: &mut UiAppState, deck: u128, outcome: &Result<(), String>)
    ensures
        final(state).wf() == old(state).wf(),
        final(state)@ == match outcome {
            Ok(_) => msg(
                old(state)@,
                MessageLevel::Success,
                "Statistics Loaded"@,
                "Loaded statistics for deck: "@ + uuid_text(deck),
            ),
            Err(_) => old(state)@,
        },
{
    if outcome.is_ok() {
        let text = String::from_str("Loaded statistics for deck: ").concat(id_to_text(deck).as_str());
        state.message = Some(
            StoreMessage { level: MessageLevel::Success, title: String::from_str("Statistics Loaded"), content: text },
        );
        assert(final(state)@ =~= msg(
            old(state)@,
            MessageLevel::Success,
            "Statistics Loaded"@,
            "Loaded statistics for deck: "@ + uuid_text(deck),
        ));
    }
}

/// What the application does to recover from an error once it is shown.
#[derive(Debug, Clone, Copy, PartialEq, Eq, Structural)]
pub enum ErrorRecovery {
    /// Reads the core's data again.
    RefreshCoreData,
    /// The store was reset to its initial state.
    StateReset,
}

/// The text an error is shown with.
pub open spec fn error_text(e: TuiError) -> Seq<char> {
    match e {
        TuiError::Core(m) => "Core error: "@ + m@,
        TuiError::State { message } => "State error: "@ + message@,
    }
}

/// The text an error is shown with.
pub fn error_to_text(e: &TuiError) -> (t: String)
    ensures
        t@ == error_text(*e),
{
    match e {
        TuiError::Core(m) => String::from_str("Core error: ").concat(m.as_str()),
        TuiError::State { message } => String::from_str("State error: ").concat(message.as_str()),
    }
}

/// Shows an error and recovers from it. The error is recorded and shown as
/// an "Application Error" message; a core error then asks for the core's
/// data to be read again, and a state error resets the store to its
/// initial state, which clears the error again.
pub fn handle_error(state: &mut UiAppState, error: TuiError) -> (r: ErrorRecovery)
    ensures
        match error {
            TuiError::Core(_) => r == ErrorRecovery::RefreshCoreData && final(state)@ == (StoreView {
                error: Some(error_text(error)),
                ..msg(old(state)@, MessageLevel::Error, "Application Error"@, error_text(error))
            }) && final(state).wf() == old(state).wf(),
            TuiError::State { .. } => r == ErrorRecovery::StateReset && final(state).wf() && final(state).current_screen
                == Screen::MainMenu && final(state).navigation_history@.len() == 0 && final(state).selected_deck_id is None
                && final(state).current_session is None && !final(state).loading && final(state).error is None
                && final(state).message is None && final(state).ui_state@ == Map::<Seq<char>, Seq<char>>::empty()
                && final(state).deck_list_selected is None && !final(state).showing_answer && !final(state).current_card_study
                && final(state).main_menu_selected == 0 && final(state).settings_selected == 0,
        },
{
    let text = error_to_text(&error);
    state.error = Some(text.clone());
    state.message = Some(StoreMessage::error("Application Error", text.as_str()));
    match error {
        TuiError::Core(_) => {
            assert(final(state)@ =~= (StoreView {
                error: Some(error_text(error)),
                ..msg(old(state)@, MessageLevel::Error, "Application Error"@, error_text(error))
            }));
            ErrorRecovery::RefreshCoreData
        },
        TuiError::State { .. } => {
            *state = UiAppState::new();
            ErrorRecovery::StateReset
        },
    }
}

} // verus!
