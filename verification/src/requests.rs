//! The requests of the domain layer, commands that change data and queries
//! that read it, each with its id and, for commands, when it was made
//! (seconds since the epoch).
use vstd::prelude::*;

verus! {

/// A request that changes data.
pub trait Command {
    /// The request's id.
    fn id(&self) -> u128;

    /// When the request was made.
    fn timestamp(&self) -> i64;
}

/// A request that reads data.
pub trait Query {
    /// The request's id.
    fn id(&self) -> u128;
}

/// Creates a deck.
#[derive(Debug)]
pub struct CreateDeckCommand {
    pub id: u128,
    pub timestamp: i64,
    pub name: String,
    pub description: Option<String>,
}

impl Command for CreateDeckCommand {
    fn id(&self) -> (i: u128)
        ensures
            i == self.id,
    {
        self.id
    }

    fn timestamp(&self) -> (t: i64)
        ensures
            t == self.timestamp,
    {
        self.timestamp
    }
}

/// Renames or redescribes a deck.
#[derive(Debug)]
pub struct UpdateDeckCommand {
    pub id: u128,
    pub timestamp: i64,
    pub deck_id: u128,
    pub name: Option<String>,
    pub description: Option<String>,
}

impl Command for UpdateDeckCommand {
    fn id(&self) -> (i: u128)
        ensures
            i == self.id,
    {
        self.id
    }

    fn timestamp(&self) -> (t: i64)
        ensures
            t == self.timestamp,
    {
        self.timestamp
    }
}

/// Deletes a deck.
#[derive(Debug)]
pub struct DeleteDeckCommand {
    pub id: u128,
    pub timestamp: i64,
    pub deck_id: u128,
}

impl Command for DeleteDeckCommand {
    fn id(&self) -> (i: u128)
        ensures
            i == self.id,
    {
        self.id
    }

    fn timestamp(&self) -> (t: i64)
        ensures
            t == self.timestamp,
    {
        self.timestamp
    }
}

/// Adds a card to a deck.
#[derive(Debug)]
pub struct CreateCardCommand {
    pub id: u128,
    pub timestamp: i64,
    pub deck_id: u128,
    pub front: String,
    pub back: String,
    pub tags: Vec<String>,
}

impl Command for CreateCardCommand {
    fn id(&self) -> (i: u128)
        ensures
            i == self.id,
    {
        self.id
    }

    fn timestamp(&self) -> (t: i64)
        ensures
            t == self.timestamp,
    {
        self.timestamp
    }
}

/// Changes a card.
#[derive(Debug)]
pub struct UpdateCardCommand {
    pub id: u128,
    pub timestamp: i64,
    pub card_id: u128,
    pub front: Option<String>,
    pub back: Option<String>,
    pub tags: Option<Vec<String>>,
}

impl Command for UpdateCardCommand {
    fn id(&self) -> (i: u128)
        ensures
            i == self.id,
    {
        self.id
    }

    fn timestamp(&self) -> (t: i64)
        ensures
            t == self.timestamp,
    {
        self.timestamp
    }
}

/// Deletes a card.
#[derive(Debug)]
pub struct DeleteCardCommand {
    pub id: u128,
    pub timestamp: i64,
    pub card_id: u128,
}

impl Command for DeleteCardCommand {
    fn id(&self) -> (i: u128)
        ensures
            i == self.id,
    {
        self.id
    }

    fn timestamp(&self) -> (t: i64)
        ensures
            t == self.timestamp,
    {
        self.timestamp
    }
}

/// Starts a study session on a deck, with optional limits.
#[derive(Debug)]
pub struct StartStudySessionCommand {
    pub id: u128,
    pub timestamp: i64,
    pub deck_id: u128,
    pub max_new_cards: Option<i32>,
    pub max_review_cards: Option<i32>,
}

impl Command for StartStudySessionCommand {
    fn id(&self) -> (i: u128)
        ensures
            i == self.id,
    {
        self.id
    }

    fn timestamp(&self) -> (t: i64)
        ensures
            t == self.timestamp,
    {
        self.timestamp
    }
}

/// Rates a card: 0 again, 1 hard, 2 good, 3 easy.
#[derive(Debug)]
pub struct RateCardCommand {
    pub id: u128,
    pub timestamp: i64,
    pub card_id: u128,
    pub rating: i32,
}

impl Command for RateCardCommand {
    fn id(&self) -> (i: u128)
        ensures
            i == self.id,
    {
        self.id
    }

    fn timestamp(&self) -> (t: i64)
        ensures
            t == self.timestamp,
    {
        self.timestamp
    }
}

/// Ends a study session.
#[derive(Debug)]
pub struct EndStudySessionCommand {
    pub id: u128,
    pub timestamp: i64,
    pub session_id: u128,
}

impl Command for EndStudySessionCommand {
    fn id(&self) -> (i: u128)
        ensures
            i == self.id,
    {
        self.id
    }

    fn timestamp(&self) -> (t: i64)
        ensures
            t == self.timestamp,
    {
        self.timestamp
    }
}

/// Every deck.
#[derive(Debug)]
pub struct GetAllDecksQuery {
    pub id: u128,
}

impl Query for GetAllDecksQuery {
    fn id(&self) -> (i: u128)
        ensures
            i == self.id,
    {
        self.id
    }
}

/// One deck.
#[derive(Debug)]
pub struct GetDeckQuery {
    pub id: u128,
    pub deck_id: u128,
}

impl Query for GetDeckQuery {
    fn id(&self) -> (i: u128)
        ensures
            i == self.id,
    {
        self.id
    }
}

/// A deck by its name.
#[derive(Debug)]
pub struct FindDeckByNameQuery {
    pub id: u128,
    pub name: String,
}

impl Query for FindDeckByNameQuery {
    fn id(&self) -> (i: u128)
        ensures
            i == self.id,
    {
        self.id
    }
}

/// The cards of a deck, a page at a time.
#[derive(Debug)]
pub struct GetCardsInDeckQuery {
    pub id: u128,
    pub deck_id: u128,
    pub limit: Option<i32>,
    pub offset: Option<i32>,
}

impl Query for GetCardsInDeckQuery {
    fn id(&self) -> (i: u128)
        ensures
            i == self.id,
    {
        self.id
    }
}

/// One card.
#[derive(Debug)]
pub struct GetCardQuery {
    pub id: u128,
    pub card_id: u128,
}

impl Query for GetCardQuery {
    fn id(&self) -> (i: u128)
        ensures
            i == self.id,
    {
        self.id
    }
}

/// Cards holding a text, in one deck or all.
#[derive(Debug)]
pub struct SearchCardsQuery {
    pub id: u128,
    pub deck_id: Option<u128>,
    pub query: String,
    pub limit: Option<i32>,
}

impl Query for SearchCardsQuery {
    fn id(&self) -> (i: u128)
        ensures
            i == self.id,
    {
        self.id
    }
}

/// The cards due, in one deck or all.
#[derive(Debug)]
pub struct GetDueCardsQuery {
    pub id: u128,
    pub deck_id: Option<u128>,
    pub limit: Option<i32>,
}

impl Query for GetDueCardsQuery {
    fn id(&self) -> (i: u128)
        ensures
            i == self.id,
    {
        self.id
    }
}

/// The new cards, in one deck or all.
#[derive(Debug)]
pub struct GetNewCardsQuery {
    pub id: u128,
    pub deck_id: Option<u128>,
    pub limit: Option<i32>,
}

impl Query for GetNewCardsQuery {
    fn id(&self) -> (i: u128)
        ensures
            i == self.id,
    {
        self.id
    }
}

/// The next card to study in a deck.
#[derive(Debug)]
pub struct GetNextCardQuery {
    pub id: u128,
    pub deck_id: u128,
}

impl Query for GetNextCardQuery {
    fn id(&self) -> (i: u128)
        ensures
            i == self.id,
    {
        self.id
    }
}

/// The statistics of a deck.
#[derive(Debug)]
pub struct GetDeckStatisticsQuery {
    pub id: u128,
    pub deck_id: u128,
}

impl Query for GetDeckStatisticsQuery {
    fn id(&self) -> (i: u128)
        ensures
            i == self.id,
    {
        self.id
    }
}

/// The statistics over all decks.
#[derive(Debug)]
pub struct GetGlobalStatisticsQuery {
    pub id: u128,
}

impl Query for GetGlobalStatisticsQuery {
    fn id(&self) -> (i: u128)
        ensures
            i == self.id,
    {
        self.id
    }
}

/// The user's preferences.
#[derive(Debug)]
pub struct GetUserPreferencesQuery {
    pub id: u128,
}

impl Query for GetUserPreferencesQuery {
    fn id(&self) -> (i: u128)
        ensures
            i == self.id,
    {
        self.id
    }
}

} // verus!
