//! Screens, commands and card ratings exchanged between the event loop and the application.
use vstd::prelude::*;

verus! {

/// A screen of the application.
#[derive(Debug, Clone, Copy, PartialEq, Eq, Structural)]
pub enum Screen {
    MainMenu,
    DeckSelection,
    StudySession,
    CardEditor,
    DeckManagement,
    Statistics,
    Settings,
    Search,
    Help,
    TagManagement,
    MediaManagement,
    StudyPrefs,
    UiSettings,
    DataManage,
}

/// A rating given to a card in the interface.
#[derive(Debug, Clone, Copy, PartialEq, Eq, Structural)]
pub enum CardRating {
    Again,
    Hard,
    Good,
    Easy,
}

/// The scheduler's rating of a review.
#[derive(Debug, Clone, Copy, PartialEq, Eq, Structural)]
pub enum Rating {
    Again,
    Hard,
    Good,
    Easy,
}

/// A rating as the application controller names it.
#[derive(Debug, Clone, Copy, PartialEq, Eq, Structural)]
pub enum UiRating {
    Again,
    Hard,
    Good,
    Easy,
}

pub open spec fn spec_rating_of(r: CardRating) -> Rating {
    match r {
        CardRating::Again => Rating::Again,
        CardRating::Hard => Rating::Hard,
        CardRating::Good => Rating::Good,
        CardRating::Easy => Rating::Easy,
    }
}

pub open spec fn spec_card_rating_of(r: Rating) -> CardRating {
    match r {
        Rating::Again => CardRating::Again,
        Rating::Hard => CardRating::Hard,
        Rating::Good => CardRating::Good,
        Rating::Easy => CardRating::Easy,
    }
}

impl CardRating {
    /// The scheduler rating with the same name.
    pub fn to_rating(self) -> (r: Rating)
        ensures
            r == spec_rating_of(self),
    {
        match self {
            CardRating::Again => Rating::Again,
            CardRating::Hard => Rating::Hard,
            CardRating::Good => Rating::Good,
            CardRating::Easy => Rating::Easy,
        }
    }

    /// The interface rating with the same name as a scheduler rating.
    pub fn from_rating(r: Rating) -> (c: CardRating)
        ensures
            c == spec_card_rating_of(r),
    {
        match r {
            Rating::Again => CardRating::Again,
            Rating::Hard => CardRating::Hard,
            Rating::Good => CardRating::Good,
            Rating::Easy => CardRating::Easy,
        }
    }
}

impl From<CardRating> for Rating {
    fn from(rating: CardRating) -> (r: Rating) {
        rating.to_rating()
    }
}

impl vstd::std_specs::convert::FromSpecImpl<CardRating> for Rating {
    open spec fn obeys_from_spec() -> bool {
        true
    }

    open spec fn from_spec(v: CardRating) -> Rating {
        spec_rating_of(v)
    }
}

impl From<Rating> for CardRating {
    fn from(rating: Rating) -> (r: CardRating) {
        CardRating::from_rating(rating)
    }
}

impl vstd::std_specs::convert::FromSpecImpl<Rating> for CardRating {
    open spec fn obeys_from_spec() -> bool {
        true
    }

    open spec fn from_spec(v: Rating) -> CardRating {
        spec_card_rating_of(v)
    }
}

/// Converting a rating to the scheduler and back gives the same rating.
pub proof fn lemma_rating_round_trip(r: CardRating)
    ensures
        spec_card_rating_of(spec_rating_of(r)) == r,
{
}

/// Converting a scheduler rating to the interface and back gives the same rating.
pub proof fn lemma_core_rating_round_trip(r: Rating)
    ensures
        spec_rating_of(spec_card_rating_of(r)) == r,
{
}

/// A command of the application. `S` is the type of texts and `P` that of
/// a list of preference pairs; `CommandType` fixes them to owned strings and
/// a vector, its view to sequences.
#[derive(Debug)]
pub enum CommandKind<S, P> {
    NavigateTo(Screen),
    NavigateToMainMenu,
    NavigateBack,
    NavigateUp,
    NavigateDown,
    NavigateLeft,
    NavigateRight,
    NavigatePageUp,
    NavigatePageDown,
    NavigateHome,
    NavigateEnd,
    Confirm,
    Select,
    ShowHelp,
    Quit,
    Unknown,
    StartSearch,
    SearchDecks(S),
    SearchCards(S),
    SearchBackspace,
    SearchResultUp,
    SearchResultDown,
    SearchSelectResult,
    RateCurrentCard(CardRating),
    ShowAnswer,
    SkipCurrentCard,
    StartStudySession(u128),
    StartStudySessionDefault,
    EndStudySession,
    PauseSession,
    ResumeSession,
    RefreshSession,
    RefreshScreen,
    RefreshStatistics,
    LoadDecks,
    LoadStatistics(u128),
    ScrollUp,
    ScrollDown,
    ScrollStatsUp,
    ScrollStatsDown,
    SelectPreviousDeck,
    SelectNextDeck,
    SelectDeck(u128),
    CreateDeckPrompt,
    DeleteDeckPrompt,
    CreateCardPrompt,
    CreateDeck(S, Option<S>),
    DeleteDeck(u128),
    UpdateDeck(u128, S, Option<S>),
    ExportDeck,
    ImportCards(S),
    DeleteCard(u128),
    SaveCard,
    CancelEdit,
    ToggleCardSide,
    PasteCardContent(S),
    BuryCard,
    SuspendCard,
    UnburyCard,
    UnsuspendCard,
    DeleteSelectedTag,
    CleanOrphanedMedia,
    ConfirmSetting,
    LoadUserPreferences,
    UpdateUserPreferences(P),
    UpdateTheme(S),
    UpdateLanguage(S),
    UpdateStudyGoals(u32, u32),
    Resize(u16, u16),
    FocusGained,
    FocusLost,
    Paste(S),
    Click(u16, u16),
    RightClick(u16, u16),
    MouseMove(u16, u16),
    ShowDeckContextMenu(u16, u16),
    ShowCardContextMenu(u16, u16),
}

/// A command as the application handles it.
pub type CommandType = CommandKind<String, Vec<(String, String)>>;

/// The mathematical value of a command: its texts as character sequences.
pub type CommandTypeView = CommandKind<Seq<char>, Seq<(Seq<char>, Seq<char>)>>;

pub open spec fn opt_view(o: Option<String>) -> Option<Seq<char>> {
    match o {
        Some(s) => Some(s@),
        None => None,
    }
}

pub open spec fn pairs_view(p: Vec<(String, String)>) -> Seq<(Seq<char>, Seq<char>)> {
    p@.map_values(|kv: (String, String)| (kv.0@, kv.1@))
}

impl View for CommandKind<String, Vec<(String, String)>> {
    type V = CommandTypeView;

    open spec fn view(&self) -> CommandTypeView {
        match *self {
            CommandKind::NavigateTo(s) => CommandKind::NavigateTo(s),
            CommandKind::NavigateToMainMenu => CommandKind::NavigateToMainMenu,
            CommandKind::NavigateBack => CommandKind::NavigateBack,
            CommandKind::NavigateUp => CommandKind::NavigateUp,
            CommandKind::NavigateDown => CommandKind::NavigateDown,
            CommandKind::NavigateLeft => CommandKind::NavigateLeft,
            CommandKind::NavigateRight => CommandKind::NavigateRight,
            CommandKind::NavigatePageUp => CommandKind::NavigatePageUp,
            CommandKind::NavigatePageDown => CommandKind::NavigatePageDown,
            CommandKind::NavigateHome => CommandKind::NavigateHome,
            CommandKind::NavigateEnd => CommandKind::NavigateEnd,
            CommandKind::Confirm => CommandKind::Confirm,
            CommandKind::Select => CommandKind::Select,
            CommandKind::ShowHelp => CommandKind::ShowHelp,
            CommandKind::Quit => CommandKind::Quit,
            CommandKind::Unknown => CommandKind::Unknown,
            CommandKind::StartSearch => CommandKind::StartSearch,
            CommandKind::SearchDecks(q) => CommandKind::SearchDecks(q@),
            CommandKind::SearchCards(q) => CommandKind::SearchCards(q@),
            CommandKind::SearchBackspace => CommandKind::SearchBackspace,
            CommandKind::SearchResultUp => CommandKind::SearchResultUp,
            CommandKind::SearchResultDown => CommandKind::SearchResultDown,
            CommandKind::SearchSelectResult => CommandKind::SearchSelectResult,
            CommandKind::RateCurrentCard(r) => CommandKind::RateCurrentCard(r),
            CommandKind::ShowAnswer => CommandKind::ShowAnswer,
            CommandKind::SkipCurrentCard => CommandKind::SkipCurrentCard,
            CommandKind::StartStudySession(d) => CommandKind::StartStudySession(d),
            CommandKind::StartStudySessionDefault => CommandKind::StartStudySessionDefault,
            CommandKind::EndStudySession => CommandKind::EndStudySession,
            CommandKind::PauseSession => CommandKind::PauseSession,
            CommandKind::ResumeSession => CommandKind::ResumeSession,
            CommandKind::RefreshSession => CommandKind::RefreshSession,
            CommandKind::RefreshScreen => CommandKind::RefreshScreen,
            CommandKind::RefreshStatistics => CommandKind::RefreshStatistics,
            CommandKind::LoadDecks => CommandKind::LoadDecks,
            CommandKind::LoadStatistics(d) => CommandKind::LoadStatistics(d),
            CommandKind::ScrollUp => CommandKind::ScrollUp,
            CommandKind::ScrollDown => CommandKind::ScrollDown,
            CommandKind::ScrollStatsUp => CommandKind::ScrollStatsUp,
            CommandKind::ScrollStatsDown => CommandKind::ScrollStatsDown,
            CommandKind::SelectPreviousDeck => CommandKind::SelectPreviousDeck,
            CommandKind::SelectNextDeck => CommandKind::SelectNextDeck,
            CommandKind::SelectDeck(d) => CommandKind::SelectDeck(d),
            CommandKind::CreateDeckPrompt => CommandKind::CreateDeckPrompt,
            CommandKind::DeleteDeckPrompt => CommandKind::DeleteDeckPrompt,
            CommandKind::CreateCardPrompt => CommandKind::CreateCardPrompt,
            CommandKind::CreateDeck(n, d) => CommandKind::CreateDeck(n@, opt_view(d)),
            CommandKind::DeleteDeck(d) => CommandKind::DeleteDeck(d),
            CommandKind::UpdateDeck(i, n, d) => CommandKind::UpdateDeck(i, n@, opt_view(d)),
            CommandKind::ExportDeck => CommandKind::ExportDeck,
            CommandKind::ImportCards(c) => CommandKind::ImportCards(c@),
            CommandKind::DeleteCard(c) => CommandKind::DeleteCard(c),
            CommandKind::SaveCard => CommandKind::SaveCard,
            CommandKind::CancelEdit => CommandKind::CancelEdit,
            CommandKind::ToggleCardSide => CommandKind::ToggleCardSide,
            CommandKind::PasteCardContent(c) => CommandKind::PasteCardContent(c@),
            CommandKind::BuryCard => CommandKind::BuryCard,
            CommandKind::SuspendCard => CommandKind::SuspendCard,
            CommandKind::UnburyCard => CommandKind::UnburyCard,
            CommandKind::UnsuspendCard => CommandKind::UnsuspendCard,
            CommandKind::DeleteSelectedTag => CommandKind::DeleteSelectedTag,
            CommandKind::CleanOrphanedMedia => CommandKind::CleanOrphanedMedia,
            CommandKind::ConfirmSetting => CommandKind::ConfirmSetting,
            CommandKind::LoadUserPreferences => CommandKind::LoadUserPreferences,
            CommandKind::UpdateUserPreferences(p) => CommandKind::UpdateUserPreferences(pairs_view(p)),
            CommandKind::UpdateTheme(t) => CommandKind::UpdateTheme(t@),
            CommandKind::UpdateLanguage(l) => CommandKind::UpdateLanguage(l@),
            CommandKind::UpdateStudyGoals(c, m) => CommandKind::UpdateStudyGoals(c, m),
            CommandKind::Resize(w, h) => CommandKind::Resize(w, h),
            CommandKind::FocusGained => CommandKind::FocusGained,
            CommandKind::FocusLost => CommandKind::FocusLost,
            CommandKind::Paste(c) => CommandKind::Paste(c@),
            CommandKind::Click(x, y) => CommandKind::Click(x, y),
            CommandKind::RightClick(x, y) => CommandKind::RightClick(x, y),
            CommandKind::MouseMove(x, y) => CommandKind::MouseMove(x, y),
            CommandKind::ShowDeckContextMenu(x, y) => CommandKind::ShowDeckContextMenu(x, y),
            CommandKind::ShowCardContextMenu(x, y) => CommandKind::ShowCardContextMenu(x, y),
        }
    }
}

/// Who raised a command: the user, or the system (resize, focus, paste).
#[derive(Debug, Clone, Copy, PartialEq, Eq, Structural)]
pub enum CommandSource {
    User,
    System,
}

/// A command together with its source.
#[derive(Debug)]
pub struct Command {
    pub command_type: CommandType,
    pub source: CommandSource,
}

/// The mathematical value of a command.
pub struct CommandView {
    pub command_type: CommandTypeView,
    pub source: CommandSource,
}

impl View for Command {
    type V = CommandView;

    open spec fn view(&self) -> CommandView {
        CommandView { command_type: self.command_type@, source: self.source }
    }
}

pub open spec fn user_cmd(t: CommandTypeView) -> CommandView {
    CommandView { command_type: t, source: CommandSource::User }
}

pub open spec fn system_cmd(t: CommandTypeView) -> CommandView {
    CommandView { command_type: t, source: CommandSource::System }
}

impl Command {
    /// A command raised by the user.
    pub fn user(command_type: CommandType) -> (c: Command)
        ensures
            c@ == user_cmd(command_type@),
    {
        Command { command_type, source: CommandSource::User }
    }

    /// A command raised by the system.
    pub fn system(command_type: CommandType) -> (c: Command)
        ensures
            c@ == system_cmd(command_type@),
    {
        Command { command_type, source: CommandSource::System }
    }
}

} // verus!
