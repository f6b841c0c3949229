//! The component facade: one value that owns every screen component of
//! the interface and forwards to the one a screen needs.
use vstd::prelude::*;
use vstd::string::*;
use crate::card_component::{CardComponent, CardComponentView};
use crate::command::Rating;
use crate::components::{ConfirmExitDialog, EditField, SettingsState};
use crate::deck_selector::{deck_action_spec, reset_to_mode, DeckSelectionMode, DeckSelector, DeckSelectorView};
use crate::help::{help_after, Help};
use crate::input::Action;
use crate::model::{CardSummary, DeckSummary, SessionProgress};
use crate::screens::AppState;
use crate::screens_components::{menu_after, menu_answer, rating_at, stats_step, Menu, Stats, Study};
use crate::settings::{settings_action_spec, Settings, SettingsValues};
use crate::viewmodels::DeckStats;

verus! {

/// The text fields of the settings and deck forms, each kept between
/// calls.
pub struct EditFields {
    pub new_deck_name: EditField,
    pub deck_rename_name: EditField,
    pub max_new_cards: EditField,
    pub max_review_cards: EditField,
    pub day_start: EditField,
    pub day_end: EditField,
    pub show_limit_warnings: EditField,
    pub theme: EditField,
    pub mouse_support: EditField,
    pub show_progress: EditField,
    pub show_card_counter: EditField,
    pub animation_speed: EditField,
    pub refresh_rate: EditField,
    pub auto_backup: EditField,
    pub backup_count: EditField,
    pub backup_interval: EditField,
    pub compress_data: EditField,
    pub starting_ease_factor: EditField,
    pub min_ease_factor: EditField,
    pub max_ease_factor: EditField,
    pub easy_interval: EditField,
    pub good_interval: EditField,
    pub graduating_interval: EditField,
    pub initial_failure_interval: EditField,
    pub max_interval: EditField,
    pub hard_multiplier: EditField,
    pub easy_bonus: EditField,
    pub interval_modifier: EditField,
    pub day_start_hour: EditField,
    pub day_end_hour: EditField,
}

impl EditFields {
    /// Every field empty.
    pub fn new() -> (f: EditFields)
        ensures
            f.new_deck_name.value@.len() == 0,
            f.deck_rename_name.value@.len() == 0,
            f.max_new_cards.value@.len() == 0,
            f.max_review_cards.value@.len() == 0,
            f.day_start.value@.len() == 0,
            f.day_end.value@.len() == 0,
            f.show_limit_warnings.value@.len() == 0,
            f.theme.value@.len() == 0,
            f.mouse_support.value@.len() == 0,
            f.show_progress.value@.len() == 0,
            f.show_card_counter.value@.len() == 0,
            f.animation_speed.value@.len() == 0,
            f.refresh_rate.value@.len() == 0,
            f.auto_backup.value@.len() == 0,
            f.backup_count.value@.len() == 0,
            f.backup_interval.value@.len() == 0,
            f.compress_data.value@.len() == 0,
            f.starting_ease_factor.value@.len() == 0,
            f.min_ease_factor.value@.len() == 0,
            f.max_ease_factor.value@.len() == 0,
            f.easy_interval.value@.len() == 0,
            f.good_interval.value@.len() == 0,
            f.graduating_interval.value@.len() == 0,
            f.initial_failure_interval.value@.len() == 0,
            f.max_interval.value@.len() == 0,
            f.hard_multiplier.value@.len() == 0,
            f.easy_bonus.value@.len() == 0,
            f.interval_modifier.value@.len() == 0,
            f.day_start_hour.value@.len() == 0,
            f.day_end_hour.value@.len() == 0,
    {
        EditFields {
            new_deck_name: EditField::new(),
            deck_rename_name: EditField::new(),
            max_new_cards: EditField::new(),
            max_review_cards: EditField::new(),
            day_start: EditField::new(),
            day_end: EditField::new(),
            show_limit_warnings: EditField::new(),
            theme: EditField::new(),
            mouse_support: EditField::new(),
            show_progress: EditField::new(),
            show_card_counter: EditField::new(),
            animation_speed: EditField::new(),
            refresh_rate: EditField::new(),
            auto_backup: EditField::new(),
            backup_count: EditField::new(),
            backup_interval: EditField::new(),
            compress_data: EditField::new(),
            starting_ease_factor: EditField::new(),
            min_ease_factor: EditField::new(),
            max_ease_factor: EditField::new(),
            easy_interval: EditField::new(),
            good_interval: EditField::new(),
            graduating_interval: EditField::new(),
            initial_failure_interval: EditField::new(),
            max_interval: EditField::new(),
            hard_multiplier: EditField::new(),
            easy_bonus: EditField::new(),
            interval_modifier: EditField::new(),
            day_start_hour: EditField::new(),
            day_end_hour: EditField::new(),
        }
    }
}

/// A text field that is never written: the read-only views of the form
/// fields show it.
pub struct BlankField {
    field: EditField,
}

impl BlankField {
    #[verifier::type_invariant]
    closed spec fn inv(&self) -> bool {
        self.field.value@.len() == 0
    }

    /// The blank field.
    pub fn new() -> (b: BlankField) {
        BlankField { field: EditField::new() }
    }

    /// The field, always empty.
    pub fn get(&self) -> (f: &EditField)
        ensures
            f.value@.len() == 0,
    {
        proof {
            use_type_invariant(self);
        }
        &self.field
    }
}

/// Every screen component of the interface.
pub struct Components {
    main_menu: Menu,
    card: CardComponent,
    deck_selector: DeckSelector,
    stats: Stats,
    study: Study,
    settings: Settings,
    help: Help,
    confirm_exit_dialog: ConfirmExitDialog,
    fields: EditFields,
    blank: BlankField,
}

impl Components {
    pub closed spec fn menu(&self) -> Menu {
        self.main_menu
    }

    pub closed spec fn card(&self) -> CardComponent {
        self.card
    }

    pub closed spec fn deck_selector(&self) -> DeckSelector {
        self.deck_selector
    }

    pub closed spec fn stats(&self) -> Stats {
        self.stats
    }

    pub closed spec fn study(&self) -> Study {
        self.study
    }

    pub closed spec fn settings(&self) -> Settings {
        self.settings
    }

    pub closed spec fn help(&self) -> Help {
        self.help
    }

    pub closed spec fn confirm_exit(&self) -> ConfirmExitDialog {
        self.confirm_exit_dialog
    }

    pub closed spec fn fields(&self) -> EditFields {
        self.fields
    }

    /// The same components with the main menu replaced.
    pub closed spec fn with_menu(self, m: Menu) -> Components {
        Components { main_menu: m, ..self }
    }

    /// The same components with the card review component replaced.
    pub closed spec fn with_card(self, c: CardComponent) -> Components {
        Components { card: c, ..self }
    }

    /// The same components with the deck selector replaced.
    pub closed spec fn with_deck_selector(self, d: DeckSelector) -> Components {
        Components { deck_selector: d, ..self }
    }

    /// The same components with the statistics component replaced.
    pub closed spec fn with_stats(self, s: Stats) -> Components {
        Components { stats: s, ..self }
    }

    /// The same components with the study component replaced.
    pub closed spec fn with_study(self, s: Study) -> Components {
        Components { study: s, ..self }
    }

    /// The same components with the settings component replaced.
    pub closed spec fn with_settings(self, s: Settings) -> Components {
        Components { settings: s, ..self }
    }

    /// The same components with the help component replaced.
    pub closed spec fn with_help(self, h: Help) -> Components {
        Components { help: h, ..self }
    }

    /// The same components with the exit dialog replaced.
    pub closed spec fn with_confirm_exit(self, d: ConfirmExitDialog) -> Components {
        Components { confirm_exit_dialog: d, ..self }
    }

    /// The same components with the form fields replaced.
    pub closed spec fn with_fields(self, f: EditFields) -> Components {
        Components { fields: f, ..self }
    }

    /// Every component fresh, the settings screen showing the given values.
    pub fn new(values: SettingsValues) -> (c: Components)
        ensures
            c.menu().selected() == 0,
            c.card()@ == (CardComponentView {
                show_answer: false,
                user_input: Seq::empty(),
                selected_option: None,
                card_type: None,
                card: None,
                progress: None,
            }),
            c.deck_selector()@.decks.len() == 0,
            c.deck_selector()@.mode == DeckSelectionMode::Manage,
            c.deck_selector()@.cards.len() == 0,
            c.stats().deck_count() == 0,
            c.stats().selected() == 0,
            c.stats().stale(),
            c.study().card_id() is None,
            !c.study().shown(),
            c.study().rating() == 2,
            c.study().progress() is None,
            c.settings().tree() == crate::settings::hierarchy(values),
            c.help().section() == crate::help::HelpSection::Overview,
            c.help().offset() == 0,
            !c.confirm_exit().yes(),
    {
        Components {
            main_menu: Menu::new(),
            card: CardComponent::new(),
            deck_selector: DeckSelector::new(),
            stats: Stats::new(),
            study: Study::new(),
            settings: Settings::with_config(values),
            help: Help::new(),
            confirm_exit_dialog: ConfirmExitDialog::new(),
            fields: EditFields::new(),
            blank: BlankField::new(),
        }
    }

    // The main menu.

    /// The highlighted main menu entry.
    pub fn get_selected_main_menu_item(&self) -> (i: usize)
        ensures
            i as nat == self.menu().selected(),
    {
        self.main_menu.selected_item()
    }

    /// Passes a key to the main menu and answers the screen it asks for.
    pub fn navigate_main_menu(&mut self, action: Action) -> (next: Option<AppState>)
        ensures
            next == menu_answer(old(self).menu().selected(), action),
            final(self).menu().selected() == menu_after(old(self).menu().selected(), action),
            *final(self) == old(self).with_menu(final(self).menu()),
    {
        self.main_menu.handle_action(action)
    }

    // Card review.

    /// Shows the answer of the card reviewed.
    pub fn show_answer(&mut self)
        ensures
            final(self).card()@ == (CardComponentView { show_answer: true, ..old(self).card()@ }),
            *final(self) == old(self).with_card(final(self).card()),
    {
        self.card.show_answer();
    }

    /// Hides the answer of the card reviewed.
    pub fn hide_answer(&mut self)
        ensures
            final(self).card()@ == (CardComponentView { show_answer: false, ..old(self).card()@ }),
            *final(self) == old(self).with_card(final(self).card()),
    {
        self.card.hide_answer();
    }

    /// The card reviewed.
    pub fn current_card(&self) -> (c: Option<&CardSummary>)
        ensures
            match c {
                Some(x) => self.card()@.card == Some(x.id),
                None => self.card()@.card is None,
            },
    {
        self.card.current_card()
    }

    /// Reviews another card, forgetting the answer given to the last one.
    pub fn set_current_card(&mut self, card: Option<CardSummary>)
        ensures
            final(self).card()@ == (CardComponentView {
                card: match card {
                    Some(c) => Some(c.id),
                    None => None,
                },
                show_answer: false,
                user_input: Seq::empty(),
                selected_option: None,
                card_type: None,
                ..old(self).card()@
            }),
            *final(self) == old(self).with_card(final(self).card()),
    {
        self.card.set_current_card(card);
    }

    // Learning.

    /// The study component, for changing.
    pub fn learning_component_mut(&mut self) -> (s: Option<&mut Study>)
        ensures
            s is Some,
            *s.unwrap() == old(self).study(),
            *final(self) == old(self).with_study(*final(s.unwrap())),
    {
        Some(&mut self.study)
    }

    /// Shows a card in the study component, its answer hidden.
    pub fn set_learning_card(&mut self, card: Option<CardSummary>)
        ensures
            final(self).study().card_id() == match card {
                Some(c) => Some(c.id),
                None => None::<u128>,
            },
            !final(self).study().shown(),
            final(self).study().rating() == old(self).study().rating(),
            final(self).study().progress() == old(self).study().progress(),
            *final(self) == old(self).with_study(final(self).study()),
    {
        self.study.set_current_card(card);
    }

    /// Records how far the session has come in the study component.
    pub fn set_session_progress(&mut self, progress: Option<SessionProgress>)
        ensures
            final(self).study().progress() == progress,
            final(self).study().card_id() == old(self).study().card_id(),
            final(self).study().shown() == old(self).study().shown(),
            final(self).study().rating() == old(self).study().rating(),
            *final(self) == old(self).with_study(final(self).study()),
    {
        self.study.set_session_progress(progress);
    }

    /// Shows the answer in the study component.
    pub fn show_learning_answer(&mut self)
        ensures
            final(self).study().shown(),
            final(self).study().card_id() == old(self).study().card_id(),
            final(self).study().rating() == old(self).study().rating(),
            final(self).study().progress() == old(self).study().progress(),
            *final(self) == old(self).with_study(final(self).study()),
    {
        self.study.show_answer();
    }

    /// Hides the answer in the study component.
    pub fn hide_learning_answer(&mut self)
        ensures
            !final(self).study().shown(),
            final(self).study().card_id() == old(self).study().card_id(),
            final(self).study().rating() == old(self).study().rating(),
            final(self).study().progress() == old(self).study().progress(),
            *final(self) == old(self).with_study(final(self).study()),
    {
        self.study.hide_answer();
    }

    /// The highlighted rating button of the study component.
    pub fn get_selected_rating(&self) -> (i: usize)
        ensures
            i as nat == self.study().rating(),
    {
        self.study.selected_rating()
    }

    /// The rating of the highlighted button.
    pub fn prepare_learning_rating(&self) -> (r: Rating)
        ensures
            r == rating_at(self.study().rating()),
    {
        self.study.prepare_rating()
    }

    /// Clears the study component for the next card.
    pub fn request_next_learning_card(&mut self)
        ensures
            final(self).study().card_id() is None,
            !final(self).study().shown(),
            final(self).study().rating() == 2,
            final(self).study().progress() == old(self).study().progress(),
            *final(self) == old(self).with_study(final(self).study()),
    {
        self.study.request_next_card();
    }

    /// Readies the study component for the session; it keeps no state of
    /// its own to refresh, so this always succeeds.
    pub fn initialize_learning(&mut self) -> (r: Result<(), String>)
        ensures
            r is Ok,
            *final(self) == *old(self),
    {
        Ok(())
    }

    // Decks.

    /// The selected deck, if there is one.
    pub fn get_selected_deck(&self) -> (d: Option<&DeckSummary>)
        ensures
            crate::deck_selector::has_selection(self.deck_selector()@) <==> d is Some,
            d matches Some(x) ==> crate::deck_selector::deck_summary_row(*x) == self.deck_selector()@.decks[self.deck_selector()@.selected_deck as int],
    {
        self.deck_selector.get_selected_deck()
    }

    /// Passes a key to the deck list and answers the screen it asks for.
    pub fn navigate_deck_list(&mut self, action: Action) -> (next: Option<AppState>)
        ensures
            (final(self).deck_selector()@, next) == deck_action_spec(old(self).deck_selector()@, action),
            *final(self) == old(self).with_deck_selector(final(self).deck_selector()),
    {
        self.deck_selector.handle_action(action)
    }

    /// Replaces the deck list and selects its first deck.
    pub fn update_decks(&mut self, decks: Vec<DeckSummary>)
        ensures
            final(self).deck_selector()@ == (DeckSelectorView {
                decks: crate::deck_selector::deck_rows(decks@),
                selected_deck: 0,
                list_selected: if decks@.len() > 0 {
                    Some(0nat)
                } else {
                    None
                },
                ..old(self).deck_selector()@
            }),
            *final(self) == old(self).with_deck_selector(final(self).deck_selector()),
    {
        self.deck_selector.update_decks(decks);
    }

    /// The index of the selected deck.
    pub fn selected_deck_index(&self) -> (i: usize)
        ensures
            i as nat == self.deck_selector()@.selected_deck,
    {
        self.deck_selector.selected_index()
    }

    /// The decks, in list order.
    pub fn decks(&self) -> (d: &Vec<DeckSummary>)
        ensures
            crate::deck_selector::deck_rows(d@) == self.deck_selector()@.decks,
    {
        self.deck_selector.decks()
    }

    /// Puts the deck list in the mode for choosing a deck to review.
    pub fn set_deck_selection_mode(&mut self)
        ensures
            final(self).deck_selector()@ == reset_to_mode(old(self).deck_selector()@, DeckSelectionMode::Select),
            *final(self) == old(self).with_deck_selector(final(self).deck_selector()),
    {
        self.deck_selector.set_mode(DeckSelectionMode::Select);
    }

    /// Puts the deck list in the mode for managing decks.
    pub fn set_deck_management_mode(&mut self)
        ensures
            final(self).deck_selector()@ == reset_to_mode(old(self).deck_selector()@, DeckSelectionMode::Manage),
            *final(self) == old(self).with_deck_selector(final(self).deck_selector()),
    {
        self.deck_selector.set_mode(DeckSelectionMode::Manage);
    }

    /// Whether the cards of the selected deck must be loaded: the deck's
    /// cards are being managed and none are loaded.
    pub fn needs_card_load(&self) -> (b: bool)
        ensures
            b == (self.deck_selector()@.mode == DeckSelectionMode::ManageCards && self.deck_selector()@.cards.len() == 0),
    {
        let mode = self.deck_selector.current_mode();
        let cards = self.deck_selector.cards();
        proof {
            assert(cards@.len() == crate::deck_selector::card_rows(cards@).len());
        }
        mode == DeckSelectionMode::ManageCards && cards.len() == 0
    }

    // Statistics.

    /// Passes a key to the statistics screen and answers the screen it asks
    /// for.
    pub fn navigate_statistics(&mut self, action: Action) -> (next: Option<AppState>)
        ensures
            next == if action == Action::Cancel {
                Some(AppState::MainMenu)
            } else {
                None::<AppState>
            },
            stats_step(old(self).stats(), final(self).stats(), action),
            *final(self) == old(self).with_stats(final(self).stats()),
    {
        self.stats.handle_action(action)
    }

    /// Gives the statistics screen the loaded decks; with none loaded
    /// nothing changes. The first deck is selected and its numbers count as
    /// computed.
    pub fn update_deck_statistics(&mut self, decks: Vec<(DeckSummary, Vec<CardSummary>)>)
        ensures
            decks@.len() == 0 ==> *final(self) == *old(self),
            decks@.len() > 0 ==> {
                &&& final(self).stats().deck_count() == decks@.len()
                &&& final(self).stats().selected() == 0
                &&& !final(self).stats().stale()
                &&& final(self).stats().view() == old(self).stats().view()
                &&& *final(self) == old(self).with_stats(final(self).stats())
            },
    {
        if decks.len() == 0 {
            return;
        }
        let mut deck_list: Vec<DeckSummary> = Vec::new();
        let mut rest = decks;
        let ghost n = rest@.len();
        while rest.len() > 0
            invariant
                deck_list@.len() + rest@.len() == n,
            decreases rest@.len(),
        {
            let (deck, _cards) = rest.remove(0);
            deck_list.push(deck);
        }
        self.stats.set_decks(deck_list);
        self.stats.mark_refreshed();
    }

    /// Whether the statistics must be computed again.
    pub fn statistics_needs_refresh(&self) -> (b: bool)
        ensures
            b == self.stats().stale(),
    {
        self.stats.needs_refresh()
    }

    // Settings.

    /// The settings screen shown by this facade: always the main one.
    pub fn get_settings_state(&self) -> (s: SettingsState)
        ensures
            s == SettingsState::Main,
    {
        SettingsState::Main
    }

    /// Takes a settings screen; the facade keeps none, so nothing changes.
    pub fn set_settings_state(&mut self, _state: SettingsState)
        ensures
            *final(self) == *old(self),
    {
    }

    /// Passes a key to the settings screen and answers the screen it asks
    /// for.
    pub fn navigate_settings(&mut self, action: Action) -> (next: Option<AppState>)
        ensures
            (final(self).settings()@, next) == settings_action_spec(old(self).settings().tree(), old(self).settings()@, action),
            final(self).settings().tree() == old(self).settings().tree(),
            *final(self) == old(self).with_settings(final(self).settings()),
    {
        self.settings.handle_action(action)
    }

    /// The settings entry this facade reports as chosen: always the first.
    pub fn get_selected_settings_item(&self) -> (i: usize)
        ensures
            i == 0,
    {
        0
    }

    /// The settings index this facade reports: always the first.
    pub fn get_selected_setting_index(&self) -> (i: usize)
        ensures
            i == 0,
    {
        0
    }

    /// Takes a settings index; the facade keeps none, so nothing changes.
    pub fn set_selected_setting_index(&mut self, _index: usize)
        ensures
            *final(self) == *old(self),
    {
    }

    // Help.

    /// Passes a key to the help screen and answers the screen it asks for.
    pub fn navigate_help(&mut self, action: Action) -> (next: Option<AppState>)
        ensures
            next == if action == Action::Cancel {
                Some(AppState::MainMenu)
            } else {
                None::<AppState>
            },
            (final(self).help().section(), final(self).help().offset()) == help_after(
                old(self).help().section(),
                old(self).help().offset(),
                action,
            ),
            *final(self) == old(self).with_help(final(self).help()),
    {
        self.help.handle_action(action)
    }

    // Quitting.

    /// Whether "Yes" is chosen in the exit dialog.
    pub fn get_selected_confirm_option(&self) -> (b: bool)
        ensures
            b == self.confirm_exit().yes(),
    {
        self.confirm_exit_dialog.is_yes_selected()
    }

    /// Left and up choose "No", right and down choose "Yes"; other keys
    /// change nothing.
    pub fn navigate_confirm_exit(&mut self, action: Action)
        ensures
            final(self).confirm_exit().yes() == match action {
                Action::Left | Action::Up => false,
                Action::Right | Action::Down => true,
                _ => old(self).confirm_exit().yes(),
            },
            *final(self) == old(self).with_confirm_exit(final(self).confirm_exit()),
    {
        match action {
            Action::Left | Action::Up => {
                self.confirm_exit_dialog.select_no();
            },
            Action::Right | Action::Down => {
                self.confirm_exit_dialog.select_yes();
            },
            _ => {},
        }
    }

    // Forms the facade keeps no state for.

    /// Takes the session's progress; the facade keeps none, so nothing
    /// changes.
    pub fn update_session_progress(&mut self, _progress: SessionProgress)
        ensures
            *final(self) == *old(self),
    {
    }

    /// Takes a deck's details; the facade keeps none, so nothing changes.
    pub fn set_deck_details(&mut self, _deck: DeckSummary, _stats: DeckStats)
        ensures
            *final(self) == *old(self),
    {
    }

    /// Takes whether a deck is being created; the facade keeps no such
    /// mode, so nothing changes.
    pub fn set_deck_creation_mode(&mut self, _enabled: bool)
        ensures
            *final(self) == *old(self),
    {
    }

    /// Takes whether a deck operation awaits confirmation; the facade keeps
    /// no such mode, so nothing changes.
    pub fn set_deck_confirmation_mode(&mut self, _enabled: bool)
        ensures
            *final(self) == *old(self),
    {
    }

    /// Takes a confirmation message; the facade keeps none, so nothing
    /// changes.
    pub fn set_confirmation_message(&mut self, _message: String)
        ensures
            *final(self) == *old(self),
    {
    }

    /// Takes whether a deck is being renamed; the facade keeps no such
    /// mode, so nothing changes.
    pub fn set_deck_rename_mode(&mut self, _enabled: bool)
        ensures
            *final(self) == *old(self),
    {
    }

    // The form fields.

    /// The `new_deck_name` field, for editing; it keeps its text between calls.
    pub fn get_mut_new_deck_name(&mut self) -> (e: &mut EditField)
        ensures
            *e == old(self).fields().new_deck_name,
            *final(self) == old(self).with_fields(EditFields { new_deck_name: *final(e), ..old(self).fields() }),
    {
        &mut self.fields.new_deck_name
    }

    /// The `deck_rename_name` field, for editing; it keeps its text between calls.
    pub fn get_mut_deck_rename_name(&mut self) -> (e: &mut EditField)
        ensures
            *e == old(self).fields().deck_rename_name,
            *final(self) == old(self).with_fields(EditFields { deck_rename_name: *final(e), ..old(self).fields() }),
    {
        &mut self.fields.deck_rename_name
    }

    /// The `max_new_cards` field, for editing; it keeps its text between calls.
    pub fn get_mut_max_new_cards(&mut self) -> (e: &mut EditField)
        ensures
            *e == old(self).fields().max_new_cards,
            *final(self) == old(self).with_fields(EditFields { max_new_cards: *final(e), ..old(self).fields() }),
    {
        &mut self.fields.max_new_cards
    }

    /// The `max_review_cards` field, for editing; it keeps its text between calls.
    pub fn get_mut_max_review_cards(&mut self) -> (e: &mut EditField)
        ensures
            *e == old(self).fields().max_review_cards,
            *final(self) == old(self).with_fields(EditFields { max_review_cards: *final(e), ..old(self).fields() }),
    {
        &mut self.fields.max_review_cards
    }

    /// The `day_start` field, for editing; it keeps its text between calls.
    pub fn get_mut_day_start(&mut self) -> (e: &mut EditField)
        ensures
            *e == old(self).fields().day_start,
            *final(self) == old(self).with_fields(EditFields { day_start: *final(e), ..old(self).fields() }),
    {
        &mut self.fields.day_start
    }

    /// The `day_end` field, for editing; it keeps its text between calls.
    pub fn get_mut_day_end(&mut self) -> (e: &mut EditField)
        ensures
            *e == old(self).fields().day_end,
            *final(self) == old(self).with_fields(EditFields { day_end: *final(e), ..old(self).fields() }),
    {
        &mut self.fields.day_end
    }

    /// The `show_limit_warnings` field, for editing; it keeps its text between calls.
    pub fn get_mut_show_limit_warnings(&mut self) -> (e: &mut EditField)
        ensures
            *e == old(self).fields().show_limit_warnings,
            *final(self) == old(self).with_fields(EditFields { show_limit_warnings: *final(e), ..old(self).fields() }),
    {
        &mut self.fields.show_limit_warnings
    }

    /// The `theme` field, for editing; it keeps its text between calls.
    pub fn get_mut_theme(&mut self) -> (e: &mut EditField)
        ensures
            *e == old(self).fields().theme,
            *final(self) == old(self).with_fields(EditFields { theme: *final(e), ..old(self).fields() }),
    {
        &mut self.fields.theme
    }

    /// The `mouse_support` field, for editing; it keeps its text between calls.
    pub fn get_mut_mouse_support(&mut self) -> (e: &mut EditField)
        ensures
            *e == old(self).fields().mouse_support,
            *final(self) == old(self).with_fields(EditFields { mouse_support: *final(e), ..old(self).fields() }),
    {
        &mut self.fields.mouse_support
    }

    /// The `show_progress` field, for editing; it keeps its text between calls.
    pub fn get_mut_show_progress(&mut self) -> (e: &mut EditField)
        ensures
            *e == old(self).fields().show_progress,
            *final(self) == old(self).with_fields(EditFields { show_progress: *final(e), ..old(self).fields() }),
    {
        &mut self.fields.show_progress
    }

    /// The `show_card_counter` field, for editing; it keeps its text between calls.
    pub fn get_mut_show_card_counter(&mut self) -> (e: &mut EditField)
        ensures
            *e == old(self).fields().show_card_counter,
            *final(self) == old(self).with_fields(EditFields { show_card_counter: *final(e), ..old(self).fields() }),
    {
        &mut self.fields.show_card_counter
    }

    /// The `animation_speed` field, for editing; it keeps its text between calls.
    pub fn get_mut_animation_speed(&mut self) -> (e: &mut EditField)
        ensures
            *e == old(self).fields().animation_speed,
            *final(self) == old(self).with_fields(EditFields { animation_speed: *final(e), ..old(self).fields() }),
    {
        &mut self.fields.animation_speed
    }

    /// The `refresh_rate` field, for editing; it keeps its text between calls.
    pub fn get_mut_refresh_rate(&mut self) -> (e: &mut EditField)
        ensures
            *e == old(self).fields().refresh_rate,
            *final(self) == old(self).with_fields(EditFields { refresh_rate: *final(e), ..old(self).fields() }),
    {
        &mut self.fields.refresh_rate
    }

    /// The `auto_backup` field, for editing; it keeps its text between calls.
    pub fn get_mut_auto_backup(&mut self) -> (e: &mut EditField)
        ensures
            *e == old(self).fields().auto_backup,
            *final(self) == old(self).with_fields(EditFields { auto_backup: *final(e), ..old(self).fields() }),
    {
        &mut self.fields.auto_backup
    }

    /// The `backup_count` field, for editing; it keeps its text between calls.
    pub fn get_mut_backup_count(&mut self) -> (e: &mut EditField)
        ensures
            *e == old(self).fields().backup_count,
            *final(self) == old(self).with_fields(EditFields { backup_count: *final(e), ..old(self).fields() }),
    {
        &mut self.fields.backup_count
    }

    /// The `backup_interval` field, for editing; it keeps its text between calls.
    pub fn get_mut_backup_interval(&mut self) -> (e: &mut EditField)
        ensures
            *e == old(self).fields().backup_interval,
            *final(self) == old(self).with_fields(EditFields { backup_interval: *final(e), ..old(self).fields() }),
    {
        &mut self.fields.backup_interval
    }

    /// The `compress_data` field, for editing; it keeps its text between calls.
    pub fn get_mut_compress_data(&mut self) -> (e: &mut EditField)
        ensures
            *e == old(self).fields().compress_data,
            *final(self) == old(self).with_fields(EditFields { compress_data: *final(e), ..old(self).fields() }),
    {
        &mut self.fields.compress_data
    }

    /// The `starting_ease_factor` field, for editing; it keeps its text between calls.
    pub fn get_mut_starting_ease_factor(&mut self) -> (e: &mut EditField)
        ensures
            *e == old(self).fields().starting_ease_factor,
            *final(self) == old(self).with_fields(EditFields { starting_ease_factor: *final(e), ..old(self).fields() }),
    {
        &mut self.fields.starting_ease_factor
    }

    /// The `min_ease_factor` field, for editing; it keeps its text between calls.
    pub fn get_mut_min_ease_factor(&mut self) -> (e: &mut EditField)
        ensures
            *e == old(self).fields().min_ease_factor,
            *final(self) == old(self).with_fields(EditFields { min_ease_factor: *final(e), ..old(self).fields() }),
    {
        &mut self.fields.min_ease_factor
    }

    /// The `max_ease_factor` field, for editing; it keeps its text between calls.
    pub fn get_mut_max_ease_factor(&mut self) -> (e: &mut EditField)
        ensures
            *e == old(self).fields().max_ease_factor,
            *final(self) == old(self).with_fields(EditFields { max_ease_factor: *final(e), ..old(self).fields() }),
    {
        &mut self.fields.max_ease_factor
    }

    /// The `easy_interval` field, for editing; it keeps its text between calls.
    pub fn get_mut_easy_interval(&mut self) -> (e: &mut EditField)
        ensures
            *e == old(self).fields().easy_interval,
            *final(self) == old(self).with_fields(EditFields { easy_interval: *final(e), ..old(self).fields() }),
    {
        &mut self.fields.easy_interval
    }

    /// The `good_interval` field, for editing; it keeps its text between calls.
    pub fn get_mut_good_interval(&mut self) -> (e: &mut EditField)
        ensures
            *e == old(self).fields().good_interval,
            *final(self) == old(self).with_fields(EditFields { good_interval: *final(e), ..old(self).fields() }),
    {
        &mut self.fields.good_interval
    }

    /// The `graduating_interval` field, for editing; it keeps its text between calls.
    pub fn get_mut_graduating_interval(&mut self) -> (e: &mut EditField)
        ensures
            *e == old(self).fields().graduating_interval,
            *final(self) == old(self).with_fields(EditFields { graduating_interval: *final(e), ..old(self).fields() }),
    {
        &mut self.fields.graduating_interval
    }

    /// The `initial_failure_interval` field, for editing; it keeps its text between calls.
    pub fn get_mut_initial_failure_interval(&mut self) -> (e: &mut EditField)
        ensures
            *e == old(self).fields().initial_failure_interval,
            *final(self) == old(self).with_fields(EditFields { initial_failure_interval: *final(e), ..old(self).fields() }),
    {
        &mut self.fields.initial_failure_interval
    }

    /// The `max_interval` field, for editing; it keeps its text between calls.
    pub fn get_mut_max_interval(&mut self) -> (e: &mut EditField)
        ensures
            *e == old(self).fields().max_interval,
            *final(self) == old(self).with_fields(EditFields { max_interval: *final(e), ..old(self).fields() }),
    {
        &mut self.fields.max_interval
    }

    /// The `hard_multiplier` field, for editing; it keeps its text between calls.
    pub fn get_mut_hard_multiplier(&mut self) -> (e: &mut EditField)
        ensures
            *e == old(self).fields().hard_multiplier,
            *final(self) == old(self).with_fields(EditFields { hard_multiplier: *final(e), ..old(self).fields() }),
    {
        &mut self.fields.hard_multiplier
    }

    /// The `easy_bonus` field, for editing; it keeps its text between calls.
    pub fn get_mut_easy_bonus(&mut self) -> (e: &mut EditField)
        ensures
            *e == old(self).fields().easy_bonus,
            *final(self) == old(self).with_fields(EditFields { easy_bonus: *final(e), ..old(self).fields() }),
    {
        &mut self.fields.easy_bonus
    }

    /// The `interval_modifier` field, for editing; it keeps its text between calls.
    pub fn get_mut_interval_modifier(&mut self) -> (e: &mut EditField)
        ensures
            *e == old(self).fields().interval_modifier,
            *final(self) == old(self).with_fields(EditFields { interval_modifier: *final(e), ..old(self).fields() }),
    {
        &mut self.fields.interval_modifier
    }

    /// The `day_start_hour` field, for editing; it keeps its text between calls.
    pub fn get_mut_day_start_hour(&mut self) -> (e: &mut EditField)
        ensures
            *e == old(self).fields().day_start_hour,
            *final(self) == old(self).with_fields(EditFields { day_start_hour: *final(e), ..old(self).fields() }),
    {
        &mut self.fields.day_start_hour
    }

    /// The `day_end_hour` field, for editing; it keeps its text between calls.
    pub fn get_mut_day_end_hour(&mut self) -> (e: &mut EditField)
        ensures
            *e == old(self).fields().day_end_hour,
            *final(self) == old(self).with_fields(EditFields { day_end_hour: *final(e), ..old(self).fields() }),
    {
        &mut self.fields.day_end_hour
    }

    /// The highlighted learning limit: always the first.
    pub fn get_learning_limits_selected(&self) -> (i: usize)
        ensures
            i == 0,
    {
        0
    }

    /// The highlighted theme entry: always the first.
    pub fn get_theme_selected(&self) -> (i: usize)
        ensures
            i == 0,
    {
        0
    }

    /// A read-only `max_new_cards` field: always empty.
    pub fn get_max_new_cards(&self) -> (e: &EditField)
        ensures
            e.value@.len() == 0,
    {
        self.blank.get()
    }

    /// A read-only `max_review_cards` field: always empty.
    pub fn get_max_review_cards(&self) -> (e: &EditField)
        ensures
            e.value@.len() == 0,
    {
        self.blank.get()
    }

    /// A read-only `day_start` field: always empty.
    pub fn get_day_start(&self) -> (e: &EditField)
        ensures
            e.value@.len() == 0,
    {
        self.blank.get()
    }

    /// A read-only `day_end` field: always empty.
    pub fn get_day_end(&self) -> (e: &EditField)
        ensures
            e.value@.len() == 0,
    {
        self.blank.get()
    }

    /// A read-only `show_limit_warnings` field: always empty.
    pub fn get_show_limit_warnings(&self) -> (e: &EditField)
        ensures
            e.value@.len() == 0,
    {
        self.blank.get()
    }

    /// A read-only `theme` field: always empty.
    pub fn get_theme(&self) -> (e: &EditField)
        ensures
            e.value@.len() == 0,
    {
        self.blank.get()
    }

    /// A read-only `mouse_support` field: always empty.
    pub fn get_mouse_support(&self) -> (e: &EditField)
        ensures
            e.value@.len() == 0,
    {
        self.blank.get()
    }

    /// A read-only `show_progress` field: always empty.
    pub fn get_show_progress(&self) -> (e: &EditField)
        ensures
            e.value@.len() == 0,
    {
        self.blank.get()
    }

    /// A read-only `show_card_counter` field: always empty.
    pub fn get_show_card_counter(&self) -> (e: &EditField)
        ensures
            e.value@.len() == 0,
    {
        self.blank.get()
    }

    /// A read-only `animation_speed` field: always empty.
    pub fn get_animation_speed(&self) -> (e: &EditField)
        ensures
            e.value@.len() == 0,
    {
        self.blank.get()
    }

    /// A read-only `refresh_rate` field: always empty.
    pub fn get_refresh_rate(&self) -> (e: &EditField)
        ensures
            e.value@.len() == 0,
    {
        self.blank.get()
    }

    /// A read-only `auto_backup` field: always empty.
    pub fn get_auto_backup(&self) -> (e: &EditField)
        ensures
            e.value@.len() == 0,
    {
        self.blank.get()
    }

    /// A read-only `backup_count` field: always empty.
    pub fn get_backup_count(&self) -> (e: &EditField)
        ensures
            e.value@.len() == 0,
    {
        self.blank.get()
    }

    /// A read-only `backup_interval` field: always empty.
    pub fn get_backup_interval(&self) -> (e: &EditField)
        ensures
            e.value@.len() == 0,
    {
        self.blank.get()
    }

    /// A read-only `compress_data` field: always empty.
    pub fn get_compress_data(&self) -> (e: &EditField)
        ensures
            e.value@.len() == 0,
    {
        self.blank.get()
    }

    /// A read-only `starting_ease_factor` field: always empty.
    pub fn get_starting_ease_factor(&self) -> (e: &EditField)
        ensures
            e.value@.len() == 0,
    {
        self.blank.get()
    }

    /// A read-only `min_ease_factor` field: always empty.
    pub fn get_min_ease_factor(&self) -> (e: &EditField)
        ensures
            e.value@.len() == 0,
    {
        self.blank.get()
    }

    /// A read-only `max_ease_factor` field: always empty.
    pub fn get_max_ease_factor(&self) -> (e: &EditField)
        ensures
            e.value@.len() == 0,
    {
        self.blank.get()
    }

    /// A read-only `easy_interval` field: always empty.
    pub fn get_easy_interval(&self) -> (e: &EditField)
        ensures
            e.value@.len() == 0,
    {
        self.blank.get()
    }

    /// A read-only `good_interval` field: always empty.
    pub fn get_good_interval(&self) -> (e: &EditField)
        ensures
            e.value@.len() == 0,
    {
        self.blank.get()
    }

    /// A read-only `graduating_interval` field: always empty.
    pub fn get_graduating_interval(&self) -> (e: &EditField)
        ensures
            e.value@.len() == 0,
    {
        self.blank.get()
    }

    /// A read-only `initial_failure_interval` field: always empty.
    pub fn get_initial_failure_interval(&self) -> (e: &EditField)
        ensures
            e.value@.len() == 0,
    {
        self.blank.get()
    }

    /// A read-only `max_interval` field: always empty.
    pub fn get_max_interval(&self) -> (e: &EditField)
        ensures
            e.value@.len() == 0,
    {
        self.blank.get()
    }

    /// A read-only `hard_multiplier` field: always empty.
    pub fn get_hard_multiplier(&self) -> (e: &EditField)
        ensures
            e.value@.len() == 0,
    {
        self.blank.get()
    }

    /// A read-only `easy_bonus` field: always empty.
    pub fn get_easy_bonus(&self) -> (e: &EditField)
        ensures
            e.value@.len() == 0,
    {
        self.blank.get()
    }

    /// A read-only `interval_modifier` field: always empty.
    pub fn get_interval_modifier(&self) -> (e: &EditField)
        ensures
            e.value@.len() == 0,
    {
        self.blank.get()
    }

    /// Takes a key for the `confirm` shortcut; the facade keeps none, so
    /// nothing changes.
    pub fn set_keyboard_shortcuts_confirm(&mut self, _value: String)
        ensures
            *final(self) == *old(self),
    {
    }

    /// The key shown for the `confirm` shortcut.
    pub fn get_keyboard_shortcuts_confirm(&self) -> (s: String)
        ensures
            s@ == "Enter"@,
    {
        String::from_str("Enter")
    }

    /// Takes a key for the `again` shortcut; the facade keeps none, so
    /// nothing changes.
    pub fn set_keyboard_shortcuts_again(&mut self, _value: String)
        ensures
            *final(self) == *old(self),
    {
    }

    /// The key shown for the `again` shortcut.
    pub fn get_keyboard_shortcuts_again(&self) -> (s: String)
        ensures
            s@ == "1"@,
    {
        String::from_str("1")
    }

    /// Takes a key for the `hard` shortcut; the facade keeps none, so
    /// nothing changes.
    pub fn set_keyboard_shortcuts_hard(&mut self, _value: String)
        ensures
            *final(self) == *old(self),
    {
    }

    /// The key shown for the `hard` shortcut.
    pub fn get_keyboard_shortcuts_hard(&self) -> (s: String)
        ensures
            s@ == "2"@,
    {
        String::from_str("2")
    }

    /// Takes a key for the `good` shortcut; the facade keeps none, so
    /// nothing changes.
    pub fn set_keyboard_shortcuts_good(&mut self, _value: String)
        ensures
            *final(self) == *old(self),
    {
    }

    /// The key shown for the `good` shortcut.
    pub fn get_keyboard_shortcuts_good(&self) -> (s: String)
        ensures
            s@ == "3"@,
    {
        String::from_str("3")
    }

    /// Takes a key for the `easy` shortcut; the facade keeps none, so
    /// nothing changes.
    pub fn set_keyboard_shortcuts_easy(&mut self, _value: String)
        ensures
            *final(self) == *old(self),
    {
    }

    /// The key shown for the `easy` shortcut.
    pub fn get_keyboard_shortcuts_easy(&self) -> (s: String)
        ensures
            s@ == "4"@,
    {
        String::from_str("4")
    }

    /// Takes a key for the `flip` shortcut; the facade keeps none, so
    /// nothing changes.
    pub fn set_keyboard_shortcuts_flip(&mut self, _value: String)
        ensures
            *final(self) == *old(self),
    {
    }

    /// The key shown for the `flip` shortcut.
    pub fn get_keyboard_shortcuts_flip(&self) -> (s: String)
        ensures
            s@ == " "@,
    {
        String::from_str(" ")
    }

    /// Takes a key for the `hint` shortcut; the facade keeps none, so
    /// nothing changes.
    pub fn set_keyboard_shortcuts_hint(&mut self, _value: String)
        ensures
            *final(self) == *old(self),
    {
    }

    /// The key shown for the `hint` shortcut.
    pub fn get_keyboard_shortcuts_hint(&self) -> (s: String)
        ensures
            s@ == "?"@,
    {
        String::from_str("?")
    }

    /// Takes a key for the `skip` shortcut; the facade keeps none, so
    /// nothing changes.
    pub fn set_keyboard_shortcuts_skip(&mut self, _value: String)
        ensures
            *final(self) == *old(self),
    {
    }

    /// The key shown for the `skip` shortcut.
    pub fn get_keyboard_shortcuts_skip(&self) -> (s: String)
        ensures
            s@ == "s"@,
    {
        String::from_str("s")
    }

    /// Takes the keyboard shortcuts field being edited; the facade keeps
    /// none, so nothing changes.
    pub fn set_editing_keyboard_shortcuts_field(&mut self, _field: Option<usize>)
        ensures
            *final(self) == *old(self),
    {
    }

    /// Takes the keyboard shortcuts value being edited; the facade
    /// keeps none, so nothing changes.
    pub fn set_keyboard_shortcuts_edit_value(&mut self, _value: Option<String>)
        ensures
            *final(self) == *old(self),
    {
    }

    /// The keyboard shortcuts field being edited: never one.
    pub fn get_editing_keyboard_shortcuts_field(&self) -> (f: Option<usize>)
        ensures
            f is None,
    {
        None
    }

    /// The keyboard shortcuts value being edited: never one.
    pub fn get_keyboard_shortcuts_edit_value(&self) -> (v: Option<String>)
        ensures
            v is None,
    {
        None
    }

    /// Takes the scheduling field being edited; the facade keeps
    /// none, so nothing changes.
    pub fn set_editing_scheduling_field(&mut self, _field: Option<usize>)
        ensures
            *final(self) == *old(self),
    {
    }

    /// Takes the scheduling value being edited; the facade
    /// keeps none, so nothing changes.
    pub fn set_scheduling_edit_value(&mut self, _value: Option<String>)
        ensures
            *final(self) == *old(self),
    {
    }

    /// The scheduling field being edited: never one.
    pub fn get_editing_scheduling_field(&self) -> (f: Option<usize>)
        ensures
            f is None,
    {
        None
    }

    /// The scheduling value being edited: never one.
    pub fn get_scheduling_edit_value(&self) -> (v: Option<String>)
        ensures
            v is None,
    {
        None
    }

    /// Takes the data management field being edited; the facade keeps
    /// none, so nothing changes.
    pub fn set_editing_data_management_field(&mut self, _field: Option<usize>)
        ensures
            *final(self) == *old(self),
    {
    }

    /// Takes the data management value being edited; the facade
    /// keeps none, so nothing changes.
    pub fn set_data_management_edit_value(&mut self, _value: Option<String>)
        ensures
            *final(self) == *old(self),
    {
    }

    /// The data management field being edited: never one.
    pub fn get_editing_data_management_field(&self) -> (f: Option<usize>)
        ensures
            f is None,
    {
        None
    }

    /// The data management value being edited: never one.
    pub fn get_data_management_edit_value(&self) -> (v: Option<String>)
        ensures
            v is None,
    {
        None
    }

    /// Takes the advanced field being edited; the facade keeps
    /// none, so nothing changes.
    pub fn set_editing_advanced_field(&mut self, _field: Option<usize>)
        ensures
            *final(self) == *old(self),
    {
    }

    /// Takes the advanced value being edited; the facade
    /// keeps none, so nothing changes.
    pub fn set_advanced_edit_value(&mut self, _value: Option<String>)
        ensures
            *final(self) == *old(self),
    {
    }

    /// The advanced field being edited: never one.
    pub fn get_editing_advanced_field(&self) -> (f: Option<usize>)
        ensures
            f is None,
    {
        None
    }

    /// The advanced value being edited: never one.
    pub fn get_advanced_edit_value(&self) -> (v: Option<String>)
        ensures
            v is None,
    {
        None
    }
}

/// Replacing the menu changes nothing else.
pub proof fn lemma_with_menu(c: Components, x: Menu)
    ensures
        c.with_menu(x).menu() == x,
        c.with_menu(x).card() == c.card(),
        c.with_menu(x).deck_selector() == c.deck_selector(),
        c.with_menu(x).stats() == c.stats(),
        c.with_menu(x).study() == c.study(),
        c.with_menu(x).settings() == c.settings(),
        c.with_menu(x).help() == c.help(),
        c.with_menu(x).confirm_exit() == c.confirm_exit(),
        c.with_menu(x).fields() == c.fields(),
{
}

/// Replacing the card changes nothing else.
pub proof fn lemma_with_card(c: Components, x: CardComponent)
    ensures
        c.with_card(x).card() == x,
        c.with_card(x).menu() == c.menu(),
        c.with_card(x).deck_selector() == c.deck_selector(),
        c.with_card(x).stats() == c.stats(),
        c.with_card(x).study() == c.study(),
        c.with_card(x).settings() == c.settings(),
        c.with_card(x).help() == c.help(),
        c.with_card(x).confirm_exit() == c.confirm_exit(),
        c.with_card(x).fields() == c.fields(),
{
}

/// Replacing the deck selector changes nothing else.
pub proof fn lemma_with_deck_selector(c: Components, x: DeckSelector)
    ensures
        c.with_deck_selector(x).deck_selector() == x,
        c.with_deck_selector(x).menu() == c.menu(),
        c.with_deck_selector(x).card() == c.card(),
        c.with_deck_selector(x).stats() == c.stats(),
        c.with_deck_selector(x).study() == c.study(),
        c.with_deck_selector(x).settings() == c.settings(),
        c.with_deck_selector(x).help() == c.help(),
        c.with_deck_selector(x).confirm_exit() == c.confirm_exit(),
        c.with_deck_selector(x).fields() == c.fields(),
{
}

/// Replacing the stats changes nothing else.
pub proof fn lemma_with_stats(c: Components, x: Stats)
    ensures
        c.with_stats(x).stats() == x,
        c.with_stats(x).menu() == c.menu(),
        c.with_stats(x).card() == c.card(),
        c.with_stats(x).deck_selector() == c.deck_selector(),
        c.with_stats(x).study() == c.study(),
        c.with_stats(x).settings() == c.settings(),
        c.with_stats(x).help() == c.help(),
        c.with_stats(x).confirm_exit() == c.confirm_exit(),
        c.with_stats(x).fields() == c.fields(),
{
}

/// Replacing the study changes nothing else.
pub proof fn lemma_with_study(c: Components, x: Study)
    ensures
        c.with_study(x).study() == x,
        c.with_study(x).menu() == c.menu(),
        c.with_study(x).card() == c.card(),
        c.with_study(x).deck_selector() == c.deck_selector(),
        c.with_study(x).stats() == c.stats(),
        c.with_study(x).settings() == c.settings(),
        c.with_study(x).help() == c.help(),
        c.with_study(x).confirm_exit() == c.confirm_exit(),
        c.with_study(x).fields() == c.fields(),
{
}

/// Replacing the settings changes nothing else.
pub proof fn lemma_with_settings(c: Components, x: Settings)
    ensures
        c.with_settings(x).settings() == x,
        c.with_settings(x).menu() == c.menu(),
        c.with_settings(x).card() == c.card(),
        c.with_settings(x).deck_selector() == c.deck_selector(),
        c.with_settings(x).stats() == c.stats(),
        c.with_settings(x).study() == c.study(),
        c.with_settings(x).help() == c.help(),
        c.with_settings(x).confirm_exit() == c.confirm_exit(),
        c.with_settings(x).fields() == c.fields(),
{
}

/// Replacing the help changes nothing else.
pub proof fn lemma_with_help(c: Components, x: Help)
    ensures
        c.with_help(x).help() == x,
        c.with_help(x).menu() == c.menu(),
        c.with_help(x).card() == c.card(),
        c.with_help(x).deck_selector() == c.deck_selector(),
        c.with_help(x).stats() == c.stats(),
        c.with_help(x).study() == c.study(),
        c.with_help(x).settings() == c.settings(),
        c.with_help(x).confirm_exit() == c.confirm_exit(),
        c.with_help(x).fields() == c.fields(),
{
}

/// Replacing the confirm exit changes nothing else.
pub proof fn lemma_with_confirm_exit(c: Components, x: ConfirmExitDialog)
    ensures
        c.with_confirm_exit(x).confirm_exit() == x,
        c.with_confirm_exit(x).menu() == c.menu(),
        c.with_confirm_exit(x).card() == c.card(),
        c.with_confirm_exit(x).deck_selector() == c.deck_selector(),
        c.with_confirm_exit(x).stats() == c.stats(),
        c.with_confirm_exit(x).study() == c.study(),
        c.with_confirm_exit(x).settings() == c.settings(),
        c.with_confirm_exit(x).help() == c.help(),
        c.with_confirm_exit(x).fields() == c.fields(),
{
}

/// Replacing the fields changes nothing else.
pub proof fn lemma_with_fields(c: Components, x: EditFields)
    ensures
        c.with_fields(x).fields() == x,
        c.with_fields(x).menu() == c.menu(),
        c.with_fields(x).card() == c.card(),
        c.with_fields(x).deck_selector() == c.deck_selector(),
        c.with_fields(x).stats() == c.stats(),
        c.with_fields(x).study() == c.study(),
        c.with_fields(x).settings() == c.settings(),
        c.with_fields(x).help() == c.help(),
        c.with_fields(x).confirm_exit() == c.confirm_exit(),
{
}

} // verus!
