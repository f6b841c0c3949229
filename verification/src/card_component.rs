//! The card review component: showing the answer, and taking a typed or
//! chosen answer for cards that ask for one.
use vstd::prelude::*;
use vstd::string::*;
use crate::input::Action;
use crate::model::{CardSummary, SessionProgress};
use crate::screens::AppState;
use crate::text::{char_to_string, string_pop, string_push};

verus! {

/// The kind of a card, as far as reviewing it differs.
#[derive(Debug, Clone, Copy, PartialEq, Eq, Structural)]
pub enum CardType {
    Basic,
    Input,
    Cloze,
    MultipleChoice,
    /// Any other kind; reviewed like a basic card.
    Other,
}

/// Whether a card kind asks for an answer.
pub open spec fn asks_answer(t: Option<CardType>) -> bool {
    match t {
        Some(CardType::Input) | Some(CardType::Cloze) | Some(CardType::MultipleChoice) => true,
        _ => false,
    }
}

/// Whether a character is a printable ASCII character.
pub open spec fn printable_ascii(c: char) -> bool {
    ' ' <= c && c <= '~'
}

/// The component as a value.
pub struct CardComponentView {
    pub show_answer: bool,
    pub user_input: Seq<char>,
    pub selected_option: Option<nat>,
    pub card_type: Option<CardType>,
    pub card: Option<u128>,
    pub progress: Option<SessionProgress>,
}

/// The card review component.
pub struct CardComponent {
    show_answer: bool,
    user_input: String,
    selected_option: Option<usize>,
    card_type: Option<CardType>,
    input_mode: bool,
    current_card: Option<CardSummary>,
    session_progress: Option<SessionProgress>,
}

impl View for CardComponent {
    type V = CardComponentView;

    closed spec fn view(&self) -> CardComponentView {
        CardComponentView {
            show_answer: self.show_answer,
            user_input: self.user_input@,
            selected_option: match self.selected_option {
                Some(i) => Some(i as nat),
                None => None,
            },
            card_type: self.card_type,
            card: match self.current_card {
                Some(c) => Some(c.id),
                None => None,
            },
            progress: self.session_progress,
        }
    }
}

/// What a typed key does: the component after it, and whether the key was
/// taken.
pub open spec fn input_spec(v: CardComponentView, key: char) -> (CardComponentView, bool) {
    if !asks_answer(v.card_type) || v.show_answer {
        (v, false)
    } else {
        match v.card_type {
            Some(CardType::Input) | Some(CardType::Cloze) => if key == '\n' || key == '\r' {
                (CardComponentView { show_answer: true, ..v }, true)
            } else if key == '\x08' || key == '\x7f' {
                (
                    CardComponentView {
                        user_input: if v.user_input.len() > 0 {
                            v.user_input.drop_last()
                        } else {
                            v.user_input
                        },
                        ..v
                    },
                    true,
                )
            } else if printable_ascii(key) {
                (CardComponentView { user_input: v.user_input.push(key), ..v }, true)
            } else {
                (v, false)
            },
            _ => if '1' <= key && key <= '9' {
                (
                    CardComponentView {
                        selected_option: Some((key as nat - '1' as nat) as nat),
                        show_answer: true,
                        ..v
                    },
                    true,
                )
            } else {
                (v, false)
            },
        }
    }
}

/// The answer given: the typed text if any, or the chosen option counted
/// from one.
pub open spec fn answer_spec(v: CardComponentView) -> Option<Seq<char>> {
    match v.card_type {
        Some(CardType::Input) | Some(CardType::Cloze) => if v.user_input.len() > 0 {
            Some(v.user_input)
        } else {
            None
        },
        Some(CardType::MultipleChoice) => match v.selected_option {
            Some(i) => Some(seq![(('1' as nat) + i) as char]),
            None => None,
        },
        _ => None,
    }
}

impl CardComponent {
    #[verifier::type_invariant]
    closed spec fn inv(&self) -> bool {
        match self.selected_option {
            Some(i) => i < 9,
            None => true,
        }
    }

    /// A component with no card and the answer hidden.
    pub fn new() -> (c: CardComponent)
        ensures
            c@ == (CardComponentView {
                show_answer: false,
                user_input: Seq::empty(),
                selected_option: None,
                card_type: None,
                card: None,
                progress: None,
            }),
    {
        let c = CardComponent {
            show_answer: false,
            user_input: String::new(),
            selected_option: None,
            card_type: None,
            input_mode: false,
            current_card: None,
            session_progress: None,
        };
        assert(c@ =~= CardComponentView {
            show_answer: false,
            user_input: Seq::empty(),
            selected_option: None,
            card_type: None,
            card: None,
            progress: None,
        });
        c
    }

    /// The card reviewed.
    pub fn current_card(&self) -> (c: Option<&CardSummary>)
        ensures
            match c {
                Some(x) => self@.card == Some(x.id),
                None => self@.card is None,
            },
    {
        match &self.current_card {
            Some(c) => Some(c),
            None => None,
        }
    }

    /// Reviews another card, forgetting the answer given to the last one.
    pub fn set_current_card(&mut self, card: Option<CardSummary>)
        ensures
            final(self)@ == (CardComponentView {
                card: match card {
                    Some(c) => Some(c.id),
                    None => None,
                },
                show_answer: false,
                user_input: Seq::empty(),
                selected_option: None,
                card_type: None,
                ..old(self)@
            }),
    {
        proof {
            use_type_invariant(&*self);
        }
        self.current_card = card;
        self.reset_for_new_card();
    }

    /// Records how far the session has come, for the progress bar.
    pub fn set_session_progress(&mut self, progress: Option<SessionProgress>)
        ensures
            final(self)@ == (CardComponentView { progress, ..old(self)@ }),
    {
        proof {
            use_type_invariant(&*self);
        }
        self.session_progress = progress;
    }

    /// How far the session has come, when known.
    pub fn session_progress(&self) -> (p: Option<SessionProgress>)
        ensures
            p == self@.progress,
    {
        self.session_progress
    }

    /// Shows or hides the answer.
    pub fn toggle_answer(&mut self)
        ensures
            final(self)@ == (CardComponentView { show_answer: !old(self)@.show_answer, ..old(self)@ }),
    {
        proof {
            use_type_invariant(&*self);
        }
        self.show_answer = !self.show_answer;
    }

    /// Shows the answer.
    pub fn show_answer(&mut self)
        ensures
            final(self)@ == (CardComponentView { show_answer: true, ..old(self)@ }),
    {
        proof {
            use_type_invariant(&*self);
        }
        self.show_answer = true;
    }

    /// Hides the answer.
    pub fn hide_answer(&mut self)
        ensures
            final(self)@ == (CardComponentView { show_answer: false, ..old(self)@ }),
    {
        proof {
            use_type_invariant(&*self);
        }
        self.show_answer = false;
    }

    /// Whether the answer is shown.
    pub fn is_answer_shown(&self) -> (b: bool)
        ensures
            b == self@.show_answer,
    {
        self.show_answer
    }

    /// Forgets the answer given, for the next card.
    pub fn reset_for_new_card(&mut self)
        ensures
            final(self)@ == (CardComponentView {
                show_answer: false,
                user_input: Seq::empty(),
                selected_option: None,
                card_type: None,
                ..old(self)@
            }),
    {
        proof {
            use_type_invariant(&*self);
        }
        self.show_answer = false;
        self.user_input = String::new();
        self.selected_option = None;
        self.input_mode = false;
        self.card_type = None;
        assert(final(self)@ =~= (CardComponentView {
            show_answer: false,
            user_input: Seq::empty(),
            selected_option: None,
            card_type: None,
            ..old(self)@
        }));
    }

    /// Sets the kind of the card reviewed.
    pub fn set_card_type(&mut self, card_type: CardType)
        ensures
            final(self)@ == (CardComponentView { card_type: Some(card_type), ..old(self)@ }),
    {
        proof {
            use_type_invariant(&*self);
        }
        self.card_type = Some(card_type);
    }

    /// Whether the card asks for an answer.
    pub fn requires_input(&self) -> (b: bool)
        ensures
            b == asks_answer(self@.card_type),
    {
        match self.card_type {
            Some(CardType::Input) | Some(CardType::Cloze) | Some(CardType::MultipleChoice) => true,
            _ => false,
        }
    }

    /// Takes a typed key: text, backspace and enter for typed answers, a
    /// digit from 1 to 9 for a choice. Answers whether the key was taken.
    pub fn handle_input(&mut self, key: char) -> (taken: bool)
        ensures
            (final(self)@, taken) == input_spec(old(self)@, key),
    {
        proof {
            use_type_invariant(&*self);
        }
        let ghost v = self@;
        if !self.requires_input() || self.show_answer {
            return false;
        }
        match self.card_type {
            Some(CardType::Input) | Some(CardType::Cloze) => {
                if key == '\n' || key == '\r' {
                    self.show_answer = true;
                    true
                } else if key == '\x08' || key == '\x7f' {
                    let mut text = self.user_input.clone();
                    string_pop(&mut text);
                    self.user_input = text;
                    assert(self@ =~= input_spec(v, key).0);
                    true
                } else if ' ' <= key && key <= '~' {
                    let mut text = self.user_input.clone();
                    string_push(&mut text, key);
                    self.user_input = text;
                    assert(self@ =~= input_spec(v, key).0);
                    true
                } else {
                    false
                }
            },
            _ => {
                if '1' <= key && key <= '9' {
                    let option = (key as u32 - '1' as u32) as usize;
                    self.selected_option = Some(option);
                    self.show_answer = true;
                    assert(self@ =~= input_spec(v, key).0);
                    true
                } else {
                    false
                }
            },
        }
    }

    /// The answer given, if any.
    pub fn get_user_answer(&self) -> (a: Option<String>)
        ensures
            match a {
                Some(s) => answer_spec(self@) == Some(s@),
                None => answer_spec(self@) is None,
            },
    {
        proof {
            use_type_invariant(self);
        }
        match self.card_type {
            Some(CardType::Input) | Some(CardType::Cloze) => {
                if self.user_input.unicode_len() > 0 {
                    Some(self.user_input.clone())
                } else {
                    None
                }
            },
            Some(CardType::MultipleChoice) => match self.selected_option {
                Some(i) => {
                    let c = char_from_option(i);
                    Some(char_to_string(c))
                },
                None => None,
            },
            _ => None,
        }
    }

    /// The keys offered once the answer is shown.
    pub fn build_rating_controls(&self) -> (s: String)
        ensures
            s@ == if asks_answer(self@.card_type) {
                "1️⃣ Again  2️⃣ Hard  3️⃣ Good  4️⃣ Easy  •  ↩️  Submit Answer  •  ⏭️  Skip  🔄 Reset  🚪 Back"@
            } else {
                "1️⃣ Again  2️⃣ Hard  3️⃣ Good  4️⃣ Easy  •  ⏭️  Skip  🔄 Reset  🚪 Back"@
            },
    {
        if self.requires_input() {
            String::from_str("1️⃣ Again  2️⃣ Hard  3️⃣ Good  4️⃣ Easy  •  ↩️  Submit Answer  •  ⏭️  Skip  🔄 Reset  🚪 Back")
        } else {
            String::from_str("1️⃣ Again  2️⃣ Hard  3️⃣ Good  4️⃣ Easy  •  ⏭️  Skip  🔄 Reset  🚪 Back")
        }
    }

    /// Escape returns to the main menu; enter and space show the answer.
    pub fn handle_action(&mut self, action: Action) -> (next: Option<AppState>)
        ensures
            next == if action == Action::Cancel {
                Some(AppState::MainMenu)
            } else {
                None::<AppState>
            },
            final(self)@ == if action == Action::Select || action == Action::ShowAnswer {
                CardComponentView { show_answer: true, ..old(self)@ }
            } else {
                old(self)@
            },
    {
        match action {
            Action::Cancel => Some(AppState::MainMenu),
            Action::Select | Action::ShowAnswer => {
                self.show_answer();
                None
            },
            _ => None,
        }
    }

    /// The component's name.
    pub fn name(&self) -> (n: &'static str)
        ensures
            n@ == "card_review"@,
    {
        "card_review"
    }
}

/// The digit naming an option, counted from one.
fn char_from_option(i: usize) -> (c: char)
    requires
        i < 9,
    ensures
        c == (('1' as nat) + i) as char,
{
    if i == 0 {
        '1'
    } else if i == 1 {
        '2'
    } else if i == 2 {
        '3'
    } else if i == 3 {
        '4'
    } else if i == 4 {
        '5'
    } else if i == 5 {
        '6'
    } else if i == 6 {
        '7'
    } else if i == 7 {
        '8'
    } else {
        '9'
    }
}

/// Typing a printable character and then a backspace leaves the typed
/// answer as it was, on every card that takes a typed answer.
pub proof fn lemma_type_then_erase(v: CardComponentView, c: char)
    requires
        v.card_type == Some(CardType::Input) || v.card_type == Some(CardType::Cloze),
        !v.show_answer,
        printable_ascii(c),
    ensures
        input_spec(input_spec(v, c).0, '\x7f').0.user_input == v.user_input,
        input_spec(input_spec(v, c).0, '\x08').0.user_input == v.user_input,
{
    assert(v.user_input.push(c).drop_last() =~= v.user_input);
}

/// On a card that takes a typed answer (input and cloze cards), with the
/// answer hidden, a printable character is taken and added at the end of
/// the typed answer, which is then the answer given; nothing else changes.
pub proof fn lemma_typed_character_appended(v: CardComponentView, c: char)
    requires
        v.card_type == Some(CardType::Input) || v.card_type == Some(CardType::Cloze),
        !v.show_answer,
        printable_ascii(c),
    ensures
        input_spec(v, c).1,
        input_spec(v, c).0 == (CardComponentView { user_input: v.user_input.push(c), ..v }),
        answer_spec(input_spec(v, c).0) == Some(v.user_input.push(c)),
{
}

/// On a multiple-choice card with the answer hidden, the digit `k` (1 to 9)
/// picks option `k`, shows the answer, and the answer given is that digit.
pub proof fn lemma_digit_picks_option(v: CardComponentView, k: char)
    requires
        v.card_type == Some(CardType::MultipleChoice),
        !v.show_answer,
        '1' <= k <= '9',
    ensures
        input_spec(v, k).1,
        input_spec(v, k).0.show_answer,
        answer_spec(input_spec(v, k).0) == Some(seq![k]),
{
}

/// Enter on a card that takes a typed answer submits it: the answer is
/// shown and the typed text kept. Once the answer is shown, or on a card
/// that asks for no answer, no key is taken and nothing changes.
pub proof fn lemma_enter_submits_and_shown_answer_ignores_keys(v: CardComponentView, key: char)
    ensures
        (v.card_type == Some(CardType::Input) || v.card_type == Some(CardType::Cloze)) && !v.show_answer ==> (
        input_spec(v, '\n') == (CardComponentView { show_answer: true, ..v }, true) && input_spec(v, '\r') == (
        CardComponentView { show_answer: true, ..v }, true)),
        (v.show_answer || !asks_answer(v.card_type)) ==> input_spec(v, key) == (v, false),
{
}

} // verus!
