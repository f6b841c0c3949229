//! Keyboard input and the user actions it maps to.
use vstd::prelude::*;

verus! {

/// A user action in the component layer of the interface.
#[derive(Debug, Clone, Copy, PartialEq, Eq, Structural)]
pub enum Action {
    Up,
    Down,
    Left,
    Right,
    PageUp,
    PageDown,
    Home,
    End,
    Tab,
    BackTab,
    Select,
    Cancel,
    ShowAnswer,
    RateAgain,
    RateHard,
    RateGood,
    RateEasy,
    SkipCard,
    ResetCard,
    Create,
    Delete,
    Edit,
    Info,
    SwitchDeck,
    Quit,
    Help,
    Refresh,
    Char(char),
    Backspace,
    StartEdit,
    Save,
    Discard,
    Unknown,
}

/// The physical key of a key press.
#[derive(Debug, Clone, Copy, PartialEq, Eq, Structural)]
pub enum KeyCode {
    Backspace,
    Enter,
    Left,
    Right,
    Up,
    Down,
    Home,
    End,
    PageUp,
    PageDown,
    Tab,
    BackTab,
    Delete,
    Insert,
    F(u8),
    Char(char),
    Esc,
    /// Any key the interface does not distinguish.
    Other,
}

/// The modifier keys held during a key press.
#[derive(Debug, Clone, Copy, PartialEq, Eq, Structural)]
pub struct KeyModifiers {
    pub shift: bool,
    pub control: bool,
    pub alt: bool,
    pub super_key: bool,
    pub hyper: bool,
    pub meta: bool,
}

impl KeyModifiers {
    /// No modifier held.
    pub open spec fn spec_none() -> KeyModifiers {
        KeyModifiers { shift: false, control: false, alt: false, super_key: false, hyper: false, meta: false }
    }

    /// Only the given modifiers held.
    pub open spec fn only(shift: bool, control: bool) -> KeyModifiers {
        KeyModifiers { shift, control, alt: false, super_key: false, hyper: false, meta: false }
    }

    pub fn none() -> (m: KeyModifiers)
        ensures
            m == Self::spec_none(),
    {
        KeyModifiers { shift: false, control: false, alt: false, super_key: false, hyper: false, meta: false }
    }

    pub fn shift_only() -> (m: KeyModifiers)
        ensures
            m == Self::only(true, false),
    {
        KeyModifiers { shift: true, control: false, alt: false, super_key: false, hyper: false, meta: false }
    }

    pub fn control_only() -> (m: KeyModifiers)
        ensures
            m == Self::only(false, true),
    {
        KeyModifiers { shift: false, control: true, alt: false, super_key: false, hyper: false, meta: false }
    }

    /// True when no modifier is held.
    pub fn is_none(&self) -> (b: bool)
        ensures
            b == (*self == Self::spec_none()),
    {
        !self.shift && !self.control && !self.alt && !self.super_key && !self.hyper && !self.meta
    }

    /// True when exactly Shift is held.
    pub fn is_shift(&self) -> (b: bool)
        ensures
            b == (*self == Self::only(true, false)),
    {
        self.shift && !self.control && !self.alt && !self.super_key && !self.hyper && !self.meta
    }

    /// True when exactly Control is held.
    pub fn is_control(&self) -> (b: bool)
        ensures
            b == (*self == Self::only(false, true)),
    {
        !self.shift && self.control && !self.alt && !self.super_key && !self.hyper && !self.meta
    }
}

/// A key press: key and modifiers.
#[derive(Debug, Clone, Copy, PartialEq, Eq, Structural)]
pub struct KeyInput {
    pub code: KeyCode,
    pub modifiers: KeyModifiers,
}

/// The action that a key press stands for, whatever the screen.
pub open spec fn key_action(key: KeyInput) -> Action {
    match key.code {
        KeyCode::Up => Action::Up,
        KeyCode::Down => Action::Down,
        KeyCode::Left => Action::Left,
        KeyCode::Right => Action::Right,
        KeyCode::PageUp => Action::PageUp,
        KeyCode::PageDown => Action::PageDown,
        KeyCode::Home => Action::Home,
        KeyCode::End => Action::End,
        KeyCode::Enter => Action::Select,
        KeyCode::Esc => Action::Cancel,
        KeyCode::Tab => if key.modifiers.shift { Action::BackTab } else { Action::Tab },
        KeyCode::Char(c) => char_action(c),
        KeyCode::F(n) => if n == 1 {
            Action::Help
        } else if n == 5 {
            Action::Refresh
        } else if n == 2 {
            Action::Save
        } else if n == 3 {
            Action::Discard
        } else {
            Action::Unknown
        },
        KeyCode::Backspace => Action::Backspace,
        KeyCode::Delete => Action::Delete,
        _ => Action::Unknown,
    }
}

/// The action of a printable key: the review, deck and application
/// shortcuts, and the character itself for any other key.
pub open spec fn char_action(c: char) -> Action {
    if c == '1' || c == 'a' || c == 'A' {
        Action::RateAgain
    } else if c == '2' || c == 'h' || c == 'H' {
        Action::RateHard
    } else if c == '3' || c == 'g' || c == 'G' {
        Action::RateGood
    } else if c == '4' || c == 'x' || c == 'X' {
        Action::RateEasy
    } else if c == ' ' {
        Action::ShowAnswer
    } else if c == 's' || c == 'S' {
        Action::SkipCard
    } else if c == 'r' || c == 'R' {
        Action::ResetCard
    } else if c == 'c' || c == 'C' {
        Action::Create
    } else if c == 'd' || c == 'D' {
        Action::Delete
    } else if c == 'i' || c == 'I' {
        Action::Info
    } else if c == 'w' || c == 'W' {
        Action::SwitchDeck
    } else if c == 'q' || c == 'Q' {
        Action::Quit
    } else if c == 'e' || c == 'E' {
        Action::StartEdit
    } else {
        Action::Char(c)
    }
}

fn convert_char(c: char) -> (a: Action)
    ensures
        a == char_action(c),
{
    match c {
        '1' | 'a' | 'A' => Action::RateAgain,
        '2' | 'h' | 'H' => Action::RateHard,
        '3' | 'g' | 'G' => Action::RateGood,
        '4' | 'x' | 'X' => Action::RateEasy,
        ' ' => Action::ShowAnswer,
        's' | 'S' => Action::SkipCard,
        'r' | 'R' => Action::ResetCard,
        'c' | 'C' => Action::Create,
        'd' | 'D' => Action::Delete,
        'i' | 'I' => Action::Info,
        'w' | 'W' => Action::SwitchDeck,
        'q' | 'Q' => Action::Quit,
        'e' | 'E' => Action::StartEdit,
        _ => Action::Char(c),
    }
}

/// Converts a key press into the action it stands for.
pub fn convert_key_event(key: KeyInput) -> (a: Action)
    ensures
        a == key_action(key),
{
    match key.code {
        KeyCode::Up => Action::Up,
        KeyCode::Down => Action::Down,
        KeyCode::Left => Action::Left,
        KeyCode::Right => Action::Right,
        KeyCode::PageUp => Action::PageUp,
        KeyCode::PageDown => Action::PageDown,
        KeyCode::Home => Action::Home,
        KeyCode::End => Action::End,
        KeyCode::Enter => Action::Select,
        KeyCode::Esc => Action::Cancel,
        KeyCode::Tab => {
            if key.modifiers.shift {
                Action::BackTab
            } else {
                Action::Tab
            }
        },
        KeyCode::Char(c) => convert_char(c),
        KeyCode::F(n) => {
            if n == 1 {
                Action::Help
            } else if n == 5 {
                Action::Refresh
            } else if n == 2 {
                Action::Save
            } else if n == 3 {
                Action::Discard
            } else {
                Action::Unknown
            }
        },
        KeyCode::Backspace => Action::Backspace,
        KeyCode::Delete => Action::Delete,
        _ => Action::Unknown,
    }
}

/// The rows of the keyboard help table: a key and what it does.
pub open spec fn help_rows() -> Seq<(Seq<char>, Seq<char>)> {
    seq![
        ("Navigation"@, ""@),
        ("↑/↓"@, "Move up/down"@),
        ("←/→"@, "Move left/right"@),
        ("Enter/Space"@, "Select"@),
        ("Esc"@, "Cancel/Back"@),
        ("Tab"@, "Next field"@),
        ("Shift+Tab"@, "Previous field"@),
        (""@, ""@),
        ("Card Review"@, ""@),
        ("Space"@, "Show answer"@),
        ("1/A"@, "Rate: Again"@),
        ("2/H"@, "Rate: Hard"@),
        ("3/G"@, "Rate: Good"@),
        ("4/E"@, "Rate: Easy"@),
        ("S"@, "Skip card"@),
        ("R"@, "Reset card"@),
        (""@, ""@),
        ("Deck Management"@, ""@),
        ("C"@, "Create deck"@),
        ("D"@, "Delete deck"@),
        ("I"@, "Deck info"@),
        ("W"@, "Switch deck"@),
        (""@, ""@),
        ("Application"@, ""@),
        ("Q"@, "Quit"@),
        ("F1"@, "Show help"@),
        ("F5"@, "Refresh"@),
    ]
}

/// The keyboard help table, one row per key.
pub fn get_help_text() -> (rows: Vec<(&'static str, &'static str)>)
    ensures
        rows@.len() == help_rows().len(),
        forall|i: int| 0 <= i < rows@.len() ==> (#[trigger] rows@[i]).0@ == help_rows()[i].0
            && rows@[i].1@ == help_rows()[i].1,
{
    let rows = vec![
        ("Navigation", ""),
        ("↑/↓", "Move up/down"),
        ("←/→", "Move left/right"),
        ("Enter/Space", "Select"),
        ("Esc", "Cancel/Back"),
        ("Tab", "Next field"),
        ("Shift+Tab", "Previous field"),
        ("", ""),
        ("Card Review", ""),
        ("Space", "Show answer"),
        ("1/A", "Rate: Again"),
        ("2/H", "Rate: Hard"),
        ("3/G", "Rate: Good"),
        ("4/E", "Rate: Easy"),
        ("S", "Skip card"),
        ("R", "Reset card"),
        ("", ""),
        ("Deck Management", ""),
        ("C", "Create deck"),
        ("D", "Delete deck"),
        ("I", "Deck info"),
        ("W", "Switch deck"),
        ("", ""),
        ("Application", ""),
        ("Q", "Quit"),
        ("F1", "Show help"),
        ("F5", "Refresh"),
    ];
    rows
}

} // verus!
