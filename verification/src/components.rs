//! Small components: dialogs, an edit field, and the settings panels.
use vstd::prelude::*;
use vstd::string::*;
use crate::input::Action;
use crate::text::{string_pop, string_push};

verus! {

/// The dialog asking whether to quit; "No" is chosen until the user moves.
pub struct ConfirmExitDialog {
    selected_option: bool,
}

impl ConfirmExitDialog {
    /// Whether "Yes" is chosen.
    pub closed spec fn yes(&self) -> bool {
        self.selected_option
    }

    /// A dialog with "No" chosen, the safe answer.
    pub fn new() -> (d: ConfirmExitDialog)
        ensures
            !d.yes(),
    {
        ConfirmExitDialog { selected_option: false }
    }

    /// Moves to the other answer.
    pub fn toggle_selection(&mut self)
        ensures
            final(self).yes() == !old(self).yes(),
    {
        self.selected_option = !self.selected_option;
    }

    /// Whether "Yes" is chosen.
    pub fn is_yes_selected(&self) -> (b: bool)
        ensures
            b == self.yes(),
    {
        self.selected_option
    }

    /// Chooses "Yes".
    pub fn select_yes(&mut self)
        ensures
            final(self).yes(),
    {
        self.selected_option = true;
    }

    /// Chooses "No".
    pub fn select_no(&mut self)
        ensures
            !final(self).yes(),
    {
        self.selected_option = false;
    }
}

impl Default for ConfirmExitDialog {
    fn default() -> (d: ConfirmExitDialog)
        ensures
            !d.yes(),
    {
        ConfirmExitDialog::new()
    }
}

/// Toggling the exit dialog twice leaves the answer as it was.
pub proof fn lemma_toggle_involution(before: bool, middle: bool, after: bool)
    requires
        middle == !before,
        after == !middle,
    ensures
        after == before,
{
}

/// What a message dialog reports.
#[derive(Debug, Clone, Copy, PartialEq, Eq, Structural)]
pub enum MessageType {
    Info,
    Success,
    Warning,
    Error,
}

/// A dialog showing a titled message.
pub struct MessageDialog {
    pub title: String,
    pub message: String,
    pub message_type: MessageType,
}

impl MessageDialog {
    /// A dialog with the given title, message and kind.
    pub fn new(title: String, message: String, message_type: MessageType) -> (d: MessageDialog)
        ensures
            d.title@ == title@,
            d.message@ == message@,
            d.message_type == message_type,
    {
        MessageDialog { title, message, message_type }
    }
}

/// The area of a dialog centred in a screen area: at most `max_w` by
/// `max_h`, leaving two cells free on every side.
pub open spec fn dialog_area_spec(width: nat, height: nat, max_w: nat, max_h: nat) -> (nat, nat, nat, nat) {
    let w: nat = if max_w < width - 4 {
        max_w
    } else {
        (width - 4) as nat
    };
    let h: nat = if max_h < height - 4 {
        max_h
    } else {
        (height - 4) as nat
    };
    (((width - w) / 2) as nat, ((height - h) / 2) as nat, w, h)
}

/// Where a dialog of at most `max_w` by `max_h` cells is drawn in a screen
/// area of `width` by `height`: `(x, y, width, height)`. The screen must
/// leave room for the margins.
pub fn dialog_area(width: u16, height: u16, max_w: u16, max_h: u16) -> (r: (u16, u16, u16, u16))
    requires
        width >= 4,
        height >= 4,
    ensures
        (r.0 as nat, r.1 as nat, r.2 as nat, r.3 as nat) == dialog_area_spec(
            width as nat,
            height as nat,
            max_w as nat,
            max_h as nat,
        ),
        r.0 + r.2 <= width,
        r.1 + r.3 <= height,
{
    let w = if max_w < width - 4 {
        max_w
    } else {
        width - 4
    };
    let h = if max_h < height - 4 {
        max_h
    } else {
        height - 4
    };
    ((width - w) / 2, (height - h) / 2, w, h)
}

/// The screens of the settings component.
#[derive(Debug, Clone, Copy, PartialEq, Eq, Structural)]
pub enum SettingsState {
    Main,
    LearningLimits,
    ThemeDisplay,
    KeyboardShortcuts,
    SchedulingAlgorithm,
    DataManagement,
    AdvancedSettings,
}

/// A text field edited one character at a time.
#[derive(Debug)]
pub struct EditField {
    pub value: String,
}

impl EditField {
    /// An empty field.
    pub fn new() -> (f: EditField)
        ensures
            f.value@.len() == 0,
    {
        EditField { value: String::new() }
    }

    /// Starts editing; the field keeps its text.
    pub fn start_editing(&mut self)
        ensures
            final(self).value@ == old(self).value@,
    {
    }

    /// Appends a character.
    pub fn add_char(&mut self, c: char)
        ensures
            final(self).value@ == old(self).value@.push(c),
    {
        string_push(&mut self.value, c);
    }

    /// Removes the last character, if any.
    pub fn remove_char(&mut self)
        ensures
            final(self).value@ == if old(self).value@.len() > 0 {
                old(self).value@.drop_last()
            } else {
                old(self).value@
            },
    {
        string_pop(&mut self.value);
    }
}

/// Typing a character and removing it again restores the text.
pub proof fn lemma_add_then_remove(text: Seq<char>, c: char)
    ensures
        text.push(c).len() > 0,
        text.push(c).drop_last() == text,
{
    assert(text.push(c).drop_last() =~= text);
}

/// The highlighted option of a settings panel after an action: up and down
/// move among three options, other actions change nothing.
pub open spec fn panel_option_after(selected: nat, action: Action) -> nat {
    match action {
        Action::Up => if selected > 0 {
            (selected - 1) as nat
        } else {
            selected
        },
        Action::Down => if selected < 2 {
            selected + 1
        } else {
            selected
        },
        _ => selected,
    }
}

/// The highlighted option after an action.
fn panel_step(selected: usize, action: Action) -> (n: usize)
    requires
        selected <= 2,
    ensures
        n as nat == panel_option_after(selected as nat, action),
        n <= 2,
{
    match action {
        Action::Up => if selected > 0 {
            selected - 1
        } else {
            selected
        },
        Action::Down => if selected < 2 {
            selected + 1
        } else {
            selected
        },
        _ => selected,
    }
}

/// The theme and display panel.
pub struct ThemeDisplayPanel {
    selected_option: usize,
    theme_name: String,
    color_scheme: String,
    card_display_style: String,
}

impl ThemeDisplayPanel {
    #[verifier::type_invariant]
    closed spec fn inv(&self) -> bool {
        self.selected_option <= 2
    }

    /// The highlighted option.
    pub closed spec fn option(&self) -> nat {
        self.selected_option as nat
    }

    /// The names of the theme, colour scheme and card style.
    pub closed spec fn names(&self) -> (Seq<char>, Seq<char>, Seq<char>) {
        (self.theme_name@, self.color_scheme@, self.card_display_style@)
    }

    /// The panel with its first option highlighted and the default theme,
    /// dark colours and compact cards.
    pub fn new() -> (p: ThemeDisplayPanel)
        ensures
            p.option() == 0,
            p.names() == ("Default"@, "Dark"@, "Compact"@),
    {
        ThemeDisplayPanel {
            selected_option: 0,
            theme_name: String::from_str("Default"),
            color_scheme: String::from_str("Dark"),
            card_display_style: String::from_str("Compact"),
        }
    }

    /// Up and down move the highlight; nothing asks for another screen.
    pub fn handle_action(&mut self, action: Action) -> (changed: bool)
        ensures
            !changed,
            final(self).option() == panel_option_after(old(self).option(), action),
            final(self).names() == old(self).names(),
    {
        proof {
            use_type_invariant(&*self);
        }
        self.selected_option = panel_step(self.selected_option, action);
        false
    }

    /// Nothing changes over time.
    pub fn update(&mut self)
        ensures
            final(self).option() == old(self).option(),
            final(self).names() == old(self).names(),
    {
    }

    /// The names of the theme, colour scheme and card style.
    pub fn labels(&self) -> (l: (&str, &str, &str))
        ensures
            (l.0@, l.1@, l.2@) == self.names(),
    {
        (self.theme_name.as_str(), self.color_scheme.as_str(), self.card_display_style.as_str())
    }
}

/// The shortcut list that the keyboard panel shows.
pub open spec fn default_shortcuts() -> Seq<(Seq<char>, Seq<char>)> {
    seq![
        ("Navigation"@, ""@),
        ("↑/↓"@, "Move up/down"@),
        ("←/→"@, "Move left/right"@),
        ("Enter"@, "Select/Confirm"@),
        ("Esc"@, "Cancel/Back"@),
        ("Tab"@, "Next field"@),
        (""@, ""@),
        ("Card Review"@, ""@),
        ("Space"@, "Show answer"@),
        ("1-4"@, "Rate card"@),
        ("S"@, "Skip card"@),
        ("R"@, "Reset card"@),
        (""@, ""@),
        ("Application"@, ""@),
        ("Q"@, "Quit"@),
        ("Ctrl+C"@, "Force quit"@),
        ("F1"@, "Help"@),
        ("F5"@, "Refresh"@),
    ]
}

pub open spec fn shortcut_pairs(v: Seq<(&'static str, &'static str)>) -> Seq<(Seq<char>, Seq<char>)> {
    v.map_values(|p: (&'static str, &'static str)| (p.0@, p.1@))
}

/// The keyboard shortcuts panel.
pub struct KeyboardShortcutsPanel {
    selected_option: usize,
    shortcuts: Vec<(&'static str, &'static str)>,
}

impl KeyboardShortcutsPanel {
    #[verifier::type_invariant]
    closed spec fn inv(&self) -> bool {
        self.selected_option <= 2
    }

    /// The highlighted option.
    pub closed spec fn option(&self) -> nat {
        self.selected_option as nat
    }

    /// The listed shortcuts as (keys, meaning) pairs.
    pub closed spec fn listed(&self) -> Seq<(Seq<char>, Seq<char>)> {
        shortcut_pairs(self.shortcuts@)
    }

    /// The panel with the default shortcut list and its first option
    /// highlighted.
    pub fn new() -> (p: KeyboardShortcutsPanel)
        ensures
            p.option() == 0,
            p.listed() == default_shortcuts(),
    {
        let shortcuts: Vec<(&'static str, &'static str)> = vec![
            ("Navigation", ""),
            ("↑/↓", "Move up/down"),
            ("←/→", "Move left/right"),
            ("Enter", "Select/Confirm"),
            ("Esc", "Cancel/Back"),
            ("Tab", "Next field"),
            ("", ""),
            ("Card Review", ""),
            ("Space", "Show answer"),
            ("1-4", "Rate card"),
            ("S", "Skip card"),
            ("R", "Reset card"),
            ("", ""),
            ("Application", ""),
            ("Q", "Quit"),
            ("Ctrl+C", "Force quit"),
            ("F1", "Help"),
            ("F5", "Refresh"),
        ];
        let p = KeyboardShortcutsPanel { selected_option: 0, shortcuts };
        assert(p.listed() =~= default_shortcuts());
        p
    }

    /// Up and down move the highlight; nothing asks for another screen.
    pub fn handle_action(&mut self, action: Action) -> (changed: bool)
        ensures
            !changed,
            final(self).option() == panel_option_after(old(self).option(), action),
            final(self).listed() == old(self).listed(),
    {
        proof {
            use_type_invariant(&*self);
        }
        self.selected_option = panel_step(self.selected_option, action);
        false
    }

    /// Nothing changes over time.
    pub fn update(&mut self)
        ensures
            final(self).option() == old(self).option(),
            final(self).listed() == old(self).listed(),
    {
    }

    /// The listed shortcuts.
    pub fn shortcuts(&self) -> (s: &Vec<(&'static str, &'static str)>)
        ensures
            shortcut_pairs(s@) == self.listed(),
    {
        &self.shortcuts
    }
}

/// The data management panel.
pub struct DataManagementPanel {
    selected_option: usize,
    auto_save: bool,
    backup_enabled: bool,
    backup_frequency: String,
}

impl DataManagementPanel {
    #[verifier::type_invariant]
    closed spec fn inv(&self) -> bool {
        self.selected_option <= 2
    }

    /// The highlighted option.
    pub closed spec fn option(&self) -> nat {
        self.selected_option as nat
    }

    /// Whether saving and backing up are on.
    pub closed spec fn backups(&self) -> (bool, bool) {
        (self.auto_save, self.backup_enabled)
    }

    /// The panel for a configuration whose automatic backup is
    /// `auto_backup`: saving and backups follow it, daily.
    pub fn with_config(auto_backup: bool) -> (p: DataManagementPanel)
        ensures
            p.option() == 0,
            p.backups() == (auto_backup, auto_backup),
    {
        DataManagementPanel {
            selected_option: 0,
            auto_save: auto_backup,
            backup_enabled: auto_backup,
            backup_frequency: String::from_str("Daily"),
        }
    }

    /// Up and down move the highlight; nothing asks for another screen.
    pub fn handle_action(&mut self, action: Action) -> (changed: bool)
        ensures
            !changed,
            final(self).option() == panel_option_after(old(self).option(), action),
            final(self).backups() == old(self).backups(),
    {
        proof {
            use_type_invariant(&*self);
        }
        self.selected_option = panel_step(self.selected_option, action);
        false
    }

    /// Nothing changes over time.
    pub fn update(&mut self)
        ensures
            final(self).option() == old(self).option(),
            final(self).backups() == old(self).backups(),
    {
    }
}

/// The advanced settings panel.
pub struct AdvancedSettingsPanel {
    selected_option: usize,
    debug_mode: bool,
    logging_enabled: bool,
    performance_mode: String,
}

impl AdvancedSettingsPanel {
    #[verifier::type_invariant]
    closed spec fn inv(&self) -> bool {
        self.selected_option <= 2
    }

    /// The highlighted option.
    pub closed spec fn option(&self) -> nat {
        self.selected_option as nat
    }

    /// Whether debugging and logging are on.
    pub closed spec fn modes(&self) -> (bool, bool) {
        (self.debug_mode, self.logging_enabled)
    }

    /// The name of the performance mode.
    pub closed spec fn performance(&self) -> Seq<char> {
        self.performance_mode@
    }

    /// The panel with debugging off, logging on, balanced performance.
    pub fn new() -> (p: AdvancedSettingsPanel)
        ensures
            p.option() == 0,
            p.modes() == (false, true),
            p.performance() == "Balanced"@,
    {
        AdvancedSettingsPanel {
            selected_option: 0,
            debug_mode: false,
            logging_enabled: true,
            performance_mode: String::from_str("Balanced"),
        }
    }

    /// Up and down move the highlight; nothing asks for another screen.
    pub fn handle_action(&mut self, action: Action) -> (changed: bool)
        ensures
            !changed,
            final(self).option() == panel_option_after(old(self).option(), action),
            final(self).modes() == old(self).modes(),
            final(self).performance() == old(self).performance(),
    {
        proof {
            use_type_invariant(&*self);
        }
        self.selected_option = panel_step(self.selected_option, action);
        false
    }

    /// The name of the performance mode.
    pub fn performance_mode(&self) -> (m: &str)
        ensures
            m@ == self.performance(),
    {
        self.performance_mode.as_str()
    }

    /// Nothing changes over time.
    pub fn update(&mut self)
        ensures
            final(self).option() == old(self).option(),
            final(self).modes() == old(self).modes(),
            final(self).performance() == old(self).performance(),
    {
    }
}

/// Whatever actions a settings panel receives, its highlight stays on one
/// of its three options.
pub proof fn lemma_panel_option_in_range(selected: nat, action: Action)
    requires
        selected <= 2,
    ensures
        panel_option_after(selected, action) <= 2,
{
}

/// Down then up returns to the same option, unless the highlight was
/// already on the last one.
pub proof fn lemma_panel_down_up(selected: nat)
    requires
        selected < 2,
    ensures
        panel_option_after(panel_option_after(selected, Action::Down), Action::Up) == selected,
{
}

} // verus!
