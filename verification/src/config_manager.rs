//! The configuration of the terminal interface: theme, display, keyboard
//! shortcuts, performance and accessibility, and the manager that edits it
//! and remembers whether it changed. Reading and writing the file is left to
//! the caller.
use vstd::prelude::*;
use vstd::string::*;
use crate::text::str_eq;
use crate::ui_map::UiMap;

verus! {

/// The theme: its name, colour overrides, and whether effects are on.
#[derive(Debug)]
pub struct ThemeConfig {
    pub current_theme: String,
    pub custom_colors: UiMap,
    pub enable_effects: bool,
}

impl Default for ThemeConfig {
    fn default() -> (c: ThemeConfig)
        ensures
            c.current_theme@ == "dark"@,
            c.custom_colors.wf(),
            c.custom_colors@ == Map::<Seq<char>, Seq<char>>::empty(),
            c.enable_effects,
    {
        ThemeConfig { current_theme: String::from_str("dark"), custom_colors: UiMap::new(), enable_effects: true }
    }
}

/// Display settings.
#[derive(Debug)]
pub struct DisplayConfig {
    pub min_width: u16,
    pub min_height: u16,
    pub border_style: String,
    pub show_card_counter: bool,
    pub show_progress_bar: bool,
    pub show_study_streak: bool,
    pub refresh_rate_ms: u64,
}

impl Default for DisplayConfig {
    fn default() -> (c: DisplayConfig)
        ensures
            c.min_width == 80,
            c.min_height == 24,
            c.border_style@ == "simple"@,
            c.show_card_counter,
            c.show_progress_bar,
            c.show_study_streak,
            c.refresh_rate_ms == 250,
    {
        DisplayConfig {
            min_width: 80,
            min_height: 24,
            border_style: String::from_str("simple"),
            show_card_counter: true,
            show_progress_bar: true,
            show_study_streak: true,
            refresh_rate_ms: 250,
        }
    }
}

/// Keys of the card review screen.
#[derive(Debug)]
pub struct CardReviewShortcuts {
    pub show_answer: String,
    pub rate_again: String,
    pub rate_hard: String,
    pub rate_good: String,
    pub rate_easy: String,
    pub skip_card: String,
}

impl Default for CardReviewShortcuts {
    fn default() -> (c: CardReviewShortcuts)
        ensures
            c.show_answer@ == "space"@,
            c.rate_again@ == "1"@,
            c.rate_hard@ == "2"@,
            c.rate_good@ == "3"@,
            c.rate_easy@ == "4"@,
            c.skip_card@ == "s"@,
    {
        CardReviewShortcuts {
            show_answer: String::from_str("space"),
            rate_again: String::from_str("1"),
            rate_hard: String::from_str("2"),
            rate_good: String::from_str("3"),
            rate_easy: String::from_str("4"),
            skip_card: String::from_str("s"),
        }
    }
}

/// Navigation keys.
#[derive(Debug)]
pub struct NavigationShortcuts {
    pub up: String,
    pub down: String,
    pub left: String,
    pub right: String,
    pub select: String,
    pub back: String,
    pub quit: String,
    pub help: String,
}

impl Default for NavigationShortcuts {
    fn default() -> (c: NavigationShortcuts)
        ensures
            c.up@ == "up"@,
            c.down@ == "down"@,
            c.left@ == "left"@,
            c.right@ == "right"@,
            c.select@ == "enter"@,
            c.back@ == "esc"@,
            c.quit@ == "q"@,
            c.help@ == "?"@,
    {
        NavigationShortcuts {
            up: String::from_str("up"),
            down: String::from_str("down"),
            left: String::from_str("left"),
            right: String::from_str("right"),
            select: String::from_str("enter"),
            back: String::from_str("esc"),
            quit: String::from_str("q"),
            help: String::from_str("?"),
        }
    }
}

/// Keys that work everywhere.
#[derive(Debug)]
pub struct GlobalShortcuts {
    pub toggle_theme: String,
    pub toggle_debug: String,
    pub refresh: String,
    pub save: String,
}

impl Default for GlobalShortcuts {
    fn default() -> (c: GlobalShortcuts)
        ensures
            c.toggle_theme@ == "t"@,
            c.toggle_debug@ == "d"@,
            c.refresh@ == "r"@,
            c.save@ == "ctrl+s"@,
    {
        GlobalShortcuts {
            toggle_theme: String::from_str("t"),
            toggle_debug: String::from_str("d"),
            refresh: String::from_str("r"),
            save: String::from_str("ctrl+s"),
        }
    }
}

/// All keyboard shortcuts.
#[derive(Debug)]
pub struct ShortcutConfig {
    pub card_review: CardReviewShortcuts,
    pub navigation: NavigationShortcuts,
    pub global: GlobalShortcuts,
}

impl Default for ShortcutConfig {
    fn default() -> (c: ShortcutConfig)
        ensures
            forall|s: ShortcutSlot| #[trigger] shortcut_value(c, s) == default_shortcut(s),
    {
        let c = ShortcutConfig {
            card_review: CardReviewShortcuts::default(),
            navigation: NavigationShortcuts::default(),
            global: GlobalShortcuts::default(),
        };
        assert forall|s: ShortcutSlot| #[trigger] shortcut_value(c, s) == default_shortcut(s) by {}
        c
    }
}

/// Performance settings.
#[derive(Debug, Clone, Copy, PartialEq, Eq, Structural)]
pub struct PerformanceConfig {
    pub enable_monitoring: bool,
    pub target_fps: u32,
    pub max_cache_size: usize,
    pub enable_async_rendering: bool,
    pub preload_components: bool,
}

impl Default for PerformanceConfig {
    fn default() -> (c: PerformanceConfig)
        ensures
            c == (PerformanceConfig {
                enable_monitoring: true,
                target_fps: 30,
                max_cache_size: 1000,
                enable_async_rendering: false,
                preload_components: true,
            }),
    {
        PerformanceConfig {
            enable_monitoring: true,
            target_fps: 30,
            max_cache_size: 1000,
            enable_async_rendering: false,
            preload_components: true,
        }
    }
}

/// Accessibility settings; all off by default.
#[derive(Debug, Clone, Copy, PartialEq, Eq, Structural)]
pub struct AccessibilityConfig {
    pub high_contrast: bool,
    pub large_text: bool,
    pub reduced_motion: bool,
    pub screen_reader_support: bool,
    pub keyboard_only: bool,
}

impl Default for AccessibilityConfig {
    fn default() -> (c: AccessibilityConfig)
        ensures
            c == (AccessibilityConfig {
                high_contrast: false,
                large_text: false,
                reduced_motion: false,
                screen_reader_support: false,
                keyboard_only: false,
            }),
    {
        AccessibilityConfig {
            high_contrast: false,
            large_text: false,
            reduced_motion: false,
            screen_reader_support: false,
            keyboard_only: false,
        }
    }
}

/// The whole configuration.
#[derive(Debug)]
pub struct TUIConfig {
    pub theme: ThemeConfig,
    pub display: DisplayConfig,
    pub shortcuts: ShortcutConfig,
    pub performance: PerformanceConfig,
    pub accessibility: AccessibilityConfig,
}

impl Default for TUIConfig {
    fn default() -> (c: TUIConfig)
        ensures
            c.theme.current_theme@ == "dark"@,
            c.theme.custom_colors.wf(),
            c.display.min_width == 80,
            c.display.min_height == 24,
            c.display.refresh_rate_ms == 250,
            forall|s: ShortcutSlot| #[trigger] shortcut_value(c.shortcuts, s) == default_shortcut(s),
            c.performance.target_fps == 30,
            !c.accessibility.high_contrast,
    {
        TUIConfig {
            theme: ThemeConfig::default(),
            display: DisplayConfig::default(),
            shortcuts: ShortcutConfig::default(),
            performance: PerformanceConfig::default(),
            accessibility: AccessibilityConfig::default(),
        }
    }
}

/// One keyboard shortcut of the configuration.
#[derive(Debug, Clone, Copy, PartialEq, Eq, Structural)]
pub enum ShortcutSlot {
    ShowAnswer,
    RateAgain,
    RateHard,
    RateGood,
    RateEasy,
    SkipCard,
    Up,
    Down,
    Left,
    Right,
    Select,
    Back,
    Quit,
    Help,
    ToggleTheme,
    ToggleDebug,
    Refresh,
    Save,
}

/// The key bound to a shortcut.
pub open spec fn shortcut_value(c: ShortcutConfig, s: ShortcutSlot) -> Seq<char> {
    match s {
        ShortcutSlot::ShowAnswer => c.card_review.show_answer@,
        ShortcutSlot::RateAgain => c.card_review.rate_again@,
        ShortcutSlot::RateHard => c.card_review.rate_hard@,
        ShortcutSlot::RateGood => c.card_review.rate_good@,
        ShortcutSlot::RateEasy => c.card_review.rate_easy@,
        ShortcutSlot::SkipCard => c.card_review.skip_card@,
        ShortcutSlot::Up => c.navigation.up@,
        ShortcutSlot::Down => c.navigation.down@,
        ShortcutSlot::Left => c.navigation.left@,
        ShortcutSlot::Right => c.navigation.right@,
        ShortcutSlot::Select => c.navigation.select@,
        ShortcutSlot::Back => c.navigation.back@,
        ShortcutSlot::Quit => c.navigation.quit@,
        ShortcutSlot::Help => c.navigation.help@,
        ShortcutSlot::ToggleTheme => c.global.toggle_theme@,
        ShortcutSlot::ToggleDebug => c.global.toggle_debug@,
        ShortcutSlot::Refresh => c.global.refresh@,
        ShortcutSlot::Save => c.global.save@,
    }
}

/// The default key of each shortcut.
pub open spec fn default_shortcut(s: ShortcutSlot) -> Seq<char> {
    match s {
        ShortcutSlot::ShowAnswer => "space"@,
        ShortcutSlot::RateAgain => "1"@,
        ShortcutSlot::RateHard => "2"@,
        ShortcutSlot::RateGood => "3"@,
        ShortcutSlot::RateEasy => "4"@,
        ShortcutSlot::SkipCard => "s"@,
        ShortcutSlot::Up => "up"@,
        ShortcutSlot::Down => "down"@,
        ShortcutSlot::Left => "left"@,
        ShortcutSlot::Right => "right"@,
        ShortcutSlot::Select => "enter"@,
        ShortcutSlot::Back => "esc"@,
        ShortcutSlot::Quit => "q"@,
        ShortcutSlot::Help => "?"@,
        ShortcutSlot::ToggleTheme => "t"@,
        ShortcutSlot::ToggleDebug => "d"@,
        ShortcutSlot::Refresh => "r"@,
        ShortcutSlot::Save => "ctrl+s"@,
    }
}

/// The shortcut a category and action name, if any.
pub open spec fn slot_of(category: Seq<char>, action: Seq<char>) -> Option<ShortcutSlot> {
    if category == "card_review"@ {
        if action == "show_answer"@ {
            Some(ShortcutSlot::ShowAnswer)
        } else if action == "rate_again"@ {
            Some(ShortcutSlot::RateAgain)
        } else if action == "rate_hard"@ {
            Some(ShortcutSlot::RateHard)
        } else if action == "rate_good"@ {
            Some(ShortcutSlot::RateGood)
        } else if action == "rate_easy"@ {
            Some(ShortcutSlot::RateEasy)
        } else if action == "skip_card"@ {
            Some(ShortcutSlot::SkipCard)
        } else {
            None
        }
    } else if category == "navigation"@ {
        if action == "up"@ {
            Some(ShortcutSlot::Up)
        } else if action == "down"@ {
            Some(ShortcutSlot::Down)
        } else if action == "left"@ {
            Some(ShortcutSlot::Left)
        } else if action == "right"@ {
            Some(ShortcutSlot::Right)
        } else if action == "select"@ {
            Some(ShortcutSlot::Select)
        } else if action == "back"@ {
            Some(ShortcutSlot::Back)
        } else if action == "quit"@ {
            Some(ShortcutSlot::Quit)
        } else if action == "help"@ {
            Some(ShortcutSlot::Help)
        } else {
            None
        }
    } else if category == "global"@ {
        if action == "toggle_theme"@ {
            Some(ShortcutSlot::ToggleTheme)
        } else if action == "toggle_debug"@ {
            Some(ShortcutSlot::ToggleDebug)
        } else if action == "refresh"@ {
            Some(ShortcutSlot::Refresh)
        } else if action == "save"@ {
            Some(ShortcutSlot::Save)
        } else {
            None
        }
    } else {
        None
    }
}

fn slot_lookup(category: &str, action: &str) -> (s: Option<ShortcutSlot>)
    ensures
        s == slot_of(category@, action@),
{
    if str_eq(category, "card_review") {
        if str_eq(action, "show_answer") {
            Some(ShortcutSlot::ShowAnswer)
        } else if str_eq(action, "rate_again") {
            Some(ShortcutSlot::RateAgain)
        } else if str_eq(action, "rate_hard") {
            Some(ShortcutSlot::RateHard)
        } else if str_eq(action, "rate_good") {
            Some(ShortcutSlot::RateGood)
        } else if str_eq(action, "rate_easy") {
            Some(ShortcutSlot::RateEasy)
        } else if str_eq(action, "skip_card") {
            Some(ShortcutSlot::SkipCard)
        } else {
            None
        }
    } else if str_eq(category, "navigation") {
        if str_eq(action, "up") {
            Some(ShortcutSlot::Up)
        } else if str_eq(action, "down") {
            Some(ShortcutSlot::Down)
        } else if str_eq(action, "left") {
            Some(ShortcutSlot::Left)
        } else if str_eq(action, "right") {
            Some(ShortcutSlot::Right)
        } else if str_eq(action, "select") {
            Some(ShortcutSlot::Select)
        } else if str_eq(action, "back") {
            Some(ShortcutSlot::Back)
        } else if str_eq(action, "quit") {
            Some(ShortcutSlot::Quit)
        } else if str_eq(action, "help") {
            Some(ShortcutSlot::Help)
        } else {
            None
        }
    } else if str_eq(category, "global") {
        if str_eq(action, "toggle_theme") {
            Some(ShortcutSlot::ToggleTheme)
        } else if str_eq(action, "toggle_debug") {
            Some(ShortcutSlot::ToggleDebug)
        } else if str_eq(action, "refresh") {
            Some(ShortcutSlot::Refresh)
        } else if str_eq(action, "save") {
            Some(ShortcutSlot::Save)
        } else {
            None
        }
    } else {
        None
    }
}

/// A value given for a display setting: what the manager can read of it.
#[derive(Debug, Clone, Copy, PartialEq, Eq, Structural)]
pub enum SettingValue {
    Integer(i64),
    Boolean(bool),
    /// Any other kind of value; no setting takes it.
    Other,
}

/// The display settings after `key` was given `value`: a value of the
/// wrong kind, or an unknown key, changes nothing. Integers are cut to
/// the setting's width as `as` does.
pub open spec fn display_after(d: DisplayConfig, key: Seq<char>, value: SettingValue) -> (DisplayConfig, bool) {
    match value {
        SettingValue::Integer(n) => if key == "min_width"@ {
            (DisplayConfig { min_width: n as u16, ..d }, true)
        } else if key == "min_height"@ {
            (DisplayConfig { min_height: n as u16, ..d }, true)
        } else if key == "refresh_rate_ms"@ {
            (DisplayConfig { refresh_rate_ms: n as u64, ..d }, true)
        } else {
            (d, false)
        },
        SettingValue::Boolean(b) => if key == "show_card_counter"@ {
            (DisplayConfig { show_card_counter: b, ..d }, true)
        } else if key == "show_progress_bar"@ {
            (DisplayConfig { show_progress_bar: b, ..d }, true)
        } else {
            (d, false)
        },
        SettingValue::Other => (d, false),
    }
}

/// Edits the configuration and remembers whether it changed since it was
/// loaded or saved.
#[derive(Debug)]
pub struct TUIConfigManager {
    pub config: TUIConfig,
    pub config_path: String,
    pub modified: bool,
}

impl TUIConfigManager {
    /// A manager of a configuration just read from `config_path`.
    pub fn from_loaded(config: TUIConfig, config_path: String) -> (m: TUIConfigManager)
        ensures
            m.config == config,
            m.config_path == config_path,
            !m.modified,
    {
        TUIConfigManager { config, config_path, modified: false }
    }

    /// The current configuration.
    pub fn config(&self) -> (c: &TUIConfig)
        ensures
            *c == self.config,
    {
        &self.config
    }

    /// Whether the configuration changed since it was loaded or saved.
    pub fn is_modified(&self) -> (b: bool)
        ensures
            b == self.modified,
    {
        self.modified
    }

    /// Records that the configuration was written out.
    pub fn mark_saved(&mut self)
        ensures
            !final(self).modified,
            final(self).config == old(self).config,
            final(self).config_path == old(self).config_path,
    {
        self.modified = false;
    }

    /// Sets the theme's name.
    pub fn set_theme(&mut self, theme_name: String)
        ensures
            final(self).modified,
            final(self).config.theme.current_theme == theme_name,
            final(self).config.theme.custom_colors == old(self).config.theme.custom_colors,
            final(self).config.theme.enable_effects == old(self).config.theme.enable_effects,
            final(self).config.display == old(self).config.display,
            final(self).config.shortcuts == old(self).config.shortcuts,
    {
        self.config.theme.current_theme = theme_name;
        self.modified = true;
    }

    /// Turns visual effects on or off.
    pub fn toggle_effects(&mut self)
        ensures
            final(self).modified,
            final(self).config.theme.enable_effects == !old(self).config.theme.enable_effects,
            final(self).config.theme.current_theme == old(self).config.theme.current_theme,
            final(self).config.display == old(self).config.display,
            final(self).config.shortcuts == old(self).config.shortcuts,
    {
        self.config.theme.enable_effects = !self.config.theme.enable_effects;
        self.modified = true;
    }

    /// Sets a display setting from a value of the right kind.
    pub fn set_display_setting(&mut self, key: &str, value: SettingValue)
        ensures
            final(self).config.display == display_after(old(self).config.display, key@, value).0,
            final(self).modified == (old(self).modified || display_after(old(self).config.display, key@, value).1),
            final(self).config.theme == old(self).config.theme,
            final(self).config.shortcuts == old(self).config.shortcuts,
            final(self).config.performance == old(self).config.performance,
    {
        match value {
            SettingValue::Integer(n) => {
                if str_eq(key, "min_width") {
                    self.config.display.min_width = n as u16;
                    self.modified = true;
                } else if str_eq(key, "min_height") {
                    self.config.display.min_height = n as u16;
                    self.modified = true;
                } else if str_eq(key, "refresh_rate_ms") {
                    self.config.display.refresh_rate_ms = n as u64;
                    self.modified = true;
                }
            },
            SettingValue::Boolean(b) => {
                if str_eq(key, "show_card_counter") {
                    self.config.display.show_card_counter = b;
                    self.modified = true;
                } else if str_eq(key, "show_progress_bar") {
                    self.config.display.show_progress_bar = b;
                    self.modified = true;
                }
            },
            SettingValue::Other => {},
        }
    }

    /// Binds a key to the shortcut named by a category and an action; an
    /// unknown name changes nothing.
    pub fn update_shortcut(&mut self, category: &str, action: &str, key: String)
        ensures
            forall|s: ShortcutSlot| #[trigger] shortcut_value(final(self).config.shortcuts, s) == if slot_of(
                category@,
                action@,
            ) == Some(s) {
                key@
            } else {
                shortcut_value(old(self).config.shortcuts, s)
            },
            final(self).modified == (old(self).modified || slot_of(category@, action@) is Some),
            final(self).config.theme == old(self).config.theme,
            final(self).config.display == old(self).config.display,
            final(self).config.performance == old(self).config.performance,
            final(self).config.accessibility == old(self).config.accessibility,
            final(self).config_path == old(self).config_path,
    {
        let slot = slot_lookup(category, action);
        match slot {
            Some(ShortcutSlot::ShowAnswer) => self.config.shortcuts.card_review.show_answer = key,
            Some(ShortcutSlot::RateAgain) => self.config.shortcuts.card_review.rate_again = key,
            Some(ShortcutSlot::RateHard) => self.config.shortcuts.card_review.rate_hard = key,
            Some(ShortcutSlot::RateGood) => self.config.shortcuts.card_review.rate_good = key,
            Some(ShortcutSlot::RateEasy) => self.config.shortcuts.card_review.rate_easy = key,
            Some(ShortcutSlot::SkipCard) => self.config.shortcuts.card_review.skip_card = key,
            Some(ShortcutSlot::Up) => self.config.shortcuts.navigation.up = key,
            Some(ShortcutSlot::Down) => self.config.shortcuts.navigation.down = key,
            Some(ShortcutSlot::Left) => self.config.shortcuts.navigation.left = key,
            Some(ShortcutSlot::Right) => self.config.shortcuts.navigation.right = key,
            Some(ShortcutSlot::Select) => self.config.shortcuts.navigation.select = key,
            Some(ShortcutSlot::Back) => self.config.shortcuts.navigation.back = key,
            Some(ShortcutSlot::Quit) => self.config.shortcuts.navigation.quit = key,
            Some(ShortcutSlot::Help) => self.config.shortcuts.navigation.help = key,
            Some(ShortcutSlot::ToggleTheme) => self.config.shortcuts.global.toggle_theme = key,
            Some(ShortcutSlot::ToggleDebug) => self.config.shortcuts.global.toggle_debug = key,
            Some(ShortcutSlot::Refresh) => self.config.shortcuts.global.refresh = key,
            Some(ShortcutSlot::Save) => self.config.shortcuts.global.save = key,
            None => {},
        }
        if slot.is_some() {
            self.modified = true;
        }
    }

    /// Puts the default configuration back.
    pub fn reset_to_defaults(&mut self)
        ensures
            final(self).modified,
            final(self).config_path == old(self).config_path,
            final(self).config.theme.current_theme@ == "dark"@,
            final(self).config.display.min_width == 80,
            forall|s: ShortcutSlot| #[trigger] shortcut_value(final(self).config.shortcuts, s) == default_shortcut(s),
    {
        self.config = TUIConfig::default();
        self.modified = true;
    }

    /// Takes the configuration as an edit left it; it now differs from
    /// the one saved.
    pub fn update_config(&mut self, updated: TUIConfig)
        ensures
            final(self).modified,
            final(self).config == updated,
            final(self).config_path == old(self).config_path,
    {
        self.config = updated;
        self.modified = true;
    }

    /// Replaces the configuration with one read from text.
    pub fn import_config(&mut self, imported: TUIConfig)
        ensures
            final(self).modified,
            final(self).config == imported,
            final(self).config_path == old(self).config_path,
    {
        self.config = imported;
        self.modified = true;
    }
}

/// Binding a shortcut and reading it back gives the key bound; the other
/// shortcuts keep theirs.
pub proof fn lemma_shortcut_read_back(
    before: ShortcutConfig,
    after: ShortcutConfig,
    category: Seq<char>,
    action: Seq<char>,
    key: Seq<char>,
    s: ShortcutSlot,
)
    requires
        forall|t: ShortcutSlot| #[trigger] shortcut_value(after, t) == if slot_of(category, action) == Some(t) {
            key
        } else {
            shortcut_value(before, t)
        },
    ensures
        slot_of(category, action) == Some(s) ==> shortcut_value(after, s) == key,
        slot_of(category, action) != Some(s) ==> shortcut_value(after, s) == shortcut_value(before, s),
{
    assert(shortcut_value(after, s) == shortcut_value(after, s));
}

} // verus!
