//! The settings screen: categories of settings, each setting's current
//! value, moving into a category and back, and editing a value.
use vstd::prelude::*;
use vstd::string::*;
use crate::input::Action;
use crate::screens::AppState;
use crate::text::{str_eq, string_pop, string_push};

verus! {

/// A setting's kind of value.
#[derive(Debug)]
pub enum SettingType {
    Number { min: u32, max: u32 },
    Text,
    Boolean,
    Selection { options: Vec<String> },
}

/// An entry of the settings list: a category of entries, or one setting.
#[derive(Debug)]
pub enum SettingsItem {
    Category { name: String, description: String, items: Vec<SettingsItem> },
    Setting { name: String, description: String, current_value: String, setting_type: SettingType },
}

/// What the settings list shows.
#[derive(Debug)]
pub enum SettingsViewMode {
    CategoryList,
    SettingList { category: String },
    EditingValue { setting_path: String },
}

/// The current values of the settings, as the list shows them.
#[derive(Debug)]
pub struct SettingsValues {
    pub max_new_cards: String,
    pub max_review_cards: String,
    pub day_start_hour: String,
    pub day_end_hour: String,
    pub theme: String,
    pub show_progress: String,
    pub starting_ease_factor: String,
    pub easy_bonus: String,
    pub data_dir: String,
    pub auto_backup: String,
    pub animation_speed: String,
}

impl SettingsValues {
    /// A copy of the values.
    pub fn copy(&self) -> (c: SettingsValues)
        ensures
            c == *self,
    {
        SettingsValues {
            max_new_cards: self.max_new_cards.clone(),
            max_review_cards: self.max_review_cards.clone(),
            day_start_hour: self.day_start_hour.clone(),
            day_end_hour: self.day_end_hour.clone(),
            theme: self.theme.clone(),
            show_progress: self.show_progress.clone(),
            starting_ease_factor: self.starting_ease_factor.clone(),
            easy_bonus: self.easy_bonus.clone(),
            data_dir: self.data_dir.clone(),
            auto_backup: self.auto_backup.clone(),
            animation_speed: self.animation_speed.clone(),
        }
    }
}

/// A setting's kind of value, as a value.
pub enum KindSpec {
    Number(u32, u32),
    Text,
    Boolean,
    Selection(Seq<Seq<char>>),
}

/// The kind of a setting's value, as a value.
pub open spec fn kind_of(t: SettingType) -> KindSpec {
    match t {
        SettingType::Number { min, max } => KindSpec::Number(min, max),
        SettingType::Text => KindSpec::Text,
        SettingType::Boolean => KindSpec::Boolean,
        SettingType::Selection { options } => KindSpec::Selection(texts(options@)),
    }
}

/// A setting as a value: its name, what it is for, its value and its kind.
pub struct SettingSpec {
    pub name: Seq<char>,
    pub description: Seq<char>,
    pub value: Seq<char>,
    pub kind: KindSpec,
}

/// A category as a value: its name, what it holds, and its settings.
pub struct CategorySpec {
    pub name: Seq<char>,
    pub description: Seq<char>,
    pub settings: Seq<SettingSpec>,
}

/// A setting of the list.
pub open spec fn setting_spec(name: Seq<char>, description: Seq<char>, value: Seq<char>, kind: KindSpec) -> SettingSpec {
    SettingSpec { name, description, value, kind }
}

/// A category of the list.
pub open spec fn category_spec(name: Seq<char>, description: Seq<char>, settings: Seq<SettingSpec>) -> CategorySpec {
    CategorySpec { name, description, settings }
}

/// The categories and settings the screen lists.
pub open spec fn hierarchy(v: SettingsValues) -> Seq<CategorySpec> {
    seq![
        category_spec("Learning Limits"@, "Configure daily study limits and schedules"@, seq![
            setting_spec("Maximum New Cards"@, "Maximum number of new cards to introduce per day"@, v.max_new_cards@, KindSpec::Number(0, 1000)),
            setting_spec("Maximum Review Cards"@, "Maximum number of review cards per day"@, v.max_review_cards@, KindSpec::Number(0, 10000)),
            setting_spec("Day Start Hour"@, "Hour when your study day begins (0-23)"@, v.day_start_hour@, KindSpec::Number(0, 23)),
            setting_spec("Day End Hour"@, "Hour when your study day ends (0-23)"@, v.day_end_hour@, KindSpec::Number(0, 23)),
        ]),
        category_spec("Theme & Display"@, "Customize appearance and display settings"@, seq![
            setting_spec("Theme"@, "Choose your color theme"@, v.theme@, KindSpec::Selection(seq!["dark"@, "light"@, "blue"@])),
            setting_spec("Show Progress"@, "Display progress indicators during study"@, v.show_progress@, KindSpec::Boolean),
        ]),
        category_spec("Keyboard Shortcuts"@, "View and customize keyboard shortcuts"@, seq![
            setting_spec("Show Answer"@, "Key to reveal card answer"@, "Space"@, KindSpec::Text),
            setting_spec("Rate Card: Again"@, "Key to rate card as Again"@, "1"@, KindSpec::Text),
            setting_spec("Rate Card: Good"@, "Key to rate card as Good"@, "3"@, KindSpec::Text),
        ]),
        category_spec("Scheduling Algorithm"@, "Configure spaced repetition parameters"@, seq![
            setting_spec("Starting Ease Factor"@, "Initial ease factor for new cards"@, v.starting_ease_factor@, KindSpec::Number(130, 300)),
            setting_spec("Easy Bonus"@, "Bonus for easy responses"@, v.easy_bonus@, KindSpec::Number(0, 100)),
        ]),
        category_spec("Data Management"@, "Manage data storage and backup"@, seq![
            setting_spec("Data Directory"@, "Location where your data is stored"@, v.data_dir@, KindSpec::Text),
            setting_spec("Auto Backup"@, "Automatically backup your data"@, v.auto_backup@, KindSpec::Boolean),
        ]),
        category_spec("Advanced"@, "Advanced configuration options"@, seq![
            setting_spec("Debug Mode"@, "Enable debug logging and features"@, "false"@, KindSpec::Boolean),
            setting_spec("Animation Speed"@, "Speed of UI animations in milliseconds"@, v.animation_speed@, KindSpec::Number(0, 1000)),
        ]),
    ]
}

/// An entry's setting as a value.
pub open spec fn setting_of(name: String, description: String, value: String, t: SettingType) -> SettingSpec {
    SettingSpec { name: name@, description: description@, value: value@, kind: kind_of(t) }
}

/// Whether an entry is the given setting.
pub open spec fn setting_ok(i: SettingsItem, s: SettingSpec) -> bool {
    i matches SettingsItem::Setting { name, description, current_value, setting_type } && setting_of(
        name,
        description,
        current_value,
        setting_type,
    ) == s
}

/// Whether an entry is the given category.
pub open spec fn category_ok(i: SettingsItem, c: CategorySpec) -> bool {
    i matches SettingsItem::Category { name, description, items } && name@ == c.name && description@
        == c.description && items@.len() == c.settings.len() && forall|j: int|
        0 <= j < c.settings.len() ==> setting_ok(#[trigger] items@[j], c.settings[j])
}

/// Whether a list of entries is the given hierarchy.
pub open spec fn items_ok(items: Seq<SettingsItem>, h: Seq<CategorySpec>) -> bool {
    items.len() == h.len() && forall|k: int| 0 <= k < h.len() ==> category_ok(#[trigger] items[k], h[k])
}

/// Which entries the list shows: the categories, the settings of one
/// category, or nothing.
#[derive(Debug, Clone, Copy, PartialEq, Eq, Structural)]
pub enum Shown {
    All,
    Category(usize),
    Nothing,
}

/// The screen's mode as a value.
pub enum ModeView {
    CategoryList,
    SettingList(Seq<char>),
    Editing(Seq<char>),
}

/// An entry as a value.
pub enum EntrySpec {
    Category(Seq<char>),
    Setting(SettingSpec),
}

/// The screen as a value.
#[verifier::ext_equal]
pub struct SettingsView {
    pub mode: ModeView,
    pub shown: Shown,
    pub selected: nat,
    pub list_selected: Option<nat>,
    pub edit: Seq<char>,
    pub stack: Seq<Seq<char>>,
}

/// The number of entries shown.
pub open spec fn shown_len(h: Seq<CategorySpec>, s: Shown) -> nat {
    match s {
        Shown::All => h.len(),
        Shown::Category(k) => h[k as int].settings.len(),
        Shown::Nothing => 0,
    }
}

/// The entry shown at a position, if any.
pub open spec fn shown_entry(h: Seq<CategorySpec>, s: Shown, i: nat) -> Option<EntrySpec> {
    if i < shown_len(h, s) {
        match s {
            Shown::All => Some(EntrySpec::Category(h[i as int].name)),
            Shown::Category(k) => Some(EntrySpec::Setting(h[k as int].settings[i as int])),
            Shown::Nothing => None,
        }
    } else {
        None
    }
}

/// The first category with a name, from position `k` on.
pub open spec fn find_from(h: Seq<CategorySpec>, name: Seq<char>, k: int) -> Option<nat>
    decreases h.len() - k,
{
    if k < 0 || k >= h.len() {
        None
    } else if h[k].name == name {
        Some(k as nat)
    } else {
        find_from(h, name, k + 1)
    }
}

/// The entries shown in a mode: a category's settings when it exists, else
/// what was shown before.
pub open spec fn shown_for(h: Seq<CategorySpec>, mode: ModeView, prev: Shown) -> Shown {
    match mode {
        ModeView::CategoryList => Shown::All,
        ModeView::SettingList(c) => match find_from(h, c, 0) {
            Some(k) => Shown::Category(k as usize),
            None => prev,
        },
        ModeView::Editing(_) => Shown::Nothing,
    }
}

/// Entering a category.
pub open spec fn enter_spec(h: Seq<CategorySpec>, v: SettingsView, name: Seq<char>) -> SettingsView {
    SettingsView {
        stack: v.stack.push(name),
        mode: ModeView::SettingList(name),
        selected: 0,
        shown: shown_for(h, ModeView::SettingList(name), v.shown),
        list_selected: Some(0),
        ..v
    }
}

/// Going back one level: the category taken off the stack is listed again
/// unless the stack is then empty.
pub open spec fn back_spec(h: Seq<CategorySpec>, v: SettingsView) -> SettingsView {
    let (mode, stack) = if v.stack.len() == 0 {
        (ModeView::CategoryList, v.stack)
    } else if v.stack.len() == 1 {
        (ModeView::CategoryList, v.stack.drop_last())
    } else {
        (ModeView::SettingList(v.stack.last()), v.stack.drop_last())
    };
    SettingsView { mode, stack, selected: 0, shown: shown_for(h, mode, v.shown), list_selected: Some(0), ..v }
}

/// Enter on the selected entry.
pub open spec fn select_spec(h: Seq<CategorySpec>, v: SettingsView) -> SettingsView {
    match v.mode {
        ModeView::CategoryList => match shown_entry(h, v.shown, v.selected) {
            Some(EntrySpec::Category(name)) => enter_spec(h, v, name),
            _ => v,
        },
        ModeView::SettingList(_) => match shown_entry(h, v.shown, v.selected) {
            Some(EntrySpec::Setting(s)) => if s.kind is Boolean {
                SettingsView { shown: shown_for(h, v.mode, v.shown), ..v }
            } else {
                SettingsView { edit: s.value, mode: ModeView::Editing(s.name), ..v }
            },
            _ => v,
        },
        ModeView::Editing(_) => back_spec(h, v),
    }
}

/// What an action does, and the screen it asks for.
pub open spec fn settings_action_spec(h: Seq<CategorySpec>, v: SettingsView, action: Action) -> (
    SettingsView,
    Option<AppState>,
) {
    match action {
        Action::Up => (
            if v.selected > 0 {
                SettingsView {
                    selected: (v.selected - 1) as nat,
                    list_selected: Some((v.selected - 1) as nat),
                    ..v
                }
            } else {
                v
            },
            None,
        ),
        Action::Down => (
            if v.selected + 1 < shown_len(h, v.shown) {
                SettingsView { selected: v.selected + 1, list_selected: Some(v.selected + 1), ..v }
            } else {
                v
            },
            None,
        ),
        Action::Select => (select_spec(h, v), None),
        Action::Cancel => match v.mode {
            ModeView::Editing(_) => (back_spec(h, SettingsView { edit: Seq::empty(), ..v }), None),
            _ => (v, Some(AppState::MainMenu)),
        },
        Action::Char(c) => match v.mode {
            ModeView::Editing(_) => (SettingsView { edit: v.edit.push(c), ..v }, None),
            _ => (v, None),
        },
        Action::Backspace => match v.mode {
            ModeView::Editing(_) => (
                SettingsView {
                    edit: if v.edit.len() > 0 {
                        v.edit.drop_last()
                    } else {
                        v.edit
                    },
                    ..v
                },
                None,
            ),
            _ => (v, None),
        },
        _ => (v, None),
    }
}

/// An entry as a value.
pub open spec fn entry_of(i: SettingsItem) -> EntrySpec {
    match i {
        SettingsItem::Category { name, .. } => EntrySpec::Category(name@),
        SettingsItem::Setting { name, description, current_value, setting_type } => EntrySpec::Setting(
            setting_of(name, description, current_value, setting_type),
        ),
    }
}

/// From the category list, entering a category and going back returns to
/// the category list with nothing remembered, at its top.
pub proof fn lemma_enter_then_back(h: Seq<CategorySpec>, v: SettingsView, name: Seq<char>)
    requires
        v.stack.len() == 0,
    ensures
        back_spec(h, enter_spec(h, v, name)).mode == ModeView::CategoryList,
        back_spec(h, enter_spec(h, v, name)).shown == Shown::All,
        back_spec(h, enter_spec(h, v, name)).stack.len() == 0,
        back_spec(h, enter_spec(h, v, name)).selected == 0,
        back_spec(h, enter_spec(h, v, name)).edit == v.edit,
{
}

/// The settings screen.
pub struct Settings {
    values: SettingsValues,
    view_mode: SettingsViewMode,
    settings_items: Vec<SettingsItem>,
    shown: Shown,
    list_selected: Option<usize>,
    selected_index: usize,
    edit_field: String,
    navigation_stack: Vec<String>,
}

pub open spec fn mode_view(m: SettingsViewMode) -> ModeView {
    match m {
        SettingsViewMode::CategoryList => ModeView::CategoryList,
        SettingsViewMode::SettingList { category } => ModeView::SettingList(category@),
        SettingsViewMode::EditingValue { setting_path } => ModeView::Editing(setting_path@),
    }
}

pub open spec fn opt_nat(o: Option<usize>) -> Option<nat> {
    match o {
        Some(i) => Some(i as nat),
        None => None,
    }
}

pub open spec fn texts(v: Seq<String>) -> Seq<Seq<char>> {
    v.map_values(|s: String| s@)
}

impl View for Settings {
    type V = SettingsView;

    closed spec fn view(&self) -> SettingsView {
        SettingsView {
            mode: mode_view(self.view_mode),
            shown: self.shown,
            selected: self.selected_index as nat,
            list_selected: opt_nat(self.list_selected),
            edit: self.edit_field@,
            stack: texts(self.navigation_stack@),
        }
    }
}

/// A copy of a list of texts.
fn copy_texts(v: &Vec<String>) -> (r: Vec<String>)
    ensures
        texts(r@) == texts(v@),
{
    let mut r: Vec<String> = Vec::new();
    let mut i: usize = 0;
    while i < v.len()
        invariant
            i <= v@.len(),
            texts(r@) == texts(v@.take(i as int)),
        decreases v@.len() - i,
    {
        let ghost before = r@;
        r.push(v[i].clone());
        proof {
            assert(v@.take(i + 1) =~= v@.take(i as int).push(v@[i as int]));
            assert(r@ =~= before.push(v@[i as int]));
            assert(texts(before.push(v@[i as int])) =~= texts(before).push(v@[i as int]@));
            assert(texts(v@.take(i as int).push(v@[i as int])) =~= texts(v@.take(i as int)).push(v@[i as int]@));
        }
        i = i + 1;
    }
    assert(v@.take(v@.len() as int) =~= v@);
    r
}

fn text(s: &str) -> (r: String)
    ensures
        r@ == s@,
{
    String::from_str(s)
}

fn setting(name: &str, description: &str, value: String, setting_type: SettingType) -> (i: SettingsItem)
    ensures
        i matches SettingsItem::Setting { name: n, description: d, current_value: v, setting_type: t } && n@ == name@
            && d@ == description@ && v@ == value@ && t == setting_type,
{
    SettingsItem::Setting { name: text(name), description: text(description), current_value: value, setting_type }
}

fn number(min: u32, max: u32) -> (t: SettingType)
    ensures
        t == (SettingType::Number { min, max }),
{
    SettingType::Number { min, max }
}

impl Settings {
    /// The entries always match the values, and a category shown exists.
    #[verifier::type_invariant]
    closed spec fn inv(&self) -> bool {
        &&& items_ok(self.settings_items@, hierarchy(self.values))
        &&& (self.shown matches Shown::Category(k) ==> k < hierarchy(self.values).len())
    }

    /// The hierarchy the screen lists.
    pub closed spec fn tree(&self) -> Seq<CategorySpec> {
        hierarchy(self.values)
    }

    /// The screen listing the categories, for the given values.
    pub fn with_config(values: SettingsValues) -> (s: Settings)
        ensures
            s.tree() == hierarchy(values),
            s@ == (SettingsView {
                mode: ModeView::CategoryList,
                shown: Shown::All,
                selected: 0,
                list_selected: Some(0),
                edit: Seq::empty(),
                stack: Seq::empty(),
            }),
    {
        let items = Self::build_settings_hierarchy(&values);
        let s = Settings {
            values,
            view_mode: SettingsViewMode::CategoryList,
            settings_items: items,
            shown: Shown::All,
            list_selected: Some(0),
            selected_index: 0,
            edit_field: String::new(),
            navigation_stack: Vec::new(),
        };
        assert(s@ =~= SettingsView {
            mode: ModeView::CategoryList,
            shown: Shown::All,
            selected: 0,
            list_selected: Some(0),
            edit: Seq::empty(),
            stack: Seq::empty(),
        });
        s
    }

    /// The position of the first category with the name, if any.
    fn find_category(&self, name: &String) -> (r: Option<usize>)
        ensures
            opt_nat(r) == find_from(self.tree(), name@, 0),
            r matches Some(k) ==> k < self.tree().len(),
    {
        proof {
            use_type_invariant(self);
        }
        let ghost h = self.tree();
        let n = self.settings_items.len();
        let mut k: usize = 0;
        while k < n
            invariant
                n == h.len(),
                h == self.tree(),
                items_ok(self.settings_items@, h),
                k <= n,
                find_from(h, name@, 0) == find_from(h, name@, k as int),
            decreases n - k,
        {
            assert(category_ok(self.settings_items@[k as int], h[k as int]));
            let found = match &self.settings_items[k] {
                SettingsItem::Category { name: c, .. } => str_eq(c.as_str(), name.as_str()),
                SettingsItem::Setting { .. } => false,
            };
            if found {
                return Some(k);
            }
            k = k + 1;
        }
        None
    }

    /// The entries the list shows after the mode changed.
    fn update_current_items(&mut self)
        ensures
            final(self)@ == (SettingsView { shown: shown_for(old(self).tree(), old(self)@.mode, old(self)@.shown), ..old(self)@ }),
            final(self).tree() == old(self).tree(),
    {
        proof {
            use_type_invariant(&*self);
        }
        let shown = match &self.view_mode {
            SettingsViewMode::CategoryList => Shown::All,
            SettingsViewMode::SettingList { category } => match self.find_category(category) {
                Some(k) => Shown::Category(k),
                None => self.shown,
            },
            SettingsViewMode::EditingValue { .. } => Shown::Nothing,
        };
        self.shown = shown;
    }

    /// The selected entry, if the list shows one at the selected position.
    fn get_selected_item(&self) -> (r: Option<&SettingsItem>)
        ensures
            match r {
                Some(x) => shown_entry(self.tree(), self@.shown, self@.selected) == Some(entry_of(*x)),
                None => shown_entry(self.tree(), self@.shown, self@.selected) is None,
            },
    {
        proof {
            use_type_invariant(self);
        }
        let ghost h = self.tree();
        let idx = self.selected_index;
        match self.shown {
            Shown::All => {
                if idx < self.settings_items.len() {
                    assert(category_ok(self.settings_items@[idx as int], h[idx as int]));
                    Some(&self.settings_items[idx])
                } else {
                    None
                }
            },
            Shown::Category(k) => {
                assert(category_ok(self.settings_items@[k as int], h[k as int]));
                match &self.settings_items[k] {
                    SettingsItem::Category { items, .. } => {
                        if idx < items.len() {
                            assert(setting_ok(items@[idx as int], h[k as int].settings[idx as int]));
                            Some(&items[idx])
                        } else {
                            None
                        }
                    },
                    SettingsItem::Setting { .. } => None,
                }
            },
            Shown::Nothing => None,
        }
    }

    /// The number of entries shown.
    fn shown_count(&self) -> (n: usize)
        ensures
            n == shown_len(self.tree(), self@.shown),
    {
        proof {
            use_type_invariant(self);
        }
        let ghost h = self.tree();
        match self.shown {
            Shown::All => self.settings_items.len(),
            Shown::Category(k) => {
                assert(category_ok(self.settings_items@[k as int], h[k as int]));
                match &self.settings_items[k] {
                    SettingsItem::Category { items, .. } => items.len(),
                    SettingsItem::Setting { .. } => 0,
                }
            },
            Shown::Nothing => 0,
        }
    }

    /// Moves into a category.
    fn enter_category(&mut self, category_name: String)
        ensures
            final(self)@ == enter_spec(old(self).tree(), old(self)@, category_name@),
            final(self).tree() == old(self).tree(),
    {
        proof {
            use_type_invariant(&*self);
        }
        let ghost v0 = self@;
        let path = category_name.clone();
        let mut stack = copy_texts(&self.navigation_stack);
        stack.push(category_name);
        self.navigation_stack = stack;
        self.view_mode = SettingsViewMode::SettingList { category: path };
        self.selected_index = 0;
        assert(texts(self.navigation_stack@) =~= v0.stack.push(path@));
        self.update_current_items();
        proof {
            use_type_invariant(&*self);
        }
        self.list_selected = Some(0);
        assert(self@ =~= enter_spec(old(self).tree(), v0, path@));
    }

    /// Goes back one level.
    fn go_back(&mut self)
        ensures
            final(self)@ == back_spec(old(self).tree(), old(self)@),
            final(self).tree() == old(self).tree(),
    {
        proof {
            use_type_invariant(&*self);
        }
        let ghost v0 = self@;
        let mut stack = copy_texts(&self.navigation_stack);
        let popped = stack.pop();
        self.navigation_stack = stack;
        match popped {
            Some(previous) => {
                assert(texts(self.navigation_stack@) =~= v0.stack.drop_last());
                if self.navigation_stack.len() == 0 {
                    self.view_mode = SettingsViewMode::CategoryList;
                } else {
                    self.view_mode = SettingsViewMode::SettingList { category: previous };
                }
            },
            None => {
                self.view_mode = SettingsViewMode::CategoryList;
            },
        }
        self.selected_index = 0;
        self.update_current_items();
        proof {
            use_type_invariant(&*self);
        }
        self.list_selected = Some(0);
        assert(self@ =~= back_spec(old(self).tree(), v0));
    }

    /// Edits the selected setting's value.
    fn start_editing(&mut self)
        ensures
            final(self).tree() == old(self).tree(),
            final(self)@ == match shown_entry(old(self).tree(), old(self)@.shown, old(self)@.selected) {
                Some(EntrySpec::Setting(s)) => SettingsView { edit: s.value, mode: ModeView::Editing(s.name), ..old(self)@ },
                _ => old(self)@,
            },
    {
        proof {
            use_type_invariant(&*self);
        }
        let selected = self.get_selected_item();
        let found = match selected {
            Some(SettingsItem::Setting { current_value, name, .. }) => Some((current_value.clone(), name.clone())),
            _ => None,
        };
        match found {
            Some((value, name)) => {
                self.edit_field = value;
                self.view_mode = SettingsViewMode::EditingValue { setting_path: name };
            },
            None => {},
        }
    }

    /// Keeps the edited value and goes back.
    fn save_edit_value(&mut self)
        ensures
            final(self)@ == back_spec(old(self).tree(), old(self)@),
            final(self).tree() == old(self).tree(),
    {
        self.go_back();
    }

    /// Drops the edited value and goes back.
    fn cancel_edit(&mut self)
        ensures
            final(self)@ == back_spec(old(self).tree(), SettingsView { edit: Seq::empty(), ..old(self)@ }),
            final(self).tree() == old(self).tree(),
    {
        proof {
            use_type_invariant(&*self);
        }
        self.edit_field = String::new();
        self.go_back();
    }

    /// Switches the selected setting; the values come from the configuration,
    /// so the list is rebuilt from them.
    fn toggle_boolean_value(&mut self)
        ensures
            final(self).tree() == old(self).tree(),
            final(self)@ == match shown_entry(old(self).tree(), old(self)@.shown, old(self)@.selected) {
                Some(EntrySpec::Setting(_)) => SettingsView {
                    shown: shown_for(old(self).tree(), old(self)@.mode, old(self)@.shown),
                    ..old(self)@
                },
                _ => old(self)@,
            },
    {
        proof {
            use_type_invariant(&*self);
        }
        let is_setting = match self.get_selected_item() {
            Some(SettingsItem::Setting { .. }) => true,
            _ => false,
        };
        if is_setting {
            let items = Self::build_settings_hierarchy(&self.values);
            self.settings_items = items;
            self.update_current_items();
        }
    }

    /// Up and down move through the list; enter opens a category, switches a
    /// switch, starts editing a value or keeps the edited one; escape drops
    /// the edit or leaves for the main menu; typed characters edit the value.
    pub fn handle_action(&mut self, action: Action) -> (next: Option<AppState>)
        ensures
            (final(self)@, next) == settings_action_spec(old(self).tree(), old(self)@, action),
            final(self).tree() == old(self).tree(),
    {
        proof {
            use_type_invariant(&*self);
        }
        let ghost h = self.tree();
        match action {
            Action::Up => {
                if self.selected_index > 0 {
                    self.selected_index = self.selected_index - 1;
                    self.list_selected = Some(self.selected_index);
                }
                None
            },
            Action::Down => {
                let n = self.shown_count();
                if n > 0 && self.selected_index < n - 1 {
                    self.selected_index = self.selected_index + 1;
                    self.list_selected = Some(self.selected_index);
                }
                None
            },
            Action::Select => {
                let ghost v0 = self@;
                let (is_list, is_settings) = match &self.view_mode {
                    SettingsViewMode::CategoryList => (true, false),
                    SettingsViewMode::SettingList { .. } => (false, true),
                    SettingsViewMode::EditingValue { .. } => (false, false),
                };
                if is_list {
                    let name = match self.get_selected_item() {
                        Some(SettingsItem::Category { name, .. }) => Some(name.clone()),
                        _ => None,
                    };
                    match name {
                        Some(n) => self.enter_category(n),
                        None => {},
                    }
                } else if is_settings {
                    let kind = match self.get_selected_item() {
                        Some(SettingsItem::Setting { setting_type, .. }) => match setting_type {
                            SettingType::Boolean => 1u8,
                            _ => 2u8,
                        },
                        _ => 0u8,
                    };
                    if kind == 1 {
                        self.toggle_boolean_value();
                    } else if kind == 2 {
                        self.start_editing();
                    }
                } else {
                    self.save_edit_value();
                }
                None
            },
            Action::Cancel => {
                let editing = match &self.view_mode {
                    SettingsViewMode::EditingValue { .. } => true,
                    _ => false,
                };
                if editing {
                    self.cancel_edit();
                    None
                } else {
                    Some(AppState::MainMenu)
                }
            },
            Action::Char(c) => {
                let editing = match &self.view_mode {
                    SettingsViewMode::EditingValue { .. } => true,
                    _ => false,
                };
                if editing {
                    let mut t = self.edit_field.clone();
                    string_push(&mut t, c);
                    self.edit_field = t;
                }
                None
            },
            Action::Backspace => {
                let editing = match &self.view_mode {
                    SettingsViewMode::EditingValue { .. } => true,
                    _ => false,
                };
                if editing {
                    let mut t = self.edit_field.clone();
                    string_pop(&mut t);
                    self.edit_field = t;
                }
                None
            },
            _ => None,
        }
    }

    /// Rebuilds the list from the values and shows what the mode asks for.
    pub fn update(&mut self)
        ensures
            final(self)@ == (SettingsView { shown: shown_for(old(self).tree(), old(self)@.mode, old(self)@.shown), ..old(self)@ }),
            final(self).tree() == old(self).tree(),
    {
        proof {
            use_type_invariant(&*self);
        }
        let items = Self::build_settings_hierarchy(&self.values);
        self.settings_items = items;
        self.update_current_items();
    }

    /// The component's name.
    pub fn name(&self) -> (n: &'static str)
        ensures
            n@ == "settings"@,
    {
        "settings"
    }

    /// The mode of the screen.
    pub fn view_mode(&self) -> (m: &SettingsViewMode)
        ensures
            mode_view(*m) == self@.mode,
    {
        &self.view_mode
    }

    /// The value being edited.
    pub fn edit_field(&self) -> (e: &str)
        ensures
            e@ == self@.edit,
    {
        self.edit_field.as_str()
    }

    /// The selected position.
    pub fn selected_index(&self) -> (i: usize)
        ensures
            i as nat == self@.selected,
    {
        self.selected_index
    }

    /// The entries the list shows.
    pub fn shown_items(&self) -> (r: &[SettingsItem])
        ensures
            r@.len() == shown_len(self.tree(), self@.shown),
            forall|i: int|
                0 <= i < r@.len() ==> shown_entry(self.tree(), self@.shown, i as nat) == Some(
                    entry_of(#[trigger] r@[i]),
                ),
    {
        proof {
            use_type_invariant(self);
        }
        let ghost h = self.tree();
        match self.shown {
            Shown::All => {
                assert forall|i: int| 0 <= i < self.settings_items@.len() implies shown_entry(h, self@.shown, i as nat)
                    == Some(entry_of(#[trigger] self.settings_items@[i])) by {
                    assert(category_ok(self.settings_items@[i], h[i]));
                }
                self.settings_items.as_slice()
            },
            Shown::Category(k) => {
                assert(category_ok(self.settings_items@[k as int], h[k as int]));
                match &self.settings_items[k] {
                    SettingsItem::Category { items, .. } => {
                        assert forall|i: int| 0 <= i < items@.len() implies shown_entry(h, self@.shown, i as nat)
                            == Some(entry_of(#[trigger] items@[i])) by {
                            assert(setting_ok(items@[i], h[k as int].settings[i]));
                        }
                        items.as_slice()
                    },
                    SettingsItem::Setting { .. } => &[],
                }
            },
            Shown::Nothing => &[],
        }
    }

    fn build_settings_hierarchy(v: &SettingsValues) -> (items: Vec<SettingsItem>)
        ensures
            items_ok(items@, hierarchy(*v)),
    {
        let learning = vec![
            setting("Maximum New Cards", "Maximum number of new cards to introduce per day", v.max_new_cards.clone(), number(0, 1000)),
            setting("Maximum Review Cards", "Maximum number of review cards per day", v.max_review_cards.clone(), number(0, 10000)),
            setting("Day Start Hour", "Hour when your study day begins (0-23)", v.day_start_hour.clone(), number(0, 23)),
            setting("Day End Hour", "Hour when your study day ends (0-23)", v.day_end_hour.clone(), number(0, 23)),
        ];
        let themes = vec![text("dark"), text("light"), text("blue")];
        assert(texts(themes@) =~= seq!["dark"@, "light"@, "blue"@]);
        let display = vec![
            setting("Theme", "Choose your color theme", v.theme.clone(), SettingType::Selection { options: themes }),
            setting("Show Progress", "Display progress indicators during study", v.show_progress.clone(), SettingType::Boolean),
        ];
        let keys = vec![
            setting("Show Answer", "Key to reveal card answer", text("Space"), SettingType::Text),
            setting("Rate Card: Again", "Key to rate card as Again", text("1"), SettingType::Text),
            setting("Rate Card: Good", "Key to rate card as Good", text("3"), SettingType::Text),
        ];
        let scheduling = vec![
            setting("Starting Ease Factor", "Initial ease factor for new cards", v.starting_ease_factor.clone(), number(130, 300)),
            setting("Easy Bonus", "Bonus for easy responses", v.easy_bonus.clone(), number(0, 100)),
        ];
        let data = vec![
            setting("Data Directory", "Location where your data is stored", v.data_dir.clone(), SettingType::Text),
            setting("Auto Backup", "Automatically backup your data", v.auto_backup.clone(), SettingType::Boolean),
        ];
        let advanced = vec![
            setting("Debug Mode", "Enable debug logging and features", text("false"), SettingType::Boolean),
            setting("Animation Speed", "Speed of UI animations in milliseconds", v.animation_speed.clone(), number(0, 1000)),
        ];
        let ghost h = hierarchy(*v);
        let items = vec![
            SettingsItem::Category {
                name: text("Learning Limits"),
                description: text("Configure daily study limits and schedules"),
                items: learning,
            },
            SettingsItem::Category {
                name: text("Theme & Display"),
                description: text("Customize appearance and display settings"),
                items: display,
            },
            SettingsItem::Category {
                name: text("Keyboard Shortcuts"),
                description: text("View and customize keyboard shortcuts"),
                items: keys,
            },
            SettingsItem::Category {
                name: text("Scheduling Algorithm"),
                description: text("Configure spaced repetition parameters"),
                items: scheduling,
            },
            SettingsItem::Category {
                name: text("Data Management"),
                description: text("Manage data storage and backup"),
                items: data,
            },
            SettingsItem::Category {
                name: text("Advanced"),
                description: text("Advanced configuration options"),
                items: advanced,
            },
        ];
        assert(items_ok(items@, h));
        items
    }
}

} // verus!
