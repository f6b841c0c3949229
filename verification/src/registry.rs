//! The component registry: the screen components by name, and the one
//! that handles the screen shown.
use vstd::prelude::*;
use vstd::string::*;
use crate::deck_selector::{deck_action_spec, sorted_rows, DeckSelector, DeckSelectorView};
use crate::events::{component_for, get_component_name_for_state};
use crate::help::{help_after, Help};
use crate::input::Action;
use crate::screens::AppState;
use crate::screens_components::{menu_after, menu_answer, stats_step, Menu, Stats, Study};
use crate::settings::{settings_action_spec, shown_for, Settings, SettingsValues, SettingsView};
use crate::text::str_eq;

verus! {

/// A screen component held by the registry.
pub enum RegisteredComponent {
    Menu(Menu),
    DeckSelector(DeckSelector),
    Study(Study),
    Stats(Stats),
    Settings(Settings),
    Help(Help),
}

/// The screen a component asks for on an action, and how it changes: as
/// each component's own `handle_action` states it.
pub open spec fn component_step(
    before: RegisteredComponent,
    after: RegisteredComponent,
    action: Action,
    next: Option<AppState>,
) -> bool {
    match (before, after) {
        (RegisteredComponent::Menu(m0), RegisteredComponent::Menu(m1)) => {
            &&& next == menu_answer(m0.selected(), action)
            &&& m1.selected() == menu_after(m0.selected(), action)
        },
        (RegisteredComponent::DeckSelector(d0), RegisteredComponent::DeckSelector(d1)) => (d1@, next)
            == deck_action_spec(d0@, action),
        (RegisteredComponent::Study(s0), RegisteredComponent::Study(s1)) => {
            &&& next == match action {
                Action::Cancel => Some(AppState::MainMenu),
                Action::SwitchDeck => Some(AppState::DeckSelection),
                _ => None,
            }
            &&& s1.progress() == s0.progress()
        },
        (RegisteredComponent::Stats(s0), RegisteredComponent::Stats(s1)) => {
            &&& next == if action == Action::Cancel {
                Some(AppState::MainMenu)
            } else {
                None::<AppState>
            }
            &&& stats_step(s0, s1, action)
        },
        (RegisteredComponent::Settings(s0), RegisteredComponent::Settings(s1)) => {
            &&& (s1@, next) == settings_action_spec(s0.tree(), s0@, action)
            &&& s1.tree() == s0.tree()
        },
        (RegisteredComponent::Help(h0), RegisteredComponent::Help(h1)) => {
            &&& next == if action == Action::Cancel {
                Some(AppState::MainMenu)
            } else {
                None::<AppState>
            }
            &&& (h1.section(), h1.offset()) == help_after(h0.section(), h0.offset(), action)
        },
        _ => false,
    }
}

/// How a component changes when it is updated: the deck list is sorted,
/// the settings list is refreshed, the others keep their state.
pub open spec fn component_updated(before: RegisteredComponent, after: RegisteredComponent) -> bool {
    match (before, after) {
        (RegisteredComponent::DeckSelector(d0), RegisteredComponent::DeckSelector(d1)) => {
            &&& d1@ == (DeckSelectorView { decks: d1@.decks, ..d0@ })
            &&& sorted_rows(d0@.sort_order, d0@.decks, d1@.decks)
        },
        (RegisteredComponent::Settings(s0), RegisteredComponent::Settings(s1)) => {
            &&& s1@ == (SettingsView { shown: shown_for(s0.tree(), s0@.mode, s0@.shown), ..s0@ })
            &&& s1.tree() == s0.tree()
        },
        _ => after == before,
    }
}

/// The name each component is registered under by default.
pub open spec fn kind_name(c: RegisteredComponent) -> Seq<char> {
    match c {
        RegisteredComponent::Menu(_) => "main_menu"@,
        RegisteredComponent::DeckSelector(_) => "deck_selector"@,
        RegisteredComponent::Study(_) => "learning"@,
        RegisteredComponent::Stats(_) => "statistics"@,
        RegisteredComponent::Settings(_) => "settings"@,
        RegisteredComponent::Help(_) => "help"@,
    }
}

impl RegisteredComponent {
    /// Passes an action to the component.
    pub fn handle_action(&mut self, action: Action) -> (next: Option<AppState>)
        ensures
            component_step(*old(self), *final(self), action, next),
    {
        match self {
            RegisteredComponent::Menu(m) => m.handle_action(action),
            RegisteredComponent::DeckSelector(d) => d.handle_action(action),
            RegisteredComponent::Study(s) => s.handle_action(action),
            RegisteredComponent::Stats(s) => s.handle_action(action),
            RegisteredComponent::Settings(s) => s.handle_action(action),
            RegisteredComponent::Help(h) => h.handle_action(action),
        }
    }

    /// Updates the component.
    pub fn update(&mut self)
        ensures
            component_updated(*old(self), *final(self)),
    {
        match self {
            RegisteredComponent::DeckSelector(d) => d.update(),
            RegisteredComponent::Settings(s) => s.update(),
            RegisteredComponent::Help(h) => h.update(),
            _ => {},
        }
    }
}

/// The registry as names with their components.
pub open spec fn entries_of(v: Seq<(String, RegisteredComponent)>) -> Seq<(Seq<char>, RegisteredComponent)> {
    v.map_values(|e: (String, RegisteredComponent)| (e.0@, e.1))
}

/// The position of a name among the registered ones, if it is there.
pub open spec fn entry_position(e: Seq<(Seq<char>, RegisteredComponent)>, name: Seq<char>) -> Option<int> {
    if exists|i: int| 0 <= i < e.len() && (#[trigger] e[i]).0 == name {
        Some(choose|i: int| 0 <= i < e.len() && (#[trigger] e[i]).0 == name)
    } else {
        None
    }
}

/// No name is registered twice.
pub open spec fn distinct_names(e: Seq<(Seq<char>, RegisteredComponent)>) -> bool {
    forall|i: int, j: int| 0 <= i < j < e.len() ==> (#[trigger] e[i]).0 != (#[trigger] e[j]).0
}

/// The registry after registering a component under a name: it replaces a
/// component of that name in place, or comes last.
pub open spec fn registered(
    e: Seq<(Seq<char>, RegisteredComponent)>,
    name: Seq<char>,
    c: RegisteredComponent,
) -> Seq<(Seq<char>, RegisteredComponent)> {
    match entry_position(e, name) {
        Some(i) => e.update(i, (name, c)),
        None => e.push((name, c)),
    }
}

/// The screen components by name, and the name of the one that handles
/// the screen shown.
pub struct ComponentRegistry {
    components: Vec<(String, RegisteredComponent)>,
    current_component: Option<String>,
}

impl ComponentRegistry {
    #[verifier::type_invariant]
    closed spec fn inv(&self) -> bool {
        distinct_names(entries_of(self.components@))
    }

    /// The registered components, by name, in order of registration.
    pub closed spec fn entries(&self) -> Seq<(Seq<char>, RegisteredComponent)> {
        entries_of(self.components@)
    }

    /// The name of the component handling the screen shown, if one was set.
    pub closed spec fn current(&self) -> Option<Seq<char>> {
        match self.current_component {
            Some(n) => Some(n@),
            None => None,
        }
    }

    /// The registry with the six screen components, the settings screen
    /// showing the given values; no screen is shown yet.
    pub fn new(values: SettingsValues) -> (r: ComponentRegistry)
        ensures
            r.entries().map_values(|e: (Seq<char>, RegisteredComponent)| e.0) == seq![
                "main_menu"@,
                "deck_selector"@,
                "learning"@,
                "statistics"@,
                "settings"@,
                "help"@,
            ],
            forall|i: int| 0 <= i < r.entries().len() ==> kind_name((#[trigger] r.entries()[i]).1) == r.entries()[i].0,
            r.current() is None,
    {
        let components = vec![
            (String::from_str("main_menu"), RegisteredComponent::Menu(Menu::new())),
            (String::from_str("deck_selector"), RegisteredComponent::DeckSelector(DeckSelector::new())),
            (String::from_str("learning"), RegisteredComponent::Study(Study::new())),
            (String::from_str("statistics"), RegisteredComponent::Stats(Stats::new())),
            (String::from_str("settings"), RegisteredComponent::Settings(Settings::with_config(values))),
            (String::from_str("help"), RegisteredComponent::Help(Help::new())),
        ];
        proof {
            reveal_strlit("main_menu");
            reveal_strlit("deck_selector");
            reveal_strlit("learning");
            reveal_strlit("statistics");
            reveal_strlit("settings");
            reveal_strlit("help");
            let e = entries_of(components@);
            assert(e.map_values(|x: (Seq<char>, RegisteredComponent)| x.0) =~= seq![
                "main_menu"@,
                "deck_selector"@,
                "learning"@,
                "statistics"@,
                "settings"@,
                "help"@,
            ]);
            assert(e[0].0[0] == 'm' && e[1].0[0] == 'd' && e[2].0[0] == 'l' && e[3].0[0] == 's' && e[4].0[0]
                == 's' && e[5].0[0] == 'h');
            assert(e[3].0[1] == 't' && e[4].0[1] == 'e');
            assert(distinct_names(e));
        }
        ComponentRegistry { components, current_component: None }
    }

    /// The position of a registered name.
    fn position(&self, name: &str) -> (p: Option<usize>)
        ensures
            match p {
                Some(i) => entry_position(self.entries(), name@) == Some(i as int),
                None => entry_position(self.entries(), name@) is None,
            },
    {
        proof {
            use_type_invariant(self);
        }
        let ghost e = self.entries();
        let mut i: usize = 0;
        while i < self.components.len()
            invariant
                i <= self.components@.len(),
                e == entries_of(self.components@),
                distinct_names(e),
                forall|j: int| 0 <= j < i ==> (#[trigger] e[j]).0 != name@,
            decreases self.components@.len() - i,
        {
            if str_eq(self.components[i].0.as_str(), name) {
                proof {
                    assert(e[i as int].0 == name@);
                    let k = choose|k: int| 0 <= k < e.len() && (#[trigger] e[k]).0 == name@;
                    if k != i {
                        if k < i {
                            assert(e[k].0 != name@);
                        } else {
                            assert(e[i as int].0 != e[k].0);
                        }
                    }
                }
                return Some(i);
            }
            proof {
                assert(e[i as int].0 != name@);
            }
            i = i + 1;
        }
        None
    }

    /// Registers a component under a name, replacing one of that name.
    pub fn register_component(&mut self, name: &str, component: RegisteredComponent)
        ensures
            final(self).entries() == registered(old(self).entries(), name@, component),
            final(self).current() == old(self).current(),
    {
        proof {
            use_type_invariant(&*self);
        }
        let ghost before = self.entries();
        let p = self.position(name);
        let mut v: Vec<(String, RegisteredComponent)> = Vec::new();
        std::mem::swap(&mut v, &mut self.components);
        let entry = (String::from_str(name), component);
        match p {
            Some(i) => {
                v.set(i, entry);
                proof {
                    assert(entries_of(v@) =~= registered(before, name@, component));
                    assert forall|a: int, b: int| 0 <= a < b < entries_of(v@).len() implies (#[trigger] entries_of(v@)[a]).0
                        != (#[trigger] entries_of(v@)[b]).0 by {
                        assert(before[a].0 != before[b].0);
                    }
                }
            },
            None => {
                v.push(entry);
                proof {
                    assert(entries_of(v@) =~= registered(before, name@, component));
                    assert forall|a: int, b: int| 0 <= a < b < entries_of(v@).len() implies (#[trigger] entries_of(v@)[a]).0
                        != (#[trigger] entries_of(v@)[b]).0 by {
                        if b == before.len() {
                            assert(before[a].0 != name@);
                        } else {
                            assert(before[a].0 != before[b].0);
                        }
                    }
                }
            },
        }
        self.components = v;
    }

    /// The name of the component that handles a screen.
    pub fn get_component_name_for_state(&self, state: AppState) -> (n: &'static str)
        ensures
            n@ == component_for(state),
    {
        get_component_name_for_state(state)
    }

    /// Makes the component handling a screen the current one.
    pub fn set_current_component(&mut self, state: AppState)
        ensures
            final(self).current() == Some(component_for(state)),
            final(self).entries() == old(self).entries(),
    {
        proof {
            use_type_invariant(&*self);
        }
        let name = get_component_name_for_state(state);
        self.current_component = Some(String::from_str(name));
    }

    /// The name of the current component, if one was set.
    pub fn get_current_component_name(&self) -> (n: Option<&String>)
        ensures
            match n {
                Some(s) => self.current() == Some(s@),
                None => self.current() is None,
            },
    {
        match &self.current_component {
            Some(s) => Some(s),
            None => None,
        }
    }

    /// Updates every registered component.
    pub fn update_all(&mut self)
        ensures
            final(self).entries().len() == old(self).entries().len(),
            forall|i: int| 0 <= i < final(self).entries().len() ==> (#[trigger] final(self).entries()[i]).0
                == old(self).entries()[i].0 && component_updated(old(self).entries()[i].1, final(self).entries()[i].1),
            final(self).current() == old(self).current(),
    {
        proof {
            use_type_invariant(&*self);
        }
        let ghost before = self.components@;
        let mut v: Vec<(String, RegisteredComponent)> = Vec::new();
        std::mem::swap(&mut v, &mut self.components);
        let mut done: Vec<(String, RegisteredComponent)> = Vec::new();
        let ghost n = before.len();
        while v.len() > 0
            invariant
                v@.len() <= n,
                n == before.len(),
                v@ == before.subrange(n - v@.len(), n as int),
                done@.len() == n - v@.len(),
                forall|i: int| 0 <= i < done@.len() ==> (#[trigger] done@[i]).0@ == before[i].0@
                    && component_updated(before[i].1, done@[i].1),
            decreases v@.len(),
        {
            let ghost k = n - v@.len();
            let (name, mut c) = v.remove(0);
            c.update();
            done.push((name, c));
            proof {
                assert(v@ =~= before.subrange(k + 1, n as int));
            }
        }
        proof {
            let e0 = entries_of(before);
            assert forall|a: int, b: int| 0 <= a < b < entries_of(done@).len() implies (#[trigger] entries_of(done@)[a]).0
                != (#[trigger] entries_of(done@)[b]).0 by {
                assert(e0[a].0 != e0[b].0);
            }
        }
        self.components = done;
    }

    /// Passes an action to the current component: `None` when no current
    /// component was set or none is registered under its name, else what
    /// the component asks for.
    pub fn handle_action_in_current(&mut self, action: Action) -> (r: Option<Option<AppState>>)
        ensures
            match old(self).current() {
                None => r is None && final(self).entries() == old(self).entries(),
                Some(name) => match entry_position(old(self).entries(), name) {
                    None => r is None && final(self).entries() == old(self).entries(),
                    Some(i) => r matches Some(next) && final(self).entries() == old(self).entries().update(
                        i,
                        (name, final(self).entries()[i].1),
                    ) && component_step(old(self).entries()[i].1, final(self).entries()[i].1, action, next),
                },
            },
            final(self).current() == old(self).current(),
    {
        let name = match &self.current_component {
            Some(n) => n.clone(),
            None => {
                return None;
            },
        };
        self.handle_action_in(name.as_str(), action)
    }

    /// Passes an action to the component registered under a name: `None`
    /// when there is none, else what the component asks for.
    pub fn handle_action_in(&mut self, name: &str, action: Action) -> (r: Option<Option<AppState>>)
        ensures
            match entry_position(old(self).entries(), name@) {
                None => r is None && final(self).entries() == old(self).entries(),
                Some(i) => r matches Some(next) && final(self).entries() == old(self).entries().update(
                    i,
                    (name@, final(self).entries()[i].1),
                ) && component_step(old(self).entries()[i].1, final(self).entries()[i].1, action, next),
            },
            final(self).current() == old(self).current(),
    {
        proof {
            use_type_invariant(&*self);
        }
        let ghost before = self.components@;
        match self.position(name) {
            None => None,
            Some(i) => {
                let mut v: Vec<(String, RegisteredComponent)> = Vec::new();
                std::mem::swap(&mut v, &mut self.components);
                let (entry_name, mut comp) = v.remove(i);
                let next = comp.handle_action(action);
                v.insert(i, (entry_name, comp));
                proof {
                    let e0 = entries_of(before);
                    assert(entries_of(v@) =~= e0.update(i as int, (name@, v@[i as int].1)));
                    assert forall|a: int, b: int| 0 <= a < b < entries_of(v@).len() implies (#[trigger] entries_of(v@)[a]).0
                        != (#[trigger] entries_of(v@)[b]).0 by {
                        assert(e0[a].0 != e0[b].0);
                    }
                }
                self.components = v;
                Some(next)
            },
        }
    }
}

/// A component just registered is found under its name, and no name is
/// then registered twice.
pub proof fn lemma_registered_found(e: Seq<(Seq<char>, RegisteredComponent)>, name: Seq<char>, c: RegisteredComponent)
    requires
        distinct_names(e),
    ensures
        entry_position(registered(e, name, c), name) matches Some(i) && registered(e, name, c)[i] == (name, c),
        distinct_names(registered(e, name, c)),
{
    let t = registered(e, name, c);
    match entry_position(e, name) {
        Some(i) => {
            assert(t[i].0 == name);
            let k = choose|k: int| 0 <= k < t.len() && (#[trigger] t[k]).0 == name;
            if k != i {
                if k < i {
                    assert(e[k].0 != e[i].0);
                } else {
                    assert(e[i].0 != e[k].0);
                }
            }
            assert forall|a: int, b: int| 0 <= a < b < t.len() implies (#[trigger] t[a]).0 != (#[trigger] t[b]).0 by {
                assert(e[a].0 != e[b].0);
            }
        },
        None => {
            assert(t[e.len() as int].0 == name);
            let k = choose|k: int| 0 <= k < t.len() && (#[trigger] t[k]).0 == name;
            if k != e.len() {
                assert(e[k].0 == name);
            }
            assert forall|a: int, b: int| 0 <= a < b < t.len() implies (#[trigger] t[a]).0 != (#[trigger] t[b]).0 by {
                if b == e.len() {
                    assert(e[a].0 != name);
                } else {
                    assert(e[a].0 != e[b].0);
                }
            }
        },
    }
}

/// In a registry holding the six screen components, every screen has a
/// component registered under the name that handles it.
pub proof fn lemma_every_screen_has_component(e: Seq<(Seq<char>, RegisteredComponent)>, state: AppState)
    requires
        e.map_values(|x: (Seq<char>, RegisteredComponent)| x.0) == seq![
            "main_menu"@,
            "deck_selector"@,
            "learning"@,
            "statistics"@,
            "settings"@,
            "help"@,
        ],
    ensures
        entry_position(e, component_for(state)) is Some,
{
    let names = e.map_values(|x: (Seq<char>, RegisteredComponent)| x.0);
    assert(names.len() == 6);
    let k: int = match state {
        AppState::MainMenu | AppState::ConfirmExit => 0,
        AppState::DeckSelection | AppState::DeckManagement => 1,
        AppState::Learning | AppState::CardReview => 2,
        AppState::Statistics => 3,
        AppState::Settings => 4,
        AppState::Help => 5,
    };
    assert(names[k] == e[k].0);
    assert(e[k].0 == component_for(state));
}

} // verus!
