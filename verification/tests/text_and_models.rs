use ankitui_tui::config_manager::{SettingValue, TUIConfig, TUIConfigManager};
use ankitui_tui::model::{CardSummary, DeckSummary};
use ankitui_tui::performance::{AsyncData, CacheConfig, LoadingOperationType, PerformanceMetrics};
use ankitui_tui::store::{MessageLevel, UiAppState};
use ankitui_tui::tag_deletion::{finish_tag_deletion, plan_tag_deletion, remove_tag, tag_counts, TagDeletion};
use ankitui_tui::text::{parse_i32, parse_u32, parse_usize, str_contains, text_less, u64_to_text};
use ankitui_tui::viewmodels::{SettingsSection, SettingsViewModel};

#[test]
fn parsing_agrees_with_the_standard_library() {
    let samples = [
        "", "0", "7", "+7", "-7", "42", "007", "4294967295", "4294967296", "2147483647", "2147483648", "-2147483648",
        "-2147483649", "+", "-", "1a", " 1", "+-1", "-+1", "99999999999999999999999",
    ];
    for s in samples.iter() {
        assert_eq!(parse_u32(s), s.parse::<u32>().ok(), "u32 {:?}", s);
        assert_eq!(parse_i32(s), s.parse::<i32>().ok(), "i32 {:?}", s);
        assert_eq!(parse_usize(s), s.parse::<usize>().ok(), "usize {:?}", s);
    }
}

#[test]
fn decimal_text_round_trips() {
    for n in [0u64, 9, 10, 12345, u64::MAX].iter() {
        assert_eq!(u64_to_text(*n), n.to_string());
        assert_eq!(parse_usize(&u64_to_text(*n)).map(|v| v as u64), Some(*n));
    }
}

#[test]
fn text_search_and_order() {
    assert!(str_contains("hello world", "o w"));
    assert!(str_contains("abc", ""));
    assert!(!str_contains("abc", "abcd"));
    assert!(!str_contains("abc", "ac"));
    for (a, b) in [("a", "b"), ("ab", "a"), ("", "x"), ("x", ""), ("Z", "a"), ("é", "z"), ("same", "same")].iter() {
        assert_eq!(text_less(a, b), a < b, "{:?} < {:?}", a, b);
    }
}

#[test]
fn performance_averages_and_windows() {
    let mut m = PerformanceMetrics::new();
    assert_eq!(m.get_average_render_time(), None);
    m.record_render_time(10);
    m.record_render_time(20);
    m.record_render_time(25);
    assert_eq!(m.get_average_render_time(), Some(18));
    for _ in 0..1500 {
        m.record_render_time(4);
    }
    assert_eq!(m.render_sample_count(), 1000);
    assert_eq!(m.get_average_render_time(), Some(4));
}

#[test]
fn performance_lists_slow_operations_slowest_first() {
    let mut m = PerformanceMetrics::new();
    m.record_data_load_time("decks", 50);
    m.record_data_load_time("stats", 300);
    m.record_data_load_time("decks", 120);
    m.record_data_load_time("cards", 90);
    let slow = m.get_slow_operations(100);
    assert_eq!(slow, vec![("stats".to_string(), 300), ("decks".to_string(), 120)]);
    assert!(m.get_slow_operations(300).is_empty());
}

#[test]
fn cache_defaults_and_loading_kinds() {
    let c = CacheConfig::default();
    assert_eq!(c.max_deck_list_age, 30_000_000_000);
    assert_eq!(c.max_stats_age, 60_000_000_000);
    assert_eq!(c.max_cache_size, 100);
    assert!(!c.enable_compression);
    assert_ne!(LoadingOperationType::LoadDeck, LoadingOperationType::ExportDeck);
    let d: AsyncData<u32> = AsyncData::Loaded(3);
    assert!(matches!(d, AsyncData::Loaded(3)));
}

#[test]
fn config_manager_tracks_changes() {
    let mut m = TUIConfigManager::from_loaded(TUIConfig::default(), "cfg.toml".to_string());
    assert!(!m.is_modified());
    m.set_display_setting("min_width", SettingValue::Boolean(true));
    assert!(!m.is_modified());
    m.set_display_setting("unknown", SettingValue::Integer(3));
    assert!(!m.is_modified());
    m.set_display_setting("min_width", SettingValue::Integer(100));
    assert!(m.is_modified());
    assert_eq!(m.config().display.min_width, 100);
    m.set_display_setting("min_height", SettingValue::Integer(65536 + 30));
    assert_eq!(m.config().display.min_height, 30);
    m.mark_saved();
    assert!(!m.is_modified());
    m.update_shortcut("card_review", "rate_good", "g".to_string());
    assert!(m.is_modified());
    assert_eq!(m.config().shortcuts.card_review.rate_good, "g");
    assert_eq!(m.config().shortcuts.card_review.rate_easy, "4");
    m.mark_saved();
    m.update_shortcut("card_review", "fly", "f".to_string());
    assert!(!m.is_modified());
    m.set_theme("light".to_string());
    m.toggle_effects();
    assert_eq!(m.config().theme.current_theme, "light");
    assert!(!m.config().theme.enable_effects);
    m.reset_to_defaults();
    assert_eq!(m.config().theme.current_theme, "dark");
    assert_eq!(m.config().shortcuts.card_review.rate_good, "3");
    assert_eq!(m.config_path, "cfg.toml");
}

#[test]
fn settings_view_model_dirty_then_clear() {
    let mut v = SettingsViewModel::new();
    assert_eq!(v.current_section, SettingsSection::StudyPreferences);
    assert!(!v.has_unsaved_changes());
    v.mark_dirty("theme", "dark".to_string());
    v.mark_dirty("theme", "light".to_string());
    assert!(v.has_unsaved_changes());
    assert_eq!(v.changed_values.get("theme"), Some(&"light".to_string()));
    v.clear_changes();
    assert!(!v.has_unsaved_changes());
    assert_eq!(SettingsViewModel::with_section(SettingsSection::DataManagement).current_section, SettingsSection::DataManagement);
}

fn deck(uuid: u128, cards: Vec<(u128, Vec<&str>)>) -> (DeckSummary, Vec<CardSummary>) {
    (
        DeckSummary { uuid, name: format!("d{}", uuid), description: None, created_at: 0, modified_at: 0 },
        cards
            .into_iter()
            .map(|(id, tags)| CardSummary {
                id,
                front: "f".to_string(),
                back: "b".to_string(),
                tags: tags.into_iter().map(|t| t.to_string()).collect(),
            })
            .collect(),
    )
}

#[test]
fn tags_are_counted_most_used_first() {
    let decks = vec![
        deck(1, vec![(1, vec!["verb", "common"]), (2, vec!["common"])]),
        deck(2, vec![(3, vec!["common", "rare"])]),
    ];
    let counts = tag_counts(&decks);
    assert_eq!(counts[0], ("common".to_string(), 3));
    assert_eq!(counts.len(), 3);
    let mut rest: Vec<(String, usize)> = counts[1..].to_vec();
    rest.sort();
    assert_eq!(rest, vec![("rare".to_string(), 1), ("verb".to_string(), 1)]);
}

#[test]
fn tag_deletion_plan_and_messages() {
    let decks = vec![
        deck(1, vec![(1, vec!["verb", "common"]), (2, vec!["common"])]),
        deck(2, vec![(3, vec!["common"])]),
        deck(3, vec![(4, vec![])]),
    ];
    match plan_tag_deletion(&decks, 5) {
        TagDeletion::NoTag => {}
        other => panic!("expected no tag, got {:?}", other),
    }
    let plan = plan_tag_deletion(&decks, 0);
    match &plan {
        TagDeletion::Remove { tag, affected_cards, decks: ids } => {
            assert_eq!(tag, "common");
            assert_eq!(*affected_cards, 3);
            assert_eq!(ids, &vec![1u128, 2]);
        }
        other => panic!("expected a removal, got {:?}", other),
    }
    let mut state = UiAppState::new();
    finish_tag_deletion(&mut state, &plan);
    let m = state.message.as_ref().unwrap();
    assert_eq!(m.level, MessageLevel::Success);
    assert_eq!(m.title, "Tag Deleted");
    assert_eq!(m.content, "Removed 'common' from 3 cards");
    finish_tag_deletion(&mut state, &TagDeletion::Unused { tag: "x".to_string() });
    assert_eq!(state.message.as_ref().unwrap().content, "Tag 'x' is not used by any cards");
    finish_tag_deletion(&mut state, &TagDeletion::NoTag);
    assert_eq!(state.message.as_ref().unwrap().title, "No Tag Selected");
}

#[test]
fn remove_tag_keeps_the_others_in_order() {
    let mut tags = vec!["a".to_string(), "b".to_string(), "a".to_string(), "c".to_string()];
    remove_tag(&mut tags, "a");
    assert_eq!(tags, vec!["b".to_string(), "c".to_string()]);
    remove_tag(&mut tags, "zzz");
    assert_eq!(tags, vec!["b".to_string(), "c".to_string()]);
}
