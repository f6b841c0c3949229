use ankitui_tui::model::{DeckSummary, SessionProgress};
use ankitui_tui::performance::RenderCache;
use ankitui_tui::viewmodels::DeckStats;

fn deck(uuid: u128, name: &str, created_at: i64) -> DeckSummary {
    DeckSummary { uuid, name: name.to_string(), description: None, created_at, modified_at: 0 }
}

fn stats(deck_id: u128, total: usize) -> DeckStats {
    DeckStats {
        deck_id,
        deck_name: format!("deck {}", deck_id),
        total_cards: total,
        due_cards: 0,
        new_cards: 0,
        learned_cards: 0,
    }
}

#[test]
fn deck_list_is_drawn_once_until_it_changes_or_ages() {
    let mut c = RenderCache::new();
    let decks = vec![deck(1, "A", 10), deck(2, "B", 20)];
    assert!(c.should_rerender_deck_list_at(&decks, 1_000));
    c.cache_deck_list_at(vec![deck(1, "A", 10), deck(2, "B", 20)], "drawn".to_string(), 1_000);
    assert_eq!(c.get_cached_deck_list().map(|l| l.rendered_content().to_string()), Some("drawn".to_string()));
    // same decks, 30 s later: still fresh (not older than 30 s)
    assert!(!c.should_rerender_deck_list_at(&decks, 31_000));
    // one millisecond more: stale
    assert!(c.should_rerender_deck_list_at(&decks, 31_001));
    // a renamed deck needs drawing
    let renamed = vec![deck(1, "A2", 10), deck(2, "B", 20)];
    assert!(c.should_rerender_deck_list_at(&renamed, 2_000));
    // a changed description does not
    let mut described = vec![deck(1, "A", 10), deck(2, "B", 20)];
    described[0].description = Some("new".to_string());
    assert!(!c.should_rerender_deck_list_at(&described, 2_000));
    assert_eq!(c.get_performance_stats().get_cache_counts(), (2, 3));
}

#[test]
fn deck_stats_are_kept_for_a_minute() {
    let mut c = RenderCache::new();
    assert!(c.should_reload_deck_stats_at(7, 0));
    c.cache_deck_stats_at(7, stats(7, 12), 5_000);
    assert_eq!(c.get_cached_deck_stats(7).map(|s| s.total_cards), Some(12));
    assert!(!c.should_reload_deck_stats_at(7, 65_000));
    assert!(c.should_reload_deck_stats_at(7, 65_001));
    c.cache_deck_stats_at(7, stats(7, 13), 6_000);
    assert_eq!(c.get_cached_deck_stats(7).map(|s| s.total_cards), Some(13));
    assert!(c.get_cached_deck_stats(8).is_none());
}

#[test]
fn deck_stats_cache_drops_the_oldest_beyond_a_hundred() {
    let mut c = RenderCache::new();
    for i in 0..100u128 {
        c.cache_deck_stats_at(i, stats(i, 1), 1_000 + i as i64);
    }
    assert!(c.get_cached_deck_stats(0).is_some());
    c.cache_deck_stats_at(500, stats(500, 1), 5_000);
    assert!(c.get_cached_deck_stats(0).is_none());
    assert!(c.get_cached_deck_stats(1).is_some());
    assert!(c.get_cached_deck_stats(500).is_some());
}

#[test]
fn cleanup_forgets_stale_entries() {
    let mut c = RenderCache::new();
    c.cache_deck_list_at(vec![deck(1, "A", 0)], "x".to_string(), 0);
    c.cache_deck_stats_at(1, stats(1, 1), 0);
    c.cache_deck_stats_at(2, stats(2, 1), 50_000);
    c.cleanup_expired_at(40_000);
    assert!(c.get_cached_deck_list().is_none());
    assert!(c.get_cached_deck_stats(1).is_some());
    c.cleanup_expired_at(60_001);
    assert!(c.get_cached_deck_stats(1).is_none());
    assert!(c.get_cached_deck_stats(2).is_some());
}

#[test]
fn render_and_load_times_reach_the_metrics() {
    let mut c = RenderCache::new();
    c.record_render_time(10);
    c.record_render_time(20);
    assert_eq!(c.get_performance_stats().get_average_render_time(), Some(15));
    c.record_data_load_time("load", 99);
    assert_eq!(c.get_performance_stats().get_slow_operations(50), vec![("load".to_string(), 99)]);
}

#[test]
fn session_progress_counts() {
    let p = SessionProgress {
        new_remaining: 3,
        learning_remaining: 2,
        review_remaining: 5,
        relearning_remaining: 1,
        total_remaining: 4,
        cards_studied_today: 9,
    };
    assert_eq!(p.card_total(), 20);
    assert_eq!(p.non_review_remaining(), 0);
    let q = SessionProgress { total_remaining: 8, ..p };
    assert_eq!(q.non_review_remaining(), 3);
}
