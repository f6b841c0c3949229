use ankitui_tui::loading::{AsyncDataLoader, LoadingStatus};
use ankitui_tui::performance::LoadingOperationType;

fn status_text(s: Option<LoadingStatus>) -> String {
    match s {
        None => "none".to_string(),
        Some(LoadingStatus::Pending) => "pending".to_string(),
        Some(LoadingStatus::InProgress(p)) => format!("progress {}", p),
        Some(LoadingStatus::Completed) => "completed".to_string(),
        Some(LoadingStatus::Failed(e)) => format!("failed {}", e),
    }
}

#[test]
fn operations_move_from_pending_to_their_end() {
    let mut l = AsyncDataLoader::new();
    assert_eq!(status_text(l.get_loading_status("a")), "none");
    l.start_loading_operation_at("a".to_string(), LoadingOperationType::LoadDeck, 1_000);
    assert_eq!(status_text(l.get_loading_status("a")), "pending");
    l.update_loading_progress("a", 500);
    assert_eq!(status_text(l.get_loading_status("a")), "progress 500");
    l.fail_loading_operation("a", "disk".to_string());
    assert_eq!(status_text(l.get_loading_status("a")), "failed disk");
    l.update_loading_progress("missing", 10);
    assert_eq!(status_text(l.get_loading_status("missing")), "none");
}

#[test]
fn cleanup_removes_only_completed_operations() {
    let mut l = AsyncDataLoader::new();
    l.start_loading_operation_at("a".to_string(), LoadingOperationType::LoadDeck, 0);
    l.start_loading_operation_at("b".to_string(), LoadingOperationType::ImportDeck, 0);
    l.start_loading_operation_at("c".to_string(), LoadingOperationType::ExportDeck, 0);
    l.complete_loading_operation_at("b", 5);
    l.update_loading_progress("c", 250);
    l.cleanup_completed_operations();
    assert_eq!(status_text(l.get_loading_status("a")), "pending");
    assert_eq!(status_text(l.get_loading_status("b")), "none");
    assert_eq!(status_text(l.get_loading_status("c")), "progress 250");
}

#[test]
fn restarting_an_operation_makes_it_pending_again() {
    let mut l = AsyncDataLoader::new();
    l.start_loading_operation_at("a".to_string(), LoadingOperationType::LoadDeck, 0);
    l.complete_loading_operation_at("a", 2);
    l.start_loading_operation_at("a".to_string(), LoadingOperationType::LoadDeckStats, 3);
    assert_eq!(status_text(l.get_loading_status("a")), "pending");
    l.cleanup_completed_operations();
    assert_eq!(status_text(l.get_loading_status("a")), "pending");
}

#[test]
fn completion_records_the_load_time_in_nanoseconds() {
    let mut l = AsyncDataLoader::new();
    l.start_loading_operation_at("a".to_string(), LoadingOperationType::LoadDeck, 1_000);
    l.complete_loading_operation_at("a", 1_250);
    let slow = l.get_performance_metrics().get_slow_operations(0);
    assert_eq!(slow.len(), 1);
    assert_eq!(slow[0].0, "LoadDeck");
    assert_eq!(slow[0].1, 250_000_000);
}

#[test]
fn unknown_or_backward_completion_records_no_slow_time() {
    let mut l = AsyncDataLoader::new();
    l.complete_loading_operation_at("a", 10);
    assert!(l.get_performance_metrics().get_slow_operations(0).is_empty());
    l.start_loading_operation_at("b".to_string(), LoadingOperationType::ExportDeck, 10);
    l.complete_loading_operation_at("b", 4);
    let slow = l.get_performance_metrics().get_slow_operations(0);
    assert!(slow.is_empty());
}

#[test]
fn clock_reading_operations_complete() {
    let mut l = AsyncDataLoader::new();
    l.start_loading_operation("x".to_string(), LoadingOperationType::LoadDecksList);
    l.complete_loading_operation("x");
    assert_eq!(status_text(l.get_loading_status("x")), "completed");
    l.cleanup_completed_operations();
    assert_eq!(status_text(l.get_loading_status("x")), "none");
}
