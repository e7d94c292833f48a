use rlink::assigner::{WindowAssigner, WindowAssignerContext};
use rlink::window::Window;

fn win(min_timestamp: i64, max_timestamp: i64) -> Window {
    Window { min_timestamp, max_timestamp }
}

#[test]
fn tumbling_assigns_the_enclosing_window() {
    let assigner = WindowAssigner::Tumbling { size: 10 };
    let windows = assigner.assign_windows(23, WindowAssignerContext {});
    assert_eq!(windows, vec![win(20, 30)]);
}

#[test]
fn tumbling_buckets_small_timestamps_from_zero() {
    let assigner = WindowAssigner::Tumbling { size: 10 };
    let windows = assigner.assign_windows(9, WindowAssignerContext {});
    assert_eq!(windows, vec![win(0, 10)]);
}

#[test]
fn tumbling_buckets_negative_timestamps_by_floor_division() {
    let assigner = WindowAssigner::Tumbling { size: 10 };
    let windows = assigner.assign_windows(-1, WindowAssignerContext {});
    assert_eq!(windows, vec![win(-10, 0)]);
}

#[test]
fn tumbling_boundary_timestamp_starts_its_own_window() {
    let assigner = WindowAssigner::Tumbling { size: 10 };
    let windows = assigner.assign_windows(20, WindowAssignerContext {});
    assert_eq!(windows, vec![win(20, 30)]);
}

#[test]
fn assignment_is_deterministic_across_calls() {
    let assigner = WindowAssigner::Sliding { size: 10, slide: 5 };
    let first = assigner.assign_windows(12, WindowAssignerContext {});
    let second = assigner.assign_windows(12, WindowAssignerContext {});
    assert_eq!(first, second);
}

#[test]
fn sliding_emits_ascending_by_start() {
    let assigner = WindowAssigner::Sliding { size: 10, slide: 5 };
    let windows = assigner.assign_windows(12, WindowAssignerContext {});
    assert_eq!(windows, vec![win(5, 15), win(10, 20)]);
}

#[test]
fn sliding_count_is_size_over_slide() {
    let assigner = WindowAssigner::Sliding { size: 12, slide: 4 };
    let windows = assigner.assign_windows(7, WindowAssignerContext {});
    assert_eq!(windows, vec![win(-4, 8), win(0, 12), win(4, 16)]);
    assert_eq!(windows.len() as i64, 12 / 4);
    for w in &windows {
        assert_eq!(w.max_timestamp - w.min_timestamp, 12);
        assert!(w.contains_timestamp(7));
    }
    for pair in windows.windows(2) {
        assert_eq!(pair[1].min_timestamp - pair[0].min_timestamp, 4);
    }
}

#[test]
fn sliding_handles_negative_timestamps() {
    let assigner = WindowAssigner::Sliding { size: 10, slide: 5 };
    let windows = assigner.assign_windows(-3, WindowAssignerContext {});
    assert_eq!(windows, vec![win(-10, 0), win(-5, 5)]);
}

#[test]
fn sliding_boundary_timestamp_is_included_only_as_lower_bound() {
    let assigner = WindowAssigner::Sliding { size: 10, slide: 5 };
    let windows = assigner.assign_windows(10, WindowAssignerContext {});
    assert_eq!(windows, vec![win(5, 15), win(10, 20)]);
    for w in &windows {
        assert!(w.contains_timestamp(10));
        assert_ne!(w.max_timestamp, 10);
    }
}

#[test]
fn session_reaches_gap_past_the_timestamp() {
    let assigner = WindowAssigner::Session { gap: 30 };
    let windows = assigner.assign_windows(5, WindowAssignerContext {});
    assert_eq!(windows, vec![win(5, 35)]);
}

#[test]
fn global_covers_all_representable_time() {
    let assigner = WindowAssigner::Global;
    let windows = assigner.assign_windows(123, WindowAssignerContext {});
    assert_eq!(windows, vec![win(i64::MIN, i64::MAX)]);
}

#[test]
fn validity_of_configurations() {
    assert!(WindowAssigner::Tumbling { size: 10 }.is_valid());
    assert!(!WindowAssigner::Tumbling { size: 0 }.is_valid());
    assert!(!WindowAssigner::Tumbling { size: -5 }.is_valid());
    assert!(WindowAssigner::Sliding { size: 10, slide: 5 }.is_valid());
    assert!(!WindowAssigner::Sliding { size: 10, slide: 0 }.is_valid());
    assert!(!WindowAssigner::Sliding { size: 10, slide: 11 }.is_valid());
    assert!(WindowAssigner::Session { gap: 1 }.is_valid());
    assert!(!WindowAssigner::Session { gap: 0 }.is_valid());
    assert!(WindowAssigner::Global.is_valid());
}

#[test]
fn try_assign_windows_succeeds_on_ordinary_input() {
    let assigner = WindowAssigner::Tumbling { size: 10 };
    let windows = assigner.try_assign_windows(23, WindowAssignerContext {});
    assert_eq!(windows, Some(vec![win(20, 30)]));
}

#[test]
fn try_assign_windows_rejects_invalid_configuration() {
    let assigner = WindowAssigner::Tumbling { size: 0 };
    assert_eq!(assigner.try_assign_windows(23, WindowAssignerContext {}), None);
}

#[test]
fn try_assign_windows_rejects_the_edges_of_the_timestamp_domain() {
    let tumbling = WindowAssigner::Tumbling { size: 10 };
    assert_eq!(tumbling.try_assign_windows(i64::MAX - 3, WindowAssignerContext {}), None);
    assert_eq!(tumbling.try_assign_windows(i64::MIN, WindowAssignerContext {}), None);
    let sliding = WindowAssigner::Sliding { size: 10, slide: 5 };
    assert_eq!(sliding.try_assign_windows(i64::MIN, WindowAssignerContext {}), None);
    let session = WindowAssigner::Session { gap: 10 };
    assert_eq!(session.try_assign_windows(i64::MAX - 5, WindowAssignerContext {}), None);
    assert_eq!(
        session.try_assign_windows(i64::MAX - 10, WindowAssignerContext {}),
        Some(vec![win(i64::MAX - 10, i64::MAX)])
    );
}

#[test]
fn assignment_fits_matches_the_domain_limit() {
    let assigner = WindowAssigner::Tumbling { size: 10 };
    assert!(assigner.assignment_fits(0));
    assert!(assigner.assignment_fits(-1));
    assert!(!assigner.assignment_fits(i64::MAX));
    assert!(!assigner.assignment_fits(i64::MIN));
    assert!(WindowAssigner::Global.assignment_fits(i64::MIN));
    assert!(WindowAssigner::Global.assignment_fits(i64::MAX));
}

#[test]
fn window_accessors_and_boundaries() {
    let w = Window::new(10, 20);
    assert_eq!(w.min_timestamp(), 10);
    assert_eq!(w.max_timestamp(), 20);
    assert!(w.contains_timestamp(10));
    assert!(w.contains_timestamp(19));
    assert!(!w.contains_timestamp(20));
    assert!(!w.contains_timestamp(9));
    assert_eq!(w, win(10, 20));
    assert_ne!(w, win(10, 21));
}
