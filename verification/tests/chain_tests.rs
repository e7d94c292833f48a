use rlink::assigner::WindowAssigner;
use rlink::element::{Barrier, CheckpointId, Element, OperatorId, Record, Watermark};
use rlink::runnable::{Lifecycle, Runnable, RunnableContext, StartupError};
use rlink::sink::SinkRunnable;
use rlink::window::Window;
use rlink::window_assigner_runnable::WindowAssignerRunnable;

fn context() -> RunnableContext {
    RunnableContext { task_id: 7 }
}

fn tumbling_chain(size: i64) -> WindowAssignerRunnable<SinkRunnable> {
    let sink = SinkRunnable::new(OperatorId(2));
    WindowAssignerRunnable::new(OperatorId(1), WindowAssigner::Tumbling { size }, Some(sink))
}

fn win(min_timestamp: i64, max_timestamp: i64) -> Window {
    Window { min_timestamp, max_timestamp }
}

#[test]
fn record_keeps_identity_and_gains_windows() {
    let mut head = tumbling_chain(10);
    assert!(head.open(&context()).is_ok());
    let record = Record::new(23, vec![1, 2, 3]);
    assert!(record.location_windows.is_empty());
    head.run(Element::Record(record));
    let sink = head.next_runnable.as_ref().unwrap();
    assert_eq!(sink.collected_elements.len(), 1);
    match &sink.collected_elements[0] {
        Element::Record(r) => {
            assert_eq!(r.timestamp, 23);
            assert_eq!(r.payload, vec![1, 2, 3]);
            assert_eq!(r.location_windows, vec![win(20, 30)]);
        }
        _ => panic!("expected a record"),
    }
}

#[test]
fn watermark_gains_windows_too() {
    let mut head = tumbling_chain(10);
    assert!(head.open(&context()).is_ok());
    head.run(Element::Watermark(Watermark::new(9)));
    let sink = head.next_runnable.as_ref().unwrap();
    match &sink.collected_elements[0] {
        Element::Watermark(w) => {
            assert_eq!(w.timestamp, 9);
            assert_eq!(w.location_windows, vec![win(0, 10)]);
        }
        _ => panic!("expected a watermark"),
    }
}

#[test]
fn negative_timestamp_buckets_below_zero() {
    let mut head = tumbling_chain(10);
    assert!(head.open(&context()).is_ok());
    head.run(Element::Record(Record::new(-1, vec![])));
    let sink = head.next_runnable.as_ref().unwrap();
    match &sink.collected_elements[0] {
        Element::Record(r) => {
            assert_eq!(r.location_windows, vec![win(-10, 0)]);
        }
        _ => panic!("expected a record"),
    }
}

#[test]
fn sliding_chain_scenario() {
    let sink = SinkRunnable::new(OperatorId(2));
    let mut head = WindowAssignerRunnable::new(
        OperatorId(1),
        WindowAssigner::Sliding { size: 10, slide: 5 },
        Some(sink),
    );
    assert!(head.open(&context()).is_ok());
    head.run(Element::Record(Record::new(12, vec![9])));
    let sink = head.next_runnable.as_ref().unwrap();
    match &sink.collected_elements[0] {
        Element::Record(r) => {
            assert_eq!(r.location_windows, vec![win(5, 15), win(10, 20)]);
        }
        _ => panic!("expected a record"),
    }
}

#[test]
fn barrier_falls_through_untouched() {
    let mut head = tumbling_chain(10);
    assert!(head.open(&context()).is_ok());
    head.run(Element::Barrier(Barrier::new(CheckpointId(5))));
    let sink = head.next_runnable.as_ref().unwrap();
    assert_eq!(sink.collected_elements.len(), 1);
    match &sink.collected_elements[0] {
        Element::Barrier(b) => assert_eq!(b.checkpoint_id, CheckpointId(5)),
        _ => panic!("expected a barrier"),
    }
}

#[test]
fn elements_reach_the_sink_in_order() {
    let mut head = tumbling_chain(10);
    assert!(head.open(&context()).is_ok());
    head.run(Element::Record(Record::new(23, vec![1])));
    head.run(Element::Barrier(Barrier::new(CheckpointId(1))));
    head.run(Element::Watermark(Watermark::new(9)));
    let sink = head.next_runnable.as_ref().unwrap();
    assert_eq!(sink.collected_elements.len(), 3);
    assert!(matches!(sink.collected_elements[0], Element::Record(_)));
    assert!(matches!(sink.collected_elements[1], Element::Barrier(_)));
    assert!(matches!(sink.collected_elements[2], Element::Watermark(_)));
}

#[test]
fn open_propagates_successor_first() {
    let tail = SinkRunnable::new(OperatorId(3));
    let middle = WindowAssignerRunnable::new(
        OperatorId(2),
        WindowAssigner::Tumbling { size: 0 },
        Some(tail),
    );
    let mut head = WindowAssignerRunnable::new(
        OperatorId(1),
        WindowAssigner::Tumbling { size: 10 },
        Some(middle),
    );
    let r = head.open(&context());
    assert_eq!(r, Err(StartupError::InvalidWindowConfig { operator_id: OperatorId(2) }));
    assert_eq!(head.state, Lifecycle::Created);
    let middle = head.next_runnable.as_ref().unwrap();
    assert_eq!(middle.state, Lifecycle::Created);
    assert_eq!(middle.next_runnable.as_ref().unwrap().state, Lifecycle::Opened);
}

#[test]
fn open_then_close_walks_the_lifecycle() {
    let mut head = tumbling_chain(10);
    assert_eq!(head.state, Lifecycle::Created);
    assert!(head.open(&context()).is_ok());
    assert_eq!(head.state, Lifecycle::Opened);
    assert_eq!(head.next_runnable.as_ref().unwrap().state, Lifecycle::Opened);
    assert!(head.close().is_ok());
    assert_eq!(head.state, Lifecycle::Closed);
    assert_eq!(head.next_runnable.as_ref().unwrap().state, Lifecycle::Closed);
}

#[test]
fn checkpoint_signal_changes_nothing_observable() {
    let mut head = tumbling_chain(10);
    assert!(head.open(&context()).is_ok());
    head.run(Element::Record(Record::new(3, vec![])));
    head.checkpoint(CheckpointId(9));
    assert_eq!(head.state, Lifecycle::Opened);
    let sink = head.next_runnable.as_ref().unwrap();
    assert_eq!(sink.state, Lifecycle::Opened);
    assert_eq!(sink.collected_elements.len(), 1);
}

#[test]
fn set_next_runnable_rewires_before_open() {
    let first_sink = SinkRunnable::new(OperatorId(2));
    let mut head = WindowAssignerRunnable::new(
        OperatorId(1),
        WindowAssigner::Tumbling { size: 10 },
        Some(first_sink),
    );
    let second_sink = SinkRunnable::new(OperatorId(9));
    head.set_next_runnable(Some(second_sink));
    assert_eq!(head.next_runnable.as_ref().unwrap().operator_id, OperatorId(9));
    assert!(head.open(&context()).is_ok());
}

#[test]
fn assignment_through_the_chain_is_deterministic() {
    let mut head = tumbling_chain(10);
    assert!(head.open(&context()).is_ok());
    head.run(Element::Record(Record::new(23, vec![])));
    head.run(Element::Record(Record::new(23, vec![])));
    let sink = head.next_runnable.as_ref().unwrap();
    let first = match &sink.collected_elements[0] {
        Element::Record(r) => r.location_windows.clone(),
        _ => panic!("expected a record"),
    };
    let second = match &sink.collected_elements[1] {
        Element::Record(r) => r.location_windows.clone(),
        _ => panic!("expected a record"),
    };
    assert_eq!(first, second);
}

#[test]
fn assignment_overwrites_a_prior_assignment() {
    let mut head = tumbling_chain(10);
    assert!(head.open(&context()).is_ok());
    let mut record = Record::new(23, vec![]);
    record.set_location_windows(vec![win(0, 1)]);
    head.run(Element::Record(record));
    let sink = head.next_runnable.as_ref().unwrap();
    match &sink.collected_elements[0] {
        Element::Record(r) => assert_eq!(r.location_windows, vec![win(20, 30)]),
        _ => panic!("expected a record"),
    }
}
