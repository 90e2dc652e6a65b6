use collector::writer::{QueueItem, Writer, WriterStop};

fn run(items: Vec<QueueItem<(u32, i64)>>) -> (Vec<(u32, i64)>, Writer) {
    let mut w = Writer::new();
    let mut out = Vec::new();
    for item in items {
        if let Some(r) = w.accept(item) {
            out.push(r);
        }
    }
    (out, w)
}

#[test]
fn readings_are_appended_in_order_until_marker() {
    let items = vec![
        QueueItem::Reading((1, 100)),
        QueueItem::Reading((2, 200)),
        QueueItem::Reading((3, 300)),
        QueueItem::Shutdown,
    ];
    let (out, w) = run(items);
    assert_eq!(out, vec![(1, 100), (2, 200), (3, 300)]);
    assert!(!w.is_running());
    assert_eq!(w.stop_reason(), Some(WriterStop::Drained));
}

#[test]
fn nothing_is_appended_after_marker() {
    let items = vec![
        QueueItem::Reading((1, 10)),
        QueueItem::Shutdown,
        QueueItem::Reading((2, 20)),
        QueueItem::Reading((3, 30)),
    ];
    let (out, _) = run(items);
    assert_eq!(out, vec![(1, 10)]);
}

#[test]
fn marker_alone_appends_nothing() {
    let (out, w) = run(vec![QueueItem::Shutdown]);
    assert!(out.is_empty());
    assert_eq!(w.stop_reason(), Some(WriterStop::Drained));
}

#[test]
fn new_writer_runs() {
    let w = Writer::new();
    assert!(w.is_running());
    assert_eq!(w.stop_reason(), None);
}

#[test]
fn failed_append_stops_writer_for_good() {
    let mut w = Writer::new();
    assert_eq!(w.accept(QueueItem::Reading(5u8)), Some(5));
    w.append_failed();
    assert_eq!(w.stop_reason(), Some(WriterStop::StoreFailed));
    assert_eq!(w.accept(QueueItem::Reading(6u8)), None);
    w.queue_closed();
    assert_eq!(w.stop_reason(), Some(WriterStop::StoreFailed));
}

#[test]
fn closed_queue_stops_writer() {
    let mut w = Writer::new();
    w.queue_closed();
    assert!(!w.is_running());
    assert_eq!(w.stop_reason(), Some(WriterStop::QueueClosed));
    assert_eq!(w.accept(QueueItem::Reading(1u8)), None);
}
