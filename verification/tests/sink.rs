use wmi_sink::drain_ready;
use wmi_sink::poll_delivery;
use wmi_sink::Delivery;
use wmi_sink::DeliveryError;
use wmi_sink::Item;
use wmi_sink::ObjectRef;
use wmi_sink::QuerySink;
use wmi_sink::TakeOutcome;
use wmi_sink::E_POINTER;
use wmi_sink::WBEM_NO_ERROR;
use wmi_sink::WBEM_STATUS_COMPLETE;

fn obj(id: u64) -> Option<ObjectRef> {
    Some(ObjectRef { id })
}

#[test]
fn it_should_use_async_channel_to_send_result() {
    let (tx, mut rx) = futures::channel::mpsc::unbounded::<Delivery>();
    let mut sink = QuerySink::new(tx);

    let arr = vec![obj(1), obj(2)];
    let status = sink.indicate(arr.len() as i32, &arr);
    assert_eq!(status, WBEM_NO_ERROR);

    match poll_delivery(&mut rx) {
        TakeOutcome::Delivered(Ok(first)) => assert_eq!(first, Item { id: 1 }),
        other => panic!("expected the first item, got {:?}", other),
    }
    match poll_delivery(&mut rx) {
        TakeOutcome::Delivered(Ok(second)) => assert_eq!(second, Item { id: 2 }),
        other => panic!("expected the second item, got {:?}", other),
    }
    assert_eq!(poll_delivery(&mut rx), TakeOutcome::Pending);
}

#[test]
fn full_batch_arrives_complete_and_in_order() {
    let (mut sink, mut rx) = QuerySink::create();
    let arr = vec![obj(10), obj(11), obj(12), obj(13), obj(14)];
    assert_eq!(sink.indicate(5, &arr), WBEM_NO_ERROR);

    let (msgs, finished) = drain_ready(&mut rx, 100);
    let expect: Vec<Delivery> = (10..15).map(|id| Ok(Item { id })).collect();
    assert_eq!(msgs, expect);
    assert!(!finished);
}

#[test]
fn non_positive_count_is_a_successful_no_op() {
    let (mut sink, mut rx) = QuerySink::create();
    assert_eq!(sink.indicate(0, &Vec::new()), WBEM_NO_ERROR);
    assert_eq!(sink.indicate(-3, &Vec::new()), WBEM_NO_ERROR);

    let (msgs, finished) = drain_ready(&mut rx, 100);
    assert!(msgs.is_empty());
    assert!(!finished);
}

#[test]
fn empty_slot_stops_the_batch_with_pointer_error() {
    let (mut sink, mut rx) = QuerySink::create();
    let arr = vec![obj(1), None, obj(3)];
    let status = sink.indicate(3, &arr);
    assert_eq!(status, E_POINTER);
    assert_eq!(status, -2147467261);

    let (msgs, finished) = drain_ready(&mut rx, 100);
    assert_eq!(msgs, vec![Ok(Item { id: 1 })]);
    assert!(!finished);
}

#[test]
fn empty_first_slot_enqueues_nothing() {
    let (mut sink, mut rx) = QuerySink::create();
    let arr = vec![None, obj(2)];
    assert_eq!(sink.indicate(2, &arr), E_POINTER);

    let (msgs, finished) = drain_ready(&mut rx, 100);
    assert!(msgs.is_empty());
    assert!(!finished);
}

#[test]
fn completion_closes_the_stream_after_queued_items() {
    let (mut sink, mut rx) = QuerySink::create();
    let arr = vec![obj(5)];
    assert_eq!(sink.indicate(1, &arr), WBEM_NO_ERROR);
    assert_eq!(sink.set_status(WBEM_STATUS_COMPLETE, 0, None, None), WBEM_NO_ERROR);

    let (msgs, finished) = drain_ready(&mut rx, 100);
    assert_eq!(msgs, vec![Ok(Item { id: 5 })]);
    assert!(finished);

    // End-of-stream is stable: the consumer keeps observing it.
    let (more, still_finished) = drain_ready(&mut rx, 100);
    assert!(more.is_empty());
    assert!(still_finished);
}

#[test]
fn non_completion_flags_leave_the_stream_open() {
    let (mut sink, mut rx) = QuerySink::create();
    assert_eq!(sink.set_status(5, 0, None, None), WBEM_NO_ERROR);

    let arr = vec![obj(8)];
    assert_eq!(sink.indicate(1, &arr), WBEM_NO_ERROR);
    let (msgs, finished) = drain_ready(&mut rx, 100);
    assert_eq!(msgs, vec![Ok(Item { id: 8 })]);
    assert!(!finished);
}

#[test]
fn repeated_completion_report_does_not_fault() {
    let (mut sink, mut rx) = QuerySink::create();
    assert_eq!(sink.set_status(WBEM_STATUS_COMPLETE, 0, None, None), WBEM_NO_ERROR);
    assert_eq!(sink.set_status(WBEM_STATUS_COMPLETE, 0, None, None), WBEM_NO_ERROR);
    let (msgs, finished) = drain_ready(&mut rx, 100);
    assert!(msgs.is_empty());
    assert!(finished);
}

#[test]
fn two_batches_then_completion_yield_one_ordered_stream() {
    let (mut sink, mut rx) = QuerySink::create();
    assert_eq!(sink.indicate(2, &vec![obj(1), obj(2)]), WBEM_NO_ERROR);
    assert_eq!(sink.indicate(1, &vec![obj(3)]), WBEM_NO_ERROR);
    assert_eq!(sink.set_status(WBEM_STATUS_COMPLETE, 0, None, None), WBEM_NO_ERROR);

    let (msgs, finished) = drain_ready(&mut rx, 100);
    let expect: Vec<Delivery> = vec![Ok(Item { id: 1 }), Ok(Item { id: 2 }), Ok(Item { id: 3 })];
    assert_eq!(msgs, expect);
    assert!(finished);
}

#[test]
fn several_producer_handles_lose_and_duplicate_nothing() {
    let (mut sink, mut rx) = QuerySink::create();
    let mut other = sink.fork();

    assert_eq!(sink.indicate(2, &vec![obj(1), obj(2)]), WBEM_NO_ERROR);
    assert_eq!(other.indicate(2, &vec![obj(3), obj(4)]), WBEM_NO_ERROR);
    assert_eq!(sink.indicate(1, &vec![obj(5)]), WBEM_NO_ERROR);

    let (msgs, finished) = drain_ready(&mut rx, 100);
    assert!(!finished);
    let mut ids: Vec<u64> = msgs
        .into_iter()
        .map(|m| match m {
            Ok(item) => item.id,
            Err(e) => panic!("unexpected error in stream: {:?}", e),
        })
        .collect();
    ids.sort();
    assert_eq!(ids, vec![1, 2, 3, 4, 5]);
}

#[test]
fn items_from_one_handle_keep_their_order_across_batches() {
    let (mut sink, mut rx) = QuerySink::create();
    let other = sink.fork();

    assert_eq!(sink.indicate(2, &vec![obj(1), obj(2)]), WBEM_NO_ERROR);
    assert_eq!(sink.indicate(2, &vec![obj(3), obj(4)]), WBEM_NO_ERROR);
    drop(other);

    let (msgs, _) = drain_ready(&mut rx, 100);
    let ids: Vec<u64> = msgs.into_iter().map(|m| m.unwrap().id).collect();
    assert_eq!(ids, vec![1, 2, 3, 4]);
}

#[test]
fn dropped_consumer_is_absorbed_silently() {
    let (mut sink, rx) = QuerySink::create();
    drop(rx);

    // Deliveries to a vanished consumer are dropped, not surfaced.
    assert_eq!(sink.indicate(2, &vec![obj(1), obj(2)]), WBEM_NO_ERROR);
    // An empty slot still reports the protocol-level pointer error.
    assert_eq!(sink.indicate(2, &vec![None, obj(3)]), E_POINTER);
    // Completion still succeeds.
    assert_eq!(sink.set_status(WBEM_STATUS_COMPLETE, 0, None, None), WBEM_NO_ERROR);
}

#[test]
fn delivery_after_completion_degrades_to_a_silent_drop() {
    let (mut sink, mut rx) = QuerySink::create();
    assert_eq!(sink.set_status(WBEM_STATUS_COMPLETE, 0, None, None), WBEM_NO_ERROR);
    assert_eq!(sink.indicate(1, &vec![obj(9)]), WBEM_NO_ERROR);

    let (msgs, finished) = drain_ready(&mut rx, 100);
    assert!(msgs.is_empty());
    assert!(finished);
}

#[test]
fn drain_stops_at_its_cap() {
    let (mut sink, mut rx) = QuerySink::create();
    assert_eq!(sink.indicate(3, &vec![obj(1), obj(2), obj(3)]), WBEM_NO_ERROR);

    let (first_two, finished) = drain_ready(&mut rx, 2);
    assert_eq!(first_two, vec![Ok(Item { id: 1 }), Ok(Item { id: 2 })]);
    assert!(!finished);

    let (rest, finished) = drain_ready(&mut rx, 2);
    assert_eq!(rest, vec![Ok(Item { id: 3 })]);
    assert!(!finished);
}

#[test]
fn owned_items_outlive_the_delivering_call() {
    let (mut sink, mut rx) = QuerySink::create();
    {
        // The borrowed references live only inside this block, as the
        // foreign engine's do only for the duration of the callback.
        let arr = vec![obj(21), obj(22)];
        assert_eq!(sink.indicate(2, &arr), WBEM_NO_ERROR);
    }
    let (msgs, _) = drain_ready(&mut rx, 100);
    assert_eq!(msgs, vec![Ok(Item { id: 21 }), Ok(Item { id: 22 })]);
}

#[test]
fn error_values_carry_their_reason() {
    // The channel's message type can carry either failure reason to the
    // consumer; the core itself only ever absorbs them.
    let a: Delivery = Err(DeliveryError::NullReference);
    let b: Delivery = Err(DeliveryError::ConsumerGone);
    assert_ne!(a, b);
    assert_eq!(a, Err(DeliveryError::NullReference));
}
