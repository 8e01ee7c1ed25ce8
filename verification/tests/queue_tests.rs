use tedge_actors::queue::BoundedQueue;
use tedge_actors::queue::QueuePoll;
use tedge_actors::queue::SendPoll;

#[test]
fn fifo_order_is_preserved() {
    let mut queue: BoundedQueue<&str> = BoundedQueue::new(4);
    assert!(matches!(queue.try_send("first"), SendPoll::Sent));
    assert!(matches!(queue.try_send("second"), SendPoll::Sent));
    assert!(matches!(queue.try_send("third"), SendPoll::Sent));
    assert!(matches!(queue.try_recv(), QueuePoll::Received("first")));
    assert!(matches!(queue.try_recv(), QueuePoll::Received("second")));
    assert!(matches!(queue.try_recv(), QueuePoll::Received("third")));
    assert!(matches!(queue.try_recv(), QueuePoll::Empty));
}

#[test]
fn third_send_suspends_until_a_receive_frees_a_slot() {
    let mut queue: BoundedQueue<u32> = BoundedQueue::new(2);
    assert!(matches!(queue.try_send(1), SendPoll::Sent));
    assert!(matches!(queue.try_send(2), SendPoll::Sent));
    // The channel is at capacity: the third send cannot proceed and the
    // message comes back untouched, which is where an asynchronous sender
    // would suspend.
    assert!(matches!(queue.try_send(3), SendPoll::Full(3)));
    assert_eq!(queue.len(), 2);
    assert!(matches!(queue.try_recv(), QueuePoll::Received(1)));
    assert!(matches!(queue.try_send(3), SendPoll::Sent));
    assert!(matches!(queue.try_recv(), QueuePoll::Received(2)));
    assert!(matches!(queue.try_recv(), QueuePoll::Received(3)));
}

#[test]
fn closed_queue_drains_then_reports_end_of_stream() {
    let mut queue: BoundedQueue<u32> = BoundedQueue::new(4);
    assert!(matches!(queue.try_send(7), SendPoll::Sent));
    queue.close();
    queue.close();
    assert!(queue.is_closed());
    assert!(matches!(queue.try_send(8), SendPoll::Closed(8)));
    assert!(matches!(queue.try_recv(), QueuePoll::Received(7)));
    assert!(matches!(queue.try_recv(), QueuePoll::Ended));
}

#[test]
fn empty_open_queue_reports_nothing_yet() {
    let mut queue: BoundedQueue<u32> = BoundedQueue::new(1);
    assert!(queue.is_empty());
    assert!(!queue.is_full());
    assert!(matches!(queue.try_recv(), QueuePoll::Empty));
}
