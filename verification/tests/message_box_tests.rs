use tedge_actors::message_boxes::forward_message;
use tedge_actors::message_boxes::ChannelError;
use tedge_actors::message_boxes::ClientMessageBox;
use tedge_actors::message_boxes::ConcurrentPoll;
use tedge_actors::message_boxes::ConcurrentServerMessageBox;
use tedge_actors::message_boxes::ForwardPoll;
use tedge_actors::message_boxes::MessageBox;
use tedge_actors::message_boxes::RecvPoll;
use tedge_actors::message_boxes::RuntimeRequest;
use tedge_actors::message_boxes::SimpleMessageBox;
use tedge_actors::queue::QueuePoll;
use tedge_actors::queue::SendPoll;

#[test]
fn round_trip_delivers_the_exact_message() {
    let (mut client, mut service) = SimpleMessageBox::<String, String>::channel("Echo", 4);
    client.send("hello".to_string()).unwrap();
    assert!(matches!(forward_message(&mut client, &mut service), ForwardPoll::Forwarded));
    assert_eq!(service.recv(false), Some("hello".to_string()));
}

#[test]
fn round_trip_works_in_both_directions() {
    let (mut client, mut service) = SimpleMessageBox::<String, String>::channel("Echo", 4);
    client.send("ping".to_string()).unwrap();
    assert!(matches!(forward_message(&mut client, &mut service), ForwardPoll::Forwarded));
    assert_eq!(service.recv(true), Some("ping".to_string()));
    service.send("pong".to_string()).unwrap();
    assert!(matches!(forward_message(&mut service, &mut client), ForwardPoll::Forwarded));
    assert_eq!(client.recv(false), Some("pong".to_string()));
}

#[test]
fn shutdown_signal_ends_the_receive_stream() {
    let (_client, mut service) = SimpleMessageBox::<String, String>::channel("Stop", 4);
    assert!(matches!(service.deliver_input("pending".to_string()), SendPoll::Sent));
    assert!(matches!(service.deliver_signal(RuntimeRequest::Shutdown), SendPoll::Sent));
    // The control channel is observed first: end-of-stream, and the pending
    // input is never delivered afterwards.
    assert_eq!(service.recv(true), None);
    assert_eq!(service.poll_recv(false), RecvPoll::Closed);
}

#[test]
fn input_already_won_race_is_still_delivered_before_shutdown() {
    let (_client, mut service) = SimpleMessageBox::<String, String>::channel("Stop", 4);
    assert!(matches!(service.deliver_input("last".to_string()), SendPoll::Sent));
    assert!(matches!(service.deliver_signal(RuntimeRequest::Shutdown), SendPoll::Sent));
    // The input channel wins the race once; the next receive observes the
    // signal and the stream ends.
    assert_eq!(service.recv(false), Some("last".to_string()));
    assert_eq!(service.recv(false), None);
}

#[test]
fn recv_reports_end_of_stream_once_both_channels_are_done() {
    let (_client, mut service) = SimpleMessageBox::<String, String>::channel("Done", 2);
    service.close_input();
    service.close_signal();
    assert_eq!(service.recv(false), None);
}

#[test]
fn send_fails_once_the_output_is_closed() {
    let (mut client, _service) = SimpleMessageBox::<String, String>::channel("Gone", 2);
    client.close_output();
    client.close_output();
    assert_eq!(client.send("late".to_string()), Err(ChannelError::SendError));
}

#[test]
fn boxes_share_one_name_and_toggle_logging() {
    let (mut client, service) = SimpleMessageBox::<String, String>::channel("Named", 2);
    assert_eq!(client.name(), "Named");
    assert_eq!(service.name(), "Named");
    assert!(client.logging_is_on());
    client.turn_logging_on(false);
    assert!(!client.logging_is_on());
}

#[test]
fn admission_is_blocked_at_the_concurrency_ceiling() {
    let (_client, mut server) =
        ConcurrentServerMessageBox::<String, String>::channel("Server", 4, 2);
    assert!(matches!(server.deliver_request((1, "a".to_string())), SendPoll::Sent));
    assert!(matches!(server.deliver_request((2, "b".to_string())), SendPoll::Sent));
    assert!(matches!(server.deliver_request((3, "c".to_string())), SendPoll::Sent));

    assert!(matches!(server.recv(false), ConcurrentPoll::Admitted((1, _))));
    server.send_response_once_done();
    assert!(matches!(server.recv(false), ConcurrentPoll::Admitted((2, _))));
    server.send_response_once_done();
    assert_eq!(server.pending_tasks(), 2);
    assert_eq!(server.max_concurrency(), 2);

    // At the ceiling the third request is not admitted, though it is queued.
    assert!(matches!(server.recv(false), ConcurrentPoll::Waiting));
    server.task_done(1, "done-a".to_string());
    assert_eq!(server.pending_tasks(), 1);
    assert!(matches!(server.recv(false), ConcurrentPoll::Admitted((3, _))));
}

#[test]
fn responses_are_routed_to_their_originating_client() {
    let (_client, mut server) =
        ConcurrentServerMessageBox::<String, String>::channel("Server", 4, 1);
    assert!(matches!(server.deliver_request((1, "from-a".to_string())), SendPoll::Sent));
    assert!(matches!(server.deliver_request((2, "from-b".to_string())), SendPoll::Sent));

    // Only one request is admitted while its task is unresolved.
    assert_eq!(server.recv(false), ConcurrentPoll::Admitted((1, "from-a".to_string())));
    server.send_response_once_done();
    assert_eq!(server.recv(false), ConcurrentPoll::Waiting);

    server.task_done(1, "answer-a".to_string());
    assert_eq!(server.take_response(), QueuePoll::Received((1, "answer-a".to_string())));
    assert_eq!(server.recv(false), ConcurrentPoll::Admitted((2, "from-b".to_string())));
}

#[test]
fn failed_task_frees_its_slot_without_a_response() {
    let (_client, mut server) =
        ConcurrentServerMessageBox::<String, String>::channel("Server", 4, 1);
    assert!(matches!(server.deliver_request((5, "req".to_string())), SendPoll::Sent));
    assert!(matches!(server.recv(false), ConcurrentPoll::Admitted((5, _))));
    server.send_response_once_done();
    server.task_failed();
    assert_eq!(server.pending_tasks(), 0);
    // The documented gap: the client never hears back.
    assert!(matches!(server.take_response(), QueuePoll::Empty));
}

#[test]
fn server_reports_exhausted_only_without_pending_tasks() {
    let (_client, mut server) =
        ConcurrentServerMessageBox::<String, String>::channel("Server", 4, 2);
    assert!(matches!(server.deliver_request((1, "req".to_string())), SendPoll::Sent));
    assert!(matches!(server.recv(false), ConcurrentPoll::Admitted((1, _))));
    server.send_response_once_done();
    server.close_requests();
    server.close_signals();
    assert!(matches!(server.recv(false), ConcurrentPoll::Waiting));
    server.task_done(1, "resp".to_string());
    assert!(matches!(server.recv(false), ConcurrentPoll::Exhausted));
}

#[test]
fn await_response_returns_the_correlated_response() {
    let (_service, mut client) = ClientMessageBox::<String, String>::new("Requester");
    // The fabric has the response ready by the time the adapter resumes.
    assert!(matches!(client.deliver_response("pong".to_string()), SendPoll::Sent));
    assert_eq!(client.await_response("ping".to_string(), false), Ok("pong".to_string()));
    // The request went out on the adapter's output channel.
    assert_eq!(client.take_request(), QueuePoll::Received("ping".to_string()));
}

#[test]
fn await_response_fails_once_the_peer_is_gone() {
    let (_service, mut client) = ClientMessageBox::<String, String>::new("Requester");
    client.close_responses();
    assert_eq!(
        client.await_response("ping".to_string(), false),
        Err(ChannelError::ReceiveError)
    );
    assert_eq!(client.name(), "Requester");
}
