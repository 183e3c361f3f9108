use yapping_client::coms_manager::{ComsManager, DEFAULT_RETRY_AFTER};
use yapping_client::message::{Content, Message, NotificationKind, Response, SessionKind};
use yapping_client::model::Arrival;

fn query(id: u128, text: &str) -> Message {
    Message::new(id, Content::Query(text.as_bytes().to_vec()))
}

fn friend_request(id: u128, from: u8, to: u8) -> Message {
    Message::new(id, Content::Notification(NotificationKind::FriendRequest, vec![from, to]))
}

fn ok(id: u128) -> Message {
    Message::new(id, Content::Response(Response::Okay))
}

#[test]
fn new_table_is_empty() {
    let mut table = ComsManager::new(30);
    assert_eq!(table.pending_count(), 0);
    assert_eq!(table.now(), 0);
    assert_eq!(table.retry_after(), 30);
    assert!(table.drain_responded().is_empty());
    assert!(table.drain_received().is_empty());
    assert!(table.to_retry().is_empty());
}

#[test]
fn default_table_uses_default_threshold() {
    let table = ComsManager::default();
    assert_eq!(DEFAULT_RETRY_AFTER, 5000);
    assert_eq!(table.retry_after(), 5000);
    assert_eq!(table.pending_count(), 0);
}

#[test]
fn query_response_is_correlated() {
    let x: u128 = 0x1234_5678_9abc_def0_1122_3344_5566_7788;
    let mut table = ComsManager::new(1000);
    table.record_sent(query(x, "bob"));
    assert!(table.is_pending(x));

    let bob_user = vec![0x62, 0x6f, 0x62, 0x01];
    let arrival =
        table.record_received(Message::new(x, Content::Response(Response::OkQuery(bob_user.clone()))));
    assert_eq!(arrival, Arrival::Responded);

    let responded = table.drain_responded();
    assert_eq!(responded, vec![(query(x, "bob"), Response::OkQuery(bob_user))]);
    assert!(!table.is_pending(x));
    assert_eq!(table.pending_count(), 0);
    assert!(table.drain_responded().is_empty());
}

#[test]
fn two_friend_requests_are_drained_once_in_arrival_order() {
    let mut table = ComsManager::new(1000);
    assert_eq!(table.record_received(friend_request(11, 1, 9)), Arrival::Inbound);
    assert_eq!(table.record_received(friend_request(22, 2, 9)), Arrival::Inbound);

    let received = table.drain_received();
    assert_eq!(received, vec![friend_request(11, 1, 9), friend_request(22, 2, 9)]);

    table.acknowledge(11);
    assert!(table.drain_received().is_empty());
    assert_eq!(table.pending_count(), 0);
}

#[test]
fn response_is_paired_with_the_request_as_it_was_sent() {
    let mut table = ComsManager::new(1000);
    let login =
        Message::new(5, Content::Session(SessionKind::Login, b"alice\0secret".to_vec()));
    table.record_sent(login.clone());
    table.record_sent(query(6, "carol"));
    let arrival = table.record_received(Message::new(
        5,
        Content::Response(Response::OkSession(vec![1, 2, 3])),
    ));
    assert_eq!(arrival, Arrival::Responded);
    assert!(!table.is_pending(5));
    assert!(table.is_pending(6));
    assert_eq!(table.pending_count(), 1);
    assert_eq!(table.drain_responded(), vec![(login, Response::OkSession(vec![1, 2, 3]))]);
}

#[test]
fn responded_keeps_the_order_in_which_responses_arrived() {
    let mut table = ComsManager::new(1000);
    table.record_sent(query(1, "a"));
    table.record_sent(query(2, "b"));
    table.record_sent(query(3, "c"));
    table.record_received(ok(3));
    table.record_received(Message::new(1, Content::Response(Response::Failed("no".to_string()))));
    let responded = table.drain_responded();
    assert_eq!(
        responded,
        vec![
            (query(3, "c"), Response::Okay),
            (query(1, "a"), Response::Failed("no".to_string())),
        ]
    );
    assert!(table.is_pending(2));
}

#[test]
fn second_response_to_one_request_is_unexpected() {
    let mut table = ComsManager::new(1000);
    table.record_sent(query(1, "a"));
    assert_eq!(table.record_received(ok(1)), Arrival::Responded);
    assert_eq!(table.record_received(ok(1)), Arrival::Unexpected);
    assert_eq!(table.drain_responded().len(), 1);
}

#[test]
fn unmatched_response_is_dropped() {
    let mut table = ComsManager::new(1000);
    table.record_sent(query(1, "a"));
    let arrival = table.record_received(ok(2));
    assert_eq!(arrival, Arrival::Unexpected);
    assert!(table.drain_responded().is_empty());
    assert!(table.drain_received().is_empty());
    assert!(table.is_pending(1));
    assert_eq!(table.pending_count(), 1);
}

#[test]
fn request_from_the_peer_under_a_pending_identifier_is_inbound() {
    let mut table = ComsManager::new(1000);
    table.record_sent(query(1, "a"));
    let arrival = table.record_received(friend_request(1, 3, 4));
    assert_eq!(arrival, Arrival::Inbound);
    assert!(table.is_pending(1));
    assert!(table.drain_responded().is_empty());
    assert_eq!(table.drain_received(), vec![friend_request(1, 3, 4)]);
}

#[test]
fn response_sent_by_the_client_is_not_tracked() {
    let mut table = ComsManager::new(1000);
    table.record_sent(ok(9));
    table.record_sent(Message::new(8, Content::Response(Response::Failed("x".to_string()))));
    assert_eq!(table.pending_count(), 0);
    table.tick(10_000);
    assert!(table.to_retry().is_empty());
}

#[test]
fn every_request_kind_is_tracked() {
    let mut table = ComsManager::new(1000);
    table.record_sent(Message::new(1, Content::Session(SessionKind::SignUp, vec![1])));
    table.record_sent(Message::new(2, Content::Query(vec![2])));
    table.record_sent(Message::new(3, Content::Notification(NotificationKind::NewMessage, vec![3])));
    table.record_sent(Message::new(4, Content::Modification(vec![4])));
    assert_eq!(table.pending_count(), 4);
}

#[test]
fn sending_again_under_a_pending_identifier_replaces_the_request() {
    let mut table = ComsManager::new(1000);
    table.record_sent(query(1, "first"));
    table.record_sent(query(2, "other"));
    table.record_sent(query(1, "second"));
    assert_eq!(table.pending_count(), 2);
    table.record_received(ok(1));
    assert_eq!(table.drain_responded(), vec![(query(1, "second"), Response::Okay)]);
    assert!(table.is_pending(2));
}

#[test]
fn request_is_retried_only_after_the_threshold_is_exceeded() {
    let mut table = ComsManager::new(100);
    table.tick(40);
    table.record_sent(query(1, "a"));
    table.tick(139);
    assert!(table.to_retry().is_empty());
    table.tick(140);
    assert!(table.to_retry().is_empty());
    table.tick(141);
    assert_eq!(table.to_retry(), vec![query(1, "a")]);
    assert!(table.is_pending(1));
}

#[test]
fn retry_is_handed_out_once_per_crossing() {
    let mut table = ComsManager::new(100);
    table.record_sent(query(1, "a"));
    table.tick(101);
    assert_eq!(table.to_retry(), vec![query(1, "a")]);
    assert!(table.to_retry().is_empty());
    table.tick(101);
    assert!(table.to_retry().is_empty());
    table.tick(201);
    assert!(table.to_retry().is_empty());
    table.tick(202);
    assert_eq!(table.to_retry(), vec![query(1, "a")]);
    assert!(table.to_retry().is_empty());
}

#[test]
fn only_stale_requests_are_retried_in_table_order() {
    let mut table = ComsManager::new(100);
    table.record_sent(query(1, "a"));
    table.tick(50);
    table.record_sent(query(2, "b"));
    table.tick(60);
    table.record_sent(query(3, "c"));
    table.tick(151);
    assert_eq!(table.to_retry(), vec![query(1, "a"), query(2, "b")]);
    table.tick(161);
    assert_eq!(table.to_retry(), vec![query(3, "c")]);
    table.tick(252);
    assert_eq!(table.to_retry(), vec![query(1, "a"), query(2, "b")]);
}

#[test]
fn answered_request_is_not_retried() {
    let mut table = ComsManager::new(100);
    table.record_sent(query(1, "a"));
    table.record_sent(query(2, "b"));
    table.tick(500);
    table.record_received(ok(1));
    assert_eq!(table.to_retry(), vec![query(2, "b")]);
}

#[test]
fn clock_set_back_makes_nothing_stale() {
    let mut table = ComsManager::new(100);
    table.tick(1000);
    table.record_sent(query(1, "a"));
    table.tick(10);
    assert_eq!(table.now(), 10);
    assert!(table.to_retry().is_empty());
    table.tick(1100);
    assert!(table.to_retry().is_empty());
    table.tick(1101);
    assert_eq!(table.to_retry(), vec![query(1, "a")]);
}

#[test]
fn zero_threshold_retries_at_the_next_later_tick() {
    let mut table = ComsManager::new(0);
    table.record_sent(query(1, "a"));
    assert!(table.to_retry().is_empty());
    table.tick(1);
    assert_eq!(table.to_retry(), vec![query(1, "a")]);
}

#[test]
fn largest_clock_values_do_not_overflow() {
    let mut table = ComsManager::new(u64::MAX - 1);
    table.record_sent(query(1, "a"));
    table.tick(u64::MAX - 1);
    assert!(table.to_retry().is_empty());
    table.tick(u64::MAX);
    assert_eq!(table.to_retry(), vec![query(1, "a")]);
}

#[test]
fn acknowledgement_before_the_drain_takes_the_message_out() {
    let mut table = ComsManager::new(1000);
    table.record_received(friend_request(11, 1, 9));
    table.record_received(friend_request(22, 2, 9));
    table.record_received(friend_request(11, 1, 9));
    table.acknowledge(11);
    assert_eq!(table.drain_received(), vec![friend_request(22, 2, 9)]);
    assert!(table.drain_received().is_empty());
}

#[test]
fn acknowledged_message_does_not_come_back() {
    let mut table = ComsManager::new(1000);
    table.record_received(friend_request(11, 1, 9));
    assert_eq!(table.drain_received(), vec![friend_request(11, 1, 9)]);
    table.acknowledge(11);
    table.tick(5000);
    table.record_sent(query(1, "a"));
    table.record_received(ok(1));
    assert!(table.to_retry().is_empty());
    assert!(table.drain_received().is_empty());
}

#[test]
fn response_recorded_as_sent_passes_the_table_by() {
    let mut table = ComsManager::new(1000);
    table.record_received(friend_request(11, 1, 9));
    table.record_sent(Message::acknowledgement(11));
    assert_eq!(table.pending_count(), 0);
    assert_eq!(table.drain_received(), vec![friend_request(11, 1, 9)]);
}

#[test]
fn acknowledgement_leaves_pending_requests_alone() {
    let mut table = ComsManager::new(1000);
    table.record_sent(query(11, "a"));
    table.acknowledge(11);
    assert!(table.is_pending(11));
    assert_eq!(table.pending_count(), 1);
}

#[test]
fn was_responded_until_the_pair_is_handed_out() {
    let mut table = ComsManager::new(1000);
    table.record_sent(query(1, "a"));
    table.record_sent(query(2, "b"));
    assert!(!table.was_responded(1));
    table.record_received(ok(2));
    table.record_received(ok(1));
    assert!(table.was_responded(1));
    assert!(table.was_responded(2));
    assert!(!table.was_responded(3));
    table.drain_responded();
    assert!(!table.was_responded(1));
}
