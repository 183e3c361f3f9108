use yapping_client::client_manager::on_received_messages;
use yapping_client::message::{Content, Message, NotificationKind, Response};

#[test]
fn every_inbound_message_is_owed_a_bare_ok() {
    let messages = vec![
        Message::new(11, Content::Notification(NotificationKind::FriendRequest, vec![1, 2])),
        Message::new(7, Content::Query(vec![3])),
        Message::new(11, Content::Modification(vec![])),
    ];
    let answers = on_received_messages(&messages);
    assert_eq!(
        answers,
        vec![
            Message::new(11, Content::Response(Response::Okay)),
            Message::new(7, Content::Response(Response::Okay)),
            Message::new(11, Content::Response(Response::Okay)),
        ]
    );
}

#[test]
fn no_message_no_answer() {
    assert!(on_received_messages(&Vec::new()).is_empty());
}
