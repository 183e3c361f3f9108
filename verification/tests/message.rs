use yapping_client::message::{
    copy_bytes, Content, Message, NotificationKind, Response, SessionKind,
};

#[test]
fn acknowledgement_is_a_bare_ok_under_the_same_identifier() {
    let ack = Message::acknowledgement(77);
    assert_eq!(ack.id, 77);
    assert_eq!(ack.content, Content::Response(Response::Okay));
    assert!(!ack.expects_reply());
}

#[test]
fn only_responses_expect_no_reply() {
    assert!(Content::Session(SessionKind::Login, vec![]).expects_reply());
    assert!(Content::Session(SessionKind::Token, vec![1]).expects_reply());
    assert!(Content::Query(vec![]).expects_reply());
    assert!(Content::Notification(NotificationKind::MessageRead, vec![]).expects_reply());
    assert!(Content::Modification(vec![]).expects_reply());
    assert!(!Content::Response(Response::Okay).expects_reply());
    assert!(!Content::Response(Response::OkQuery(vec![1])).expects_reply());
    assert!(!Content::Response(Response::OkSession(vec![1])).expects_reply());
    assert!(!Content::Response(Response::Failed("no".to_string())).expects_reply());
}

#[test]
fn new_keeps_identifier_and_content() {
    let message = Message::new(u128::MAX, Content::Modification(vec![9, 8, 7]));
    assert_eq!(message.id, u128::MAX);
    assert_eq!(message.content, Content::Modification(vec![9, 8, 7]));
    assert!(message.expects_reply());
}

#[test]
fn clone_is_equal_and_independent() {
    let first = Message::new(
        3,
        Content::Response(Response::Failed("tag already taken".to_string())),
    );
    let mut copy = first.clone();
    assert_eq!(copy, first);
    copy.id = 4;
    assert_eq!(first.id, 3);

    let notification =
        Message::new(5, Content::Notification(NotificationKind::NewChat, vec![1, 2, 3]));
    assert_eq!(notification.clone(), notification);
    let session = Content::Session(SessionKind::SignUp, vec![4, 5]);
    assert_eq!(session.clone(), session);
    let query = Content::Query(vec![6]);
    assert_eq!(query.clone(), query);
    let result = Response::OkQuery(vec![7, 7]);
    assert_eq!(result.clone(), result);
    let token = Response::OkSession(vec![8]);
    assert_eq!(token.clone(), token);
}

#[test]
fn copy_bytes_copies_every_byte() {
    assert_eq!(copy_bytes(&vec![]), Vec::<u8>::new());
    assert_eq!(copy_bytes(&vec![0, 255, 17]), vec![0, 255, 17]);
}
