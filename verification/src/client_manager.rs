//! What the client owes the server for the messages that a tick brought.

use vstd::prelude::*;
use crate::message::{messages_view, Message, MessageView};

verus! {

/// The bare acknowledgement of a message.
pub open spec fn acknowledgement_of() -> spec_fn(MessageView) -> MessageView {
    |message: MessageView| MessageView::acknowledgement(message.id)
}

/// The answers to the inbound messages `messages`: for each of them, in
/// their order, a bare acknowledgement under its identifier.
pub fn on_received_messages(messages: &Vec<Message>) -> (answers: Vec<Message>)
    ensures
        messages_view(answers@) == messages_view(messages@).map_values(acknowledgement_of()),
{
    let mut answers: Vec<Message> = Vec::new();
    let mut i: usize = 0;
    while i < messages.len()
        invariant
            i <= messages.len(),
            answers.len() == i,
            forall|j: int|
                0 <= j < i ==> (#[trigger] answers[j])@ == MessageView::acknowledgement(
                    messages[j].id,
                ),
        decreases messages.len() - i,
    {
        answers.push(Message::acknowledgement(messages[i].id));
        i += 1;
    }
    assert(messages_view(answers@) =~= messages_view(messages@).map_values(acknowledgement_of()));
    answers
}

} // verus!
