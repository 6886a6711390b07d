//! The messages that arrived and that the embedding application has not yet taken.

use crate::peer::PeerIdentifier;
use std::collections::VecDeque;
use vstd::prelude::*;

verus! {

/// A message that arrived: who sent it and what it says.
#[derive(Debug, PartialEq, Eq)]
pub struct Message {
    /// The peer that the message came from.
    pub sender: PeerIdentifier,
    /// The payload, byte for byte as it was published.
    pub payload: Vec<u8>,
}

/// A message as contracts speak of it.
#[verifier::ext_equal]
pub struct MessageView {
    /// The sender's identifier.
    pub sender: Seq<u8>,
    /// The payload.
    pub payload: Seq<u8>,
}

impl View for Message {
    type V = MessageView;

    open spec fn view(&self) -> MessageView {
        MessageView { sender: self.sender@, payload: self.payload@ }
    }
}

/// The arrived messages, oldest first.
#[derive(Debug)]
pub struct ReceivedQueue {
    messages: VecDeque<Message>,
}

impl View for ReceivedQueue {
    type V = Seq<MessageView>;

    closed spec fn view(&self) -> Seq<MessageView> {
        self.messages@.map_values(|message: Message| message@)
    }
}

impl ReceivedQueue {
    /// An empty queue.
    pub fn new() -> (queue: ReceivedQueue)
        ensures
            queue@ == Seq::<MessageView>::empty(),
    {
        let queue = ReceivedQueue { messages: VecDeque::new() };
        assert(queue@ =~= Seq::<MessageView>::empty());
        queue
    }

    /// The number of messages that wait.
    pub fn len(&self) -> (count: usize)
        ensures
            count == self@.len(),
    {
        self.messages.len()
    }

    /// Whether no message waits.
    pub fn is_empty(&self) -> (empty: bool)
        ensures
            empty == (self@.len() == 0),
    {
        self.messages.len() == 0
    }

    /// Puts a message behind all that wait.
    pub fn push(&mut self, message: Message)
        ensures
            final(self)@ == old(self)@.push(message@),
    {
        self.messages.push_back(message);
        assert(self@ =~= old(self)@.push(message@));
    }

    /// Takes the oldest message out, if there is one.
    pub fn pop(&mut self) -> (message: Option<Message>)
        ensures
            match message {
                Some(oldest) => old(self)@.len() > 0 && oldest@ == old(self)@[0] && final(self)@
                    == old(self)@.skip(1),
                None => old(self)@.len() == 0 && final(self)@ == old(self)@,
            },
    {
        let message = self.messages.pop_front();
        assert(message is Some ==> self@ =~= old(self)@.skip(1));
        message
    }
}

} // verus!
