//! The conversation: model id, streaming flag and the append-only list of
//! role-tagged messages exchanged so far.

use vstd::prelude::*;

verus! {

/// Who wrote a message.
#[derive(Debug, Clone, Copy, PartialEq, Eq, Structural)]
pub enum Role {
    User,
    Assistant,
}

/// One message. Both fields are optional on the wire; an absent content is
/// distinct from an empty one.
#[derive(Debug, PartialEq, Eq)]
pub struct Message {
    pub role: Option<Role>,
    pub content: Option<String>,
}

/// A message as a mathematical value.
pub struct MessageModel {
    pub role: Option<Role>,
    pub content: Option<Seq<char>>,
}

impl View for Message {
    type V = MessageModel;

    open spec fn view(&self) -> MessageModel {
        MessageModel {
            role: self.role,
            content: match self.content {
                Some(s) => Some(s@),
                None => None,
            },
        }
    }
}

pub open spec fn user_message(text: Seq<char>) -> MessageModel {
    MessageModel { role: Some(Role::User), content: Some(text) }
}

pub open spec fn assistant_message(text: Seq<char>) -> MessageModel {
    MessageModel { role: Some(Role::Assistant), content: Some(text) }
}

impl Message {
    pub fn user(text: String) -> (r: Message)
        ensures
            r@ == user_message(text@),
    {
        Message { role: Some(Role::User), content: Some(text) }
    }

    pub fn assistant(text: String) -> (r: Message)
        ensures
            r@ == assistant_message(text@),
    {
        Message { role: Some(Role::Assistant), content: Some(text) }
    }
}

/// The state of one chat session. Messages are only ever appended.
#[derive(Debug)]
pub struct Conversation {
    stream: bool,
    model: String,
    messages: Vec<Message>,
}

impl Conversation {
    /// The messages so far, oldest first.
    pub closed spec fn transcript(&self) -> Seq<MessageModel> {
        self.messages@.map_values(|m: Message| m@)
    }

    pub closed spec fn model_id(&self) -> Seq<char> {
        self.model@
    }

    pub closed spec fn streams(&self) -> bool {
        self.stream
    }

    /// An empty conversation with `model`, asking for a streamed reply.
    pub fn new(model: String) -> (r: Conversation)
        ensures
            r.transcript() == Seq::<MessageModel>::empty(),
            r.model_id() == model@,
            r.streams(),
    {
        let r = Conversation { stream: true, model, messages: Vec::new() };
        assert(r.transcript() =~= Seq::<MessageModel>::empty());
        r
    }

    /// Adds `message` after all the others.
    pub fn append(&mut self, message: Message)
        ensures
            final(self).transcript() == old(self).transcript().push(message@),
            final(self).model_id() == old(self).model_id(),
            final(self).streams() == old(self).streams(),
    {
        let ghost m = message@;
        self.messages.push(message);
        assert(self.transcript() =~= old(self).transcript().push(m));
    }

    pub fn stream(&self) -> (r: bool)
        ensures
            r == self.streams(),
    {
        self.stream
    }

    pub fn model(&self) -> (r: &str)
        ensures
            r@ == self.model_id(),
    {
        self.model.as_str()
    }

    pub fn messages(&self) -> (r: &[Message])
        ensures
            r@.map_values(|m: Message| m@) == self.transcript(),
    {
        self.messages.as_slice()
    }
}

/// Turns only ever add to the transcript: after a user message, the
/// assistant's reply and the next user message, the transcript is the old
/// one followed by those three, in that order.
pub proof fn lemma_turn_order(
    t: Seq<MessageModel>,
    first: Seq<char>,
    reply: Seq<char>,
    second: Seq<char>,
)
    ensures
        t.push(user_message(first)).push(assistant_message(reply)).push(user_message(second))
            == t + seq![user_message(first), assistant_message(reply), user_message(second)],
{
    assert(t.push(user_message(first)).push(assistant_message(reply)).push(user_message(second))
        =~= t + seq![user_message(first), assistant_message(reply), user_message(second)]);
}

} // verus!
