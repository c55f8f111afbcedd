use vstd::prelude::*;

verus! {

/// One turn of a conversation as mathematics: who spoke, and what was said.
pub struct MessageModel {
    pub role: Seq<char>,
    pub content: Seq<char>,
}

/// One turn of a conversation.
///
/// The role is free text. The conversation itself only ever writes `system`,
/// `user` and `assistant`, but nothing here rejects another word.
#[derive(Debug, PartialEq, Eq)]
pub struct Message {
    pub role: String,
    pub content: String,
}

impl View for Message {
    type V = MessageModel;

    open spec fn view(&self) -> MessageModel {
        MessageModel { role: self.role@, content: self.content@ }
    }
}

impl Clone for Message {
    fn clone(&self) -> (copy: Self)
        ensures
            copy == *self,
    {
        Message { role: self.role.clone(), content: self.content.clone() }
    }
}

impl Message {
    /// A message with the given role and content.
    pub fn new(role: &str, content: &str) -> (message: Self)
        ensures
            message@ == turn(role@, content@),
    {
        Message { role: role.to_owned(), content: content.to_owned() }
    }
}

/// The turn in which `role` says `content`.
pub open spec fn turn(role: Seq<char>, content: Seq<char>) -> MessageModel {
    MessageModel { role, content }
}

/// The role of an instruction that stays in front of every request.
pub open spec fn system_role() -> Seq<char> {
    "system"@
}

/// The role of what the person typed.
pub open spec fn user_role() -> Seq<char> {
    "user"@
}

/// The role of what the model answered.
pub open spec fn assistant_role() -> Seq<char> {
    "assistant"@
}

/// The turns that a list of messages stands for, in the same order.
pub open spec fn turns(messages: Seq<Message>) -> Seq<MessageModel> {
    messages.map_values(|m: Message| m@)
}

} // verus!
