//! Conversation turns: who spoke, and what was said.

use vstd::prelude::*;

verus! {

/// Who produced one turn of the conversation.
#[derive(Clone, Copy, PartialEq, Eq, Structural)]
pub enum Role {
    System,
    User,
    Assistant,
}

/// One turn of the conversation. A message is immutable once created: the
/// transcript only ever appends.
pub struct Message {
    pub role: Role,
    pub content: String,
}

/// The mathematical value of a message: its role and its text.
#[verifier::ext_equal]
pub ghost struct MsgV {
    pub role: Role,
    pub content: Seq<char>,
}

impl View for Message {
    type V = MsgV;

    open spec fn view(&self) -> MsgV {
        MsgV { role: self.role, content: self.content@ }
    }
}

/// The messages of a vector, as mathematical values, in the same order.
pub open spec fn msgs_view(ms: Seq<Message>) -> Seq<MsgV> {
    ms.map_values(|m: Message| m@)
}

/// The persona line that opens every conversation.
pub open spec fn spec_system_prompt() -> Seq<char> {
    "You are a large language model built into a command line interface."@
}

/// The one system message every transcript starts with.
pub open spec fn system_msg() -> MsgV {
    MsgV { role: Role::System, content: spec_system_prompt() }
}

/// A user turn holding the given text.
pub open spec fn user_msg(t: Seq<char>) -> MsgV {
    MsgV { role: Role::User, content: t }
}

/// An assistant turn holding the given text.
pub open spec fn assistant_msg(t: Seq<char>) -> MsgV {
    MsgV { role: Role::Assistant, content: t }
}

/// The persona line, as an executable string.
pub fn system_prompt() -> (r: &'static str)
    ensures
        r@ == spec_system_prompt(),
{
    "You are a large language model built into a command line interface."
}

impl Message {
    /// An exact copy of this message.
    pub fn duplicate(&self) -> (m: Message)
        ensures
            m@ == self@,
    {
        Message { role: self.role, content: self.content.clone() }
    }
}

} // verus!
