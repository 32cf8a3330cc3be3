//! The conversation transcript: an append-only sequence of messages that
//! opens with the fixed system message and is never edited or truncated.

use vstd::prelude::*;
use vstd::string::*;
use crate::msg::{assistant_msg, msgs_view, system_msg, user_msg, Message, MsgV, Role};
use crate::msg::system_prompt;

verus! {

/// A transcript is well formed when the single system message stands first
/// and every later turn belongs to the user or the assistant.
pub open spec fn history_inv(h: Seq<MsgV>) -> bool {
    &&& h.len() >= 1
    &&& h[0] == system_msg()
    &&& forall|i: int| 1 <= i < h.len() ==> h[i].role != Role::System
}

/// The transcript of one conversation. It grows monotonically: messages are
/// appended, never removed or rewritten.
pub struct History {
    msgs: Vec<Message>,
}

impl View for History {
    type V = Seq<MsgV>;

    closed spec fn view(&self) -> Seq<MsgV> {
        msgs_view(self.msgs@)
    }
}

impl History {
    /// A fresh transcript: exactly the system message.
    pub fn new() -> (h: History)
        ensures
            h@ == seq![system_msg()],
            history_inv(h@),
    {
        let mut msgs: Vec<Message> = Vec::new();
        msgs.push(Message { role: Role::System, content: system_prompt().to_owned() });
        let h = History { msgs };
        proof {
            assert(h@ =~= seq![system_msg()]);
        }
        h
    }

    /// How many turns the transcript holds.
    pub fn len(&self) -> (n: usize)
        ensures
            n == self@.len(),
    {
        self.msgs.len()
    }

    /// The role of the turn at the given position.
    pub fn role_at(&self, i: usize) -> (r: Role)
        requires
            i < self@.len(),
        ensures
            r == self@[i as int].role,
    {
        self.msgs[i].role
    }

    /// The text of the turn at the given position.
    pub fn content_at(&self, i: usize) -> (c: &str)
        requires
            i < self@.len(),
        ensures
            c@ == self@[i as int].content,
    {
        self.msgs[i].content.as_str()
    }

    /// Append one user turn with exactly the given text.
    pub fn append_user(&mut self, text: String)
        ensures
            final(self)@ == old(self)@.push(user_msg(text@)),
    {
        let ghost old_msgs = self.msgs@;
        self.msgs.push(Message { role: Role::User, content: text });
        proof {
            assert(final(self)@ =~= msgs_view(old_msgs).push(user_msg(text@)));
        }
    }

    /// Append one assistant turn with exactly the given text.
    pub fn append_assistant(&mut self, text: String)
        ensures
            final(self)@ == old(self)@.push(assistant_msg(text@)),
    {
        let ghost old_msgs = self.msgs@;
        self.msgs.push(Message { role: Role::Assistant, content: text });
        proof {
            assert(final(self)@ =~= msgs_view(old_msgs).push(assistant_msg(text@)));
        }
    }

    /// An exact copy of the transcript, taken as the snapshot one completion
    /// request is built from.
    pub fn snapshot(&self) -> (out: Vec<Message>)
        ensures
            msgs_view(out@) == self@,
    {
        let mut out: Vec<Message> = Vec::new();
        let n: usize = self.msgs.len();
        let mut i: usize = 0;
        while i < n
            invariant
                i <= n,
                n == self.msgs@.len(),
                out@.len() == i as int,
                forall|j: int| 0 <= j < i ==> out@[j]@ == self.msgs@[j]@,
            decreases n - i,
        {
            out.push(self.msgs[i].duplicate());
            i = i + 1;
        }
        proof {
            assert(msgs_view(out@) =~= self@);
        }
        out
    }
}

} // verus!
