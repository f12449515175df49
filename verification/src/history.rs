//! The conversation: a system message fixed for the session, plus the
//! user/assistant messages of past turns, bounded to the most recent
//! `bound` entries — when full, the oldest entry is evicted first.

use vstd::prelude::*;

verus! {

/// Who produced a message.
#[derive(Debug, Clone, Copy, PartialEq, Eq, Structural)]
pub enum Role {
    System,
    User,
    Assistant,
}

/// One message of a conversation.
#[derive(Debug, Clone)]
pub struct ChatMessage {
    pub role: Role,
    pub content: String,
}

/// Whether two messages agree in role and text.
pub open spec fn msg_eq(a: ChatMessage, b: ChatMessage) -> bool {
    a.role == b.role && a.content@ == b.content@
}

impl ChatMessage {
    /// The session's system message.
    pub fn system(content: String) -> (r: ChatMessage)
        ensures
            r.role == Role::System,
            r.content@ == content@,
    {
        ChatMessage { role: Role::System, content }
    }

    /// One user query.
    pub fn user(content: String) -> (r: ChatMessage)
        ensures
            r.role == Role::User,
            r.content@ == content@,
    {
        ChatMessage { role: Role::User, content }
    }

    /// One assistant reply.
    pub fn assistant(content: String) -> (r: ChatMessage)
        ensures
            r.role == Role::Assistant,
            r.content@ == content@,
    {
        ChatMessage { role: Role::Assistant, content }
    }

    /// A copy with the same role and text.
    pub fn duplicate(&self) -> (r: ChatMessage)
        ensures
            msg_eq(r, *self),
    {
        ChatMessage { role: self.role, content: self.content.clone() }
    }
}

/// The bounded conversation history of one session.
#[derive(Debug)]
pub struct Conversation {
    /// The persona/instruction message, prepended once, immutable.
    pub system: ChatMessage,
    /// The retained turn messages, oldest first.
    pub turns: Vec<ChatMessage>,
    /// How many turn messages are retained at most.
    pub bound: usize,
}

/// How one push evolves the retained sequence: the message is appended at
/// the end, and when the bound is already reached the oldest entry is
/// evicted first.
pub open spec fn push_model(
    turns: Seq<(Role, Seq<char>)>,
    bound: int,
    m: (Role, Seq<char>),
) -> Seq<(Role, Seq<char>)> {
    if turns.len() < bound {
        turns.push(m)
    } else {
        turns.subrange(1, turns.len() as int).push(m)
    }
}

impl Conversation {
    /// The retained turn messages as plain values: role and text, oldest
    /// first.
    pub open spec fn turns_view(&self) -> Seq<(Role, Seq<char>)> {
        self.turns@.map_values(|m: ChatMessage| (m.role, m.content@))
    }

    /// Well-formedness: the bound is positive, at most `bound` turn
    /// messages are retained, and none of them is a system message.
    pub open spec fn wf(&self) -> bool {
        &&& self.bound >= 1
        &&& self.turns@.len() <= self.bound
        &&& self.system.role == Role::System
        &&& forall|i: int| 0 <= i < self.turns@.len() ==> #[trigger] self.turns@[i].role
            != Role::System
    }

    /// A fresh conversation holding only the system message; rejects a
    /// zero bound.
    pub fn new(system_text: String, bound: usize) -> (r: Option<Conversation>)
        ensures
            r is Some <==> bound >= 1,
            r matches Some(c) ==> {
                &&& c.wf()
                &&& c.system.content@ == system_text@
                &&& c.turns@.len() == 0
                &&& c.bound == bound
            },
    {
        if bound >= 1 {
            Some(
                Conversation {
                    system: ChatMessage::system(system_text),
                    turns: Vec::new(),
                    bound,
                },
            )
        } else {
            None
        }
    }

    /// Appends one turn message, evicting the oldest retained message
    /// first when the history is already full.
    pub fn push(&mut self, msg: ChatMessage)
        requires
            old(self).wf(),
            msg.role != Role::System,
        ensures
            final(self).wf(),
            final(self).bound == old(self).bound,
            final(self).system == old(self).system,
            old(self).turns@.len() < old(self).bound ==> final(self).turns@ == old(
                self,
            ).turns@.push(msg),
            old(self).turns@.len() == old(self).bound ==> final(self).turns@ == old(
                self,
            ).turns@.subrange(1, old(self).turns@.len() as int).push(msg),
            final(self).turns_view() == push_model(
                old(self).turns_view(),
                old(self).bound as int,
                (msg.role, msg.content@),
            ),
    {
        if self.turns.len() == self.bound {
            self.turns.remove(0);
        }
        self.turns.push(msg);
        proof {
            assert(self.turns_view() =~= push_model(
                old(self).turns_view(),
                old(self).bound as int,
                (msg.role, msg.content@),
            ));
        }
    }

    /// How many turn messages are retained.
    pub fn len(&self) -> (r: usize)
        ensures
            r == self.turns@.len(),
    {
        self.turns.len()
    }

    /// The full message sequence of a request: the system message followed
    /// by the retained turn messages, oldest first.
    pub fn full_messages(&self) -> (r: Vec<ChatMessage>)
        ensures
            r@.len() == self.turns@.len() + 1,
            msg_eq(r@[0], self.system),
            forall|i: int| 0 <= i < self.turns@.len() ==> msg_eq(
                #[trigger] r@[i + 1],
                self.turns@[i],
            ),
    {
        let mut out: Vec<ChatMessage> = Vec::new();
        out.push(self.system.duplicate());
        let mut i: usize = 0;
        while i < self.turns.len()
            invariant
                i <= self.turns@.len(),
                out@.len() == i + 1,
                msg_eq(out@[0], self.system),
                forall|j: int| 0 <= j < i ==> msg_eq(#[trigger] out@[j + 1], self.turns@[j]),
            decreases self.turns@.len() - i,
        {
            out.push(self.turns[i].duplicate());
            i += 1;
        }
        out
    }
}

/// After any push, the history never holds more than `bound` messages; the
/// new message stands last, and when the history was full the entry evicted
/// is exactly the oldest one — every other retained entry moves up by one.
pub proof fn lemma_push_keeps_most_recent(
    turns: Seq<(Role, Seq<char>)>,
    m: (Role, Seq<char>),
    bound: int,
)
    requires
        1 <= bound,
        turns.len() <= bound,
    ensures
        push_model(turns, bound, m).len() <= bound,
        push_model(turns, bound, m).last() == m,
        turns.len() < bound ==> push_model(turns, bound, m) == turns.push(m),
        turns.len() == bound ==> forall|i: int|
            0 <= i < bound - 1 ==> push_model(turns, bound, m)[i] == turns[i + 1],
{
}

} // verus!
