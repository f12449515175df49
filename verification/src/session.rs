//! The dispatcher: the session loop as an explicit state machine.
//!
//! One turn runs `AwaitingInput -> Routing -> Executing -> Responding ->
//! AwaitingInput`; the terminal `Stopped` state is reached only on the exit
//! command or a transport failure. Each `step` consumes the outcome of the
//! previous I/O action as an [`Event`] and returns the next action to
//! perform as a [`Directive`]; the surrounding process performs the I/O
//! (command channel, embedding requests, the chat call) and feeds the
//! result back in. Everything that can fail inside a turn short of the
//! transport is recovered: an embedding failure falls back to plain chat
//! for that turn only, and a chat failure is written back as text.

use vstd::prelude::*;

verus! {

use vstd::string::StringExecFns;
use crate::errors::AgentError;
use crate::history::{push_model, ChatMessage, Conversation, Role};
use crate::router::{embedding_views, route, spec_route_result};
use crate::similarity::{Embedding, Threshold};
use crate::tools::ToolRegistry;

/// Where the session loop stands.
#[derive(Debug)]
pub enum Phase {
    /// Waiting for the next query line.
    AwaitingInput,
    /// The query is read; its embedding and the tool-description
    /// embeddings are being fetched.
    Routing { query: String },
    /// The relevant tools are selected; the chat call is in flight,
    /// in function-call mode exactly when `selected` is non-empty.
    Executing { query: String, selected: Vec<usize> },
    /// The turn's result text is being written back.
    Responding { output: String },
    /// The session is over.
    Stopped,
}

/// The outcome of the I/O action the previous step asked for.
#[derive(Debug)]
pub enum Event {
    /// One line was read from the command channel.
    Line(String),
    /// Reading from the command channel failed.
    TransportFailed,
    /// The embedding service answered: the query's embedding, then one
    /// embedding per registered tool description, in registry order.
    EmbeddingsReady { query_embedding: Embedding, description_embeddings: Vec<Embedding> },
    /// The embedding service failed.
    EmbeddingsFailed,
    /// The chat call answered, with the assistant's text if any.
    ChatSucceeded { content: Option<String> },
    /// The chat call failed, with the error's text.
    ChatFailed { detail: String },
    /// The result text was written back.
    Written,
    /// Writing to the command channel failed.
    WriteFailed,
}

/// The I/O action the surrounding process must perform next.
#[derive(Debug)]
pub enum Directive {
    /// Write the prompt indicator, then read one line.
    ReadLine,
    /// Request one embedding per text: first the query, then each tool
    /// description, in registry order.
    RequestEmbeddings { texts: Vec<String> },
    /// Issue the chat call with these messages; pass the named tools for
    /// function-call mode, none for plain chat.
    RequestChat { messages: Vec<ChatMessage>, tool_names: Vec<String> },
    /// Write this text and a trailing newline to the command channel.
    WriteLine { text: String },
    /// The session is over; close the channel.
    Halt,
}

/// Whether a line is the exit command: the word `exit` in any case.
pub open spec fn is_exit_query(s: Seq<char>) -> bool {
    &&& s.len() == 4
    &&& (s[0] == 'e' || s[0] == 'E')
    &&& (s[1] == 'x' || s[1] == 'X')
    &&& (s[2] == 'i' || s[2] == 'I')
    &&& (s[3] == 't' || s[3] == 'T')
}

/// Whether a line is the exit command.
pub fn is_exit_command(s: &String) -> (r: bool)
    ensures
        r == is_exit_query(s@),
{
    if s.as_str().unicode_len() != 4 {
        return false;
    }
    let c0 = s.as_str().get_char(0);
    let c1 = s.as_str().get_char(1);
    let c2 = s.as_str().get_char(2);
    let c3 = s.as_str().get_char(3);
    (c0 == 'e' || c0 == 'E') && (c1 == 'x' || c1 == 'X') && (c2 == 'i' || c2 == 'I') && (c3 == 't'
        || c3 == 'T')
}

/// One interactive session: its configuration, its bounded history, and
/// where its loop stands.
#[derive(Debug)]
pub struct Session {
    pub registry: ToolRegistry,
    pub threshold: Threshold,
    /// How many matching tools the router may select at most.
    pub max_matches: usize,
    pub history: Conversation,
    /// Whether past turns are replayed into each chat request.
    pub history_enabled: bool,
    pub phase: Phase,
}

/// Which events a phase can consume.
pub open spec fn event_fits(phase: Phase, event: Event) -> bool {
    match phase {
        Phase::AwaitingInput => event is Line || event is TransportFailed,
        Phase::Routing { .. } => event is EmbeddingsReady || event is EmbeddingsFailed,
        Phase::Executing { .. } => event is ChatSucceeded || event is ChatFailed,
        Phase::Responding { .. } => event is Written || event is WriteFailed,
        Phase::Stopped => false,
    }
}

/// Embeddings handed in by an event are well-formed.
pub open spec fn event_embeddings_wf(event: Event) -> bool {
    match event {
        Event::EmbeddingsReady { query_embedding, description_embeddings } => {
            &&& query_embedding.wf()
            &&& forall|i: int| 0 <= i < description_embeddings@.len()
                ==> (#[trigger] description_embeddings@[i]).wf()
        },
        _ => true,
    }
}

/// The session's configuration never changes across a step.
pub open spec fn config_unchanged(pre: Session, post: Session) -> bool {
    &&& post.registry.tools@ == pre.registry.tools@
    &&& post.threshold == pre.threshold
    &&& post.max_matches == pre.max_matches
    &&& post.history_enabled == pre.history_enabled
    &&& post.history.bound == pre.history.bound
    &&& post.history.system.role == pre.history.system.role
    &&& post.history.system.content@ == pre.history.system.content@
}

/// The retained history is untouched.
pub open spec fn history_unchanged(pre: Session, post: Session) -> bool {
    post.history.turns_view() == pre.history.turns_view()
}

/// The message sequence of a chat request for query `q`: the system
/// message, the retained turns when history is enabled, then the query as
/// a user message.
pub open spec fn request_messages_ok(pre: Session, q: Seq<char>, messages: Seq<ChatMessage>) -> bool {
    if pre.history_enabled {
        &&& messages.len() == pre.history.turns@.len() + 2
        &&& messages[0].role == Role::System
        &&& messages[0].content@ == pre.history.system.content@
        &&& forall|i: int| 0 <= i < pre.history.turns@.len() ==> ((#[trigger] messages[i + 1]).role
            == pre.history.turns@[i].role && messages[i + 1].content@
            == pre.history.turns@[i].content@)
        &&& messages[messages.len() - 1].role == Role::User
        &&& messages[messages.len() - 1].content@ == q
    } else {
        &&& messages.len() == 2
        &&& messages[0].role == Role::System
        &&& messages[0].content@ == pre.history.system.content@
        &&& messages[1].role == Role::User
        &&& messages[1].content@ == q
    }
}

/// The tool names passed to the chat call name exactly the selected
/// registry entries, in selection order.
pub open spec fn tool_names_ok(pre: Session, selected: Seq<usize>, names: Seq<String>) -> bool {
    &&& names.len() == selected.len()
    &&& forall|i: int| 0 <= i < selected.len() ==> (selected[i] as int) < pre.registry.tools@.len()
        && (#[trigger] names[i])@ == pre.registry.tools@[selected[i] as int].name_spec()
}

/// The embeddings an event handed in are usable for routing: one per
/// registered tool, every one of the query's length.
pub open spec fn embeddings_usable(pre: Session, qe: Embedding, des: Seq<Embedding>) -> bool {
    &&& des.len() == pre.registry.tools@.len()
    &&& forall|i: int| 0 <= i < des.len() ==> (#[trigger] des[i])@.len() == qe@.len()
}

/// The error text written back when the chat call returns no assistant
/// message.
pub open spec fn missing_message_text() -> Seq<char> {
    "Chat completion failed: "@ + "no assistant message was returned"@
}

/// What one step does, for every phase/event pair the machine accepts.
pub open spec fn step_spec(pre: Session, event: Event, post: Session, d: Directive) -> bool {
    match (pre.phase, event) {
        (Phase::AwaitingInput, Event::Line(line)) => if is_exit_query(line@) {
            &&& post.phase is Stopped
            &&& d is Halt
            &&& history_unchanged(pre, post)
        } else {
            match (post.phase, d) {
                (Phase::Routing { query }, Directive::RequestEmbeddings { texts }) => {
                    &&& query@ == line@
                    &&& texts@.len() == pre.registry.tools@.len() + 1
                    &&& texts@[0]@ == line@
                    &&& forall|i: int| 0 <= i < pre.registry.tools@.len() ==> (#[trigger] texts@[i
                        + 1])@ == pre.registry.tools@[i].description_spec()
                    &&& history_unchanged(pre, post)
                },
                _ => false,
            }
        },
        (Phase::AwaitingInput, Event::TransportFailed) => {
            &&& post.phase is Stopped
            &&& d is Halt
            &&& history_unchanged(pre, post)
        },
        (
            Phase::Routing { query },
            Event::EmbeddingsReady { query_embedding, description_embeddings },
        ) => match (post.phase, d) {
            (
                Phase::Executing { query: q2, selected },
                Directive::RequestChat { messages, tool_names },
            ) => {
                &&& q2@ == query@
                &&& embeddings_usable(pre, query_embedding, description_embeddings@)
                    ==> selected@ == spec_route_result(
                    query_embedding@,
                    embedding_views(description_embeddings@),
                    pre.threshold.num as int,
                    pre.threshold.den as int,
                    pre.max_matches as int,
                )
                &&& !embeddings_usable(pre, query_embedding, description_embeddings@)
                    ==> selected@ == Seq::<usize>::empty()
                &&& request_messages_ok(pre, query@, messages@)
                &&& tool_names_ok(pre, selected@, tool_names@)
                &&& history_unchanged(pre, post)
            },
            _ => false,
        },
        (Phase::Routing { query }, Event::EmbeddingsFailed) => match (post.phase, d) {
            (
                Phase::Executing { query: q2, selected },
                Directive::RequestChat { messages, tool_names },
            ) => {
                &&& q2@ == query@
                &&& selected@ == Seq::<usize>::empty()
                &&& tool_names@.len() == 0
                &&& request_messages_ok(pre, query@, messages@)
                &&& history_unchanged(pre, post)
            },
            _ => false,
        },
        (Phase::Executing { query, .. }, Event::ChatSucceeded { content }) => match (
            post.phase,
            d,
        ) {
            (Phase::Responding { output }, Directive::WriteLine { text }) => match content {
                Some(reply) => {
                    &&& output@ == reply@
                    &&& text@ == reply@
                    &&& pre.history_enabled ==> post.history.turns_view() == push_model(
                        push_model(
                            pre.history.turns_view(),
                            pre.history.bound as int,
                            (Role::User, query@),
                        ),
                        pre.history.bound as int,
                        (Role::Assistant, reply@),
                    )
                    &&& !pre.history_enabled ==> history_unchanged(pre, post)
                },
                None => {
                    &&& output@ == missing_message_text()
                    &&& text@ == missing_message_text()
                    &&& history_unchanged(pre, post)
                },
            },
            _ => false,
        },
        (Phase::Executing { .. }, Event::ChatFailed { detail }) => match (post.phase, d) {
            (Phase::Responding { output }, Directive::WriteLine { text }) => {
                &&& output@ == "Chat completion failed: "@ + detail@
                &&& text@ == "Chat completion failed: "@ + detail@
                &&& history_unchanged(pre, post)
            },
            _ => false,
        },
        (Phase::Responding { .. }, Event::Written) => {
            &&& post.phase is AwaitingInput
            &&& d is ReadLine
            &&& history_unchanged(pre, post)
        },
        (Phase::Responding { .. }, Event::WriteFailed) => {
            &&& post.phase is Stopped
            &&& d is Halt
            &&& history_unchanged(pre, post)
        },
        _ => false,
    }
}

impl Session {
    /// Well-formedness: the invariant every session in use satisfies.
    pub open spec fn wf(&self) -> bool {
        &&& self.threshold.wf()
        &&& self.history.wf()
        &&& self.max_matches >= 1
    }

    /// Builds a fresh session in `AwaitingInput`; rejects an out-of-range
    /// threshold, a zero match limit, and a zero history bound.
    pub fn new(
        registry: ToolRegistry,
        threshold: Threshold,
        max_matches: usize,
        system_text: String,
        history_bound: usize,
        history_enabled: bool,
    ) -> (r: Option<Session>)
        ensures
            r is Some <==> (threshold.wf() && max_matches >= 1 && history_bound >= 1),
            r matches Some(s) ==> {
                &&& s.wf()
                &&& s.phase is AwaitingInput
                &&& s.registry.tools@ == registry.tools@
                &&& s.threshold == threshold
                &&& s.max_matches == max_matches
                &&& s.history_enabled == history_enabled
                &&& s.history.bound == history_bound
                &&& s.history.turns@.len() == 0
                &&& s.history.system.content@ == system_text@
            },
    {
        let threshold_ok = 1 <= threshold.den && threshold.den
            <= crate::similarity::THRESHOLD_DEN_LIMIT && -threshold.den <= threshold.num
            && threshold.num <= threshold.den;
        if !threshold_ok || max_matches < 1 {
            return None;
        }
        match Conversation::new(system_text, history_bound) {
            Some(history) => Some(
                Session {
                    registry,
                    threshold,
                    max_matches,
                    history,
                    history_enabled,
                    phase: Phase::AwaitingInput,
                },
            ),
            None => None,
        }
    }

    /// The texts to embed for a query: the query itself, then each tool
    /// description, in registry order.
    pub fn embed_texts(&self, query: &String) -> (r: Vec<String>)
        ensures
            r@.len() == self.registry.tools@.len() + 1,
            r@[0]@ == query@,
            forall|i: int| 0 <= i < self.registry.tools@.len() ==> (#[trigger] r@[i + 1])@
                == self.registry.tools@[i].description_spec(),
    {
        let mut texts: Vec<String> = Vec::new();
        texts.push(query.clone());
        let descriptions = self.registry.descriptions();
        let mut i: usize = 0;
        while i < descriptions.len()
            invariant
                i <= descriptions@.len(),
                descriptions@.len() == self.registry.tools@.len(),
                forall|j: int| 0 <= j < descriptions@.len() ==> (#[trigger] descriptions@[j])@
                    == self.registry.tools@[j].description_spec(),
                texts@.len() == i + 1,
                texts@[0]@ == query@,
                forall|j: int| 0 <= j < i ==> (#[trigger] texts@[j + 1])@
                    == self.registry.tools@[j].description_spec(),
            decreases descriptions@.len() - i,
        {
            texts.push(descriptions[i].clone());
            i += 1;
        }
        texts
    }

    /// The message sequence of a chat request for one query.
    fn request_messages(&self, query: &String) -> (r: Vec<ChatMessage>)
        requires
            self.history.wf(),
        ensures
            request_messages_ok(*self, query@, r@),
    {
        if self.history_enabled {
            let mut messages = self.history.full_messages();
            let ghost base = messages@;
            messages.push(ChatMessage::user(query.clone()));
            proof {
                assert(messages@[0] == base[0]);
                assert forall|i: int| 0 <= i < self.history.turns@.len() implies ((
                #[trigger] messages@[i + 1]).role == self.history.turns@[i].role && messages@[i
                    + 1].content@ == self.history.turns@[i].content@) by {
                    assert(messages@[i + 1] == base[i + 1]);
                    assert(crate::history::msg_eq(base[i + 1], self.history.turns@[i]));
                }
            }
            messages
        } else {
            let mut messages: Vec<ChatMessage> = Vec::new();
            messages.push(self.history.system.duplicate());
            messages.push(ChatMessage::user(query.clone()));
            messages
        }
    }

    /// The names of the selected tools, in selection order.
    fn selected_names(&self, selected: &Vec<usize>) -> (r: Vec<String>)
        requires
            forall|i: int| 0 <= i < selected@.len() ==> (#[trigger] selected@[i] as int)
                < self.registry.tools@.len(),
        ensures
            tool_names_ok(*self, selected@, r@),
    {
        let mut names: Vec<String> = Vec::new();
        let mut i: usize = 0;
        while i < selected.len()
            invariant
                i <= selected@.len(),
                forall|j: int| 0 <= j < selected@.len() ==> (#[trigger] selected@[j] as int)
                    < self.registry.tools@.len(),
                names@.len() == i,
                forall|j: int| 0 <= j < i ==> (#[trigger] names@[j])@
                    == self.registry.tools@[selected@[j] as int].name_spec(),
            decreases selected@.len() - i,
        {
            let t = self.registry.get(selected[i]);
            names.push(t.name());
            i += 1;
        }
        names
    }

    /// Consumes the outcome of the previous I/O action and moves the
    /// machine one transition, returning the next action to perform.
    pub fn step(&mut self, event: Event) -> (d: Directive)
        requires
            old(self).wf(),
            event_fits(old(self).phase, event),
            event_embeddings_wf(event),
        ensures
            final(self).wf(),
            config_unchanged(*old(self), *final(self)),
            step_spec(*old(self), event, *final(self), d),
    {
        let mut phase = Phase::Stopped;
        core::mem::swap(&mut phase, &mut self.phase);
        let (new_phase, directive): (Phase, Directive) = match (phase, event) {
            (Phase::AwaitingInput, Event::Line(line)) => {
                if is_exit_command(&line) {
                    (Phase::Stopped, Directive::Halt)
                } else {
                    let texts = self.embed_texts(&line);
                    (Phase::Routing { query: line }, Directive::RequestEmbeddings { texts })
                }
            },
            (Phase::AwaitingInput, Event::TransportFailed) => (Phase::Stopped, Directive::Halt),
            (
                Phase::Routing { query },
                Event::EmbeddingsReady { query_embedding, description_embeddings },
            ) => {
                let selected: Vec<usize> = if description_embeddings.len()
                    == self.registry.len() {
                    match route(
                        &query_embedding,
                        &description_embeddings,
                        &self.threshold,
                        self.max_matches,
                    ) {
                        Ok(sel) => sel,
                        Err(_) => Vec::new(),
                    }
                } else {
                    Vec::new()
                };
                proof {
                    if embeddings_usable(*old(self), query_embedding, description_embeddings@) {
                        crate::router::lemma_selected_bounds(
                            query_embedding@,
                            embedding_views(description_embeddings@),
                            self.threshold.num as int,
                            self.threshold.den as int,
                            description_embeddings@.len() as int,
                        );
                    }
                }
                let tool_names = self.selected_names(&selected);
                let messages = self.request_messages(&query);
                (
                    Phase::Executing { query, selected },
                    Directive::RequestChat { messages, tool_names },
                )
            },
            (Phase::Routing { query }, Event::EmbeddingsFailed) => {
                let selected: Vec<usize> = Vec::new();
                let tool_names: Vec<String> = Vec::new();
                let messages = self.request_messages(&query);
                (
                    Phase::Executing { query, selected },
                    Directive::RequestChat { messages, tool_names },
                )
            },
            (Phase::Executing { query, selected: _ }, Event::ChatSucceeded { content }) => {
                match content {
                    Some(reply) => {
                        if self.history_enabled {
                            self.history.push(ChatMessage::user(query.clone()));
                            self.history.push(ChatMessage::assistant(reply.clone()));
                        }
                        let output = reply.clone();
                        (Phase::Responding { output }, Directive::WriteLine { text: reply })
                    },
                    None => {
                        let err = AgentError::ChatCompletionError {
                            detail: String::from_str("no assistant message was returned"),
                        };
                        let text = err.message();
                        let output = text.clone();
                        (Phase::Responding { output }, Directive::WriteLine { text })
                    },
                }
            },
            (Phase::Executing { query: _, selected: _ }, Event::ChatFailed { detail }) => {
                let err = AgentError::ChatCompletionError { detail };
                let text = err.message();
                let output = text.clone();
                (Phase::Responding { output }, Directive::WriteLine { text })
            },
            (Phase::Responding { output: _ }, Event::Written) => (
                Phase::AwaitingInput,
                Directive::ReadLine,
            ),
            (Phase::Responding { output: _ }, Event::WriteFailed) => (
                Phase::Stopped,
                Directive::Halt,
            ),
            (p, _) => {
                proof {
                    assert(false);
                }
                (p, Directive::Halt)
            },
        };
        self.phase = new_phase;
        directive
    }
}

/// An embedding failure is recovered within its own turn: the machine
/// proceeds to the chat call in plain-chat mode — no tools passed — and the
/// configuration and history that the next turn's routing depends on are
/// untouched.
pub proof fn lemma_embedding_failure_falls_back(
    pre: Session,
    event: Event,
    post: Session,
    d: Directive,
)
    requires
        pre.phase matches Phase::Routing { .. },
        event is EmbeddingsFailed,
        config_unchanged(pre, post),
        step_spec(pre, event, post, d),
    ensures
        post.phase matches Phase::Executing { selected, .. } && selected@.len() == 0,
        d matches Directive::RequestChat { tool_names, .. } && tool_names@.len() == 0,
        post.registry.tools@ == pre.registry.tools@,
        post.threshold == pre.threshold,
        post.max_matches == pre.max_matches,
        history_unchanged(pre, post),
{
}

/// The exit command stops the machine without any response being written:
/// the step out of `AwaitingInput` on an exit line halts at once.
pub proof fn lemma_exit_stops_without_response(
    pre: Session,
    line: String,
    post: Session,
    d: Directive,
)
    requires
        pre.phase is AwaitingInput,
        is_exit_query(line@),
        step_spec(pre, Event::Line(line), post, d),
    ensures
        post.phase is Stopped,
        d is Halt,
        !(d matches Directive::WriteLine { .. }),
        history_unchanged(pre, post),
{
}

} // verus!
