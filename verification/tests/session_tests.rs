use tool_router::config::Config;
use tool_router::errors::AgentError;
use tool_router::history::{ChatMessage, Conversation, Role};
use tool_router::session::{is_exit_command, Directive, Event, Phase, Session};
use tool_router::similarity::{Embedding, Threshold};
use tool_router::tools::{ListDirOutcome, ListDirTool, ToolRegistry};

fn emb(coords: Vec<i64>) -> Embedding {
    Embedding::from_coords(coords).expect("coordinates should be in range")
}

fn fresh_session(history_enabled: bool) -> Session {
    Session::new(
        ToolRegistry::standard(),
        Threshold::default(),
        4,
        String::from("You are a helpful assistant."),
        10,
        history_enabled,
    )
    .expect("the standard configuration is accepted")
}

/// One embedding per registered tool; the tool at `matching` gets the
/// query's own embedding, every other tool an orthogonal one.
fn description_embeddings(session: &Session, matching: usize) -> Vec<Embedding> {
    let n = session.registry.len();
    let mut out = Vec::new();
    for i in 0..n {
        if i == matching {
            out.push(emb(vec![1, 0]));
        } else {
            out.push(emb(vec![0, 1]));
        }
    }
    out
}

#[test]
fn exit_recognition_is_case_insensitive() {
    assert!(is_exit_command(&String::from("exit")));
    assert!(is_exit_command(&String::from("EXIT")));
    assert!(is_exit_command(&String::from("eXiT")));
    assert!(!is_exit_command(&String::from("exit ")));
    assert!(!is_exit_command(&String::from("quit")));
    assert!(!is_exit_command(&String::from("")));
}

#[test]
fn exit_stops_the_loop_without_a_response() {
    let mut s = fresh_session(false);
    let d = s.step(Event::Line(String::from("EXIT")));
    assert!(matches!(d, Directive::Halt));
    assert!(matches!(s.phase, Phase::Stopped));
}

#[test]
fn list_query_routes_to_function_call_mode_and_returns_the_listing() {
    let mut s = fresh_session(false);
    // `ls` stands at registry position 2
    let d = s.step(Event::Line(String::from("list the files here")));
    let texts = match d {
        Directive::RequestEmbeddings { texts } => texts,
        other => panic!("expected an embedding request, got {:?}", other),
    };
    assert_eq!(texts.len(), 5);
    assert_eq!(texts[0], "list the files here");
    assert_eq!(texts[3], "Lists all files and directories in the current working directory.");

    let des = description_embeddings(&s, 2);
    let d = s.step(Event::EmbeddingsReady {
        query_embedding: emb(vec![1, 0]),
        description_embeddings: des,
    });
    let (messages, tool_names) = match d {
        Directive::RequestChat { messages, tool_names } => (messages, tool_names),
        other => panic!("expected a chat request, got {:?}", other),
    };
    assert_eq!(tool_names, vec!["ls"], "function-call mode with exactly the matched tool");
    assert_eq!(messages.len(), 2);
    assert!(matches!(messages[0].role, Role::System));
    assert!(matches!(messages[1].role, Role::User));
    assert_eq!(messages[1].content, "list the files here");

    // the model invokes the matched tool; its result is the listing
    let entries = vec![String::from("a.txt"), String::from("b.txt")];
    let listing = ListDirTool.conclude(ListDirOutcome::Entries(entries)).unwrap();
    let d = s.step(Event::ChatSucceeded { content: Some(listing.clone()) });
    match d {
        Directive::WriteLine { text } => assert_eq!(text, "a.txt\nb.txt"),
        other => panic!("expected a write, got {:?}", other),
    }
    match &s.phase {
        Phase::Responding { output } => assert_eq!(output, &listing),
        other => panic!("expected Responding, got {:?}", other),
    }
    let d = s.step(Event::Written);
    assert!(matches!(d, Directive::ReadLine));
    assert!(matches!(s.phase, Phase::AwaitingInput));
}

#[test]
fn embedding_failure_falls_back_to_plain_chat_for_that_turn_only() {
    let mut s = fresh_session(false);
    // first turn: the embedding service fails
    s.step(Event::Line(String::from("list the files here")));
    let d = s.step(Event::EmbeddingsFailed);
    match d {
        Directive::RequestChat { tool_names, .. } => {
            assert!(tool_names.is_empty(), "fallback must be plain-chat mode")
        },
        other => panic!("expected a chat request, got {:?}", other),
    }
    s.step(Event::ChatSucceeded { content: Some(String::from("plain answer")) });
    s.step(Event::Written);

    // next turn: the service has recovered and routing works again
    s.step(Event::Line(String::from("list the files here")));
    let des = description_embeddings(&s, 2);
    let d = s.step(Event::EmbeddingsReady {
        query_embedding: emb(vec![1, 0]),
        description_embeddings: des,
    });
    match d {
        Directive::RequestChat { tool_names, .. } => assert_eq!(tool_names, vec!["ls"]),
        other => panic!("expected a chat request, got {:?}", other),
    }
}

#[test]
fn chat_failure_is_written_back_and_the_loop_continues() {
    let mut s = fresh_session(false);
    s.step(Event::Line(String::from("hello")));
    s.step(Event::EmbeddingsFailed);
    let d = s.step(Event::ChatFailed { detail: String::from("connection refused") });
    match d {
        Directive::WriteLine { text } => {
            assert_eq!(text, "Chat completion failed: connection refused")
        },
        other => panic!("expected a write, got {:?}", other),
    }
    let d = s.step(Event::Written);
    assert!(matches!(d, Directive::ReadLine));
}

#[test]
fn missing_assistant_message_is_a_chat_completion_error() {
    let mut s = fresh_session(false);
    s.step(Event::Line(String::from("hello")));
    s.step(Event::EmbeddingsFailed);
    let d = s.step(Event::ChatSucceeded { content: None });
    match d {
        Directive::WriteLine { text } => {
            assert_eq!(text, "Chat completion failed: no assistant message was returned")
        },
        other => panic!("expected a write, got {:?}", other),
    }
}

#[test]
fn transport_failure_stops_the_loop() {
    let mut s = fresh_session(false);
    let d = s.step(Event::TransportFailed);
    assert!(matches!(d, Directive::Halt));
    assert!(matches!(s.phase, Phase::Stopped));
}

#[test]
fn enabled_history_records_turns_and_replays_them() {
    let mut s = fresh_session(true);
    s.step(Event::Line(String::from("first question")));
    s.step(Event::EmbeddingsFailed);
    s.step(Event::ChatSucceeded { content: Some(String::from("first answer")) });
    s.step(Event::Written);
    assert_eq!(s.history.len(), 2);

    s.step(Event::Line(String::from("second question")));
    let d = s.step(Event::EmbeddingsFailed);
    let messages = match d {
        Directive::RequestChat { messages, .. } => messages,
        other => panic!("expected a chat request, got {:?}", other),
    };
    // system + two recorded messages + current query
    assert_eq!(messages.len(), 4);
    assert_eq!(messages[1].content, "first question");
    assert_eq!(messages[2].content, "first answer");
    assert_eq!(messages[3].content, "second question");
}

#[test]
fn history_bound_ten_keeps_the_most_recent_ten() {
    let mut c = Conversation::new(String::from("system"), 10).unwrap();
    // twelve accumulated user/assistant pairs
    for i in 1..=12 {
        c.push(ChatMessage::user(format!("question {}", i)));
        c.push(ChatMessage::assistant(format!("answer {}", i)));
    }
    assert_eq!(c.len(), 10);
    // the oldest were evicted first: what remains are pairs 8 through 12
    assert_eq!(c.turns[0].content, "question 8");
    assert_eq!(c.turns[1].content, "answer 8");
    assert_eq!(c.turns[8].content, "question 12");
    assert_eq!(c.turns[9].content, "answer 12");
}

#[test]
fn conversation_rejects_a_zero_bound() {
    assert!(Conversation::new(String::from("system"), 0).is_none());
    assert!(Session::new(
        ToolRegistry::standard(),
        Threshold::default(),
        4,
        String::from("s"),
        0,
        true,
    )
    .is_none());
    assert!(Session::new(
        ToolRegistry::standard(),
        Threshold::default(),
        0,
        String::from("s"),
        10,
        true,
    )
    .is_none());
}

#[test]
fn config_defaults_are_the_documented_ones() {
    let c = Config::default();
    assert_eq!(c.command_server, "127.0.0.1:9001");
    assert_eq!(c.ollama_server, "http://localhost");
    assert_eq!(c.ollama_port, 11434);
    assert_eq!(c.ollama_model, "llama3.2:latest");
    assert_eq!(c.embedding_model, "nomic-embed-text:latest");
}

#[test]
fn agent_error_messages_are_exact() {
    assert_eq!(AgentError::TransportError.message(), "Command channel failure");
    assert_eq!(AgentError::EmbeddingUnavailable.message(), "Embedding service unavailable");
    assert_eq!(AgentError::DimensionMismatch.message(), "Embedding dimensions do not match");
    let e = AgentError::ChatCompletionError { detail: String::from("boom") };
    assert_eq!(e.message(), "Chat completion failed: boom");
}
