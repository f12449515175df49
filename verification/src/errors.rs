//! The error taxonomy of the agent loop.
//!
//! Everything that can go wrong inside one turn is one of these values;
//! only a transport failure is fatal to the loop.

use vstd::prelude::*;

verus! {

use vstd::string::StringExecFns;

/// A failure of one tool invocation. All of these are recoverable: they are
/// surfaced to the user as text and the loop continues.
#[derive(Debug, Clone)]
pub enum ToolError {
    /// `read-file`: the path does not exist.
    NotFound { path: String },
    /// `read-file`: the path exists but is not a regular file.
    NotAFile { path: String },
    /// `change-directory`: the operating system refused the change.
    DirectoryChangeError { detail: String },
    /// `get-working-directory`: the operating system could not resolve it.
    EnvironmentError { detail: String },
    /// A required input field is missing or has the wrong type.
    InvalidToolInput { field: String },
    /// No tool of this name is registered.
    ToolNotFound { name: String },
}

/// A failure of one turn of the session loop.
#[derive(Debug, Clone)]
pub enum AgentError {
    /// The command channel failed; this one is fatal.
    TransportError,
    /// An embedding request failed; the turn falls back to plain chat.
    EmbeddingUnavailable,
    /// The chat completion failed or returned no assistant message.
    ChatCompletionError { detail: String },
    /// Two embeddings of different lengths were compared.
    DimensionMismatch,
    /// A tool invocation failed.
    Tool(ToolError),
}

impl ToolError {
    /// The user-visible text of this error.
    pub fn message(&self) -> (r: String)
        ensures
            r@ == self.message_spec(),
    {
        match self {
            ToolError::NotFound { path } => String::from_str("File not found: ").concat(
                path.as_str(),
            ),
            ToolError::NotAFile { path } => String::from_str("Path is not a file: ").concat(
                path.as_str(),
            ),
            ToolError::DirectoryChangeError { detail } => String::from_str(
                "Could not change directory: ",
            ).concat(detail.as_str()),
            ToolError::EnvironmentError { detail } => String::from_str(
                "Could not resolve the working directory: ",
            ).concat(detail.as_str()),
            ToolError::InvalidToolInput { field } => String::from_str(
                "Invalid input: missing required string field ",
            ).concat(field.as_str()),
            ToolError::ToolNotFound { name } => String::from_str("Unknown tool: ").concat(
                name.as_str(),
            ),
        }
    }

    /// What `message` returns, as a sequence of characters.
    pub open spec fn message_spec(&self) -> Seq<char> {
        match self {
            ToolError::NotFound { path } => "File not found: "@ + path@,
            ToolError::NotAFile { path } => "Path is not a file: "@ + path@,
            ToolError::DirectoryChangeError { detail } => "Could not change directory: "@
                + detail@,
            ToolError::EnvironmentError { detail } => "Could not resolve the working directory: "@
                + detail@,
            ToolError::InvalidToolInput { field } => "Invalid input: missing required string field "@
                + field@,
            ToolError::ToolNotFound { name } => "Unknown tool: "@ + name@,
        }
    }
}

impl AgentError {
    /// The user-visible text of this error, written back to the command
    /// channel in place of an assistant response.
    pub fn message(&self) -> (r: String)
        ensures
            r@ == self.message_spec(),
    {
        match self {
            AgentError::TransportError => String::from_str("Command channel failure"),
            AgentError::EmbeddingUnavailable => String::from_str("Embedding service unavailable"),
            AgentError::ChatCompletionError { detail } => String::from_str(
                "Chat completion failed: ",
            ).concat(detail.as_str()),
            AgentError::DimensionMismatch => String::from_str(
                "Embedding dimensions do not match",
            ),
            AgentError::Tool(e) => e.message(),
        }
    }

    /// What `message` returns, as a sequence of characters.
    pub open spec fn message_spec(&self) -> Seq<char> {
        match self {
            AgentError::TransportError => "Command channel failure"@,
            AgentError::EmbeddingUnavailable => "Embedding service unavailable"@,
            AgentError::ChatCompletionError { detail } => "Chat completion failed: "@ + detail@,
            AgentError::DimensionMismatch => "Embedding dimensions do not match"@,
            AgentError::Tool(e) => e.message_spec(),
        }
    }
}

} // verus!
