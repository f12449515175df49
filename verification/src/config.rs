//! The configuration surface: connection parameters for the command
//! channel and the model endpoint, with their documented defaults.
//!
//! Parsing overrides from the process arguments happens outside this
//! crate; when that fails, the defaults below are used instead — a parse
//! failure is never fatal.

use vstd::prelude::*;

verus! {

use vstd::string::StringExecFns;

/// The connection parameters of one session.
#[derive(Debug, Clone)]
pub struct Config {
    /// Address of the command server the session connects to.
    pub command_server: String,
    /// Address of the model endpoint.
    pub ollama_server: String,
    /// Port of the model endpoint.
    pub ollama_port: u16,
    /// Name of the chat model.
    pub ollama_model: String,
    /// Name of the embedding model.
    pub embedding_model: String,
}

impl Default for Config {
    /// The documented defaults, used whenever no override is given.
    fn default() -> (r: Config)
        ensures
            r.command_server@ == "127.0.0.1:9001"@,
            r.ollama_server@ == "http://localhost"@,
            r.ollama_port == 11434,
            r.ollama_model@ == "llama3.2:latest"@,
            r.embedding_model@ == "nomic-embed-text:latest"@,
    {
        Config {
            command_server: String::from_str("127.0.0.1:9001"),
            ollama_server: String::from_str("http://localhost"),
            ollama_port: 11434,
            ollama_model: String::from_str("llama3.2:latest"),
            embedding_model: String::from_str("nomic-embed-text:latest"),
        }
    }
}

} // verus!
