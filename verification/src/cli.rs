//! The arguments of the command-line front end.

use vstd::prelude::*;

verus! {

/// Arguments of `run`.
pub struct RunArgs {
    /// Name of the cascade to use (defined in config).
    pub cascade: String,
    /// Text prompt to send.
    pub prompt: Option<String>,
    /// Path to a JSON file containing the conversation.
    pub file: Option<String>,
    /// Path to config file (default: ~/.config/llm-cascade/config.toml).
    pub config: Option<String>,
}

/// Arguments of `setup`.
pub struct SetupArgs {
    /// Path to config file (default: ~/.config/llm-cascade/config.toml).
    pub config: Option<String>,
    /// Run interactive setup wizard.
    pub interactive: bool,
}

/// The `key` subcommands.
pub enum KeyCommand {
    /// Store an API key in the OS keyring for a provider (`key set`).
    SetKey { provider: String, config: Option<String> },
    /// Retrieve and display an API key for a provider.
    Get { provider: String, config: Option<String>, show_full: bool },
    /// List all providers and their key status.
    List { config: Option<String> },
    /// Delete an API key from the OS keyring.
    Delete { provider: String, config: Option<String> },
}

/// Arguments of `key`.
pub struct KeyArgs {
    pub command: KeyCommand,
}

/// Where the conversation of a `run` comes from.
pub enum ConversationSource {
    /// A JSON file to read.
    File(String),
    /// A single user prompt.
    Prompt(String),
    /// Neither was given.
    Missing,
}

/// A conversation file wins over a prompt; without either the run cannot start.
pub fn conversation_source(args: &RunArgs) -> (r: ConversationSource)
    ensures
        match args.file {
            Some(f) => r matches ConversationSource::File(x) && x@ == f@,
            None => match args.prompt {
                Some(p) => r matches ConversationSource::Prompt(x) && x@ == p@,
                None => r is Missing,
            },
        },
{
    match &args.file {
        Some(f) => ConversationSource::File(f.clone()),
        None => match &args.prompt {
            Some(p) => ConversationSource::Prompt(p.clone()),
            None => ConversationSource::Missing,
        },
    }
}

} // verus!
