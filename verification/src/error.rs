//! The library's error taxonomy and its remediation hints.

use vstd::prelude::*;
use crate::text::{contains_seq, contains_chars, str_to_chars, push_str_chars, chars_to_string};

verus! {

/// Mathematical model of an error value: each variant's message as a
/// character sequence.
pub enum ErrorModel {
    Git(Seq<char>),
    Config(Seq<char>),
    Llm(Seq<char>),
    Network(Seq<char>),
    Io(Seq<char>),
    Serde(Seq<char>),
    NoStagedChanges,
    UserCancelled,
    InvalidInput(Seq<char>),
    RetryLimitExceeded,
    Other(Seq<char>),
}

/// Everything this library's operations can fail with.
///
/// Retry-limit exhaustion is a policy outcome distinct from backend failure,
/// and user cancellation is a successful termination, not a fault.
#[derive(Debug, Clone)]
pub enum GcopError {
    /// A version-control operation failed; the message comes through verbatim.
    Git(String),
    /// The configuration is unusable; carries a remediation-oriented message.
    Config(String),
    /// The generation backend failed or returned an unusable response.
    Llm(String),
    /// The transport failed below the HTTP layer.
    Network(String),
    /// An input/output operation failed.
    Io(String),
    /// Serializing or deserializing a value failed.
    Serde(String),
    /// Nothing is staged, so there is nothing to describe.
    NoStagedChanges,
    /// The user chose to stop; not a failure.
    UserCancelled,
    /// An argument was rejected before any work was done.
    InvalidInput(String),
    /// The configured number of generation attempts is exhausted.
    RetryLimitExceeded,
    /// An error that fits no other category.
    Other(String),
}

pub type GcopResult<T> = Result<T, GcopError>;

impl View for GcopError {
    type V = ErrorModel;

    open spec fn view(&self) -> ErrorModel {
        match self {
            GcopError::Git(m) => ErrorModel::Git(m@),
            GcopError::Config(m) => ErrorModel::Config(m@),
            GcopError::Llm(m) => ErrorModel::Llm(m@),
            GcopError::Network(m) => ErrorModel::Network(m@),
            GcopError::Io(m) => ErrorModel::Io(m@),
            GcopError::Serde(m) => ErrorModel::Serde(m@),
            GcopError::NoStagedChanges => ErrorModel::NoStagedChanges,
            GcopError::UserCancelled => ErrorModel::UserCancelled,
            GcopError::InvalidInput(m) => ErrorModel::InvalidInput(m@),
            GcopError::RetryLimitExceeded => ErrorModel::RetryLimitExceeded,
            GcopError::Other(m) => ErrorModel::Other(m@),
        }
    }
}

/// The rendered message of an error, prefixed by its category.
pub open spec fn spec_message(e: ErrorModel) -> Seq<char> {
    match e {
        ErrorModel::Git(m) => "Git error: "@ + m,
        ErrorModel::Config(m) => "Configuration error: "@ + m,
        ErrorModel::Llm(m) => "LLM provider error: "@ + m,
        ErrorModel::Network(m) => "Network error: "@ + m,
        ErrorModel::Io(m) => "IO error: "@ + m,
        ErrorModel::Serde(m) => "Serialization error: "@ + m,
        ErrorModel::NoStagedChanges => "No staged changes found"@,
        ErrorModel::UserCancelled => "Operation cancelled by user"@,
        ErrorModel::InvalidInput(m) => "Invalid input: "@ + m,
        ErrorModel::RetryLimitExceeded => "Too many retries"@,
        ErrorModel::Other(m) => m,
    }
}

/// The remediation hint offered for an error, if one can be derived from its
/// category and message.
pub open spec fn spec_suggestion(e: ErrorModel) -> Option<Seq<char>> {
    match e {
        ErrorModel::NoStagedChanges => Some(
            "Run 'git add <files>' to stage your changes first"@,
        ),
        ErrorModel::Config(msg) => if contains_seq(msg, "API key not found"@) {
            if contains_seq(msg, "Anthropic"@) {
                Some(
                    "Add 'api_key = \"sk-ant-...\"' to [llm.providers.anthropic] in ~/.config/gcop/config.toml, or set ANTHROPIC_API_KEY"@,
                )
            } else if contains_seq(msg, "OpenAI"@) {
                Some(
                    "Add 'api_key = \"sk-...\"' to [llm.providers.openai] in ~/.config/gcop/config.toml, or set OPENAI_API_KEY"@,
                )
            } else {
                Some("Set api_key in ~/.config/gcop/config.toml"@)
            }
        } else if contains_seq(msg, "not found in config"@) {
            Some(
                "Check your ~/.config/gcop/config.toml or use the default providers: anthropic, openai, ollama"@,
            )
        } else {
            None
        },
        ErrorModel::Llm(msg) => if contains_seq(msg, "401"@) {
            Some("Check if your API key is valid and has not expired"@)
        } else if contains_seq(msg, "429"@) {
            Some("Rate limit exceeded. Wait a moment and try again, or upgrade your API plan"@)
        } else if contains_seq(msg, "500"@) || contains_seq(msg, "503"@) {
            Some("API service is temporarily unavailable. Try again in a few moments"@)
        } else if contains_seq(msg, "Failed to parse"@) {
            Some("Try using --verbose flag to see the full LLM response and debug the issue"@)
        } else {
            None
        },
        _ => None,
    }
}

/// Substring test between a string's characters and a pattern literal.
fn msg_contains(msg: &String, pat: &str) -> (r: bool)
    ensures
        r == contains_seq(msg@, pat@),
{
    let m = str_to_chars(msg.as_str());
    let p = str_to_chars(pat);
    contains_chars(&m, &p)
}

impl GcopError {
    /// Render the error as its human-readable message.
    pub fn message_string(&self) -> (r: String)
        ensures
            r@ == spec_message(self@),
    {
        let mut out: Vec<char> = Vec::new();
        match self {
            GcopError::Git(m) => {
                push_str_chars(&mut out, "Git error: ");
                push_str_chars(&mut out, m.as_str());
            },
            GcopError::Config(m) => {
                push_str_chars(&mut out, "Configuration error: ");
                push_str_chars(&mut out, m.as_str());
            },
            GcopError::Llm(m) => {
                push_str_chars(&mut out, "LLM provider error: ");
                push_str_chars(&mut out, m.as_str());
            },
            GcopError::Network(m) => {
                push_str_chars(&mut out, "Network error: ");
                push_str_chars(&mut out, m.as_str());
            },
            GcopError::Io(m) => {
                push_str_chars(&mut out, "IO error: ");
                push_str_chars(&mut out, m.as_str());
            },
            GcopError::Serde(m) => {
                push_str_chars(&mut out, "Serialization error: ");
                push_str_chars(&mut out, m.as_str());
            },
            GcopError::NoStagedChanges => {
                push_str_chars(&mut out, "No staged changes found");
            },
            GcopError::UserCancelled => {
                push_str_chars(&mut out, "Operation cancelled by user");
            },
            GcopError::InvalidInput(m) => {
                push_str_chars(&mut out, "Invalid input: ");
                push_str_chars(&mut out, m.as_str());
            },
            GcopError::RetryLimitExceeded => {
                push_str_chars(&mut out, "Too many retries");
            },
            GcopError::Other(m) => {
                push_str_chars(&mut out, m.as_str());
            },
        }
        chars_to_string(&out)
    }

    /// A one-line remediation hint keyed by the error's category and message.
    pub fn suggestion(&self) -> (r: Option<&str>)
        ensures
            match spec_suggestion(self@) {
                Some(t) => r matches Some(s) && s@ == t,
                None => r is None,
            },
    {
        match self {
            GcopError::NoStagedChanges => Some(
                "Run 'git add <files>' to stage your changes first",
            ),
            GcopError::Config(msg) => if msg_contains(msg, "API key not found") {
                if msg_contains(msg, "Anthropic") {
                    Some(
                        "Add 'api_key = \"sk-ant-...\"' to [llm.providers.anthropic] in ~/.config/gcop/config.toml, or set ANTHROPIC_API_KEY",
                    )
                } else if msg_contains(msg, "OpenAI") {
                    Some(
                        "Add 'api_key = \"sk-...\"' to [llm.providers.openai] in ~/.config/gcop/config.toml, or set OPENAI_API_KEY",
                    )
                } else {
                    Some("Set api_key in ~/.config/gcop/config.toml")
                }
            } else if msg_contains(msg, "not found in config") {
                Some(
                    "Check your ~/.config/gcop/config.toml or use the default providers: anthropic, openai, ollama",
                )
            } else {
                None
            },
            GcopError::Llm(msg) => if msg_contains(msg, "401") {
                Some("Check if your API key is valid and has not expired")
            } else if msg_contains(msg, "429") {
                Some("Rate limit exceeded. Wait a moment and try again, or upgrade your API plan")
            } else if msg_contains(msg, "500") || msg_contains(msg, "503") {
                Some("API service is temporarily unavailable. Try again in a few moments")
            } else if msg_contains(msg, "Failed to parse") {
                Some("Try using --verbose flag to see the full LLM response and debug the issue")
            } else {
                None
            },
            _ => None,
        }
    }
}

} // verus!
