//! The generation-provider abstraction: one capability interface over three
//! backend families, dispatched by a closed tag; credential resolution; and
//! the uniform classification of request failures.

use vstd::prelude::*;
use crate::error::{ErrorModel, GcopError, GcopResult};
use crate::prompt::{CommitContext, ReviewType};
use crate::response::ReviewResult;
use crate::text::{chars_to_string, push_str_chars, str_to_chars, chars_eq};

verus! {

/// The default number of tokens a request asks for when none is configured.
pub const DEFAULT_MAX_TOKENS: u32 = 2000;

/// The default number of tokens a request asks for.
pub fn default_max_tokens() -> (r: u32)
    ensures
        r == DEFAULT_MAX_TOKENS,
{
    DEFAULT_MAX_TOKENS
}

/// The capability interface every backend family offers. The surrounding
/// program implements it; each implementation dispatches on one
/// `ProviderKind`.
pub trait LLMProvider {
    /// Generate a commit message for a diff.
    fn generate_commit_message(&self, diff: &str, context: Option<CommitContext>) -> GcopResult<
        String,
    >;

    /// Generate a commit message as an ordered sequence of chunks whose
    /// concatenation is the final message.
    fn generate_commit_message_streaming(
        &self,
        diff: &str,
        context: Option<CommitContext>,
    ) -> GcopResult<Vec<String>>;

    /// Review a diff and return the structured result.
    fn review_code(
        &self,
        diff: &str,
        review_type: ReviewType,
        custom_prompt: Option<&str>,
    ) -> GcopResult<ReviewResult>;

    /// The provider's name.
    fn name(&self) -> &str;

    /// A lightweight configuration check.
    fn validate(&self) -> GcopResult<()>;

    /// Whether this backend can deliver the message incrementally.
    fn supports_streaming(&self) -> bool;
}

/// The three backend families: message-array style, choices style, and
/// single-prompt style. A new family is a new variant and one match arm.
#[derive(Debug, Clone, Copy, PartialEq, Eq, Structural)]
pub enum ProviderKind {
    Anthropic,
    OpenAI,
    Ollama,
}

/// The API style a provider resolves to: the configured style if present,
/// else the provider's own name.
pub open spec fn spec_api_style(api_style: Option<Seq<char>>, name: Seq<char>) -> Seq<char> {
    match api_style {
        Some(s) => s,
        None => name,
    }
}

/// Resolve the backend family for a provider: an explicit `api_style` wins,
/// else the provider name decides; an unknown style is a configuration
/// error naming both. The accepted tags are `anthropic` (message-array
/// style), `openai` (choices style) and `ollama` (single-prompt style); a
/// custom deployment opts into a family by setting `api_style` to one of
/// them regardless of its own name.
pub fn select_api_style(api_style: Option<&String>, provider_name: &str) -> (r: GcopResult<
    ProviderKind,
>)
    ensures
        ({
            let style = spec_api_style(api_style.deep_view(), provider_name@);
            &&& style == "anthropic"@ ==> r == Ok::<ProviderKind, GcopError>(ProviderKind::Anthropic)
            &&& style == "openai"@ ==> r == Ok::<ProviderKind, GcopError>(ProviderKind::OpenAI)
            &&& style == "ollama"@ ==> r == Ok::<ProviderKind, GcopError>(ProviderKind::Ollama)
            &&& (style != "anthropic"@ && style != "openai"@ && style != "ollama"@) ==> (r matches
                Err(e) && e@ == ErrorModel::Config(
                "Unsupported api_style: '"@ + style + "' for provider '"@ + provider_name@
                    + "'"@,
            ))
        }),
{
    proof {
        reveal_strlit("anthropic");
        reveal_strlit("openai");
        reveal_strlit("ollama");
        assert("anthropic"@.len() == 9);
        assert("openai"@.len() == 6);
        assert("ollama"@.len() == 6);
        assert("anthropic"@[0] == 'a' && "openai"@[0] == 'o' && "ollama"@[0] == 'o');
        assert("openai"@[1] == 'p' && "ollama"@[1] == 'l');
    }
    let style_chars: Vec<char> = match api_style {
        Some(s) => str_to_chars(s.as_str()),
        None => str_to_chars(provider_name),
    };
    let anthropic = str_to_chars("anthropic");
    let openai = str_to_chars("openai");
    let ollama = str_to_chars("ollama");
    if chars_eq(&style_chars, &anthropic) {
        Ok(ProviderKind::Anthropic)
    } else if chars_eq(&style_chars, &openai) {
        Ok(ProviderKind::OpenAI)
    } else if chars_eq(&style_chars, &ollama) {
        Ok(ProviderKind::Ollama)
    } else {
        let mut msg: Vec<char> = Vec::new();
        push_str_chars(&mut msg, "Unsupported api_style: '");
        match api_style {
            Some(s) => push_str_chars(&mut msg, s.as_str()),
            None => push_str_chars(&mut msg, provider_name),
        }
        push_str_chars(&mut msg, "' for provider '");
        push_str_chars(&mut msg, provider_name);
        push_str_chars(&mut msg, "'");
        Err(GcopError::Config(chars_to_string(&msg)))
    }
}

/// Resolve the API key: an explicit key in the configuration wins, then the
/// provider-specific environment variable's value, then the backend family's
/// default variable's value; when all are absent, the error names the
/// variable to set.
pub fn extract_api_key(
    explicit: Option<String>,
    provider_env: Option<String>,
    family_env: Option<String>,
    family_env_var: &str,
    provider_name: &str,
) -> (r: GcopResult<String>)
    ensures
        explicit matches Some(k) ==> (r matches Ok(x) && x@ == k@),
        explicit is None ==> (match provider_env {
            Some(k) => r matches Ok(x) && x@ == k@,
            None => match family_env {
                Some(k) => r matches Ok(x) && x@ == k@,
                None => r matches Err(e) && e@ == ErrorModel::Config(
                    provider_name@ + " API key not found. Set api_key in config.toml or "@
                        + family_env_var@ + " environment variable"@,
                ),
            },
        }),
{
    match explicit {
        Some(k) => Ok(k),
        None => match provider_env {
            Some(k) => Ok(k),
            None => match family_env {
                Some(k) => Ok(k),
                None => {
                    let mut msg: Vec<char> = Vec::new();
                    push_str_chars(&mut msg, provider_name);
                    push_str_chars(
                        &mut msg,
                        " API key not found. Set api_key in config.toml or ",
                    );
                    push_str_chars(&mut msg, family_env_var);
                    push_str_chars(&mut msg, " environment variable");
                    Err(GcopError::Config(chars_to_string(&msg)))
                },
            },
        },
    }
}

/// A configured key must not be empty.
pub fn validate_api_key(api_key: &str) -> (r: GcopResult<()>)
    ensures
        api_key@.len() == 0 ==> (r matches Err(e) && e@ == ErrorModel::Config(
            "API key is empty"@,
        )),
        api_key@.len() > 0 ==> r is Ok,
{
    if api_key.is_empty() {
        Err(GcopError::Config(String::from_str("API key is empty")))
    } else {
        Ok(())
    }
}

/// Classify a failed request: timeouts and connection failures each get a
/// distinct actionable message; any other transport fault is a plain
/// network error carrying the details.
pub fn classify_network_error(provider_name: &str, timeout: bool, connect: bool, details: &str)
    -> (r: GcopError)
    ensures
        timeout ==> r@ == ErrorModel::Llm(
            provider_name@ + " API request timeout: "@ + details@
                + ". The request took too long to complete."@,
        ),
        !timeout && connect ==> r@ == ErrorModel::Llm(
            provider_name@ + " API connection failed: "@ + details@
                + ". Check network connectivity or API endpoint."@,
        ),
        !timeout && !connect ==> r@ == ErrorModel::Network(details@),
{
    if timeout {
        let mut msg: Vec<char> = Vec::new();
        push_str_chars(&mut msg, provider_name);
        push_str_chars(&mut msg, " API request timeout: ");
        push_str_chars(&mut msg, details);
        push_str_chars(&mut msg, ". The request took too long to complete.");
        GcopError::Llm(chars_to_string(&msg))
    } else if connect {
        let mut msg: Vec<char> = Vec::new();
        push_str_chars(&mut msg, provider_name);
        push_str_chars(&mut msg, " API connection failed: ");
        push_str_chars(&mut msg, details);
        push_str_chars(&mut msg, ". Check network connectivity or API endpoint.");
        GcopError::Llm(chars_to_string(&msg))
    } else {
        GcopError::Network(details.to_owned())
    }
}

/// Whether an HTTP status is a success.
pub fn status_is_success(status: u16) -> (r: bool)
    ensures
        r == (200 <= status < 300),
{
    200 <= status && status < 300
}

/// The error for a non-success HTTP status: always a generation error
/// carrying the rendered status and the raw body.
pub fn api_status_error(provider_name: &str, status: &str, body: &str) -> (r: GcopError)
    ensures
        r@ == ErrorModel::Llm(
            provider_name@ + " API error ("@ + status@ + "): "@ + body@,
        ),
{
    let mut msg: Vec<char> = Vec::new();
    push_str_chars(&mut msg, provider_name);
    push_str_chars(&mut msg, " API error (");
    push_str_chars(&mut msg, status);
    push_str_chars(&mut msg, "): ");
    push_str_chars(&mut msg, body);
    GcopError::Llm(chars_to_string(&msg))
}

/// The error for a response body that does not deserialize: a distinct
/// parse error carrying the raw body.
pub fn response_parse_error(provider_name: &str, err: &str, body: &str) -> (r: GcopError)
    ensures
        r@ == ErrorModel::Llm(
            "Failed to parse "@ + provider_name@ + " response: "@ + err@ + ". Raw response: "@
                + body@,
        ),
{
    let mut msg: Vec<char> = Vec::new();
    push_str_chars(&mut msg, "Failed to parse ");
    push_str_chars(&mut msg, provider_name);
    push_str_chars(&mut msg, " response: ");
    push_str_chars(&mut msg, err);
    push_str_chars(&mut msg, ". Raw response: ");
    push_str_chars(&mut msg, body);
    GcopError::Llm(chars_to_string(&msg))
}

} // verus!
