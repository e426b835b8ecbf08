use vstd::prelude::*;

verus! {

/// Chat-gateway credentials.
#[derive(Clone, Debug, PartialEq)]
pub struct DiscordOptions {
    pub token: String,
}

/// Generative-language credentials and prompt text.
#[derive(Clone, Debug, PartialEq)]
pub struct GeminiOptions {
    pub api_key: String,
    pub system_instructions: String,
}

/// Process-wide configuration, loaded once at startup and never mutated:
/// the chat credential, the model credential, and the system prompt.
#[derive(Clone, Debug, PartialEq)]
pub struct Options {
    pub discord: DiscordOptions,
    pub gemini: GeminiOptions,
}

} // verus!
