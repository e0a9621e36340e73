//! Client-side protocol engine for an OpenAI-style chat-completion service.
//!
//! The crate owns the conversation and request state (`chat::Chat`), renders a
//! request body to the wire format, and decodes the two server response shapes
//! (buffered `message` objects and streamed `delta` fragments) into one typed
//! `response::ChatResponse`. Line framing for the streamed mode and the
//! classification of non-success statuses live in `protocol`. The HTTP
//! transport itself is left to the embedding application.

pub mod chat;
pub mod de;
pub mod json;
pub mod laws;
pub mod messages;
pub mod protocol;
pub mod request;
pub mod response;
pub mod ser;
pub mod text;

use vstd::prelude::*;

verus! {

/// The fixed chat-completions endpoint used until `Chat::set_api_url` overrides it.
pub fn default_api_url() -> (r: String)
    ensures
        r@ == "https://api.groq.com/openai/v1/chat/completions"@,
{
    String::from_str("https://api.groq.com/openai/v1/chat/completions")
}

} // verus!
