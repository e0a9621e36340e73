//! The client-facing builder: one request configuration and its embedded
//! conversation, mutated in place between sends. Every mutation is local and
//! synchronous; the transport that sends the configuration lives outside this
//! crate and reads it through the accessors here.

use vstd::prelude::*;

use crate::messages::ChatMessage;
use crate::messages::clone_messages;
use crate::messages::messages_view;
use crate::request::ChatRequest;
use crate::request::ChatResponseFormat;
use crate::request::ChatServiceTier;
use crate::request::Tool;
use crate::request::ToolChoice;
use crate::request::with_frequency_penalty;
use crate::request::with_max_completion_tokens;
use crate::request::with_messages;
use crate::request::with_model;
use crate::request::with_parallel_tool_calls;
use crate::request::with_presence_penalty;
use crate::request::with_reasoning_format;
use crate::request::with_response_format;
use crate::request::with_seed;
use crate::request::with_service_tier;
use crate::request::with_temperature;
use crate::request::with_tool_choice;
use crate::request::with_tools;
use crate::request::with_top_p;

verus! {

/// One logical chat session: the credential, the endpoint and the request
/// configuration under construction.
#[derive(Clone, Debug)]
pub struct Chat {
    pub api_key: String,
    pub api_url: String,
    pub chat_request: ChatRequest,
}

/// The given session with only its request configuration replaced.
pub open spec fn with_request(c: Chat, r: ChatRequest) -> Chat {
    Chat { chat_request: r, ..c }
}

/// The given session with only its endpoint replaced.
pub open spec fn with_api_url(c: Chat, u: String) -> Chat {
    Chat { api_url: u, ..c }
}

impl Chat {
    /// The conversation held by this session.
    pub open spec fn spec_messages(self) -> Seq<ChatMessage> {
        self.chat_request.messages@
    }

    /// A fresh session against the default endpoint, with an empty
    /// conversation and default generation parameters.
    pub fn new(api_key: String, model: String) -> (r: Self)
        ensures
            r.api_key == api_key,
            r.api_url@ == "https://api.groq.com/openai/v1/chat/completions"@,
            r.chat_request.is_fresh(model, r.chat_request.messages),
            r.spec_messages() =~= Seq::<ChatMessage>::empty(),
            r.chat_request.valid_params(),
    {
        Self {
            api_key,
            api_url: crate::default_api_url(),
            chat_request: ChatRequest::new(model, Vec::new()),
        }
    }

    /// Replaces the whole conversation.
    pub fn set_chat_messages(&mut self, messages: Vec<ChatMessage>)
        ensures
            *final(self) == with_request(
                *old(self),
                with_messages(old(self).chat_request, messages),
            ),
    {
        self.chat_request.messages = messages;
    }

    /// A copy of the conversation, in order.
    pub fn get_chat_messages(&self) -> (r: Vec<ChatMessage>)
        ensures
            messages_view(r@) == messages_view(self.spec_messages()),
    {
        clone_messages(&self.chat_request.messages)
    }

    /// Points the session at another endpoint, for testing or overrides.
    pub fn set_api_url(&mut self, api_url: String)
        ensures
            *final(self) == with_api_url(*old(self), api_url),
    {
        self.api_url = api_url;
    }

    /// The endpoint the next send would use.
    pub fn get_api_url(&self) -> (r: &String)
        ensures
            r@ == self.api_url@,
    {
        &self.api_url
    }

    /// The credential the next send would use.
    pub fn get_api_key(&self) -> (r: &String)
        ensures
            r@ == self.api_key@,
    {
        &self.api_key
    }

    /// Sets the target model.
    pub fn set_model(&mut self, model: String)
        ensures
            *final(self) == with_request(*old(self), with_model(old(self).chat_request, model)),
    {
        self.chat_request.model = model;
    }

    /// Appends one message at the end of the conversation.
    pub fn add_chat_message(&mut self, message: ChatMessage)
        ensures
            *final(self) == with_request(
                *old(self),
                with_messages(old(self).chat_request, final(self).chat_request.messages),
            ),
            final(self).spec_messages() == old(self).spec_messages().push(message),
    {
        self.chat_request.messages.push(message);
    }

    /// Empties the conversation.
    pub fn clear_chat_messages(&mut self)
        ensures
            *final(self) == with_request(
                *old(self),
                with_messages(old(self).chat_request, final(self).chat_request.messages),
            ),
            final(self).spec_messages() =~= Seq::<ChatMessage>::empty(),
    {
        self.chat_request.messages.clear();
    }

    /// Removes the last `n` messages; fewer than `n` present clears the
    /// conversation. The kept prefix stays in order.
    pub fn remove_last_n_chat_messages(&mut self, n: usize)
        ensures
            *final(self) == with_request(
                *old(self),
                with_messages(old(self).chat_request, final(self).chat_request.messages),
            ),
            final(self).spec_messages() == old(self).spec_messages().take(
                if n <= old(self).spec_messages().len() {
                    old(self).spec_messages().len() - n
                } else {
                    0
                },
            ),
    {
        let len = self.chat_request.messages.len();
        let keep: usize = if n <= len {
            len - n
        } else {
            0
        };
        self.chat_request.messages.truncate(keep);
    }

    /// Removes the first `n` messages; fewer than `n` present clears the
    /// conversation. The kept suffix stays in order.
    pub fn remove_first_n_chat_messages(&mut self, n: usize)
        ensures
            *final(self) == with_request(
                *old(self),
                with_messages(old(self).chat_request, final(self).chat_request.messages),
            ),
            final(self).spec_messages() == old(self).spec_messages().skip(
                if n <= old(self).spec_messages().len() {
                    n as int
                } else {
                    old(self).spec_messages().len() as int
                },
            ),
    {
        let len = self.chat_request.messages.len();
        let k: usize = if n <= len {
            n
        } else {
            len
        };
        let mut i: usize = 0;
        while i < k
            invariant
                i <= k,
                k <= old(self).spec_messages().len(),
                self.chat_request.messages@ == old(self).spec_messages().skip(i as int),
                *self == with_request(
                    *old(self),
                    with_messages(old(self).chat_request, self.chat_request.messages),
                ),
            decreases k - i,
        {
            let ghost before = self.chat_request.messages@;
            self.chat_request.messages.remove(0);
            proof {
                assert(before.remove(0) =~= old(self).spec_messages().skip(i as int + 1));
            }
            i = i + 1;
        }
    }

    /// Removes the last message, if any.
    pub fn remove_last_chat_message(&mut self)
        ensures
            *final(self) == with_request(
                *old(self),
                with_messages(old(self).chat_request, final(self).chat_request.messages),
            ),
            old(self).spec_messages().len() > 0 ==> final(self).spec_messages() == old(
                self,
            ).spec_messages().drop_last(),
            old(self).spec_messages().len() == 0 ==> final(self).spec_messages() == old(
                self,
            ).spec_messages(),
    {
        if self.chat_request.messages.len() > 0 {
            let _ = self.chat_request.messages.pop();
            assert(final(self).spec_messages() =~= old(self).spec_messages().drop_last());
        }
    }

    /// Removes the first message, if any.
    pub fn remove_first_chat_message(&mut self)
        ensures
            *final(self) == with_request(
                *old(self),
                with_messages(old(self).chat_request, final(self).chat_request.messages),
            ),
            old(self).spec_messages().len() > 0 ==> final(self).spec_messages() == old(
                self,
            ).spec_messages().skip(1),
            old(self).spec_messages().len() == 0 ==> final(self).spec_messages() == old(
                self,
            ).spec_messages(),
    {
        if !self.chat_request.messages.is_empty() {
            self.chat_request.messages.remove(0);
            assert(final(self).spec_messages() =~= old(self).spec_messages().skip(1));
        }
    }

    /// How many messages the conversation holds.
    pub fn number_of_chat_messages(&self) -> (r: usize)
        ensures
            r == self.spec_messages().len(),
    {
        self.chat_request.messages.len()
    }

    /// Sets the frequency penalty, given in thousandths. A value outside
    /// -2000..=2000 is rejected and the configuration is left unchanged.
    pub fn set_frequency_penalty(&mut self, frequency_penalty: i32) -> (r: Result<(), String>)
        ensures
            -2000 <= frequency_penalty <= 2000 ==> r is Ok && *final(self) == with_request(
                *old(self),
                with_frequency_penalty(old(self).chat_request, frequency_penalty),
            ),
            !(-2000 <= frequency_penalty <= 2000) ==> (r matches Err(m) && m@
                == "Frequency penalty must be between -2.0 and 2.0"@) && *final(self) == *old(self),
            old(self).chat_request.valid_params() ==> final(self).chat_request.valid_params(),
    {
        if frequency_penalty < -2000 || frequency_penalty > 2000 {
            return Err(String::from_str("Frequency penalty must be between -2.0 and 2.0"));
        }
        self.chat_request.frequency_penalty = frequency_penalty;
        Ok(())
    }

    /// Sets the presence penalty, given in thousandths. A value outside
    /// -2000..=2000 is rejected and the configuration is left unchanged.
    pub fn set_presence_penalty(&mut self, presence_penalty: i32) -> (r: Result<(), String>)
        ensures
            -2000 <= presence_penalty <= 2000 ==> r is Ok && *final(self) == with_request(
                *old(self),
                with_presence_penalty(old(self).chat_request, presence_penalty),
            ),
            !(-2000 <= presence_penalty <= 2000) ==> (r matches Err(m) && m@
                == "Presence penalty must be between -2.0 and 2.0"@) && *final(self) == *old(self),
            old(self).chat_request.valid_params() ==> final(self).chat_request.valid_params(),
    {
        if presence_penalty < -2000 || presence_penalty > 2000 {
            return Err(String::from_str("Presence penalty must be between -2.0 and 2.0"));
        }
        self.chat_request.presence_penalty = presence_penalty;
        Ok(())
    }

    /// Sets the temperature, given in thousandths. A value above 2000 is
    /// rejected and the configuration is left unchanged.
    pub fn set_temperature(&mut self, temperature: u32) -> (r: Result<(), String>)
        ensures
            temperature <= 2000 ==> r is Ok && *final(self) == with_request(
                *old(self),
                with_temperature(old(self).chat_request, temperature),
            ),
            temperature > 2000 ==> (r matches Err(m) && m@
                == "Temperature must be between 0.0 and 2.0"@) && *final(self) == *old(self),
            old(self).chat_request.valid_params() ==> final(self).chat_request.valid_params(),
    {
        if temperature > 2000 {
            return Err(String::from_str("Temperature must be between 0.0 and 2.0"));
        }
        self.chat_request.temperature = temperature;
        Ok(())
    }

    /// Sets top-p, given in thousandths. A value above 1000 is rejected and
    /// the configuration is left unchanged.
    pub fn set_top_p(&mut self, top_p: u32) -> (r: Result<(), String>)
        ensures
            top_p <= 1000 ==> r is Ok && *final(self) == with_request(
                *old(self),
                with_top_p(old(self).chat_request, top_p),
            ),
            top_p > 1000 ==> (r matches Err(m) && m@ == "Top P must be between 0.0 and 1.0"@)
                && *final(self) == *old(self),
            old(self).chat_request.valid_params() ==> final(self).chat_request.valid_params(),
    {
        if top_p > 1000 {
            return Err(String::from_str("Top P must be between 0.0 and 1.0"));
        }
        self.chat_request.top_p = top_p;
        Ok(())
    }

    /// Caps the number of completion tokens.
    pub fn set_max_completion_tokens(&mut self, max_completion_tokens: u32)
        ensures
            *final(self) == with_request(
                *old(self),
                with_max_completion_tokens(old(self).chat_request, Some(max_completion_tokens)),
            ),
    {
        self.chat_request.max_completion_tokens = Some(max_completion_tokens);
    }

    /// Allows or forbids parallel tool calls.
    pub fn set_parallel_tool_calls(&mut self, parallel_tool_calls: bool)
        ensures
            *final(self) == with_request(
                *old(self),
                with_parallel_tool_calls(old(self).chat_request, parallel_tool_calls),
            ),
    {
        self.chat_request.parallel_tool_calls = parallel_tool_calls;
    }

    /// Sets the reasoning-format hint.
    pub fn set_reasoning_format(&mut self, reasoning_format: &str)
        ensures
            *final(self) == with_request(
                *old(self),
                with_reasoning_format(
                    old(self).chat_request,
                    final(self).chat_request.reasoning_format,
                ),
            ),
            final(self).chat_request.reasoning_format matches Some(s) && s@ == reasoning_format@,
    {
        self.chat_request.reasoning_format = Some(reasoning_format.to_owned());
    }

    /// Sets the response-format hint.
    pub fn set_response_format(&mut self, response_format: ChatResponseFormat)
        ensures
            *final(self) == with_request(
                *old(self),
                with_response_format(old(self).chat_request, Some(response_format)),
            ),
    {
        self.chat_request.response_format = Some(response_format);
    }

    /// Fixes the random seed.
    pub fn set_seed(&mut self, seed: u64)
        ensures
            *final(self) == with_request(
                *old(self),
                with_seed(old(self).chat_request, Some(seed)),
            ),
    {
        self.chat_request.seed = Some(seed);
    }

    /// Sets the service tier.
    pub fn set_service_tier(&mut self, service_tier: ChatServiceTier)
        ensures
            *final(self) == with_request(
                *old(self),
                with_service_tier(old(self).chat_request, Some(service_tier)),
            ),
    {
        self.chat_request.service_tier = Some(service_tier);
    }

    /// Sets the tool-choice policy.
    pub fn set_tool_choice(&mut self, tool_choice: ToolChoice)
        ensures
            *final(self) == with_request(
                *old(self),
                with_tool_choice(old(self).chat_request, Some(tool_choice)),
            ),
    {
        self.chat_request.tool_choice = Some(tool_choice);
    }

    /// Advertises one more tool. Duplicate names are kept as given; the set
    /// is order-preserving and never deduplicated.
    pub fn add_tool(&mut self, tool: Tool)
        ensures
            *final(self) == with_request(
                *old(self),
                with_tools(old(self).chat_request, final(self).chat_request.tools),
            ),
            final(self).chat_request.tools@ == old(self).chat_request.tools@.push(tool),
    {
        self.chat_request.tools.push(tool);
    }

    /// Withdraws every advertised tool.
    pub fn clear_tools(&mut self)
        ensures
            *final(self) == with_request(
                *old(self),
                with_tools(old(self).chat_request, final(self).chat_request.tools),
            ),
            final(self).chat_request.tools@ =~= Seq::<Tool>::empty(),
    {
        self.chat_request.tools.clear();
    }

    /// The temperature, in thousandths.
    pub fn get_temperature(&self) -> (r: u32)
        ensures
            r == self.chat_request.temperature,
    {
        self.chat_request.temperature
    }

    /// The target model.
    pub fn get_model(&self) -> (r: String)
        ensures
            r == self.chat_request.model,
    {
        self.chat_request.model.clone()
    }

    /// The frequency penalty, in thousandths.
    pub fn get_frequency_penalty(&self) -> (r: i32)
        ensures
            r == self.chat_request.frequency_penalty,
    {
        self.chat_request.frequency_penalty
    }

    /// The presence penalty, in thousandths.
    pub fn get_presence_penalty(&self) -> (r: i32)
        ensures
            r == self.chat_request.presence_penalty,
    {
        self.chat_request.presence_penalty
    }

    /// Top-p, in thousandths.
    pub fn get_top_p(&self) -> (r: u32)
        ensures
            r == self.chat_request.top_p,
    {
        self.chat_request.top_p
    }
}

/// Appending messages and then removing the last `k` of the whole
/// conversation leaves exactly the first `n - k` messages, in their original
/// relative order: for a conversation `s + t` (history `s`, then `t` newly
/// appended) and `k <= t.len()`, removing the last `k` keeps `s` untouched
/// and the first `t.len() - k` of the appended messages.
pub proof fn lemma_append_then_remove_last(s: Seq<ChatMessage>, t: Seq<ChatMessage>, k: int)
    requires
        0 <= k <= t.len(),
    ensures
        (s + t).take(s.len() + t.len() - k) == s + t.take(t.len() - k),
        (s + t).take(s.len() + t.len() - k).len() == s.len() + t.len() - k,
        forall|i: int|
            0 <= i < s.len() + t.len() - k ==> (s + t).take(s.len() + t.len() - k)[i] == (s + t)[i],
{
    assert((s + t).take(s.len() + t.len() - k) =~= s + t.take(t.len() - k));
}

} // verus!
