//! The typed server responses: the unified response object shared by the
//! buffered and the streamed mode, and the structured service error, with
//! their mathematical views.

use vstd::prelude::*;

use crate::messages::ChatMessage;
use crate::messages::MessageView;

verus! {

/// Token counters and timings; the service reports them on buffered
/// responses. The four timings are kept as the literal text of the JSON
/// numbers they arrived as, uninterpreted.
#[derive(Clone, Debug, PartialEq)]
pub struct ChatUsage {
    pub queue_time: String,
    pub prompt_tokens: u64,
    pub prompt_time: String,
    pub completion_tokens: u64,
    pub completion_time: String,
    pub total_tokens: u64,
    pub total_time: String,
}

/// The provider-specific identifier wrapper echoed with every response.
#[derive(Clone, Debug, PartialEq)]
pub struct ChatXGroq {
    pub id: String,
}

/// One candidate completion: its index, the unified message (taken from
/// `delta` on streamed frames and from `message` on buffered bodies), and
/// the optional log-probability and finish-reason annotations.
#[derive(Clone, Debug, PartialEq)]
pub struct ChatChoice {
    pub index: u64,
    pub message: ChatMessage,
    pub logprobs: Option<String>,
    pub finish_reason: Option<String>,
}

/// One decoded response object, buffered or streamed. A successful decode
/// always carries at least one choice.
#[derive(Clone, Debug, PartialEq)]
pub struct ChatResponse {
    pub id: String,
    pub object: String,
    pub created: u64,
    pub model: String,
    pub choices: Vec<ChatChoice>,
    pub usage: Option<ChatUsage>,
    pub system_fingerprint: String,
    pub x_groq: ChatXGroq,
}

/// The structured body of a service-reported failure.
#[derive(Clone, Debug, PartialEq)]
pub struct ChatErrorDetails {
    pub message: String,
    pub error_type: String,
    pub param: Option<String>,
    pub code: Option<String>,
}

/// A service-reported failure: a non-success status whose body decoded as
/// the documented error shape.
#[derive(Clone, Debug, PartialEq)]
pub struct ChatError {
    pub error: ChatErrorDetails,
}

impl ChatError {
    /// The failure, worded as the original diagnostic line.
    pub fn to_text(&self) -> (r: String)
        ensures
            r@ == "Chat error: "@ + self.error.message@,
    {
        let mut r = String::from_str("Chat error: ");
        r.append(self.error.message.as_str());
        r
    }
}

/// Mathematical image of a `ChatUsage`.
#[verifier::ext_equal]
pub ghost struct UsageView {
    pub queue_time: Seq<char>,
    pub prompt_tokens: u64,
    pub prompt_time: Seq<char>,
    pub completion_tokens: u64,
    pub completion_time: Seq<char>,
    pub total_tokens: u64,
    pub total_time: Seq<char>,
}

impl View for ChatUsage {
    type V = UsageView;

    open spec fn view(&self) -> UsageView {
        UsageView {
            queue_time: self.queue_time@,
            prompt_tokens: self.prompt_tokens,
            prompt_time: self.prompt_time@,
            completion_tokens: self.completion_tokens,
            completion_time: self.completion_time@,
            total_tokens: self.total_tokens,
            total_time: self.total_time@,
        }
    }
}

/// Mathematical image of a `ChatChoice`.
#[verifier::ext_equal]
pub ghost struct ChoiceView {
    pub index: u64,
    pub message: MessageView,
    pub logprobs: Option<Seq<char>>,
    pub finish_reason: Option<Seq<char>>,
}

impl View for ChatChoice {
    type V = ChoiceView;

    open spec fn view(&self) -> ChoiceView {
        ChoiceView {
            index: self.index,
            message: self.message@,
            logprobs: match self.logprobs {
                Some(l) => Some(l@),
                None => None,
            },
            finish_reason: match self.finish_reason {
                Some(f) => Some(f@),
                None => None,
            },
        }
    }
}

/// The views of a sequence of choices, in order.
pub open spec fn choices_view(v: Seq<ChatChoice>) -> Seq<ChoiceView> {
    v.map_values(|c: ChatChoice| c@)
}

/// Mathematical image of a `ChatResponse`.
#[verifier::ext_equal]
pub ghost struct ResponseView {
    pub id: Seq<char>,
    pub object: Seq<char>,
    pub created: u64,
    pub model: Seq<char>,
    pub choices: Seq<ChoiceView>,
    pub usage: Option<UsageView>,
    pub system_fingerprint: Seq<char>,
    pub x_groq_id: Seq<char>,
}

impl View for ChatResponse {
    type V = ResponseView;

    open spec fn view(&self) -> ResponseView {
        ResponseView {
            id: self.id@,
            object: self.object@,
            created: self.created,
            model: self.model@,
            choices: choices_view(self.choices@),
            usage: match self.usage {
                Some(u) => Some(u@),
                None => None,
            },
            system_fingerprint: self.system_fingerprint@,
            x_groq_id: self.x_groq.id@,
        }
    }
}

/// Mathematical image of a `ChatErrorDetails`.
#[verifier::ext_equal]
pub ghost struct ErrorDetailsView {
    pub message: Seq<char>,
    pub error_type: Seq<char>,
    pub param: Option<Seq<char>>,
    pub code: Option<Seq<char>>,
}

impl View for ChatErrorDetails {
    type V = ErrorDetailsView;

    open spec fn view(&self) -> ErrorDetailsView {
        ErrorDetailsView {
            message: self.message@,
            error_type: self.error_type@,
            param: match self.param {
                Some(p) => Some(p@),
                None => None,
            },
            code: match self.code {
                Some(c) => Some(c@),
                None => None,
            },
        }
    }
}

impl View for ChatError {
    type V = ErrorDetailsView;

    open spec fn view(&self) -> ErrorDetailsView {
        self.error@
    }
}

} // verus!
