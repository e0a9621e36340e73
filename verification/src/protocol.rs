//! The line protocol of the streamed mode and the classification of HTTP
//! outcomes. A streamed body arrives as lines; each line is trimmed, an
//! optional `data:` marker is stripped, blank lines are skipped, the
//! `[DONE]` sentinel ends the sequence, and every other line is decoded as
//! one response frame. A non-success status is decoded as the structured
//! service error instead.

use vstd::prelude::*;
use vstd::string::StrSliceExecFns;

use crate::de::DecodeError;
use crate::de::decode_error_text;
use crate::de::decode_response_text;
use crate::de::response_res_view;
use crate::de::spec_decode_error_text;
use crate::de::spec_decode_response_text;
use crate::response::ChatError;
use crate::response::ChatResponse;
use crate::response::ErrorDetailsView;
use crate::response::ResponseView;
use crate::text::spec_trim;
use crate::text::str_eq_str;
use crate::text::trim;

verus! {

/// What one framed line means.
#[verifier::ext_equal]
pub ghost enum FrameView {
    /// A blank line; it carries nothing.
    Skip,
    /// The end-of-stream sentinel.
    Done,
    /// A payload to decode as one response frame.
    Payload(Seq<char>),
}

/// The framing rule: trim; a blank line carries nothing; strip a leading
/// `data:` marker and trim again; the sentinel `[DONE]` ends the stream;
/// anything else is a payload.
pub open spec fn spec_frame_line(line: Seq<char>) -> FrameView {
    let t = spec_trim(line);
    if t.len() == 0 {
        FrameView::Skip
    } else {
        let p = if t.len() >= 5 && t.subrange(0, 5) == "data:"@ {
            spec_trim(t.skip(5))
        } else {
            t
        };
        if p == "[DONE]"@ {
            FrameView::Done
        } else {
            FrameView::Payload(p)
        }
    }
}

/// What consuming one line of a streamed body does.
#[derive(Debug, PartialEq)]
pub enum StreamStep {
    /// Nothing; pull the next line.
    Skip,
    /// Normal end of stream; pull no further line.
    Done,
    /// One produced item: a decoded frame, or the decode error of this one
    /// line.
    Item(Result<ChatResponse, DecodeError>),
}

/// Mathematical image of a `StreamStep`.
#[verifier::ext_equal]
pub ghost enum StreamStepView {
    Skip,
    Done,
    Item(Result<ResponseView, DecodeError>),
}

impl View for StreamStep {
    type V = StreamStepView;

    open spec fn view(&self) -> StreamStepView {
        match self {
            StreamStep::Skip => StreamStepView::Skip,
            StreamStep::Done => StreamStepView::Done,
            StreamStep::Item(r) => StreamStepView::Item(response_res_view(*r)),
        }
    }
}

/// What one line yields: the framing rule, then the frame decode.
pub open spec fn spec_step_line(line: Seq<char>) -> StreamStepView {
    match spec_frame_line(line) {
        FrameView::Skip => StreamStepView::Skip,
        FrameView::Done => StreamStepView::Done,
        FrameView::Payload(p) => StreamStepView::Item(spec_decode_response_text(p)),
    }
}

/// Consumes one line of a streamed body.
pub fn step_line(line: &str) -> (r: StreamStep)
    ensures
        r@ == spec_step_line(line@),
{
    let t = trim(line);
    let tlen = t.unicode_len();
    if tlen == 0 {
        return StreamStep::Skip;
    }
    let p: &str = if tlen >= 5 && str_eq_str(t.substring_char(0, 5), "data:") {
        proof {
            assert(t@.skip(5) =~= t@.subrange(5, t@.len() as int));
        }
        trim(t.substring_char(5, tlen))
    } else {
        t
    };
    if str_eq_str(p, "[DONE]") {
        return StreamStep::Done;
    }
    StreamStep::Item(decode_response_text(p))
}

/// The views of a sequence of lines.
pub open spec fn lines_view(v: Seq<String>) -> Seq<Seq<char>> {
    v.map_values(|s: String| s@)
}

/// The views of a sequence of produced items.
pub open spec fn items_view(v: Seq<Result<ChatResponse, DecodeError>>) -> Seq<
    Result<ResponseView, DecodeError>,
> {
    v.map_values(|r: Result<ChatResponse, DecodeError>| response_res_view(r))
}

/// Every item a finished sequence of lines produces, in order: blank lines
/// are skipped, and nothing after the sentinel is looked at.
pub open spec fn spec_decode_lines(lines: Seq<Seq<char>>) -> Seq<
    Result<ResponseView, DecodeError>,
>
    decreases lines.len(),
{
    if lines.len() == 0 {
        Seq::empty()
    } else {
        match spec_step_line(lines[0]) {
            StreamStepView::Done => Seq::empty(),
            StreamStepView::Skip => spec_decode_lines(lines.drop_first()),
            StreamStepView::Item(r) => seq![r] + spec_decode_lines(lines.drop_first()),
        }
    }
}

/// Decodes a finished sequence of lines, as draining the stream would.
pub fn decode_lines(lines: &Vec<String>) -> (r: Vec<Result<ChatResponse, DecodeError>>)
    ensures
        items_view(r@) == spec_decode_lines(lines_view(lines@)),
{
    let ghost lv = lines_view(lines@);
    let mut out: Vec<Result<ChatResponse, DecodeError>> = Vec::new();
    let mut i: usize = 0;
    proof {
        assert(lv.skip(0) =~= lv);
        assert(items_view(out@) =~= Seq::<Result<ResponseView, DecodeError>>::empty());
    }
    while i < lines.len()
        invariant
            i <= lines@.len(),
            lv == lines_view(lines@),
            spec_decode_lines(lv) == items_view(out@) + spec_decode_lines(lv.skip(i as int)),
        decreases lines@.len() - i,
    {
        proof {
            assert(lv.skip(i as int)[0] == lv[i as int]);
            assert(lv[i as int] == lines@[i as int]@);
            assert(lv.skip(i as int).drop_first() =~= lv.skip(i as int + 1));
        }
        match step_line(lines[i].as_str()) {
            StreamStep::Done => {
                proof {
                    assert(spec_decode_lines(lv.skip(i as int)) =~= Seq::<
                        Result<ResponseView, DecodeError>,
                    >::empty());
                    assert(items_view(out@) + Seq::<Result<ResponseView, DecodeError>>::empty()
                        =~= items_view(out@));
                }
                return out;
            },
            StreamStep::Skip => {},
            StreamStep::Item(item) => {
                let ghost pre = out@;
                out.push(item);
                proof {
                    assert(items_view(out@) =~= items_view(pre) + seq![response_res_view(item)]);
                    assert(items_view(pre) + (seq![response_res_view(item)] + spec_decode_lines(
                        lv.skip(i as int + 1),
                    )) =~= items_view(out@) + spec_decode_lines(lv.skip(i as int + 1)));
                }
            },
        }
        i = i + 1;
    }
    proof {
        assert(lv.skip(lv.len() as int) =~= Seq::<Seq<char>>::empty());
        assert(items_view(out@) + spec_decode_lines(lv.skip(lv.len() as int)) =~= items_view(out@));
    }
    out
}

/// Why a send failed, short of the transport itself.
#[derive(Debug, PartialEq)]
pub enum ChatFailure {
    /// A client-error status whose body decoded as the documented error
    /// shape.
    Service(ChatError),
    /// A client-error status whose body did not decode as that shape; the
    /// decode failure is surfaced instead.
    ErrorBody(DecodeError),
    /// A success status whose body did not decode as a response.
    Payload(DecodeError),
}

/// Mathematical image of a `ChatFailure`.
#[verifier::ext_equal]
pub ghost enum FailureView {
    Service(ErrorDetailsView),
    ErrorBody(DecodeError),
    Payload(DecodeError),
}

impl View for ChatFailure {
    type V = FailureView;

    open spec fn view(&self) -> FailureView {
        match self {
            ChatFailure::Service(e) => FailureView::Service(e@),
            ChatFailure::ErrorBody(d) => FailureView::ErrorBody(*d),
            ChatFailure::Payload(d) => FailureView::Payload(*d),
        }
    }
}

/// The client-error status class.
pub open spec fn is_client_error(status: u16) -> bool {
    400 <= status < 500
}

/// The image of an interpreted outcome.
pub open spec fn outcome_view(r: Result<ChatResponse, ChatFailure>) -> Result<
    ResponseView,
    FailureView,
> {
    match r {
        Ok(resp) => Ok(resp@),
        Err(f) => Err(f@),
    }
}

/// How a finished HTTP exchange is read: a client-error status turns into
/// the decoded service error (or the failure to decode one), any other
/// status into the decoded response (or its decode failure).
pub open spec fn spec_interpret_response(status: u16, body: Seq<char>) -> Result<
    ResponseView,
    FailureView,
> {
    if is_client_error(status) {
        match spec_decode_error_text(body) {
            Ok(e) => Err(FailureView::Service(e)),
            Err(d) => Err(FailureView::ErrorBody(d)),
        }
    } else {
        match spec_decode_response_text(body) {
            Ok(r) => Ok(r),
            Err(d) => Err(FailureView::Payload(d)),
        }
    }
}

/// Classifies a finished HTTP exchange: its status code and its body text.
pub fn interpret_response(status: u16, body: &str) -> (r: Result<ChatResponse, ChatFailure>)
    ensures
        outcome_view(r) == spec_interpret_response(status, body@),
{
    if 400 <= status && status < 500 {
        match decode_error_text(body) {
            Ok(e) => Err(ChatFailure::Service(e)),
            Err(d) => Err(ChatFailure::ErrorBody(d)),
        }
    } else {
        match decode_response_text(body) {
            Ok(resp) => Ok(resp),
            Err(d) => Err(ChatFailure::Payload(d)),
        }
    }
}

} // verus!
