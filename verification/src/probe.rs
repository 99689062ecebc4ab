//! The backend health probe: one GET to a fixed loopback endpoint, read as
//! advisory feedback for the user interface.
//!
//! The network call itself is made outside this crate. The shell asks
//! [`health_endpoint`] where to send the request, hands what came back to
//! [`on_response`], reads the body only if that asks for it, and hands the
//! body to [`on_body`]. No step is retried and nothing is cached.

use vstd::prelude::*;
use crate::status::{code_digits, status_display, HttpStatus};
use crate::text::{joined, lemma_mentions_part, mentions, result_text};

verus! {

/// The endpoint of the backend's health check.
pub open spec fn health_url() -> Seq<char> {
    "http://127.0.0.1:8000/health"@
}

/// What opens the success value: the backend's raw answer follows it.
pub open spec fn connected_prefix() -> Seq<char> {
    "✅ Backend connected: "@
}

/// What opens the error for a response with a status other than success.
pub open spec fn bad_status_prefix() -> Seq<char> {
    "❌ Backend returned status: "@
}

/// What opens the error for a request that never got a response.
pub open spec fn unreachable_prefix() -> Seq<char> {
    "❌ Connection failed: "@
}

/// What came of sending the request.
#[derive(Debug, PartialEq, Eq)]
pub enum SendOutcome {
    /// A response arrived, with this status.
    Response(HttpStatus),
    /// No response arrived; the transport describes why.
    Failed(String),
}

/// The model of a [`SendOutcome`].
pub enum SendOutcomeView {
    Response(u16),
    Failed(Seq<char>),
}

impl View for SendOutcome {
    type V = SendOutcomeView;

    open spec fn view(&self) -> SendOutcomeView {
        match self {
            SendOutcome::Response(status) => SendOutcomeView::Response(status@),
            SendOutcome::Failed(reason) => SendOutcomeView::Failed(reason@),
        }
    }
}

/// What the probe does once the request has been sent.
#[derive(Debug, PartialEq, Eq)]
pub enum ProbeStep {
    /// The response reports success: read its whole body as text.
    ReadBody,
    /// The probe is over, with this result.
    Finished(Result<String, String>),
}

/// The model of a [`ProbeStep`].
pub enum ProbeStepView {
    ReadBody,
    Finished(Result<Seq<char>, Seq<char>>),
}

impl View for ProbeStep {
    type V = ProbeStepView;

    open spec fn view(&self) -> ProbeStepView {
        match self {
            ProbeStep::ReadBody => ProbeStepView::ReadBody,
            ProbeStep::Finished(result) => ProbeStepView::Finished(result_text(*result)),
        }
    }
}

/// The step that follows each outcome of sending: a transport failure and a
/// status outside 200 to 299 end the probe with an error, a success status
/// asks for the body.
pub open spec fn after_response(sent: SendOutcomeView) -> ProbeStepView {
    match sent {
        SendOutcomeView::Failed(reason) => ProbeStepView::Finished(
            Err(unreachable_prefix() + reason),
        ),
        SendOutcomeView::Response(code) => if 200 <= code < 300 {
            ProbeStepView::ReadBody
        } else {
            ProbeStepView::Finished(Err(bad_status_prefix() + status_display(code)))
        },
    }
}

/// The result that follows each outcome of reading the body: the text,
/// behind its prefix, or the read failure as it was described.
pub open spec fn after_body(body: Result<Seq<char>, Seq<char>>) -> Result<Seq<char>, Seq<char>> {
    match body {
        Ok(text) => Ok(connected_prefix() + text),
        Err(reason) => Err(reason),
    }
}

/// The result of a whole probe, from what sending gave and what reading the
/// body gave (read only where the response reported success).
pub open spec fn probe_result(
    sent: SendOutcomeView,
    body: Result<Seq<char>, Seq<char>>,
) -> Result<Seq<char>, Seq<char>> {
    match after_response(sent) {
        ProbeStepView::ReadBody => after_body(body),
        ProbeStepView::Finished(result) => result,
    }
}

/// Where the probe sends its GET request.
pub fn health_endpoint() -> (url: &'static str)
    ensures
        url@ == health_url(),
{
    "http://127.0.0.1:8000/health"
}

/// Decides what follows the sending of the request.
///
/// An error for a status other than success carries the status as text, and
/// so mentions the three digits of its code.
pub fn on_response(sent: SendOutcome) -> (step: ProbeStep)
    ensures
        step@ == after_response(sent@),
        sent@ matches SendOutcomeView::Response(code) ==> 100 <= code < 1000,
        sent@ matches SendOutcomeView::Response(code) ==> !(200 <= code < 300) ==> (step@ matches
        ProbeStepView::Finished(Err(message)) && mentions(message, code_digits(code))),
{
    match sent {
        SendOutcome::Failed(reason) => ProbeStep::Finished(
            Err(joined("❌ Connection failed: ", reason.as_str())),
        ),
        SendOutcome::Response(status) => {
            if status.is_success() {
                ProbeStep::ReadBody
            } else {
                let text = status.text();
                let message = joined("❌ Backend returned status: ", text.as_str());
                proof {
                    let digits = code_digits(status@);
                    let head = text@.subrange(0, 4);
                    let rest = text@.subrange(3, text@.len() as int);
                    assert forall|i: int| 0 <= i < 3 implies text@[i] == digits[i] by {
                        assert(head[i] == text@[i]);
                        assert(head[i] == digits.push(' ')[i]);
                    }
                    assert(text@ =~= digits + rest);
                    lemma_mentions_part(bad_status_prefix(), digits, rest);
                    assert(message@ =~= bad_status_prefix() + digits + rest);
                }
                ProbeStep::Finished(Err(message))
            }
        },
    }
}

/// Decides the probe's result from what reading the body gave.
pub fn on_body(body: Result<String, String>) -> (result: Result<String, String>)
    ensures
        result_text(result) == after_body(result_text(body)),
{
    match body {
        Ok(text) => Ok(joined("✅ Backend connected: ", text.as_str())),
        Err(reason) => Err(reason),
    }
}

/// The probe succeeds exactly when a response arrived with a status from 200
/// to 299 and its body could be read; the success value is then the body
/// behind its prefix. In particular a request that never got a response
/// never yields success.
pub proof fn lemma_probe_success(sent: SendOutcomeView, body: Result<Seq<char>, Seq<char>>)
    ensures
        probe_result(sent, body) is Ok <==> (sent matches SendOutcomeView::Response(code) && 200
            <= code < 300 && body is Ok),
        probe_result(sent, body) matches Ok(text) ==> body matches Ok(raw) && text
            == connected_prefix() + raw && mentions(text, raw),
        sent matches SendOutcomeView::Failed(reason) ==> probe_result(sent, body) matches Err(
            message,
        ) && message == unreachable_prefix() + reason && mentions(message, reason),
{
    match sent {
        SendOutcomeView::Failed(reason) => {
            lemma_mentions_part(unreachable_prefix(), reason, Seq::empty());
            assert(unreachable_prefix() + reason + Seq::empty() =~= unreachable_prefix() + reason);
        },
        SendOutcomeView::Response(code) => {
            if let Ok(raw) = body {
                lemma_mentions_part(connected_prefix(), raw, Seq::empty());
                assert(connected_prefix() + raw + Seq::empty() =~= connected_prefix() + raw);
            }
        },
    }
}

} // verus!
