//! Turning the provider's HTTP response into a transcript or a classified
//! error, and the laws the whole pipeline obeys.

use vstd::prelude::*;
use crate::credential::credential_outcome;
use crate::error::{ErrView, TranscriptionError, result_view};
use crate::json::{Json, json_of, parse_json, extract_transcript, transcript_of, transcript_node};
use crate::json::{member, opt_member, opt_element};

verus! {

/// What the transport hands back for one request.
pub enum HttpOutcome {
    /// A response arrived: its status code, and its body read as text
    /// (`None` when the body could not be read).
    Response(u16, Option<String>),
    /// No response arrived; the string is the transport's own description.
    TransportFailure(String),
}

/// The mathematical shadow of [`HttpOutcome`].
pub enum OutcomeView {
    Response(u16, Option<Seq<char>>),
    TransportFailure(Seq<char>),
}

impl View for HttpOutcome {
    type V = OutcomeView;

    open spec fn view(&self) -> OutcomeView {
        match self {
            HttpOutcome::Response(status, body) => OutcomeView::Response(
                *status,
                match body {
                    Some(b) => Some(b@),
                    None => None,
                },
            ),
            HttpOutcome::TransportFailure(m) => OutcomeView::TransportFailure(m@),
        }
    }
}

/// A status code that indicates success.
pub open spec fn is_success_status(status: u16) -> bool {
    200 <= status < 300
}

/// The body text reported inside a remote error: the body itself, or the
/// fixed placeholder when it could not be read.
pub open spec fn remote_body_view(body: Option<Seq<char>>) -> Seq<char> {
    match body {
        Some(b) => b,
        None => "Unknown error"@,
    }
}

/// What validation makes of a response: checked in this order, a non-success
/// status becomes a remote error carrying status and body; a body that is
/// unreadable or not valid JSON becomes a parse error; valid JSON without a
/// usable transcript becomes the no-transcript error; otherwise the
/// transcript is returned.
pub open spec fn response_outcome(status: u16, body: Option<Seq<char>>) -> Result<
    Seq<char>,
    ErrView,
> {
    if !is_success_status(status) {
        Err(ErrView::Remote(status, remote_body_view(body)))
    } else {
        match body {
            None => Err(ErrView::Parse),
            Some(b) => match json_of(b) {
                None => Err(ErrView::Parse),
                Some(j) => match transcript_of(j) {
                    None => Err(ErrView::NoTranscript),
                    Some(t) => Ok(t),
                },
            },
        }
    }
}

/// What one finished exchange yields.
pub open spec fn exchange_outcome(o: OutcomeView) -> Result<Seq<char>, ErrView> {
    match o {
        OutcomeView::Response(status, body) => response_outcome(status, body),
        OutcomeView::TransportFailure(m) => Err(ErrView::Network(m)),
    }
}

/// Turns the transport's outcome into the call's result, per
/// [`exchange_outcome`].
pub fn handle_outcome(outcome: HttpOutcome) -> (r: Result<String, TranscriptionError>)
    ensures
        result_view(r) == exchange_outcome(outcome@),
{
    match outcome {
        HttpOutcome::TransportFailure(m) => Err(TranscriptionError::Network(m)),
        HttpOutcome::Response(status, body) => {
            if !(200 <= status && status < 300) {
                let text = match body {
                    Some(b) => b,
                    None => "Unknown error".to_owned(),
                };
                Err(TranscriptionError::Remote(status, text))
            } else {
                match body {
                    None => Err(TranscriptionError::Parse),
                    Some(b) => match parse_json(b.as_str()) {
                        None => Err(TranscriptionError::Parse),
                        Some(j) => match extract_transcript(&j) {
                            None => Err(TranscriptionError::NoTranscript),
                            Some(t) => Ok(t),
                        },
                    },
                }
            }
        },
    }
}

/// What the whole operation yields, given the raw credential value and the
/// transport's outcome: a refused credential decides alone, before anything
/// else is consulted.
pub open spec fn transcribe_outcome(raw: Option<Seq<char>>, net: OutcomeView) -> Result<
    Seq<char>,
    ErrView,
> {
    match credential_outcome(raw) {
        Err(e) => Err(e),
        Ok(_) => exchange_outcome(net),
    }
}

/// With a missing or blank credential the operation's outcome is the same
/// configuration fault whatever the network would have answered: the network
/// plays no part in it.
pub proof fn lemma_configuration_precedence(
    raw: Option<Seq<char>>,
    net1: OutcomeView,
    net2: OutcomeView,
)
    requires
        credential_outcome(raw) is Err,
    ensures
        transcribe_outcome(raw, net1) == transcribe_outcome(raw, net2),
        transcribe_outcome(raw, net1) matches Err(e) && e matches ErrView::Configuration(_),
{
}

/// A non-success status yields exactly the remote error carrying that status
/// and the body text, whatever the body holds: its content is never parsed
/// into the decision.
pub proof fn lemma_remote_error(status: u16, body: Option<Seq<char>>)
    requires
        !is_success_status(status),
    ensures
        response_outcome(status, body) == Err::<Seq<char>, ErrView>(
            ErrView::Remote(status, remote_body_view(body)),
        ),
{
}

/// A document without `results` holds no transcript.
pub proof fn lemma_absent_results(j: Json)
    requires
        member(j, "results"@) is None,
    ensures
        transcript_of(j) is None,
{
}

/// A document whose `results` lacks `channels[0]` holds no transcript.
pub proof fn lemma_absent_channel(j: Json)
    requires
        opt_element(opt_member(member(j, "results"@), "channels"@), 0) is None,
    ensures
        transcript_of(j) is None,
{
}

/// A document whose first channel lacks `alternatives[0]` holds no
/// transcript.
pub proof fn lemma_absent_alternative(j: Json)
    requires
        opt_element(
            opt_member(
                opt_element(opt_member(member(j, "results"@), "channels"@), 0),
                "alternatives"@,
            ),
            0,
        ) is None,
    ensures
        transcript_of(j) is None,
{
}

/// A document whose first alternative lacks `transcript` holds no
/// transcript.
pub proof fn lemma_absent_transcript(j: Json)
    requires
        transcript_node(j) is None,
    ensures
        transcript_of(j) is None,
{
}

/// A transcript field that is present but empty counts as absent: the
/// outcome is the no-transcript error, never an empty success.
pub proof fn lemma_empty_transcript(j: Json, s: String, body: Seq<char>, status: u16)
    requires
        transcript_node(j) == Some(Json::Str(s)),
        s@.len() == 0,
        is_success_status(status),
        json_of(body) == Some(j),
    ensures
        transcript_of(j) is None,
        response_outcome(status, Some(body)) == Err::<Seq<char>, ErrView>(ErrView::NoTranscript),
{
}

/// The operation is a function of its inputs alone: two calls given the same
/// raw credential and the same transport outcome yield the same result, and
/// a call's result never depends on another call's inputs.
pub proof fn lemma_deterministic(
    raw1: Option<Seq<char>>,
    net1: OutcomeView,
    raw2: Option<Seq<char>>,
    net2: OutcomeView,
)
    requires
        raw1 == raw2,
        net1 == net2,
    ensures
        transcribe_outcome(raw1, net1) == transcribe_outcome(raw2, net2),
{
}

} // verus!
