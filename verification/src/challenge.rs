//! Handling of an inbound challenge notification.
//!
//! The receiver endpoint accepts an HTTP POST whose body is a serialized
//! [`ChallengePayload`].  Decoding happens at the HTTP boundary; the decision
//! of what to answer and what to publish is made here, on the decode outcome:
//! a well-formed body is acknowledged and republished as exactly one
//! "challenge received" event, a malformed body gets a client error and no
//! event.

use vstd::prelude::*;
use vstd::string::StringExecFns;

verus! {

/// A point-to-point notification sent directly from one peer to another.
#[derive(Clone, Debug)]
pub struct ChallengePayload {
    pub from_player: String,
    pub item_title: String,
    pub item_points: i32,
    pub message: String,
}

/// The mathematical value of a [`ChallengePayload`].
pub ghost struct ChallengeView {
    pub from_player: Seq<char>,
    pub item_title: Seq<char>,
    pub item_points: int,
    pub message: Seq<char>,
}

impl View for ChallengePayload {
    type V = ChallengeView;

    open spec fn view(&self) -> ChallengeView {
        ChallengeView {
            from_player: self.from_player@,
            item_title: self.item_title@,
            item_points: self.item_points as int,
            message: self.message@,
        }
    }
}

/// What the receiver answers to the sending peer.
pub enum ChallengeResponse {
    /// A success acknowledgement body.
    Acknowledged(String),
    /// A client-error status for a body that did not decode.
    ClientError,
}

/// The receiver's reaction to one request: the response to send back, and
/// the event to publish, if any.
pub struct ChallengeOutcome {
    pub response: ChallengeResponse,
    pub event: Option<ChallengePayload>,
}

/// Decides the receiver's reaction to one POST of a challenge body.
///
/// `decoded` is the outcome of deserializing the request body: the payload
/// for a well-formed body, `None` for a malformed one.  A well-formed body
/// is acknowledged with `"OK"` and republished as exactly one event carrying
/// that same payload; a malformed body is answered with a client error and
/// publishes nothing.
pub fn handle_challenge_body(decoded: Option<ChallengePayload>) -> (r: ChallengeOutcome)
    ensures
        decoded matches Some(p) ==> ((r.response matches ChallengeResponse::Acknowledged(a)
            && a@ == "OK"@) && (r.event matches Some(q) && q@ == p@)),
        decoded is None ==> r.response is ClientError && r.event is None,
{
    match decoded {
        Some(p) => ChallengeOutcome {
            response: ChallengeResponse::Acknowledged(String::from_str("OK")),
            event: Some(p),
        },
        None => ChallengeOutcome { response: ChallengeResponse::ClientError, event: None },
    }
}

} // verus!
