//! What the digit source is asked, what it answers, and what the scan makes
//! of an answer.

use vstd::prelude::*;

verus! {

/// The status of an answer that carries the digits asked for.
pub const STATUS_OK: i32 = 200;

/// The status by which the source asks for a pause.
pub const STATUS_TOO_MANY_REQUESTS: i32 = 429;

/// The radix in which digits are asked for.
pub const RADIX: u32 = 10;

/// The payload of an answer: the digits asked for.
#[derive(Debug, PartialEq, Eq)]
pub struct Resp {
    content: String,
}

impl View for Resp {
    type V = Seq<char>;

    closed spec fn view(&self) -> Seq<char> {
        self.content@
    }
}

impl Resp {
    /// A payload holding `content`.
    pub fn new(content: String) -> (resp: Resp)
        ensures
            resp@ == content@,
    {
        Resp { content }
    }

    /// The digits of the payload.
    pub fn content(&self) -> (digits: &String)
        ensures
            digits@ == self@,
    {
        &self.content
    }

    /// Gives up the payload for its digits.
    pub fn into_content(self) -> (digits: String)
        ensures
            digits@ == self@,
    {
        self.content
    }
}

/// One query to the digit source: `length` digits from `offset` on, in
/// radix `RADIX`, answered within `timeout_secs` seconds or not at all.
#[derive(Clone, Copy, Debug, PartialEq, Eq, Structural)]
pub struct FetchRequest {
    pub offset: u64,
    pub length: u64,
    pub timeout_secs: u64,
}

/// What came back for one query, before it is judged.
#[derive(Debug, PartialEq, Eq)]
pub enum Reply {
    /// No answer: the attempt timed out or the connection failed.
    Unreachable,
    /// An answer with its status, its raw body and, where the body has the
    /// expected structure, the payload read from it.
    Answered { status: i32, payload: Option<Resp>, body: Vec<u8> },
}

/// The four ways a query can end.
#[derive(Debug, PartialEq, Eq)]
pub enum FetchOutcome {
    /// The digits asked for.
    Success(String),
    /// The source asks for a pause.
    RateLimited,
    /// The attempt failed in a way that a later attempt may not.
    TransientError,
    /// The answer does not have the expected structure; its raw body.
    FatalError(Vec<u8>),
}

/// A reply as a mathematical value.
pub ghost enum ReplyView {
    Unreachable,
    Answered { status: i32, payload: Option<Seq<char>>, body: Seq<u8> },
}

/// An outcome as a mathematical value.
#[verifier::ext_equal]
pub ghost enum OutcomeView {
    Success(Seq<char>),
    RateLimited,
    TransientError,
    FatalError(Seq<u8>),
}

impl View for Reply {
    type V = ReplyView;

    open spec fn view(&self) -> ReplyView {
        match *self {
            Reply::Unreachable => ReplyView::Unreachable,
            Reply::Answered { status, payload, body } => ReplyView::Answered {
                status,
                payload: match payload {
                    Some(resp) => Some(resp@),
                    None => None,
                },
                body: body@,
            },
        }
    }
}

impl View for FetchOutcome {
    type V = OutcomeView;

    open spec fn view(&self) -> OutcomeView {
        match *self {
            FetchOutcome::Success(digits) => OutcomeView::Success(digits@),
            FetchOutcome::RateLimited => OutcomeView::RateLimited,
            FetchOutcome::TransientError => OutcomeView::TransientError,
            FetchOutcome::FatalError(body) => OutcomeView::FatalError(body@),
        }
    }
}

/// The outcome of a reply. No answer is a transient error. A request for a
/// pause is one whatever the body holds. Any other answer is fatal when its
/// body lacks the expected structure, a success when its status is OK, and a
/// transient error otherwise.
pub open spec fn outcome_of(reply: ReplyView) -> OutcomeView {
    match reply {
        ReplyView::Unreachable => OutcomeView::TransientError,
        ReplyView::Answered { status, payload, body } => {
            if status == STATUS_TOO_MANY_REQUESTS {
                OutcomeView::RateLimited
            } else {
                match payload {
                    None => OutcomeView::FatalError(body),
                    Some(digits) => if status == STATUS_OK {
                        OutcomeView::Success(digits)
                    } else {
                        OutcomeView::TransientError
                    },
                }
            }
        },
    }
}

/// Judges a reply.
pub fn classify(reply: Reply) -> (outcome: FetchOutcome)
    ensures
        outcome@ == outcome_of(reply@),
{
    match reply {
        Reply::Unreachable => FetchOutcome::TransientError,
        Reply::Answered { status, payload, body } => {
            if status == STATUS_TOO_MANY_REQUESTS {
                FetchOutcome::RateLimited
            } else {
                match payload {
                    None => FetchOutcome::FatalError(body),
                    Some(resp) => if status == STATUS_OK {
                        FetchOutcome::Success(resp.into_content())
                    } else {
                        FetchOutcome::TransientError
                    },
                }
            }
        },
    }
}

} // verus!
