//! Interpretation of the outcome of the request as an exit status and one
//! line of output.
use vstd::prelude::*;

verus! {

/// Exit status for a probe that could not learn the remote state.
pub const UNKNOWN: u8 = 3;

/// The body that the remote end answers with.
pub struct CheckResult {
    /// The exit status to report, taken over as it is.
    pub code: u8,
    /// The line to print.
    pub description: String,
}

/// What came of the request, stage by stage.
pub enum HttpOutcome {
    /// No response: connection, timeout, TLS or status failure.
    TransportFailed(String),
    /// A response whose body could not be read as text.
    BodyUnreadable(String),
    /// A body that is not a check result.
    Undecodable(String),
    /// A decoded check result.
    Decoded(CheckResult),
}

/// What the interpretation needs of an outcome: the three kinds of
/// failure carry only their reason.
pub enum Reply {
    Failed(Seq<char>),
    Answered(u8, Seq<char>),
}

impl View for HttpOutcome {
    type V = Reply;

    open spec fn view(&self) -> Reply {
        match self {
            HttpOutcome::TransportFailed(e) => Reply::Failed(e@),
            HttpOutcome::BodyUnreadable(e) => Reply::Failed(e@),
            HttpOutcome::Undecodable(e) => Reply::Failed(e@),
            HttpOutcome::Decoded(r) => Reply::Answered(r.code, r.description@),
        }
    }
}

/// The exit status and the printed line.
pub struct Outcome {
    pub exit_code: u8,
    pub message: String,
}

impl View for Outcome {
    type V = (u8, Seq<char>);

    open spec fn view(&self) -> (u8, Seq<char>) {
        (self.exit_code, self.message@)
    }
}

/// The text that starts every failure line.
pub open spec fn failure_prefix() -> Seq<char> {
    "failed to get result from the server: "@
}

/// The outcome owed for a reply: on an answer its code and description,
/// on any failure `UNKNOWN` and the reason behind the failure prefix.
pub open spec fn reply_outcome(r: Reply) -> (u8, Seq<char>) {
    match r {
        Reply::Failed(reason) => (UNKNOWN, failure_prefix() + reason),
        Reply::Answered(code, description) => (code, description),
    }
}

/// The outcome of a failure with the given reason.
pub fn failure(reason: &str) -> (r: Outcome)
    ensures
        r@ == reply_outcome(Reply::Failed(reason@)),
{
    let mut message = "failed to get result from the server: ".to_string();
    message.append(reason);
    Outcome { exit_code: UNKNOWN, message }
}

/// Turns the outcome of the request into the exit status and the line to
/// print.
pub fn interpret(outcome: HttpOutcome) -> (r: Outcome)
    ensures
        r@ == reply_outcome(outcome@),
        outcome is Decoded ==> r.exit_code == outcome->Decoded_0.code,
        !(outcome is Decoded) ==> r.exit_code == UNKNOWN,
{
    match outcome {
        HttpOutcome::TransportFailed(e) => failure(e.as_str()),
        HttpOutcome::BodyUnreadable(e) => failure(e.as_str()),
        HttpOutcome::Undecodable(e) => failure(e.as_str()),
        HttpOutcome::Decoded(result) => Outcome { exit_code: result.code, message: result.description },
    }
}

} // verus!
