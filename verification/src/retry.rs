//! The retry policy around a query: up to three attempts, with a reconnect
//! before each attempt after the first.

use crate::client::ClientError;
use crate::decimal::{decimal_text, numeral_of};
use crate::json::{Json, JsonTree};
use vstd::prelude::*;

verus! {

/// How many times a query is tried before its failure is final.
pub const MAX_ATTEMPTS: u8 = 3;

/// A failure that the policy no longer retries, with the number of attempts
/// that were made.
#[derive(Debug, Clone, Copy, PartialEq, Eq)]
pub struct RetryError {
    pub attempts: u8,
    pub error: ClientError,
}

/// What follows an attempt.
#[derive(Debug, Clone, PartialEq, Eq)]
pub enum Verdict {
    /// The attempt succeeded: this is its result.
    Deliver(Json),
    /// The attempt failed and another is due: connect again first.
    Reconnect,
    /// The attempt failed and was the last.
    GiveUp(RetryError),
}

pub enum VerdictView {
    Deliver(JsonTree),
    Reconnect,
    GiveUp(RetryError),
}

impl View for Verdict {
    type V = VerdictView;

    open spec fn view(&self) -> VerdictView {
        match self {
            Verdict::Deliver(payload) => VerdictView::Deliver(payload@),
            Verdict::Reconnect => VerdictView::Reconnect,
            Verdict::GiveUp(error) => VerdictView::GiveUp(*error),
        }
    }
}

/// What follows a reconnect.
#[derive(Debug, Clone, Copy, PartialEq, Eq)]
pub enum Resumption {
    /// The connection stands: make the next attempt.
    Attempt,
    /// The reconnect failed, which is final at once.
    GiveUp(RetryError),
}

/// The number of attempts on record after one more, which stops at the
/// maximum.
pub open spec fn counted(attempts: u8) -> u8 {
    if attempts < MAX_ATTEMPTS {
        (attempts + 1) as u8
    } else {
        MAX_ATTEMPTS
    }
}

/// What follows an attempt that was made with `attempts` attempts already on
/// record: a success is delivered; a failure is retried while fewer than
/// three attempts have been made, and final at the third.
pub open spec fn after_attempt(attempts: u8, outcome: Result<Json, ClientError>) -> VerdictView {
    match outcome {
        Ok(payload) => VerdictView::Deliver(payload@),
        Err(error) => if counted(attempts) >= MAX_ATTEMPTS {
            VerdictView::GiveUp(RetryError { attempts: counted(attempts), error })
        } else {
            VerdictView::Reconnect
        },
    }
}

/// What follows a reconnect with `attempts` attempts on record.
pub open spec fn after_reconnect(attempts: u8, outcome: Result<(), ClientError>) -> Resumption {
    match outcome {
        Ok(_) => Resumption::Attempt,
        Err(error) => Resumption::GiveUp(RetryError { attempts, error }),
    }
}

/// The name of an error in a message.
pub open spec fn error_name(error: ClientError) -> Seq<char> {
    match error {
        ClientError::Transport => "transport error"@,
        ClientError::ProtocolViolation => "protocol violation"@,
        ClientError::RequestFailed => "request failed"@,
        ClientError::Timeout => "timeout"@,
        ClientError::Cancelled => "cancelled"@,
        ClientError::NotConnected => "not connected"@,
        ClientError::NoData => "no data found"@,
    }
}

/// The message of a final failure: it cites the number of attempts and names
/// the last error.
pub open spec fn failure_message(failure: RetryError) -> Seq<char> {
    "failed after "@ + numeral_of(failure.attempts as nat) + " attempts: "@ + error_name(
        failure.error,
    )
}

/// The name of an error in a message.
pub fn describe(error: ClientError) -> (name: &'static str)
    ensures
        name@ == error_name(error),
{
    match error {
        ClientError::Transport => "transport error",
        ClientError::ProtocolViolation => "protocol violation",
        ClientError::RequestFailed => "request failed",
        ClientError::Timeout => "timeout",
        ClientError::Cancelled => "cancelled",
        ClientError::NotConnected => "not connected",
        ClientError::NoData => "no data found",
    }
}

impl RetryError {
    /// The message of the failure.
    pub fn message(&self) -> (text: String)
        ensures
            text@ == failure_message(*self),
    {
        let mut text = String::from_str("failed after ");
        let count = decimal_text(self.attempts as u64);
        text.append(count.as_str());
        text.append(" attempts: ");
        text.append(describe(self.error));
        text
    }
}

/// The record of the attempts made at one query.
pub struct Retry {
    attempts: u8,
}

impl Retry {
    /// The number of attempts on record.
    pub closed spec fn attempts(&self) -> u8 {
        self.attempts
    }

    /// A record with no attempt on it.
    pub fn new() -> (retry: Retry)
        ensures
            retry.attempts() == 0,
    {
        Retry { attempts: 0 }
    }

    /// The number of attempts that were made.
    pub fn attempts_made(&self) -> (attempts: u8)
        ensures
            attempts == self.attempts(),
    {
        self.attempts
    }

    /// Records the outcome of an attempt and says what follows.
    pub fn attempted(&mut self, outcome: Result<Json, ClientError>) -> (verdict: Verdict)
        ensures
            final(self).attempts() == counted(old(self).attempts()),
            verdict@ == after_attempt(old(self).attempts(), outcome),
    {
        if self.attempts < MAX_ATTEMPTS {
            self.attempts = self.attempts + 1;
        } else {
            self.attempts = MAX_ATTEMPTS;
        }
        match outcome {
            Ok(payload) => Verdict::Deliver(payload),
            Err(error) => {
                if self.attempts >= MAX_ATTEMPTS {
                    Verdict::GiveUp(RetryError { attempts: self.attempts, error })
                } else {
                    Verdict::Reconnect
                }
            },
        }
    }

    /// Takes the outcome of the reconnect between two attempts and says
    /// whether the next attempt is made.
    pub fn reconnected(&self, outcome: Result<(), ClientError>) -> (resumption: Resumption)
        ensures
            resumption == after_reconnect(self.attempts(), outcome),
    {
        match outcome {
            Ok(_) => Resumption::Attempt,
            Err(error) => Resumption::GiveUp(RetryError { attempts: self.attempts, error }),
        }
    }
}

/// Three failures in a row are final at the third, which cites three
/// attempts; the first two ask for a reconnect.
pub proof fn lemma_three_failures(first: ClientError, second: ClientError, third: ClientError)
    ensures
        after_attempt(0, Err(first)) == VerdictView::Reconnect,
        after_attempt(counted(0), Err(second)) == VerdictView::Reconnect,
        after_attempt(counted(counted(0)), Err(third)) == VerdictView::GiveUp(
            RetryError { attempts: 3, error: third },
        ),
{
}

} // verus!
