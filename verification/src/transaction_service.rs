//! The submission engine: a state machine that owns the retry loop, the
//! per-attempt refresh of the anti-replay reference value, the send/confirm
//! sequencing, and the error classification policy.
//!
//! The machine performs no I/O.  Its phase names the next action for the
//! driver (wait, fetch a reference value, send, confirm); the driver performs
//! it against its transport and reports the outcome as a [`SubmitEvent`].
//! Every transition is verified equal to the model transition [`spec_step`].

use vstd::arithmetic::power2::{
    lemma2_to64, lemma2_to64_rest, lemma_pow2_strictly_increases, pow2,
};
use vstd::arithmetic::mul::lemma_mul_inequality;
use vstd::bits::lemma_u64_shl_is_mul;
use vstd::prelude::*;

use crate::error::{retriable, ErrorModel, TransactionError};
use crate::text::str_contains;

verus! {

/// Milliseconds of backoff before the second attempt; each further attempt
/// doubles it.
pub const BASE_BACKOFF_MS: u64 = 500;

/// Milliseconds waited after a failed reference-value fetch before fetching
/// again within the same attempt.
pub const REFERENCE_RETRY_MS: u64 = 1000;

/// What the driver of a [`Submission`] must do next.
pub enum SubmitPhase {
    /// Sleep for `ms` milliseconds, then report [`SubmitEvent::Waited`].
    Waiting { ms: u64 },
    /// Fetch the latest reference value ("recent blockhash") and report the
    /// outcome; the driver keeps the value itself for signing.
    FetchingReference,
    /// Build the unsigned transaction from the instructions and the payer
    /// identity, sign it with the freshly fetched reference value, send it,
    /// and report the outcome.
    Sending,
    /// Ask the ledger whether `signature` is confirmed at the configured
    /// commitment level and report the outcome.
    Confirming { signature: Vec<u8> },
    /// Terminal: the submission ended with exactly one outcome.
    Finished { outcome: Result<Vec<u8>, TransactionError> },
}

/// The driver's report on the action the phase asked for.  Transport errors
/// are carried as their human-readable messages.
pub enum SubmitEvent {
    /// The backoff or fetch-retry sleep has elapsed.
    Waited,
    /// Outcome of the reference-value fetch.
    ReferenceFetched(Result<(), String>),
    /// Outcome of the send: the assigned signature identifier, or the
    /// transport's message.
    SendFinished(Result<Vec<u8>, String>),
    /// Outcome of the confirmation wait: whether the ledger reports the
    /// transaction confirmed, or the transport's message.
    ConfirmFinished(Result<bool, String>),
}

/// Model of [`SubmitPhase`].
pub enum PhaseModel {
    Waiting(int),
    FetchingReference,
    Sending,
    Confirming(Seq<u8>),
    Finished(Result<Seq<u8>, ErrorModel>),
}

/// Model of [`SubmitEvent`].
pub enum EventModel {
    Waited,
    ReferenceFetched(Result<(), Seq<char>>),
    SendFinished(Result<Seq<u8>, Seq<char>>),
    ConfirmFinished(Result<bool, Seq<char>>),
}

/// Model of [`Submission`].
pub struct SubmissionModel {
    pub max_retries: int,
    pub attempt: int,
    pub phase: PhaseModel,
}

impl View for SubmitPhase {
    type V = PhaseModel;

    open spec fn view(&self) -> PhaseModel {
        match self {
            SubmitPhase::Waiting { ms } => PhaseModel::Waiting(*ms as int),
            SubmitPhase::FetchingReference => PhaseModel::FetchingReference,
            SubmitPhase::Sending => PhaseModel::Sending,
            SubmitPhase::Confirming { signature } => PhaseModel::Confirming(signature@),
            SubmitPhase::Finished { outcome } => PhaseModel::Finished(
                match outcome {
                    Ok(sig) => Ok(sig@),
                    Err(e) => Err(e@),
                },
            ),
        }
    }
}

impl View for SubmitEvent {
    type V = EventModel;

    open spec fn view(&self) -> EventModel {
        match self {
            SubmitEvent::Waited => EventModel::Waited,
            SubmitEvent::ReferenceFetched(r) => EventModel::ReferenceFetched(
                match r {
                    Ok(_) => Ok(()),
                    Err(m) => Err(m@),
                },
            ),
            SubmitEvent::SendFinished(r) => EventModel::SendFinished(
                match r {
                    Ok(sig) => Ok(sig@),
                    Err(m) => Err(m@),
                },
            ),
            SubmitEvent::ConfirmFinished(r) => EventModel::ConfirmFinished(
                match r {
                    Ok(b) => Ok(*b),
                    Err(m) => Err(m@),
                },
            ),
        }
    }
}

/// The backoff before attempt `k` (for `k >= 2`), as an unbounded integer:
/// `BASE_BACKOFF_MS * 2^(k-2)` milliseconds.
pub open spec fn backoff_exact(k: int) -> int {
    BASE_BACKOFF_MS * pow2((k - 2) as nat)
}

/// The backoff actually scheduled: the exact doubling schedule, saturated at
/// `u64::MAX` milliseconds once the exponent outgrows the machine word.
pub open spec fn capped_backoff(k: int) -> int {
    if backoff_exact(k) > u64::MAX {
        u64::MAX as int
    } else {
        backoff_exact(k)
    }
}

/// Well-formedness of a submission state: the attempt counter stays within
/// the retry budget, and a spent budget means the machine has finished.
pub open spec fn wf(s: SubmissionModel) -> bool {
    &&& 0 <= s.max_retries <= u32::MAX
    &&& 1 <= s.attempt <= s.max_retries + 2
    &&& (s.attempt == s.max_retries + 2 ==> s.phase is Finished)
}

/// The state a fresh submission starts in: the first attempt fetches a
/// reference value at once, with no backoff.
pub open spec fn init_model(max_retries: int) -> SubmissionModel {
    SubmissionModel { max_retries, attempt: 1, phase: PhaseModel::FetchingReference }
}

/// Move to the next attempt: fail with `MaxRetriesExceeded` once more than
/// `max_retries + 1` attempts would be needed, otherwise schedule the backoff
/// for the new attempt.
pub open spec fn next_attempt(s: SubmissionModel) -> SubmissionModel {
    let k = s.attempt + 1;
    if k > s.max_retries + 1 {
        SubmissionModel {
            attempt: k,
            phase: PhaseModel::Finished(Err(ErrorModel::MaxRetriesExceeded)),
            ..s
        }
    } else {
        SubmissionModel { attempt: k, phase: PhaseModel::Waiting(capped_backoff(k)), ..s }
    }
}

/// Resolve a classified failure: a retriable one starts the next attempt, a
/// fatal one ends the submission with that error.
pub open spec fn fail_or_retry(s: SubmissionModel, e: ErrorModel) -> SubmissionModel {
    if retriable(e) {
        next_attempt(s)
    } else {
        SubmissionModel { phase: PhaseModel::Finished(Err(e)), ..s }
    }
}

/// The detail string reported when the ledger answers the confirmation query
/// but does not confirm the transaction.
pub open spec fn not_confirmed_message() -> Seq<char> {
    "Transaction was not confirmed"@
}

/// An event answers the action the current phase asked for; a finished
/// machine accepts no event.
pub open spec fn event_fits(s: SubmissionModel, e: EventModel) -> bool {
    match (s.phase, e) {
        (PhaseModel::Waiting(_), EventModel::Waited) => true,
        (PhaseModel::FetchingReference, EventModel::ReferenceFetched(_)) => true,
        (PhaseModel::Sending, EventModel::SendFinished(_)) => true,
        (PhaseModel::Confirming(_), EventModel::ConfirmFinished(_)) => true,
        _ => false,
    }
}

/// The transition relation of the submission engine, as one total function on
/// the model.  A mismatched event leaves the state unchanged.
pub open spec fn spec_step(s: SubmissionModel, e: EventModel) -> SubmissionModel {
    match (s.phase, e) {
        (PhaseModel::Waiting(_), EventModel::Waited) => SubmissionModel {
            phase: PhaseModel::FetchingReference,
            ..s
        },
        (PhaseModel::FetchingReference, EventModel::ReferenceFetched(r)) => match r {
            Ok(_) => SubmissionModel { phase: PhaseModel::Sending, ..s },
            // A failed fetch does not consume an attempt: wait a fixed short
            // interval and fetch again.
            Err(_) => SubmissionModel {
                phase: PhaseModel::Waiting(REFERENCE_RETRY_MS as int),
                ..s
            },
        },
        (PhaseModel::Sending, EventModel::SendFinished(r)) => match r {
            Ok(sig) => SubmissionModel { phase: PhaseModel::Confirming(sig), ..s },
            Err(m) => fail_or_retry(s, ErrorModel::Send(m)),
        },
        (PhaseModel::Confirming(sig), EventModel::ConfirmFinished(r)) => match r {
            Ok(true) => SubmissionModel { phase: PhaseModel::Finished(Ok(sig)), ..s },
            Ok(false) => fail_or_retry(s, ErrorModel::Confirmation(not_confirmed_message())),
            Err(m) => fail_or_retry(s, ErrorModel::Confirmation(m)),
        },
        _ => s,
    }
}

/// One in-flight submission: the attempt counter and the phase that names the
/// driver's next action.
pub struct Submission {
    pub max_retries: u32,
    pub attempt: u64,
    pub phase: SubmitPhase,
}

impl View for Submission {
    type V = SubmissionModel;

    open spec fn view(&self) -> SubmissionModel {
        SubmissionModel {
            max_retries: self.max_retries as int,
            attempt: self.attempt as int,
            phase: self.phase@,
        }
    }
}

/// The exponential backoff schedule: `BASE_BACKOFF_MS * 2^(attempt - 2)`
/// milliseconds before attempt number `attempt`, saturating at `u64::MAX`.
pub fn backoff_ms(attempt: u64) -> (ms: u64)
    requires
        2 <= attempt,
    ensures
        ms as int == capped_backoff(attempt as int),
{
    let e = attempt - 2;
    if e >= 56 {
        proof {
            lemma2_to64_rest();
            if e > 56 {
                lemma_pow2_strictly_increases(56, e as nat);
            }
            assert(pow2(56) <= pow2(e as nat));
            lemma_mul_inequality(pow2(56) as int, pow2(e as nat) as int, BASE_BACKOFF_MS as int);
        }
        u64::MAX
    } else {
        proof {
            lemma2_to64();
            lemma2_to64_rest();
            if e < 55 {
                lemma_pow2_strictly_increases(e as nat, 55);
            }
            assert(pow2(e as nat) <= pow2(55));
            lemma_u64_shl_is_mul(1u64, e);
            lemma_mul_inequality(pow2(e as nat) as int, pow2(55) as int, BASE_BACKOFF_MS as int);
        }
        let p = 1u64 << e;
        BASE_BACKOFF_MS * p
    }
}

impl Submission {
    /// Begin a submission with the given retry ceiling: up to
    /// `max_retries + 1` attempts in all.
    pub fn new(max_retries: u32) -> (s: Submission)
        ensures
            s@ == init_model(max_retries as int),
            wf(s@),
    {
        Submission { max_retries, attempt: 1, phase: SubmitPhase::FetchingReference }
    }

    /// Advance the attempt counter after a retriable failure.
    fn advance_attempt(&mut self)
        requires
            wf(old(self)@),
            !(old(self)@.phase is Finished),
        ensures
            final(self)@ == next_attempt(old(self)@),
            wf(final(self)@),
    {
        let next: u64 = self.attempt + 1;
        self.attempt = next;
        if next > self.max_retries as u64 + 1 {
            self.phase = SubmitPhase::Finished {
                outcome: Err(TransactionError::MaxRetriesExceeded),
            };
        } else {
            let ms = backoff_ms(next);
            self.phase = SubmitPhase::Waiting { ms };
        }
    }

    /// Feed the outcome of the requested action into the machine.  The new
    /// state is exactly the model transition `spec_step`; in particular a
    /// fatal failure finishes the machine at once, a retriable one schedules
    /// the next backoff or exhausts the budget, and only a confirmed send
    /// finishes it successfully.
    pub fn on_event(&mut self, event: SubmitEvent)
        requires
            wf(old(self)@),
            event_fits(old(self)@, event@),
        ensures
            final(self)@ == spec_step(old(self)@, event@),
            wf(final(self)@),
    {
        match event {
            SubmitEvent::Waited => {
                self.phase = SubmitPhase::FetchingReference;
            }
            SubmitEvent::ReferenceFetched(r) => match r {
                Ok(_) => {
                    self.phase = SubmitPhase::Sending;
                }
                Err(_) => {
                    self.phase = SubmitPhase::Waiting { ms: REFERENCE_RETRY_MS };
                }
            },
            SubmitEvent::SendFinished(r) => match r {
                Ok(sig) => {
                    self.phase = SubmitPhase::Confirming { signature: sig };
                }
                Err(m) => {
                    let err = TransactionError::SendError(m);
                    if TransactionService::is_retriable_error(&err) {
                        self.advance_attempt();
                    } else {
                        self.phase = SubmitPhase::Finished { outcome: Err(err) };
                    }
                }
            },
            SubmitEvent::ConfirmFinished(r) => match r {
                Ok(confirmed) => {
                    if confirmed {
                        let sig = match &self.phase {
                            SubmitPhase::Confirming { signature } => signature.clone(),
                            _ => {
                                proof {
                                    assert(false);
                                }
                                Vec::new()
                            }
                        };
                        self.phase = SubmitPhase::Finished { outcome: Ok(sig) };
                    } else {
                        let err = TransactionError::ConfirmationError(
                            "Transaction was not confirmed".to_owned(),
                        );
                        if TransactionService::is_retriable_error(&err) {
                            self.advance_attempt();
                        } else {
                            self.phase = SubmitPhase::Finished { outcome: Err(err) };
                        }
                    }
                }
                Err(m) => {
                    let err = TransactionError::ConfirmationError(m);
                    if TransactionService::is_retriable_error(&err) {
                        self.advance_attempt();
                    } else {
                        self.phase = SubmitPhase::Finished { outcome: Err(err) };
                    }
                }
            },
        }
    }

    /// Whether the submission has reached its terminal outcome.
    pub fn is_finished(&self) -> (r: bool)
        ensures
            r == (self@.phase is Finished),
    {
        match &self.phase {
            SubmitPhase::Finished { .. } => true,
            _ => false,
        }
    }
}

/// The engine's construction-time configuration: the retry ceiling.  The RPC
/// transport, the signer and the commitment level stay with the driver, which
/// performs each action a [`Submission`] asks for.
pub struct TransactionService {
    pub max_retries: u32,
}

impl TransactionService {
    /// Configure an engine that performs up to `max_retries + 1` attempts per
    /// submission.
    pub fn new(max_retries: u32) -> (s: TransactionService)
        ensures
            s.max_retries == max_retries,
    {
        TransactionService { max_retries }
    }

    /// Resolve a balance query from the transport's answer: a fetched balance
    /// is returned as is, and a transport failure is wrapped as `RpcError`
    /// around the transport's message, with no retry.
    pub fn get_balance(&self, response: Result<u64, String>) -> (r: Result<
        u64,
        TransactionError,
    >)
        ensures
            response matches Ok(balance) ==> r == Result::<u64, TransactionError>::Ok(balance),
            response matches Err(m) ==> r == Result::<u64, TransactionError>::Err(
                TransactionError::RpcError(m),
            ),
    {
        match response {
            Ok(balance) => Ok(balance),
            Err(m) => Err(TransactionError::RpcError(m)),
        }
    }

    /// Begin submitting a transaction: returns the state machine whose phases
    /// the driver answers until it finishes with exactly one outcome.
    pub fn submit_transaction(&self) -> (s: Submission)
        ensures
            s@ == init_model(self.max_retries as int),
            wf(s@),
    {
        Submission::new(self.max_retries)
    }

    /// The classification policy on executable errors: exactly the model
    /// predicate `retriable`.
    pub fn is_retriable_error(err: &TransactionError) -> (r: bool)
        ensures
            r == retriable(err@),
    {
        match err {
            TransactionError::RpcError(_) => true,
            TransactionError::SendError(m) => {
                str_contains(m.as_str(), "blockhash not found")
                    || str_contains(m.as_str(), "timeout")
                    || str_contains(m.as_str(), "socket closed")
                    || str_contains(m.as_str(), "retry rate limit")
                    || str_contains(m.as_str(), "too many requests")
            }
            TransactionError::ConfirmationError(m) => {
                str_contains(m.as_str(), "timeout") || str_contains(m.as_str(), "connection closed")
            }
            TransactionError::MaxRetriesExceeded => false,
            TransactionError::InvalidInstruction(_) => false,
            TransactionError::InsufficientFunds => false,
            TransactionError::Other(_) => false,
        }
    }
}

} // verus!
