//! The error taxonomy returned to callers, its mathematical model, and the
//! policy that classifies a failure as retriable or fatal.

use vstd::prelude::*;
use crate::text::has_substring;

verus! {

/// Classified outcome of a failed ledger interaction.  Every failure the
/// engine reports to its caller carries exactly one of these tags; each tag
/// holds a human-readable detail string except the retry-exhaustion and
/// insufficient-funds tags, which are parameterless.
#[derive(Debug, Clone, PartialEq, Eq)]
pub enum TransactionError {
    /// Any RPC-layer failure (for example a balance or reference-value fetch).
    RpcError(String),
    /// A transport-level failure while sending a signed transaction.
    SendError(String),
    /// The ledger reported the transaction unconfirmed, or the transport
    /// failed while waiting for confirmation.
    ConfirmationError(String),
    /// The retry budget was spent without a confirmed send.
    MaxRetriesExceeded,
    /// The ledger rejected the instructions outright.
    InvalidInstruction(String),
    /// The paying account cannot cover the transaction.
    InsufficientFunds,
    /// A catch-all for failures the engine cannot otherwise represent.
    Other(String),
}

/// Mathematical model of `TransactionError`: the same taxonomy with each
/// detail string as its sequence of characters.
pub enum ErrorModel {
    Rpc(Seq<char>),
    Send(Seq<char>),
    Confirmation(Seq<char>),
    MaxRetriesExceeded,
    InvalidInstruction(Seq<char>),
    InsufficientFunds,
    Other(Seq<char>),
}

impl View for TransactionError {
    type V = ErrorModel;

    open spec fn view(&self) -> ErrorModel {
        match self {
            TransactionError::RpcError(m) => ErrorModel::Rpc(m@),
            TransactionError::SendError(m) => ErrorModel::Send(m@),
            TransactionError::ConfirmationError(m) => ErrorModel::Confirmation(m@),
            TransactionError::MaxRetriesExceeded => ErrorModel::MaxRetriesExceeded,
            TransactionError::InvalidInstruction(m) => ErrorModel::InvalidInstruction(m@),
            TransactionError::InsufficientFunds => ErrorModel::InsufficientFunds,
            TransactionError::Other(m) => ErrorModel::Other(m@),
        }
    }
}

/// The classification policy: whether a failure is transient and worth
/// retrying under the backoff schedule.  RPC-layer failures always are; send
/// and confirmation failures are retriable exactly when their detail contains
/// one of a fixed set of substrings (case-sensitive); every other kind is
/// fatal.
pub open spec fn retriable(e: ErrorModel) -> bool {
    match e {
        ErrorModel::Rpc(_) => true,
        ErrorModel::Send(m) => {
            ||| has_substring(m, "blockhash not found"@)
            ||| has_substring(m, "timeout"@)
            ||| has_substring(m, "socket closed"@)
            ||| has_substring(m, "retry rate limit"@)
            ||| has_substring(m, "too many requests"@)
        },
        ErrorModel::Confirmation(m) => {
            ||| has_substring(m, "timeout"@)
            ||| has_substring(m, "connection closed"@)
        },
        ErrorModel::MaxRetriesExceeded => false,
        ErrorModel::InvalidInstruction(_) => false,
        ErrorModel::InsufficientFunds => false,
        ErrorModel::Other(_) => false,
    }
}

} // verus!
