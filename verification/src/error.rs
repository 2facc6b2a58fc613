//! Transaction pool errors.

use crate::decimal::{decimal, decimal_string};
use crate::payload::{
    identity_token_debug, identity_token_text, invalid_transaction_debug,
    invalid_transaction_text, unknown_transaction_debug, unknown_transaction_text, IdentityToken,
};
use sp_runtime::transaction_validity::{
    InvalidTransaction, TransactionPriority, UnknownTransaction,
};
use vstd::prelude::*;

verus! {

/// Transaction pool result.
pub type Result<T> = std::result::Result<T, Error>;

/// Transaction pool error type.
#[derive(Debug)]
pub enum Error {
    /// The validity of the transaction could not be determined.
    UnknownTransaction(UnknownTransaction),
    /// The transaction is invalid.
    InvalidTransaction(InvalidTransaction),
    /// The transaction validity returned no "provides" tag.
    ///
    /// Such transactions are not accepted to the pool, since those tags
    /// define the identity of transactions (occupancy of the same "slot").
    NoTagsProvided,
    /// The transaction is on the list of temporarily banned ones.
    TemporarilyBanned,
    /// A transaction with the same identity is in the pool already.
    AlreadyImported(IdentityToken),
    /// The priority of the transaction does not exceed that of the one it
    /// would have to replace.
    TooLowPriority {
        /// Transaction already in the pool.
        old: TransactionPriority,
        /// Transaction entering the pool.
        new: TransactionPriority,
    },
    /// The tags that the transaction requires and provides form a cycle.
    CycleDetected,
    /// The pool is full.
    ImmediatelyDropped,
    /// The transaction cannot be propagated and the local node does not
    /// author blocks.
    Unactionable,
    /// The block that the transaction was to be checked against is not known
    /// to the pool.
    InvalidBlockId(String),
    /// The pool does not take transactions whose requirements are not met yet.
    RejectedFutureTransaction,
}

impl Error {
    /// Whether the same transaction may enter the pool at a later time.
    ///
    /// A ban ends, room in the pool frees up, a block becomes known once the
    /// node has caught up, and whether future transactions are taken depends
    /// on how a pool is set up. Every other failure lies in the transaction
    /// itself or in the role of the node.
    pub open spec fn retriable(&self) -> bool {
        match self {
            Error::TemporarilyBanned => true,
            Error::ImmediatelyDropped => true,
            Error::InvalidBlockId(_) => true,
            Error::RejectedFutureTransaction => true,
            Error::UnknownTransaction(_) => false,
            Error::InvalidTransaction(_) => false,
            Error::NoTagsProvided => false,
            Error::AlreadyImported(_) => false,
            Error::TooLowPriority { .. } => false,
            Error::CycleDetected => false,
            Error::Unactionable => false,
        }
    }

    /// What `{:?}` shows of the value that the error carries without looking
    /// into it; empty where it carries none.
    pub open spec fn payload_text(&self) -> Seq<char> {
        match self {
            Error::UnknownTransaction(code) => unknown_transaction_text(*code),
            Error::InvalidTransaction(code) => invalid_transaction_text(*code),
            Error::AlreadyImported(token) => identity_token_text(*token),
            _ => Seq::empty(),
        }
    }

    /// The message of the error, where `payload` is the text that stands for
    /// the value it carries without looking into it.
    pub open spec fn message_with(&self, payload: Seq<char>) -> Seq<char> {
        match self {
            Error::UnknownTransaction(_) => "Unknown transaction validity: "@ + payload,
            Error::InvalidTransaction(_) => "Invalid transaction validity: "@ + payload,
            Error::NoTagsProvided => {
                "Transaction does not provide any tags, so the pool can't identify it"@
            },
            Error::TemporarilyBanned => "Transaction temporarily Banned"@,
            Error::AlreadyImported(_) => "["@ + payload + "] Already imported"@,
            Error::TooLowPriority { old: resident, new: entering } => {
                "Too low priority ("@ + decimal(*resident as nat) + " > "@ + decimal(
                    *entering as nat,
                ) + ")"@
            },
            Error::CycleDetected => "Transaction with cyclic dependency"@,
            Error::ImmediatelyDropped => {
                "Transaction couldn't enter the pool because of the limit"@
            },
            Error::Unactionable => {
                "Transaction cannot be propagated and the local node does not author blocks"@
            },
            Error::InvalidBlockId(id) => id@,
            Error::RejectedFutureTransaction => "The pool is not accepting future transactions"@,
        }
    }

    /// The message of the error.
    pub open spec fn message(&self) -> Seq<char> {
        self.message_with(self.payload_text())
    }

    /// Returns true if the transaction could be re-submitted to the pool in
    /// the future.
    ///
    /// For example, `Error::ImmediatelyDropped` is retriable, because the
    /// transaction may enter the pool if there is space for it in the future.
    #[verifier::when_used_as_spec(retriable)]
    pub fn is_retriable(&self) -> (r: bool)
        ensures
            r == self.retriable(),
            self is TemporarilyBanned || self is ImmediatelyDropped || self is InvalidBlockId
                || self is RejectedFutureTransaction ==> r,
            self is UnknownTransaction || self is InvalidTransaction || self is NoTagsProvided
                || self is AlreadyImported || self is TooLowPriority || self is CycleDetected
                || self is Unactionable ==> !r,
    {
        match self {
            // An invalid transaction is temporarily banned, however it can
            // become valid at a later time.
            Error::TemporarilyBanned
            // The pool is full at the moment.
            | Error::ImmediatelyDropped
            // The block id is not known to the pool.
            // The node might be lagging behind, or during a warp sync.
            | Error::InvalidBlockId(_)
            // The pool is configured to not accept future transactions.
            | Error::RejectedFutureTransaction => true,
            _ => false,
        }
    }

    /// Writes the message of the error around `payload`, the text that stands
    /// for the value it carries without looking into it. An error that
    /// carries no such value makes no use of `payload`.
    pub fn description_with(&self, payload: &str) -> (text: String)
        ensures
            text@ == self.message_with(payload@),
    {
        match self {
            Error::UnknownTransaction(_) => {
                String::from_str("Unknown transaction validity: ").concat(payload)
            },
            Error::InvalidTransaction(_) => {
                String::from_str("Invalid transaction validity: ").concat(payload)
            },
            Error::NoTagsProvided => {
                String::from_str(
                    "Transaction does not provide any tags, so the pool can't identify it",
                )
            },
            Error::TemporarilyBanned => String::from_str("Transaction temporarily Banned"),
            Error::AlreadyImported(_) => {
                String::from_str("[").concat(payload).concat("] Already imported")
            },
            Error::TooLowPriority { old: resident, new: entering } => {
                let mut text = String::from_str("Too low priority (");
                text.append(decimal_string(*resident).as_str());
                text.append(" > ");
                text.append(decimal_string(*entering).as_str());
                text.append(")");
                text
            },
            Error::CycleDetected => String::from_str("Transaction with cyclic dependency"),
            Error::ImmediatelyDropped => {
                String::from_str("Transaction couldn't enter the pool because of the limit")
            },
            Error::Unactionable => {
                String::from_str(
                    "Transaction cannot be propagated and the local node does not author blocks",
                )
            },
            Error::InvalidBlockId(id) => id.clone(),
            Error::RejectedFutureTransaction => {
                String::from_str("The pool is not accepting future transactions")
            },
        }
    }

    /// Writes the message of the error.
    pub fn description(&self) -> (text: String)
        ensures
            text@ == self.message(),
    {
        match self {
            Error::UnknownTransaction(code) => {
                let payload = unknown_transaction_debug(code);
                self.description_with(payload.as_str())
            },
            Error::InvalidTransaction(code) => {
                let payload = invalid_transaction_debug(code);
                self.description_with(payload.as_str())
            },
            Error::AlreadyImported(token) => {
                let payload = identity_token_debug(token);
                self.description_with(payload.as_str())
            },
            _ => self.description_with(""),
        }
    }
}

/// Transaction pool error conversion.
///
/// An error type of another layer implements this to say which of its values
/// are pool errors, so that a caller at the top, an RPC endpoint for one, can
/// answer with the pool error and not with a bare text.
pub trait IntoPoolError: Send + Sized + Sync {
    /// Tries to take the pool error out of `self`.
    ///
    /// A value that is no pool error comes back as it was, so nothing is lost
    /// by asking. Implementing the method is optional: a type that keeps the
    /// body given here holds no pool error.
    fn into_pool_error(self) -> (r: std::result::Result<Error, Self>)
        ensures
            r matches Err(e) ==> e == self,
        default_ensures
            r == Err::<Error, Self>(self),
    {
        Err(self)
    }
}

impl IntoPoolError for Error {
    /// An `Error` is the pool error that it is.
    fn into_pool_error(self) -> (r: std::result::Result<Error, Self>)
        ensures
            r == Ok::<Error, Error>(self),
    {
        Ok(self)
    }
}

/// Two errors that are equal are retriable or not together: the answer lies
/// in the value, and in nothing else.
pub proof fn lemma_retriable_deterministic(a: Error, b: Error)
    requires
        a == b,
    ensures
        a.retriable() == b.retriable(),
{
}

} // verus!
