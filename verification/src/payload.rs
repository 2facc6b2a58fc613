//! What an error carries without looking into it: the validity codes of the
//! runtime and the identity of a transaction, and how each one is shown.

use sp_runtime::transaction_validity::{InvalidTransaction, UnknownTransaction};
use vstd::prelude::*;

verus! {

/// `sp_runtime`'s code for a validity that could not be determined, carried
/// as it is.
#[verifier::external_type_specification]
#[verifier::external_body]
pub struct ExUnknownTransaction(UnknownTransaction);

/// `sp_runtime`'s code for an invalid transaction, carried as it is.
#[verifier::external_type_specification]
#[verifier::external_body]
pub struct ExInvalidTransaction(InvalidTransaction);

/// The identity of a transaction, kept without its type.
///
/// Whoever put the value in knows its type and gets it back by a downcast of
/// the box. The box can be sent to another thread and shared between
/// threads. Nothing in this crate looks inside, and the verifier is not
/// shown the field: it takes no trait object with more than one trait.
#[verifier::external_body]
#[derive(Debug)]
pub struct IdentityToken(pub Box<dyn std::any::Any + Send + Sync>);

/// What `{:?}` shows of an [`UnknownTransaction`].
pub uninterp spec fn unknown_transaction_text(code: UnknownTransaction) -> Seq<char>;

/// What `{:?}` shows of an [`InvalidTransaction`].
pub uninterp spec fn invalid_transaction_text(code: InvalidTransaction) -> Seq<char>;

/// What `{:?}` shows of the box in an [`IdentityToken`].
pub uninterp spec fn identity_token_text(token: IdentityToken) -> Seq<char>;

/// Formats `code` by `{:?}`, that is by the `fmt` of the `Debug` impl that
/// `sp_runtime` derives for `UnknownTransaction`.
///
/// Not proved: that the text is a function of `code`. Which text it is, is
/// left open.
#[verifier::external_body]
pub(crate) fn unknown_transaction_debug(code: &UnknownTransaction) -> (text: String)
    ensures
        text@ == unknown_transaction_text(*code),
{
    format!("{:?}", code)
}

/// Formats `code` by `{:?}`, that is by the `fmt` of the `Debug` impl that
/// `sp_runtime` derives for `InvalidTransaction`.
///
/// Not proved: that the text is a function of `code`. Which text it is, is
/// left open.
#[verifier::external_body]
pub(crate) fn invalid_transaction_debug(code: &InvalidTransaction) -> (text: String)
    ensures
        text@ == invalid_transaction_text(*code),
{
    format!("{:?}", code)
}

/// Formats the box in `token` by `{:?}`, that is by the `fmt` of the `Debug`
/// impl that std has for `dyn Any + Send + Sync`, which shows nothing of the
/// value inside.
///
/// Not proved: that the text is a function of `token`. Which text it is, is
/// left open.
#[verifier::external_body]
pub(crate) fn identity_token_debug(token: &IdentityToken) -> (text: String)
    ensures
        text@ == identity_token_text(*token),
{
    format!("{:?}", token.0)
}

} // verus!
