use sp_runtime::transaction_validity::InvalidTransaction;
use transaction_pool_error::error::{Error, IntoPoolError};
use transaction_pool_error::payload::IdentityToken;

/// An error of another layer that knows nothing of the pool.
#[derive(Debug, PartialEq)]
struct Timeout {
    after_ms: u64,
}

impl IntoPoolError for Timeout {}

/// An error of another layer that may hold a pool error.
#[derive(Debug)]
enum RpcError {
    Pool(Error),
    Closed(u16),
}

impl IntoPoolError for RpcError {
    fn into_pool_error(self) -> Result<Error, Self> {
        match self {
            RpcError::Pool(error) => Ok(error),
            other => Err(other),
        }
    }
}

#[test]
fn error_converts_to_itself() {
    let converted = Error::TooLowPriority { old: 10, new: 5 }.into_pool_error();
    assert!(matches!(converted, Ok(Error::TooLowPriority { old: 10, new: 5 })));
}

#[test]
fn conversion_keeps_the_payload() {
    let converted = Error::InvalidBlockId("0xabc".to_string()).into_pool_error();
    match converted {
        Ok(Error::InvalidBlockId(id)) => assert_eq!(id, "0xabc"),
        _ => panic!("not the error that went in"),
    }
    let converted = Error::InvalidTransaction(InvalidTransaction::Custom(4)).into_pool_error();
    assert!(matches!(
        converted,
        Ok(Error::InvalidTransaction(InvalidTransaction::Custom(4)))
    ));
    let converted = Error::AlreadyImported(IdentityToken(Box::new(77u64))).into_pool_error();
    match converted {
        Ok(Error::AlreadyImported(IdentityToken(identity))) => {
            assert_eq!(identity.downcast_ref::<u64>(), Some(&77));
        }
        _ => panic!("not the error that went in"),
    }
}

#[test]
fn conversion_succeeds_for_every_variant_without_payload() {
    assert!(matches!(Error::NoTagsProvided.into_pool_error(), Ok(Error::NoTagsProvided)));
    assert!(matches!(Error::TemporarilyBanned.into_pool_error(), Ok(Error::TemporarilyBanned)));
    assert!(matches!(Error::CycleDetected.into_pool_error(), Ok(Error::CycleDetected)));
    assert!(matches!(Error::ImmediatelyDropped.into_pool_error(), Ok(Error::ImmediatelyDropped)));
    assert!(matches!(Error::Unactionable.into_pool_error(), Ok(Error::Unactionable)));
    assert!(matches!(
        Error::RejectedFutureTransaction.into_pool_error(),
        Ok(Error::RejectedFutureTransaction)
    ));
}

#[test]
fn conversion_keeps_the_classification() {
    let converted = Error::ImmediatelyDropped.into_pool_error();
    assert!(converted.map(|error| error.is_retriable()).unwrap_or(false));
}

#[test]
fn foreign_error_comes_back_unchanged_by_default() {
    let converted = Timeout { after_ms: 250 }.into_pool_error();
    match converted {
        Err(timeout) => assert_eq!(timeout, Timeout { after_ms: 250 }),
        Ok(_) => panic!("a timeout is no pool error"),
    }
}

#[test]
fn foreign_error_that_holds_a_pool_error_gives_it() {
    let converted = RpcError::Pool(Error::TemporarilyBanned).into_pool_error();
    assert!(matches!(converted, Ok(Error::TemporarilyBanned)));
}

#[test]
fn foreign_error_that_holds_none_comes_back() {
    let converted = RpcError::Closed(1006).into_pool_error();
    assert!(matches!(converted, Err(RpcError::Closed(1006))));
}
