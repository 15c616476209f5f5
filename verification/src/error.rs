use vstd::prelude::*;

verus! {

/// Why a handler or a read refused to proceed.
///
/// A handler that returns one of these has left the store exactly as it found it.
#[derive(Debug, PartialEq, Eq)]
pub enum ContractError {
    /// A slot that initialization writes (configuration, counter or registry) is empty.
    ConfigurationMissing,
    /// The query subsystem answered a registration request with a failure.
    SubsystemRejected { reason: String },
    /// The acknowledgment carried no payload, or one that does not decode to a watch id.
    DecodeError,
    /// An acknowledgment arrived while the pending-registration slot was empty.
    NoPendingRegistration,
    /// An acknowledgment carried a correlation tag this contract never issues.
    UnsupportedCallback { id: u64 },
    /// A read asked for a watch id that has no binding or no proven snapshot.
    NotFound,
}

/// Mathematical value of a [`ContractError`].
pub enum ErrorView {
    ConfigurationMissing,
    SubsystemRejected { reason: Seq<char> },
    DecodeError,
    NoPendingRegistration,
    UnsupportedCallback { id: u64 },
    NotFound,
}

impl View for ContractError {
    type V = ErrorView;

    open spec fn view(&self) -> ErrorView {
        match *self {
            ContractError::ConfigurationMissing => ErrorView::ConfigurationMissing,
            ContractError::SubsystemRejected { reason } => ErrorView::SubsystemRejected {
                reason: reason@,
            },
            ContractError::DecodeError => ErrorView::DecodeError,
            ContractError::NoPendingRegistration => ErrorView::NoPendingRegistration,
            ContractError::UnsupportedCallback { id } => ErrorView::UnsupportedCallback { id },
            ContractError::NotFound => ErrorView::NotFound,
        }
    }
}

impl Clone for ContractError {
    fn clone(&self) -> (copy: ContractError)
        ensures
            copy@ == self@,
    {
        match self {
            ContractError::ConfigurationMissing => ContractError::ConfigurationMissing,
            ContractError::SubsystemRejected { reason } => ContractError::SubsystemRejected {
                reason: reason.clone(),
            },
            ContractError::DecodeError => ContractError::DecodeError,
            ContractError::NoPendingRegistration => ContractError::NoPendingRegistration,
            ContractError::UnsupportedCallback { id } => ContractError::UnsupportedCallback {
                id: *id,
            },
            ContractError::NotFound => ContractError::NotFound,
        }
    }
}

/// The value of a handler's or a read's result: the value of what it holds on either side.
pub open spec fn result_view<T: View>(r: Result<T, ContractError>) -> Result<T::V, ErrorView> {
    match r {
        Ok(value) => Ok(value@),
        Err(error) => Err(error@),
    }
}

} // verus!
