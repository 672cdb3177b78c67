//! The conditions under which a request fails.

use vstd::prelude::*;

verus! {

/// Why a request was turned down. Every request is answered; a failure
/// travels in the response.
#[derive(Clone, Copy, Debug, PartialEq, Eq, Structural)]
pub enum ClientError {
    /// The requester lacks the right to do this.
    AccessDenied,
    /// No account exists under that name.
    NoSuchAccount,
    /// An account already exists under that name.
    AccountExists,
    /// No data exists under that identifier.
    NoSuchData,
    /// Data already exists under that identifier.
    DataExists,
    /// The record has no entry under that key.
    NoSuchEntry,
    /// The record already has an entry under that key.
    EntryExists,
    /// The key is not in the list.
    NoSuchKey,
    /// The owners are not the ones the request needs.
    InvalidOwners,
    /// The version presented does not fit the current version, which is
    /// given.
    InvalidSuccessor(u64),
    /// The request was sent to an authority that does not handle it.
    InvalidOperation,
    /// The account has no mutations left.
    LowBalance,
    /// The session has used up its operations.
    MaxOperationsExhausted,
    /// The request names a requester other than the session itself.
    InvalidRequester,
}

/// Why a request could not be handed over at all.
#[derive(Clone, Copy, Debug, PartialEq, Eq, Structural)]
pub enum InterfaceError {
    /// The session is not connected.
    NotConnected,
    /// The session is in a state that does not take requests.
    InvalidState,
    /// The event channel was closed on the receiving side.
    ChannelRxError,
    /// Nobody could be subscribed to the events.
    EventSubscribeFailed,
}

/// Why a session could not be set up.
#[derive(Clone, Copy, Debug, PartialEq, Eq, Structural)]
pub enum RoutingError {
    /// The session never got in touch with the network.
    NotBootstrapped,
    /// The session was shut down.
    Terminated,
    /// The identity given cannot be used.
    BadAuthority,
}

impl View for ClientError {
    type V = ClientError;

    open spec fn view(&self) -> ClientError {
        *self
    }
}

impl ClientError {
    /// The text that describes the condition.
    pub fn description(&self) -> (text: &'static str)
        ensures
            text@ == self.spec_description(),
    {
        match self {
            ClientError::AccessDenied => "Access denied",
            ClientError::NoSuchAccount => "Account does not exist for client",
            ClientError::AccountExists => "Account already exists for client",
            ClientError::NoSuchData => "Requested data not found",
            ClientError::DataExists => "Data given already exists",
            ClientError::NoSuchEntry => "Requested entry not found",
            ClientError::EntryExists => "Entry already exists",
            ClientError::NoSuchKey => "Key does not exist",
            ClientError::InvalidOwners => "The list of owner keys is invalid",
            ClientError::InvalidSuccessor(_) => "Data given is not a valid successor of stored data",
            ClientError::InvalidOperation => "Invalid operation",
            ClientError::LowBalance => "Insufficient account balance for this operation",
            ClientError::MaxOperationsExhausted => "Max operations exhausted",
            ClientError::InvalidRequester => "Invalid requester",
        }
    }

    /// The text that describes the condition.
    pub open spec fn spec_description(&self) -> Seq<char> {
        match self {
            ClientError::AccessDenied => "Access denied"@,
            ClientError::NoSuchAccount => "Account does not exist for client"@,
            ClientError::AccountExists => "Account already exists for client"@,
            ClientError::NoSuchData => "Requested data not found"@,
            ClientError::DataExists => "Data given already exists"@,
            ClientError::NoSuchEntry => "Requested entry not found"@,
            ClientError::EntryExists => "Entry already exists"@,
            ClientError::NoSuchKey => "Key does not exist"@,
            ClientError::InvalidOwners => "The list of owner keys is invalid"@,
            ClientError::InvalidSuccessor(_) => "Data given is not a valid successor of stored data"@,
            ClientError::InvalidOperation => "Invalid operation"@,
            ClientError::LowBalance => "Insufficient account balance for this operation"@,
            ClientError::MaxOperationsExhausted => "Max operations exhausted"@,
            ClientError::InvalidRequester => "Invalid requester"@,
        }
    }
}

} // verus!
