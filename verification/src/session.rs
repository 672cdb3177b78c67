//! What a session is, seen from outside, and what the handling of a request
//! makes of it and of the store.
//!
//! Before a request gets to the store, three things are looked at in turn: a
//! response that a hook has put in the place of the real one, the simulation
//! of a network that never answers, and the number of operations that the
//! session has left.

use crate::authority::Authority;
use crate::error::ClientError;
use crate::execution::executed;
use crate::messages::{DeliveryView, EventView, RequestView, ResponseView};
use crate::name::{PublicKey, XorName};
use crate::vault::VaultView;
use vstd::prelude::*;

verus! {

/// The delay, in milliseconds, that applies where none is set.
pub const DEFAULT_DELAY_MS: u64 = 0;

/// The delay after which a new session says that it is connected.
pub const CONNECT_DELAY_MS: u64 = DEFAULT_DELAY_MS;

/// The delay of a response about an account's counters.
pub const GET_ACCOUNT_INFO_DELAY_MS: u64 = DEFAULT_DELAY_MS;

/// The delay of a response to a put of an immutable blob.
pub const PUT_IDATA_DELAY_MS: u64 = DEFAULT_DELAY_MS;

/// The delay of a response that carries an immutable blob.
pub const GET_IDATA_DELAY_MS: u64 = DEFAULT_DELAY_MS;

/// The delay of a response to a put of a mutable record.
pub const PUT_MDATA_DELAY_MS: u64 = DEFAULT_DELAY_MS;

/// The delay of a response that carries a record's version.
pub const GET_MDATA_VERSION_DELAY_MS: u64 = DEFAULT_DELAY_MS;

/// The delay of a response that carries a record without its entries.
pub const GET_MDATA_SHELL_DELAY_MS: u64 = DEFAULT_DELAY_MS;

/// The delay of a response that carries a whole record.
pub const GET_MDATA_DELAY_MS: u64 = DEFAULT_DELAY_MS;

/// The delay of a response that carries entries, keys or values.
pub const GET_MDATA_ENTRIES_DELAY_MS: u64 = DEFAULT_DELAY_MS;

/// The delay of a response to a change of entries.
pub const SET_MDATA_ENTRIES_DELAY_MS: u64 = DEFAULT_DELAY_MS;

/// The delay of a response that carries permissions.
pub const GET_MDATA_PERMISSIONS_DELAY_MS: u64 = DEFAULT_DELAY_MS;

/// The delay of a response to a change of permissions.
pub const SET_MDATA_PERMISSIONS_DELAY_MS: u64 = DEFAULT_DELAY_MS;

/// The delay of a response to a change of owner.
pub const CHANGE_MDATA_OWNER_DELAY_MS: u64 = DEFAULT_DELAY_MS;

/// The delay of a response that carries the authorised keys.
pub const LIST_AUTH_KEYS_AND_VERSION_DELAY_MS: u64 = DEFAULT_DELAY_MS;

/// The delay of a response to the authorisation of a key.
pub const INS_AUTH_KEY_DELAY_MS: u64 = DEFAULT_DELAY_MS;

/// The delay of a response to the removal of a key.
pub const DEL_AUTH_KEY_DELAY_MS: u64 = DEFAULT_DELAY_MS;

/// The delay of the response to a request.
pub open spec fn response_delay(request: RequestView) -> u64 {
    match request {
        RequestView::GetAccountInfo(_) => GET_ACCOUNT_INFO_DELAY_MS,
        RequestView::PutIData { .. } => PUT_IDATA_DELAY_MS,
        RequestView::GetIData { .. } => GET_IDATA_DELAY_MS,
        RequestView::PutMData { .. } => PUT_MDATA_DELAY_MS,
        RequestView::GetMData { .. } => GET_MDATA_DELAY_MS,
        RequestView::GetMDataVersion { .. } => GET_MDATA_VERSION_DELAY_MS,
        RequestView::GetMDataShell { .. } => GET_MDATA_SHELL_DELAY_MS,
        RequestView::ListMDataEntries { .. } => GET_MDATA_ENTRIES_DELAY_MS,
        RequestView::ListMDataKeys { .. } => GET_MDATA_ENTRIES_DELAY_MS,
        RequestView::ListMDataValues { .. } => GET_MDATA_ENTRIES_DELAY_MS,
        RequestView::GetMDataValue { .. } => GET_MDATA_ENTRIES_DELAY_MS,
        RequestView::MutateMDataEntries { .. } => SET_MDATA_ENTRIES_DELAY_MS,
        RequestView::ListMDataPermissions { .. } => GET_MDATA_PERMISSIONS_DELAY_MS,
        RequestView::ListMDataUserPermissions { .. } => GET_MDATA_PERMISSIONS_DELAY_MS,
        RequestView::SetMDataUserPermissions { .. } => SET_MDATA_PERMISSIONS_DELAY_MS,
        RequestView::DelMDataUserPermissions { .. } => SET_MDATA_PERMISSIONS_DELAY_MS,
        RequestView::ChangeMDataOwner { .. } => CHANGE_MDATA_OWNER_DELAY_MS,
        RequestView::ListAuthKeysAndVersion(_) => LIST_AUTH_KEYS_AND_VERSION_DELAY_MS,
        RequestView::InsAuthKey { .. } => INS_AUTH_KEY_DELAY_MS,
        RequestView::DelAuthKey { .. } => DEL_AUTH_KEY_DELAY_MS,
    }
}

/// The authority in whose name a request that was sent to `dst` is answered:
/// the managers of the data that it is about, or, for what is about an
/// account, `dst` itself.
pub open spec fn response_source(dst: Authority, request: RequestView) -> Authority {
    match request {
        RequestView::GetAccountInfo(_) => dst,
        RequestView::PutIData { data, .. } => Authority::NaeManager(data.name),
        RequestView::GetIData { name, .. } => Authority::NaeManager(name),
        RequestView::PutMData { data, .. } => Authority::NaeManager(data.name),
        RequestView::GetMData { name, .. } => Authority::NaeManager(name),
        RequestView::GetMDataVersion { name, .. } => Authority::NaeManager(name),
        RequestView::GetMDataShell { name, .. } => Authority::NaeManager(name),
        RequestView::ListMDataEntries { name, .. } => Authority::NaeManager(name),
        RequestView::ListMDataKeys { name, .. } => Authority::NaeManager(name),
        RequestView::ListMDataValues { name, .. } => Authority::NaeManager(name),
        RequestView::GetMDataValue { name, .. } => Authority::NaeManager(name),
        RequestView::MutateMDataEntries { name, .. } => Authority::NaeManager(name),
        RequestView::ListMDataPermissions { name, .. } => Authority::NaeManager(name),
        RequestView::ListMDataUserPermissions { name, .. } => Authority::NaeManager(name),
        RequestView::SetMDataUserPermissions { name, .. } => Authority::NaeManager(name),
        RequestView::DelMDataUserPermissions { name, .. } => Authority::NaeManager(name),
        RequestView::ChangeMDataOwner { name, .. } => Authority::NaeManager(name),
        RequestView::ListAuthKeysAndVersion(_) => dst,
        RequestView::InsAuthKey { .. } => dst,
        RequestView::DelAuthKey { .. } => dst,
    }
}

/// Whether the request is a change of owner that does not name exactly one
/// new owner. Such a request is turned down before anything else is looked
/// at.
pub open spec fn malformed(request: RequestView) -> bool {
    request matches RequestView::ChangeMDataOwner { new_owners, .. } && new_owners.len() != 1
}

/// What a session is, seen from outside.
pub struct SessionView {
    /// The client's signing key.
    pub client_key: PublicKey,
    /// The name of the account that the key owns: the hash of the key.
    pub account_name: XorName,
    /// The authority under which the client gets its responses.
    pub client_auth: Authority,
    /// How many operations the session has left, where that is limited.
    pub countdown: Option<u64>,
    /// Whether the session behaves like a network that never answers.
    pub timeout: bool,
    /// Whether the session has said that it ended.
    pub terminated: bool,
    /// The events that are due to the client, oldest first.
    pub outbox: Seq<DeliveryView>,
}

impl SessionView {
    /// The session with one more event due.
    pub open spec fn sent(self, delay_ms: u64, event: EventView) -> SessionView {
        SessionView { outbox: self.outbox.push(DeliveryView { delay_ms, event }), ..self }
    }

    /// The session with `response` due to the client, in the name of `src`.
    pub open spec fn delivered(self, delay_ms: u64, src: Authority, response: ResponseView) -> SessionView {
        self.sent(delay_ms, EventView::Response { response, src, dst: self.client_auth })
    }

    /// Whether the session has used up its operations.
    pub open spec fn limits_reached(self) -> bool {
        self.countdown == Some(0u64)
    }

    /// The session with one operation fewer left. A session without a limit,
    /// or with none left, stays as it is.
    pub open spec fn counted_down(self) -> SessionView {
        match self.countdown {
            Some(left) if left > 0 => SessionView { countdown: Some((left - 1) as u64), ..self },
            _ => self,
        }
    }

    /// The session after it has said, if it had not yet, that it ended.
    pub open spec fn disconnected(self) -> SessionView {
        if self.terminated {
            self
        } else {
            SessionView { terminated: true, ..self.sent(DEFAULT_DELAY_MS, EventView::Terminate) }
        }
    }
}

/// Whether the request gets to the store: it is well formed, no response
/// has been put in the place of the real one, the network answers, and the
/// session has operations left.
pub open spec fn admitted(
    session: SessionView,
    request: RequestView,
    overridden: Option<ResponseView>,
) -> bool {
    !malformed(request) && overridden is None && !session.timeout && !session.limits_reached()
}

/// The session after a request that does not get to the store.
///
/// A malformed change of owner is answered at once, in the name of `dst`. A
/// response that was put in the place of the real one is delivered as it is.
/// A network that never answers delivers nothing. A session without
/// operations left says so, and stays without.
pub open spec fn refused(
    session: SessionView,
    dst: Authority,
    request: RequestView,
    overridden: Option<ResponseView>,
) -> SessionView {
    if malformed(request) {
        session.delivered(
            response_delay(request),
            dst,
            request.failure(ClientError::InvalidOwners),
        )
    } else if overridden is Some {
        session.delivered(response_delay(request), response_source(dst, request), overridden->0)
    } else if session.timeout {
        session
    } else {
        session.delivered(
            response_delay(request),
            response_source(dst, request),
            request.failure(ClientError::MaxOperationsExhausted),
        )
    }
}

/// The session and the store after a request that was sent to `dst`, where
/// `overridden` is the response, if any, that a hook has put in the place of
/// the real one.
///
/// A request that gets to the store uses up one operation, does to the
/// store what it asks for, and has its response delivered.
pub open spec fn processed(
    session: SessionView,
    vault: VaultView,
    dst: Authority,
    request: RequestView,
    overridden: Option<ResponseView>,
) -> (SessionView, VaultView) {
    if admitted(session, request, overridden) {
        let (response, after) = executed(
            vault,
            session.client_key,
            session.account_name,
            dst,
            request,
        );
        (
            session.counted_down().delivered(
                response_delay(request),
                response_source(dst, request),
                response,
            ),
            after,
        )
    } else {
        (refused(session, dst, request, overridden), vault)
    }
}

} // verus!
