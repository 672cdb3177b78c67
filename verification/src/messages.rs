//! What travels between a client and the network: requests, responses, and
//! the events in which a client hears of them.

use crate::account::AccountInfo;
use crate::authority::Authority;
use crate::collections::{Duplicate, VecMap, VecSet};
use crate::data::{
    EntryAction, EntryActionView, ImmutableData, ImmutableDataView, PermissionSet, User, Value,
    ValueView,
};
use crate::error::ClientError;
use crate::mutable_data::{MutableData, MutableDataView};
use crate::name::{PublicKey, XorName};
use vstd::prelude::*;

verus! {

/// The identifier by which a response is matched with its request.
#[derive(Clone, Copy, Debug, PartialEq, Eq, Hash)]
pub struct MessageId(pub XorName);

/// What a `Request` stands for.
pub enum RequestView {
    GetAccountInfo(MessageId),
    PutIData { data: ImmutableDataView, msg_id: MessageId },
    GetIData { name: XorName, msg_id: MessageId },
    PutMData { data: MutableDataView, msg_id: MessageId, requester: PublicKey },
    GetMData { name: XorName, tag: u64, msg_id: MessageId },
    GetMDataVersion { name: XorName, tag: u64, msg_id: MessageId },
    GetMDataShell { name: XorName, tag: u64, msg_id: MessageId },
    ListMDataEntries { name: XorName, tag: u64, msg_id: MessageId },
    ListMDataKeys { name: XorName, tag: u64, msg_id: MessageId },
    ListMDataValues { name: XorName, tag: u64, msg_id: MessageId },
    GetMDataValue { name: XorName, tag: u64, key: Seq<u8>, msg_id: MessageId },
    MutateMDataEntries {
        name: XorName,
        tag: u64,
        actions: Map<Seq<u8>, EntryActionView>,
        action_order: Seq<Seq<u8>>,
        msg_id: MessageId,
        requester: PublicKey,
    },
    ListMDataPermissions { name: XorName, tag: u64, msg_id: MessageId },
    ListMDataUserPermissions { name: XorName, tag: u64, user: User, msg_id: MessageId },
    SetMDataUserPermissions {
        name: XorName,
        tag: u64,
        user: User,
        permissions: PermissionSet,
        version: u64,
        msg_id: MessageId,
        requester: PublicKey,
    },
    DelMDataUserPermissions {
        name: XorName,
        tag: u64,
        user: User,
        version: u64,
        msg_id: MessageId,
        requester: PublicKey,
    },
    ChangeMDataOwner {
        name: XorName,
        tag: u64,
        new_owners: Set<PublicKey>,
        version: u64,
        msg_id: MessageId,
    },
    ListAuthKeysAndVersion(MessageId),
    InsAuthKey { key: PublicKey, version: u64, msg_id: MessageId },
    DelAuthKey { key: PublicKey, version: u64, msg_id: MessageId },
}

/// What a client asks of the network.
#[derive(Debug)]
pub enum Request {
    /// The counters of the client's account.
    GetAccountInfo(MessageId),
    /// Store an immutable blob.
    PutIData { data: ImmutableData, msg_id: MessageId },
    /// The immutable blob with that name.
    GetIData { name: XorName, msg_id: MessageId },
    /// Store a new mutable record.
    PutMData { data: MutableData, msg_id: MessageId, requester: PublicKey },
    /// A whole mutable record.
    GetMData { name: XorName, tag: u64, msg_id: MessageId },
    /// The version of a mutable record.
    GetMDataVersion { name: XorName, tag: u64, msg_id: MessageId },
    /// A mutable record without its entries.
    GetMDataShell { name: XorName, tag: u64, msg_id: MessageId },
    /// The entries of a mutable record.
    ListMDataEntries { name: XorName, tag: u64, msg_id: MessageId },
    /// The keys of the entries of a mutable record.
    ListMDataKeys { name: XorName, tag: u64, msg_id: MessageId },
    /// The values of the entries of a mutable record.
    ListMDataValues { name: XorName, tag: u64, msg_id: MessageId },
    /// The value of one entry of a mutable record.
    GetMDataValue { name: XorName, tag: u64, key: Vec<u8>, msg_id: MessageId },
    /// Change entries of a mutable record.
    MutateMDataEntries {
        name: XorName,
        tag: u64,
        actions: VecMap<Vec<u8>, EntryAction>,
        msg_id: MessageId,
        requester: PublicKey,
    },
    /// The permissions of a mutable record.
    ListMDataPermissions { name: XorName, tag: u64, msg_id: MessageId },
    /// The permissions that a mutable record gives to one user.
    ListMDataUserPermissions { name: XorName, tag: u64, user: User, msg_id: MessageId },
    /// Set the permissions that a mutable record gives to one user.
    SetMDataUserPermissions {
        name: XorName,
        tag: u64,
        user: User,
        permissions: PermissionSet,
        version: u64,
        msg_id: MessageId,
        requester: PublicKey,
    },
    /// Take away the permissions that a mutable record gives to one user.
    DelMDataUserPermissions {
        name: XorName,
        tag: u64,
        user: User,
        version: u64,
        msg_id: MessageId,
        requester: PublicKey,
    },
    /// Give a mutable record to a new owner.
    ChangeMDataOwner {
        name: XorName,
        tag: u64,
        new_owners: VecSet<PublicKey>,
        version: u64,
        msg_id: MessageId,
    },
    /// The keys that the client's account has authorised, and the version of
    /// that list.
    ListAuthKeysAndVersion(MessageId),
    /// Authorise a key.
    InsAuthKey { key: PublicKey, version: u64, msg_id: MessageId },
    /// Take the authorisation of a key away.
    DelAuthKey { key: PublicKey, version: u64, msg_id: MessageId },
}

impl View for Request {
    type V = RequestView;

    open spec fn view(&self) -> RequestView {
        match *self {
            Request::GetAccountInfo(msg_id) => RequestView::GetAccountInfo(msg_id),
            Request::PutIData { data, msg_id } => RequestView::PutIData { data: data@, msg_id },
            Request::GetIData { name, msg_id } => RequestView::GetIData { name, msg_id },
            Request::PutMData { data, msg_id, requester } => RequestView::PutMData {
                data: data@,
                msg_id,
                requester,
            },
            Request::GetMData { name, tag, msg_id } => RequestView::GetMData { name, tag, msg_id },
            Request::GetMDataVersion { name, tag, msg_id } => RequestView::GetMDataVersion {
                name,
                tag,
                msg_id,
            },
            Request::GetMDataShell { name, tag, msg_id } => RequestView::GetMDataShell {
                name,
                tag,
                msg_id,
            },
            Request::ListMDataEntries { name, tag, msg_id } => RequestView::ListMDataEntries {
                name,
                tag,
                msg_id,
            },
            Request::ListMDataKeys { name, tag, msg_id } => RequestView::ListMDataKeys {
                name,
                tag,
                msg_id,
            },
            Request::ListMDataValues { name, tag, msg_id } => RequestView::ListMDataValues {
                name,
                tag,
                msg_id,
            },
            Request::GetMDataValue { name, tag, key, msg_id } => RequestView::GetMDataValue {
                name,
                tag,
                key: key@,
                msg_id,
            },
            Request::MutateMDataEntries {
                name,
                tag,
                actions,
                msg_id,
                requester,
            } => RequestView::MutateMDataEntries {
                name,
                tag,
                actions: actions@,
                action_order: actions.key_seq(),
                msg_id,
                requester,
            },
            Request::ListMDataPermissions { name, tag, msg_id } => RequestView::ListMDataPermissions {
                name,
                tag,
                msg_id,
            },
            Request::ListMDataUserPermissions {
                name,
                tag,
                user,
                msg_id,
            } => RequestView::ListMDataUserPermissions { name, tag, user, msg_id },
            Request::SetMDataUserPermissions {
                name,
                tag,
                user,
                permissions,
                version,
                msg_id,
                requester,
            } => RequestView::SetMDataUserPermissions {
                name,
                tag,
                user,
                permissions,
                version,
                msg_id,
                requester,
            },
            Request::DelMDataUserPermissions {
                name,
                tag,
                user,
                version,
                msg_id,
                requester,
            } => RequestView::DelMDataUserPermissions { name, tag, user, version, msg_id, requester },
            Request::ChangeMDataOwner {
                name,
                tag,
                new_owners,
                version,
                msg_id,
            } => RequestView::ChangeMDataOwner {
                name,
                tag,
                new_owners: new_owners@,
                version,
                msg_id,
            },
            Request::ListAuthKeysAndVersion(msg_id) => RequestView::ListAuthKeysAndVersion(msg_id),
            Request::InsAuthKey { key, version, msg_id } => RequestView::InsAuthKey {
                key,
                version,
                msg_id,
            },
            Request::DelAuthKey { key, version, msg_id } => RequestView::DelAuthKey {
                key,
                version,
                msg_id,
            },
        }
    }
}

impl Duplicate for Request {
    fn duplicate(&self) -> (r: Self) {
        match self {
            Request::GetAccountInfo(msg_id) => Request::GetAccountInfo(*msg_id),
            Request::ListAuthKeysAndVersion(msg_id) => Request::ListAuthKeysAndVersion(*msg_id),
            Request::PutIData { data, msg_id } => Request::PutIData { data: data.duplicate(), msg_id: *msg_id },
            Request::PutMData { data, msg_id, requester } => Request::PutMData { data: data.duplicate(), msg_id: *msg_id, requester: *requester },
            Request::GetMDataValue { name, tag, key, msg_id } => Request::GetMDataValue { name: *name, tag: *tag, key: key.duplicate(), msg_id: *msg_id },
            Request::MutateMDataEntries { name, tag, actions, msg_id, requester } => Request::MutateMDataEntries { name: *name, tag: *tag, actions: actions.duplicate(), msg_id: *msg_id, requester: *requester },
            Request::ChangeMDataOwner { name, tag, new_owners, version, msg_id } => Request::ChangeMDataOwner { name: *name, tag: *tag, new_owners: new_owners.duplicate(), version: *version, msg_id: *msg_id },
            Request::GetIData { name, msg_id } => Request::GetIData { name: *name, msg_id: *msg_id },
            Request::GetMData { name, tag, msg_id } => Request::GetMData { name: *name, tag: *tag, msg_id: *msg_id },
            Request::GetMDataVersion { name, tag, msg_id } => Request::GetMDataVersion { name: *name, tag: *tag, msg_id: *msg_id },
            Request::GetMDataShell { name, tag, msg_id } => Request::GetMDataShell { name: *name, tag: *tag, msg_id: *msg_id },
            Request::ListMDataEntries { name, tag, msg_id } => Request::ListMDataEntries { name: *name, tag: *tag, msg_id: *msg_id },
            Request::ListMDataKeys { name, tag, msg_id } => Request::ListMDataKeys { name: *name, tag: *tag, msg_id: *msg_id },
            Request::ListMDataValues { name, tag, msg_id } => Request::ListMDataValues { name: *name, tag: *tag, msg_id: *msg_id },
            Request::ListMDataPermissions { name, tag, msg_id } => Request::ListMDataPermissions { name: *name, tag: *tag, msg_id: *msg_id },
            Request::ListMDataUserPermissions { name, tag, user, msg_id } => Request::ListMDataUserPermissions { name: *name, tag: *tag, user: *user, msg_id: *msg_id },
            Request::SetMDataUserPermissions { name, tag, user, permissions, version, msg_id, requester } => Request::SetMDataUserPermissions { name: *name, tag: *tag, user: *user, permissions: *permissions, version: *version, msg_id: *msg_id, requester: *requester },
            Request::DelMDataUserPermissions { name, tag, user, version, msg_id, requester } => Request::DelMDataUserPermissions { name: *name, tag: *tag, user: *user, version: *version, msg_id: *msg_id, requester: *requester },
            Request::InsAuthKey { key, version, msg_id } => Request::InsAuthKey { key: *key, version: *version, msg_id: *msg_id },
            Request::DelAuthKey { key, version, msg_id } => Request::DelAuthKey { key: *key, version: *version, msg_id: *msg_id },
        }
    }
}

impl Clone for Request {
    fn clone(&self) -> (r: Self)
        ensures
            r@ == self@,
    {
        self.duplicate()
    }
}

impl RequestView {
    /// The identifier of the request.
    pub open spec fn message_id(self) -> MessageId {
        match self {
            RequestView::GetAccountInfo(msg_id) => msg_id,
            RequestView::PutIData { msg_id, .. } => msg_id,
            RequestView::GetIData { msg_id, .. } => msg_id,
            RequestView::PutMData { msg_id, .. } => msg_id,
            RequestView::GetMData { msg_id, .. } => msg_id,
            RequestView::GetMDataVersion { msg_id, .. } => msg_id,
            RequestView::GetMDataShell { msg_id, .. } => msg_id,
            RequestView::ListMDataEntries { msg_id, .. } => msg_id,
            RequestView::ListMDataKeys { msg_id, .. } => msg_id,
            RequestView::ListMDataValues { msg_id, .. } => msg_id,
            RequestView::GetMDataValue { msg_id, .. } => msg_id,
            RequestView::MutateMDataEntries { msg_id, .. } => msg_id,
            RequestView::ListMDataPermissions { msg_id, .. } => msg_id,
            RequestView::ListMDataUserPermissions { msg_id, .. } => msg_id,
            RequestView::SetMDataUserPermissions { msg_id, .. } => msg_id,
            RequestView::DelMDataUserPermissions { msg_id, .. } => msg_id,
            RequestView::ChangeMDataOwner { msg_id, .. } => msg_id,
            RequestView::ListAuthKeysAndVersion(msg_id) => msg_id,
            RequestView::InsAuthKey { msg_id, .. } => msg_id,
            RequestView::DelAuthKey { msg_id, .. } => msg_id,
        }
    }

    /// Whether the request only reads the store. The others may change it.
    pub open spec fn is_query(self) -> bool {
        match self {
            RequestView::GetAccountInfo(_) => true,
            RequestView::GetIData { .. } => true,
            RequestView::GetMData { .. } => true,
            RequestView::GetMDataVersion { .. } => true,
            RequestView::GetMDataShell { .. } => true,
            RequestView::ListMDataEntries { .. } => true,
            RequestView::ListMDataKeys { .. } => true,
            RequestView::ListMDataValues { .. } => true,
            RequestView::GetMDataValue { .. } => true,
            RequestView::ListMDataPermissions { .. } => true,
            RequestView::ListMDataUserPermissions { .. } => true,
            RequestView::ListAuthKeysAndVersion(_) => true,
            _ => false,
        }
    }

    /// The response that says that the request failed with `error`.
    pub open spec fn failure(self, error: ClientError) -> ResponseView {
        let msg_id = self.message_id();
        match self {
            RequestView::GetAccountInfo(_) => ResponseView::GetAccountInfo { res: Err(error), msg_id },
            RequestView::PutIData { .. } => ResponseView::PutIData { res: Err(error), msg_id },
            RequestView::GetIData { .. } => ResponseView::GetIData { res: Err(error), msg_id },
            RequestView::PutMData { .. } => ResponseView::PutMData { res: Err(error), msg_id },
            RequestView::GetMData { .. } => ResponseView::GetMData { res: Err(error), msg_id },
            RequestView::GetMDataVersion { .. } => ResponseView::GetMDataVersion {
                res: Err(error),
                msg_id,
            },
            RequestView::GetMDataShell { .. } => ResponseView::GetMDataShell {
                res: Err(error),
                msg_id,
            },
            RequestView::ListMDataEntries { .. } => ResponseView::ListMDataEntries {
                res: Err(error),
                msg_id,
            },
            RequestView::ListMDataKeys { .. } => ResponseView::ListMDataKeys {
                res: Err(error),
                msg_id,
            },
            RequestView::ListMDataValues { .. } => ResponseView::ListMDataValues {
                res: Err(error),
                msg_id,
            },
            RequestView::GetMDataValue { .. } => ResponseView::GetMDataValue {
                res: Err(error),
                msg_id,
            },
            RequestView::MutateMDataEntries { .. } => ResponseView::MutateMDataEntries {
                res: Err(error),
                msg_id,
            },
            RequestView::ListMDataPermissions { .. } => ResponseView::ListMDataPermissions {
                res: Err(error),
                msg_id,
            },
            RequestView::ListMDataUserPermissions { .. } => ResponseView::ListMDataUserPermissions {
                res: Err(error),
                msg_id,
            },
            RequestView::SetMDataUserPermissions { .. } => ResponseView::SetMDataUserPermissions {
                res: Err(error),
                msg_id,
            },
            RequestView::DelMDataUserPermissions { .. } => ResponseView::DelMDataUserPermissions {
                res: Err(error),
                msg_id,
            },
            RequestView::ChangeMDataOwner { .. } => ResponseView::ChangeMDataOwner {
                res: Err(error),
                msg_id,
            },
            RequestView::ListAuthKeysAndVersion(_) => ResponseView::ListAuthKeysAndVersion {
                res: Err(error),
                msg_id,
            },
            RequestView::InsAuthKey { .. } => ResponseView::InsAuthKey { res: Err(error), msg_id },
            RequestView::DelAuthKey { .. } => ResponseView::DelAuthKey { res: Err(error), msg_id },
        }
    }
}

impl RequestView {
    /// The response that gives `res` as the outcome of a request that changes
    /// the store. To a request that only reads, a response can only say that
    /// it failed.
    pub open spec fn completed(self, res: Result<(), ClientError>) -> ResponseView {
        let msg_id = self.message_id();
        match self {
            RequestView::PutIData { .. } => ResponseView::PutIData { res, msg_id },
            RequestView::PutMData { .. } => ResponseView::PutMData { res, msg_id },
            RequestView::MutateMDataEntries { .. } => ResponseView::MutateMDataEntries {
                res,
                msg_id,
            },
            RequestView::SetMDataUserPermissions { .. } => ResponseView::SetMDataUserPermissions {
                res,
                msg_id,
            },
            RequestView::DelMDataUserPermissions { .. } => ResponseView::DelMDataUserPermissions {
                res,
                msg_id,
            },
            RequestView::ChangeMDataOwner { .. } => ResponseView::ChangeMDataOwner { res, msg_id },
            RequestView::InsAuthKey { .. } => ResponseView::InsAuthKey { res, msg_id },
            RequestView::DelAuthKey { .. } => ResponseView::DelAuthKey { res, msg_id },
            _ => match res {
                Ok(()) => self.failure(ClientError::InvalidOperation),
                Err(error) => self.failure(error),
            },
        }
    }
}

impl Request {
    /// The response that gives `res` as the outcome of a request that changes
    /// the store.
    pub fn completed(&self, res: Result<(), ClientError>) -> (response: Response)
        ensures
            response@ == self@.completed(res),
    {
        match res {
            Ok(()) => {
                let msg_id = *self.message_id();
                match self {
                    Request::PutIData { .. } => Response::PutIData { res, msg_id },
                    Request::PutMData { .. } => Response::PutMData { res, msg_id },
                    Request::MutateMDataEntries { .. } => Response::MutateMDataEntries { res, msg_id },
                    Request::SetMDataUserPermissions { .. } => Response::SetMDataUserPermissions {
                        res,
                        msg_id,
                    },
                    Request::DelMDataUserPermissions { .. } => Response::DelMDataUserPermissions {
                        res,
                        msg_id,
                    },
                    Request::ChangeMDataOwner { .. } => Response::ChangeMDataOwner { res, msg_id },
                    Request::InsAuthKey { .. } => Response::InsAuthKey { res, msg_id },
                    Request::DelAuthKey { .. } => Response::DelAuthKey { res, msg_id },
                    _ => self.failure(ClientError::InvalidOperation),
                }
            },
            Err(error) => self.failure(error),
        }
    }

    /// The identifier of the request.
    pub fn message_id(&self) -> (msg_id: &MessageId)
        ensures
            *msg_id == self@.message_id(),
    {
        match self {
            Request::GetAccountInfo(msg_id) => msg_id,
            Request::PutIData { msg_id, .. } => msg_id,
            Request::GetIData { msg_id, .. } => msg_id,
            Request::PutMData { msg_id, .. } => msg_id,
            Request::GetMData { msg_id, .. } => msg_id,
            Request::GetMDataVersion { msg_id, .. } => msg_id,
            Request::GetMDataShell { msg_id, .. } => msg_id,
            Request::ListMDataEntries { msg_id, .. } => msg_id,
            Request::ListMDataKeys { msg_id, .. } => msg_id,
            Request::ListMDataValues { msg_id, .. } => msg_id,
            Request::GetMDataValue { msg_id, .. } => msg_id,
            Request::MutateMDataEntries { msg_id, .. } => msg_id,
            Request::ListMDataPermissions { msg_id, .. } => msg_id,
            Request::ListMDataUserPermissions { msg_id, .. } => msg_id,
            Request::SetMDataUserPermissions { msg_id, .. } => msg_id,
            Request::DelMDataUserPermissions { msg_id, .. } => msg_id,
            Request::ChangeMDataOwner { msg_id, .. } => msg_id,
            Request::ListAuthKeysAndVersion(msg_id) => msg_id,
            Request::InsAuthKey { msg_id, .. } => msg_id,
            Request::DelAuthKey { msg_id, .. } => msg_id,
        }
    }

    /// Whether the request only reads the store, so that shared access to
    /// the store is enough to answer it.
    pub fn is_query(&self) -> (r: bool)
        ensures
            r == self@.is_query(),
    {
        match self {
            Request::GetAccountInfo(_) => true,
            Request::GetIData { .. } => true,
            Request::GetMData { .. } => true,
            Request::GetMDataVersion { .. } => true,
            Request::GetMDataShell { .. } => true,
            Request::ListMDataEntries { .. } => true,
            Request::ListMDataKeys { .. } => true,
            Request::ListMDataValues { .. } => true,
            Request::GetMDataValue { .. } => true,
            Request::ListMDataPermissions { .. } => true,
            Request::ListMDataUserPermissions { .. } => true,
            Request::ListAuthKeysAndVersion(_) => true,
            _ => false,
        }
    }

    /// The response that says that the request failed with `error`.
    pub fn failure(&self, error: ClientError) -> (response: Response)
        ensures
            response@ == self@.failure(error),
    {
        let msg_id = *self.message_id();
        match self {
            Request::GetAccountInfo(_) => Response::GetAccountInfo { res: Err(error), msg_id },
            Request::PutIData { .. } => Response::PutIData { res: Err(error), msg_id },
            Request::GetIData { .. } => Response::GetIData { res: Err(error), msg_id },
            Request::PutMData { .. } => Response::PutMData { res: Err(error), msg_id },
            Request::GetMData { .. } => Response::GetMData { res: Err(error), msg_id },
            Request::GetMDataVersion { .. } => Response::GetMDataVersion { res: Err(error), msg_id },
            Request::GetMDataShell { .. } => Response::GetMDataShell { res: Err(error), msg_id },
            Request::ListMDataEntries { .. } => Response::ListMDataEntries {
                res: Err(error),
                msg_id,
            },
            Request::ListMDataKeys { .. } => Response::ListMDataKeys { res: Err(error), msg_id },
            Request::ListMDataValues { .. } => Response::ListMDataValues { res: Err(error), msg_id },
            Request::GetMDataValue { .. } => Response::GetMDataValue { res: Err(error), msg_id },
            Request::MutateMDataEntries { .. } => Response::MutateMDataEntries {
                res: Err(error),
                msg_id,
            },
            Request::ListMDataPermissions { .. } => Response::ListMDataPermissions {
                res: Err(error),
                msg_id,
            },
            Request::ListMDataUserPermissions { .. } => Response::ListMDataUserPermissions {
                res: Err(error),
                msg_id,
            },
            Request::SetMDataUserPermissions { .. } => Response::SetMDataUserPermissions {
                res: Err(error),
                msg_id,
            },
            Request::DelMDataUserPermissions { .. } => Response::DelMDataUserPermissions {
                res: Err(error),
                msg_id,
            },
            Request::ChangeMDataOwner { .. } => Response::ChangeMDataOwner {
                res: Err(error),
                msg_id,
            },
            Request::ListAuthKeysAndVersion(_) => Response::ListAuthKeysAndVersion {
                res: Err(error),
                msg_id,
            },
            Request::InsAuthKey { .. } => Response::InsAuthKey { res: Err(error), msg_id },
            Request::DelAuthKey { .. } => Response::DelAuthKey { res: Err(error), msg_id },
        }
    }
}

/// What a `Response` stands for.
pub enum ResponseView {
    GetAccountInfo { res: Result<AccountInfo, ClientError>, msg_id: MessageId },
    PutIData { res: Result<(), ClientError>, msg_id: MessageId },
    GetIData { res: Result<ImmutableDataView, ClientError>, msg_id: MessageId },
    PutMData { res: Result<(), ClientError>, msg_id: MessageId },
    GetMData { res: Result<MutableDataView, ClientError>, msg_id: MessageId },
    GetMDataVersion { res: Result<u64, ClientError>, msg_id: MessageId },
    GetMDataShell { res: Result<MutableDataView, ClientError>, msg_id: MessageId },
    ListMDataEntries { res: Result<Map<Seq<u8>, ValueView>, ClientError>, msg_id: MessageId },
    ListMDataKeys { res: Result<Set<Seq<u8>>, ClientError>, msg_id: MessageId },
    ListMDataValues { res: Result<Seq<ValueView>, ClientError>, msg_id: MessageId },
    GetMDataValue { res: Result<ValueView, ClientError>, msg_id: MessageId },
    MutateMDataEntries { res: Result<(), ClientError>, msg_id: MessageId },
    ListMDataPermissions { res: Result<Map<User, PermissionSet>, ClientError>, msg_id: MessageId },
    ListMDataUserPermissions { res: Result<PermissionSet, ClientError>, msg_id: MessageId },
    SetMDataUserPermissions { res: Result<(), ClientError>, msg_id: MessageId },
    DelMDataUserPermissions { res: Result<(), ClientError>, msg_id: MessageId },
    ChangeMDataOwner { res: Result<(), ClientError>, msg_id: MessageId },
    ListAuthKeysAndVersion { res: Result<(Set<PublicKey>, u64), ClientError>, msg_id: MessageId },
    InsAuthKey { res: Result<(), ClientError>, msg_id: MessageId },
    DelAuthKey { res: Result<(), ClientError>, msg_id: MessageId },
}

/// What the network answers.
#[derive(Debug)]
pub enum Response {
    GetAccountInfo { res: Result<AccountInfo, ClientError>, msg_id: MessageId },
    PutIData { res: Result<(), ClientError>, msg_id: MessageId },
    GetIData { res: Result<ImmutableData, ClientError>, msg_id: MessageId },
    PutMData { res: Result<(), ClientError>, msg_id: MessageId },
    GetMData { res: Result<MutableData, ClientError>, msg_id: MessageId },
    GetMDataVersion { res: Result<u64, ClientError>, msg_id: MessageId },
    GetMDataShell { res: Result<MutableData, ClientError>, msg_id: MessageId },
    ListMDataEntries { res: Result<VecMap<Vec<u8>, Value>, ClientError>, msg_id: MessageId },
    ListMDataKeys { res: Result<VecSet<Vec<u8>>, ClientError>, msg_id: MessageId },
    ListMDataValues { res: Result<Vec<Value>, ClientError>, msg_id: MessageId },
    GetMDataValue { res: Result<Value, ClientError>, msg_id: MessageId },
    MutateMDataEntries { res: Result<(), ClientError>, msg_id: MessageId },
    ListMDataPermissions { res: Result<VecMap<User, PermissionSet>, ClientError>, msg_id: MessageId },
    ListMDataUserPermissions { res: Result<PermissionSet, ClientError>, msg_id: MessageId },
    SetMDataUserPermissions { res: Result<(), ClientError>, msg_id: MessageId },
    DelMDataUserPermissions { res: Result<(), ClientError>, msg_id: MessageId },
    ChangeMDataOwner { res: Result<(), ClientError>, msg_id: MessageId },
    ListAuthKeysAndVersion { res: Result<(VecSet<PublicKey>, u64), ClientError>, msg_id: MessageId },
    InsAuthKey { res: Result<(), ClientError>, msg_id: MessageId },
    DelAuthKey { res: Result<(), ClientError>, msg_id: MessageId },
}

/// The view of what a response carries.
pub open spec fn result_view<T: View>(res: Result<T, ClientError>) -> Result<T::V, ClientError> {
    match res {
        Ok(value) => Ok(value@),
        Err(error) => Err(error),
    }
}

/// The views of the values of a list.
pub open spec fn value_views(values: Seq<Value>) -> Seq<ValueView> {
    values.map_values(|value: Value| value@)
}

impl View for Response {
    type V = ResponseView;

    open spec fn view(&self) -> ResponseView {
        match *self {
            Response::GetAccountInfo { res, msg_id } => ResponseView::GetAccountInfo { res, msg_id },
            Response::PutIData { res, msg_id } => ResponseView::PutIData { res, msg_id },
            Response::GetIData { res, msg_id } => ResponseView::GetIData {
                res: result_view(res),
                msg_id,
            },
            Response::PutMData { res, msg_id } => ResponseView::PutMData { res, msg_id },
            Response::GetMData { res, msg_id } => ResponseView::GetMData {
                res: result_view(res),
                msg_id,
            },
            Response::GetMDataVersion { res, msg_id } => ResponseView::GetMDataVersion {
                res,
                msg_id,
            },
            Response::GetMDataShell { res, msg_id } => ResponseView::GetMDataShell {
                res: result_view(res),
                msg_id,
            },
            Response::ListMDataEntries { res, msg_id } => ResponseView::ListMDataEntries {
                res: result_view(res),
                msg_id,
            },
            Response::ListMDataKeys { res, msg_id } => ResponseView::ListMDataKeys {
                res: result_view(res),
                msg_id,
            },
            Response::ListMDataValues { res, msg_id } => ResponseView::ListMDataValues {
                res: match res {
                    Ok(values) => Ok(value_views(values@)),
                    Err(error) => Err(error),
                },
                msg_id,
            },
            Response::GetMDataValue { res, msg_id } => ResponseView::GetMDataValue {
                res: result_view(res),
                msg_id,
            },
            Response::MutateMDataEntries { res, msg_id } => ResponseView::MutateMDataEntries {
                res,
                msg_id,
            },
            Response::ListMDataPermissions { res, msg_id } => ResponseView::ListMDataPermissions {
                res: result_view(res),
                msg_id,
            },
            Response::ListMDataUserPermissions {
                res,
                msg_id,
            } => ResponseView::ListMDataUserPermissions { res, msg_id },
            Response::SetMDataUserPermissions {
                res,
                msg_id,
            } => ResponseView::SetMDataUserPermissions { res, msg_id },
            Response::DelMDataUserPermissions {
                res,
                msg_id,
            } => ResponseView::DelMDataUserPermissions { res, msg_id },
            Response::ChangeMDataOwner { res, msg_id } => ResponseView::ChangeMDataOwner {
                res,
                msg_id,
            },
            Response::ListAuthKeysAndVersion { res, msg_id } => ResponseView::ListAuthKeysAndVersion {
                res: match res {
                    Ok((keys, version)) => Ok((keys@, version)),
                    Err(error) => Err(error),
                },
                msg_id,
            },
            Response::InsAuthKey { res, msg_id } => ResponseView::InsAuthKey { res, msg_id },
            Response::DelAuthKey { res, msg_id } => ResponseView::DelAuthKey { res, msg_id },
        }
    }
}

/// A copy of a list of values.
fn duplicate_values(values: &Vec<Value>) -> (copy: Vec<Value>)
    ensures
        value_views(copy@) == value_views(values@),
{
    let mut copy: Vec<Value> = Vec::new();
    let mut i: usize = 0;
    while i < values.len()
        invariant
            i <= values.len(),
            copy@.len() == i,
            forall|j: int| 0 <= j < i ==> (#[trigger] copy@[j])@ == values@[j]@,
        decreases values.len() - i,
    {
        copy.push(values[i].duplicate());
        i += 1;
    }
    proof {
        assert(value_views(copy@) =~= value_views(values@));
    }
    copy
}

impl Duplicate for Response {
    fn duplicate(&self) -> (r: Self) {
        match self {
            Response::PutIData { res, msg_id } => Response::PutIData { res: *res, msg_id: *msg_id },
            Response::PutMData { res, msg_id } => Response::PutMData { res: *res, msg_id: *msg_id },
            Response::MutateMDataEntries { res, msg_id } => Response::MutateMDataEntries { res: *res, msg_id: *msg_id },
            Response::SetMDataUserPermissions { res, msg_id } => Response::SetMDataUserPermissions { res: *res, msg_id: *msg_id },
            Response::DelMDataUserPermissions { res, msg_id } => Response::DelMDataUserPermissions { res: *res, msg_id: *msg_id },
            Response::ChangeMDataOwner { res, msg_id } => Response::ChangeMDataOwner { res: *res, msg_id: *msg_id },
            Response::InsAuthKey { res, msg_id } => Response::InsAuthKey { res: *res, msg_id: *msg_id },
            Response::DelAuthKey { res, msg_id } => Response::DelAuthKey { res: *res, msg_id: *msg_id },
            Response::GetAccountInfo { res, msg_id } => Response::GetAccountInfo { res: *res, msg_id: *msg_id },
            Response::GetMDataVersion { res, msg_id } => Response::GetMDataVersion { res: *res, msg_id: *msg_id },
            Response::ListMDataUserPermissions { res, msg_id } => Response::ListMDataUserPermissions { res: *res, msg_id: *msg_id },
            Response::GetIData { res, msg_id } => Response::GetIData {
                res: match res {
                    Ok(value) => Ok(value.duplicate()),
                    Err(error) => Err(*error),
                },
                msg_id: *msg_id,
            },
            Response::GetMData { res, msg_id } => Response::GetMData {
                res: match res {
                    Ok(value) => Ok(value.duplicate()),
                    Err(error) => Err(*error),
                },
                msg_id: *msg_id,
            },
            Response::GetMDataShell { res, msg_id } => Response::GetMDataShell {
                res: match res {
                    Ok(value) => Ok(value.duplicate()),
                    Err(error) => Err(*error),
                },
                msg_id: *msg_id,
            },
            Response::ListMDataEntries { res, msg_id } => Response::ListMDataEntries {
                res: match res {
                    Ok(value) => Ok(value.duplicate()),
                    Err(error) => Err(*error),
                },
                msg_id: *msg_id,
            },
            Response::ListMDataKeys { res, msg_id } => Response::ListMDataKeys {
                res: match res {
                    Ok(value) => Ok(value.duplicate()),
                    Err(error) => Err(*error),
                },
                msg_id: *msg_id,
            },
            Response::GetMDataValue { res, msg_id } => Response::GetMDataValue {
                res: match res {
                    Ok(value) => Ok(value.duplicate()),
                    Err(error) => Err(*error),
                },
                msg_id: *msg_id,
            },
            Response::ListMDataPermissions { res, msg_id } => Response::ListMDataPermissions {
                res: match res {
                    Ok(value) => Ok(value.duplicate()),
                    Err(error) => Err(*error),
                },
                msg_id: *msg_id,
            },
            Response::ListMDataValues { res, msg_id } => Response::ListMDataValues {
                res: match res {
                    Ok(values) => Ok(duplicate_values(values)),
                    Err(error) => Err(*error),
                },
                msg_id: *msg_id,
            },
            Response::ListAuthKeysAndVersion { res, msg_id } => Response::ListAuthKeysAndVersion {
                res: match res {
                    Ok((keys, version)) => Ok((keys.duplicate(), *version)),
                    Err(error) => Err(*error),
                },
                msg_id: *msg_id,
            },
        }
    }
}

impl Clone for Response {
    fn clone(&self) -> (r: Self)
        ensures
            r@ == self@,
    {
        self.duplicate()
    }
}

impl ResponseView {
    /// The identifier of the request that the response answers.
    pub open spec fn message_id(self) -> MessageId {
        match self {
            ResponseView::GetAccountInfo { msg_id, .. } => msg_id,
            ResponseView::PutIData { msg_id, .. } => msg_id,
            ResponseView::GetIData { msg_id, .. } => msg_id,
            ResponseView::PutMData { msg_id, .. } => msg_id,
            ResponseView::GetMData { msg_id, .. } => msg_id,
            ResponseView::GetMDataVersion { msg_id, .. } => msg_id,
            ResponseView::GetMDataShell { msg_id, .. } => msg_id,
            ResponseView::ListMDataEntries { msg_id, .. } => msg_id,
            ResponseView::ListMDataKeys { msg_id, .. } => msg_id,
            ResponseView::ListMDataValues { msg_id, .. } => msg_id,
            ResponseView::GetMDataValue { msg_id, .. } => msg_id,
            ResponseView::MutateMDataEntries { msg_id, .. } => msg_id,
            ResponseView::ListMDataPermissions { msg_id, .. } => msg_id,
            ResponseView::ListMDataUserPermissions { msg_id, .. } => msg_id,
            ResponseView::SetMDataUserPermissions { msg_id, .. } => msg_id,
            ResponseView::DelMDataUserPermissions { msg_id, .. } => msg_id,
            ResponseView::ChangeMDataOwner { msg_id, .. } => msg_id,
            ResponseView::ListAuthKeysAndVersion { msg_id, .. } => msg_id,
            ResponseView::InsAuthKey { msg_id, .. } => msg_id,
            ResponseView::DelAuthKey { msg_id, .. } => msg_id,
        }
    }
}

impl Response {
    /// The identifier of the request that the response answers.
    pub fn message_id(&self) -> (msg_id: &MessageId)
        ensures
            *msg_id == self@.message_id(),
    {
        match self {
            Response::GetAccountInfo { msg_id, .. } => msg_id,
            Response::PutIData { msg_id, .. } => msg_id,
            Response::GetIData { msg_id, .. } => msg_id,
            Response::PutMData { msg_id, .. } => msg_id,
            Response::GetMData { msg_id, .. } => msg_id,
            Response::GetMDataVersion { msg_id, .. } => msg_id,
            Response::GetMDataShell { msg_id, .. } => msg_id,
            Response::ListMDataEntries { msg_id, .. } => msg_id,
            Response::ListMDataKeys { msg_id, .. } => msg_id,
            Response::ListMDataValues { msg_id, .. } => msg_id,
            Response::GetMDataValue { msg_id, .. } => msg_id,
            Response::MutateMDataEntries { msg_id, .. } => msg_id,
            Response::ListMDataPermissions { msg_id, .. } => msg_id,
            Response::ListMDataUserPermissions { msg_id, .. } => msg_id,
            Response::SetMDataUserPermissions { msg_id, .. } => msg_id,
            Response::DelMDataUserPermissions { msg_id, .. } => msg_id,
            Response::ChangeMDataOwner { msg_id, .. } => msg_id,
            Response::ListAuthKeysAndVersion { msg_id, .. } => msg_id,
            Response::InsAuthKey { msg_id, .. } => msg_id,
            Response::DelAuthKey { msg_id, .. } => msg_id,
        }
    }
}

/// What an `Event` stands for.
pub enum EventView {
    Connected,
    Response { response: ResponseView, src: Authority, dst: Authority },
    Terminate,
}

/// What a client hears from its session.
#[derive(Debug)]
pub enum Event {
    /// The session is connected.
    Connected,
    /// A response to a request, with its sender and its addressee.
    Response { response: Response, src: Authority, dst: Authority },
    /// The session has ended.
    Terminate,
}

impl View for Event {
    type V = EventView;

    open spec fn view(&self) -> EventView {
        match *self {
            Event::Connected => EventView::Connected,
            Event::Response { response, src, dst } => EventView::Response {
                response: response@,
                src,
                dst,
            },
            Event::Terminate => EventView::Terminate,
        }
    }
}

impl Duplicate for Event {
    fn duplicate(&self) -> (r: Self) {
        match self {
            Event::Connected => Event::Connected,
            Event::Response { response, src, dst } => Event::Response {
                response: response.duplicate(),
                src: *src,
                dst: *dst,
            },
            Event::Terminate => Event::Terminate,
        }
    }
}

impl Clone for Event {
    fn clone(&self) -> (r: Self)
        ensures
            r@ == self@,
    {
        self.duplicate()
    }
}

/// What a `Delivery` stands for.
pub struct DeliveryView {
    pub delay_ms: u64,
    pub event: EventView,
}

/// An event that is due to the client, and how long after it was produced
/// the client is to get it.
#[derive(Debug)]
pub struct Delivery {
    /// The delay in milliseconds. With no delay the event is handed over at
    /// once.
    pub delay_ms: u64,
    /// The event.
    pub event: Event,
}

impl View for Delivery {
    type V = DeliveryView;

    open spec fn view(&self) -> DeliveryView {
        DeliveryView { delay_ms: self.delay_ms, event: self.event@ }
    }
}

impl Duplicate for Delivery {
    fn duplicate(&self) -> (r: Self) {
        Delivery { delay_ms: self.delay_ms, event: self.event.duplicate() }
    }
}

impl Clone for Delivery {
    fn clone(&self) -> (r: Self)
        ensures
            r@ == self@,
    {
        self.duplicate()
    }
}

/// The views of the deliveries of a list.
pub open spec fn delivery_views(deliveries: Seq<Delivery>) -> Seq<DeliveryView> {
    deliveries.map_values(|delivery: Delivery| delivery@)
}

} // verus!
