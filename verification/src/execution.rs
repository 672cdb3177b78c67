//! What each request does to the store, and what is answered.
//!
//! The functions of the model say it over the views of the store and the request; the
//! executable functions do it.

use crate::account::{AccountInfo, AccountView};
use crate::authority::{Authority, PublicId};
use crate::collections::{Duplicate, VecSet};
use crate::data::{ImmutableData, ImmutableDataView, ValueView, TYPE_TAG_SESSION_PACKET};
use crate::error::ClientError;
use crate::messages::{value_views, Request, RequestView, Response, ResponseView};
use crate::mutable_data::{MutableData, MutableDataView};
use crate::name::{key_name, PublicKey, XorName};
use crate::vault::{Data, DataId, DataView, Vault, VaultView};
use vstd::prelude::*;

verus! {

/// Whether `dst` manages an account whose name is among `names`.
pub open spec fn account_named_among(dst: Authority, names: Seq<XorName>) -> bool {
    dst is ClientManager && names.contains(dst->ClientManager_0)
}

/// Whether `owners` are the owners that a request addressed to `dst` needs:
/// `dst` has to manage an account, and one of the keys has to hash to that
/// account's name.
pub open spec fn owner_verified(dst: Authority, owners: Set<PublicKey>) -> Result<(), ClientError> {
    if dst is ClientManager && exists|key: PublicKey|
        owners.contains(key) && #[trigger] key_name(key) == dst->ClientManager_0 {
        Ok(())
    } else {
        Err(ClientError::InvalidOwners)
    }
}

/// The counters of the account that `dst` manages.
pub open spec fn account_info_of(vault: VaultView, dst: Authority) -> Result<
    AccountInfo,
    ClientError,
> {
    if !(dst is ClientManager) {
        Err(ClientError::InvalidOperation)
    } else if !vault.accounts.contains_key(dst->ClientManager_0) {
        Err(ClientError::NoSuchAccount)
    } else {
        Ok(vault.accounts[dst->ClientManager_0].info)
    }
}

/// The authorised keys of the account that `dst` manages, and the version of
/// that list.
pub open spec fn auth_keys_of(vault: VaultView, dst: Authority) -> Result<
    (Set<PublicKey>, u64),
    ClientError,
> {
    if !(dst is ClientManager) {
        Err(ClientError::InvalidOperation)
    } else if !vault.accounts.contains_key(dst->ClientManager_0) {
        Err(ClientError::NoSuchAccount)
    } else {
        Ok(
            (
                vault.accounts[dst->ClientManager_0].auth_keys,
                vault.accounts[dst->ClientManager_0].version,
            ),
        )
    }
}

/// What becomes of the store when the key of an account that `dst` manages
/// is put on the list, or taken off it.
pub open spec fn auth_key_changed(
    vault: VaultView,
    dst: Authority,
    key: PublicKey,
    version: u64,
    insert: bool,
) -> (Result<(), ClientError>, VaultView) {
    if !(dst is ClientManager) {
        (Err(ClientError::InvalidOperation), vault)
    } else {
        let changed = if insert {
            vault.auth_key_inserted(dst->ClientManager_0, key, version)
        } else {
            vault.auth_key_deleted(dst->ClientManager_0, key, version)
        };
        match changed {
            Ok(after) => (Ok(()), after),
            Err(error) => (Err(error), vault),
        }
    }
}

/// The immutable blob named `name`, for a request addressed to `dst`.
pub open spec fn idata_fetched(vault: VaultView, dst: Authority, name: XorName) -> Result<
    ImmutableDataView,
    ClientError,
> {
    match vault.read_authorised(dst, name) {
        Err(error) => Err(error),
        Ok(()) => if vault.data.contains_key(DataId::Immutable(name)) && vault.data[DataId::Immutable(
            name,
        )] is Immutable {
            Ok(vault.data[DataId::Immutable(name)]->Immutable_0)
        } else {
            Err(ClientError::NoSuchData)
        },
    }
}

/// What becomes of the store when `data` is put.
///
/// The request has to be authorised. Where a blob is already stored under the
/// name, nothing is stored and the put succeeds; where something else is
/// stored there, it fails; otherwise the blob is stored. A put that stores is
/// counted in the account; one that finds the blob stored changes nothing.
pub open spec fn idata_put(
    vault: VaultView,
    client_key: PublicKey,
    account_name: XorName,
    dst: Authority,
    data: ImmutableDataView,
) -> (Result<(), ClientError>, VaultView) {
    let id = DataId::Immutable(data.name);
    match vault.mutation_authorised(dst, client_key, account_name) {
        Err(error) => (Err(error), vault),
        Ok(()) => if vault.data.contains_key(id) {
            if vault.data[id] is Immutable {
                (Ok(()), vault)
            } else {
                (Err(ClientError::DataExists), vault)
            }
        } else {
            (
                Ok(()),
                (VaultView {
                    data: vault.data.insert(id, DataView::Immutable(data)),
                    ..vault
                }).mutation_committed(dst),
            )
        },
    }
}

/// What becomes of the store when the mutable record `data` is put.
///
/// The requester named has to be the client itself. With the tag of a
/// session packet the put creates an account: `dst` has to manage an
/// account's name, under which neither an account nor the record exists yet;
/// the account is created and the record stored. With any other tag the
/// request has to be authorised, the record's owners have to be the
/// account's, and the identifier has to be free; the put is counted in the
/// account.
pub open spec fn mdata_put(
    vault: VaultView,
    client_key: PublicKey,
    account_name: XorName,
    dst: Authority,
    data: MutableDataView,
    requester: PublicKey,
) -> (Result<(), ClientError>, VaultView) {
    let id = DataId::Mutable(data.name, data.tag);
    if requester != client_key {
        (Err(ClientError::InvalidRequester), vault)
    } else if data.tag == TYPE_TAG_SESSION_PACKET {
        if !(dst is ClientManager) {
            (Err(ClientError::InvalidOperation), vault)
        } else if vault.data.contains_key(id) || vault.accounts.contains_key(dst->ClientManager_0) {
            (Err(ClientError::AccountExists), vault)
        } else {
            (
                Ok(()),
                VaultView {
                    accounts: vault.accounts.insert(dst->ClientManager_0, AccountView::new()),
                    data: vault.data.insert(id, DataView::Mutable(data)),
                },
            )
        }
    } else {
        match vault.mutation_authorised(dst, client_key, account_name) {
            Err(error) => (Err(error), vault),
            Ok(()) => match owner_verified(dst, data.owners) {
                Err(error) => (Err(error), vault),
                Ok(()) => if vault.data.contains_key(id) {
                    (Err(ClientError::DataExists), vault)
                } else {
                    (
                        Ok(()),
                        (VaultView {
                            data: vault.data.insert(id, DataView::Mutable(data)),
                            ..vault
                        }).mutation_committed(dst),
                    )
                },
            },
        }
    }
}

/// The mutable record with that name and tag. Where there is none, the error
/// tells a missing account, for the tag of a session packet, from missing
/// data.
pub open spec fn mdata_fetched(vault: VaultView, name: XorName, tag: u64) -> Result<
    MutableDataView,
    ClientError,
> {
    let id = DataId::Mutable(name, tag);
    if vault.data.contains_key(id) && vault.data[id] is Mutable {
        Ok(vault.data[id]->Mutable_0)
    } else if tag == TYPE_TAG_SESSION_PACKET {
        Err(ClientError::NoSuchAccount)
    } else {
        Err(ClientError::NoSuchData)
    }
}

/// The values of the entries of `data`, in the order in which the record
/// keeps its entries: that of their keys, ascending.
pub open spec fn entry_values(data: MutableDataView) -> Seq<ValueView> {
    Seq::new(data.entry_order.len(), |i: int| data.entries[data.entry_order[i]])
}

/// The part of `data` that the request asks for.
pub open spec fn mdata_projected(data: MutableDataView, request: RequestView) -> ResponseView {
    let msg_id = request.message_id();
    match request {
        RequestView::GetMData { .. } => ResponseView::GetMData { res: Ok(data), msg_id },
        RequestView::GetMDataVersion { .. } => ResponseView::GetMDataVersion {
            res: Ok(data.version),
            msg_id,
        },
        RequestView::GetMDataShell { .. } => ResponseView::GetMDataShell {
            res: Ok(data.shell()),
            msg_id,
        },
        RequestView::ListMDataEntries { .. } => ResponseView::ListMDataEntries {
            res: Ok(data.entries),
            msg_id,
        },
        RequestView::ListMDataKeys { .. } => ResponseView::ListMDataKeys {
            res: Ok(data.entries.dom()),
            msg_id,
        },
        RequestView::ListMDataValues { .. } => ResponseView::ListMDataValues {
            res: Ok(entry_values(data)),
            msg_id,
        },
        RequestView::GetMDataValue { key, .. } => ResponseView::GetMDataValue {
            res: if data.entries.contains_key(key) {
                Ok(data.entries[key])
            } else {
                Err(ClientError::NoSuchEntry)
            },
            msg_id,
        },
        RequestView::ListMDataPermissions { .. } => ResponseView::ListMDataPermissions {
            res: Ok(data.permissions),
            msg_id,
        },
        RequestView::ListMDataUserPermissions { user, .. } => ResponseView::ListMDataUserPermissions {
            res: if data.permissions.contains_key(user) {
                Ok(data.permissions[user])
            } else {
                Err(ClientError::NoSuchKey)
            },
            msg_id,
        },
        _ => request.failure(ClientError::InvalidOperation),
    }
}

/// The answer to a request that reads the mutable record with that name and
/// tag. The record has to exist, and the request has to be addressed to its
/// managers.
pub open spec fn mdata_read(
    vault: VaultView,
    dst: Authority,
    name: XorName,
    tag: u64,
    request: RequestView,
) -> ResponseView {
    match mdata_fetched(vault, name, tag) {
        Err(error) => request.failure(error),
        Ok(data) => match vault.read_authorised(dst, name) {
            Err(error) => request.failure(error),
            Ok(()) => mdata_projected(data, request),
        },
    }
}

/// What becomes of a record when it is given to `new_owner`.
///
/// The request has to be addressed to the managers of an account. The
/// record's owner has to be that account's, and so has the requester, whose
/// name is `requester_name`: else access is denied.
pub open spec fn owner_transferred(
    data: MutableDataView,
    requester_name: XorName,
    dst: Authority,
    new_owner: PublicKey,
    version: u64,
) -> Result<MutableDataView, ClientError> {
    if !(dst is ClientManager) {
        Err(ClientError::InvalidOwners)
    } else if owner_verified(dst, data.owners) is Err {
        Err(ClientError::AccessDenied)
    } else if requester_name != dst->ClientManager_0 {
        Err(ClientError::AccessDenied)
    } else {
        data.owner_changed(new_owner, version)
    }
}

/// What becomes of a record when the request changes it.
pub open spec fn mdata_transformed(
    data: MutableDataView,
    account_name: XorName,
    dst: Authority,
    request: RequestView,
) -> Result<MutableDataView, ClientError> {
    match request {
        RequestView::MutateMDataEntries {
            actions,
            action_order,
            requester,
            ..
        } => data.entries_mutated(actions, action_order, requester),
        RequestView::SetMDataUserPermissions {
            user,
            permissions,
            version,
            requester,
            ..
        } => data.permissions_set(user, permissions, version, requester),
        RequestView::DelMDataUserPermissions {
            user,
            version,
            requester,
            ..
        } => data.permissions_deleted(user, version, requester),
        RequestView::ChangeMDataOwner { new_owners, version, .. } => if new_owners.len() != 1 {
            Err(ClientError::InvalidOwners)
        } else {
            owner_transferred(data, account_name, dst, new_owners.choose(), version)
        },
        _ => Err(ClientError::InvalidOperation),
    }
}

/// What becomes of the store when a request changes the mutable record with
/// that name and tag.
///
/// The requester named has to be the client itself; the record has to exist;
/// the request has to be authorised; and the change has to be one that the
/// record accepts. Then the changed record takes the place of the old one
/// and the mutation is counted in the account. Else the store stays as it
/// is.
pub open spec fn mdata_mutated(
    vault: VaultView,
    client_key: PublicKey,
    account_name: XorName,
    dst: Authority,
    name: XorName,
    tag: u64,
    requester: PublicKey,
    request: RequestView,
) -> (Result<(), ClientError>, VaultView) {
    if requester != client_key {
        (Err(ClientError::InvalidRequester), vault)
    } else {
        match mdata_fetched(vault, name, tag) {
            Err(error) => (Err(error), vault),
            Ok(data) => match vault.mutation_authorised(dst, client_key, account_name) {
                Err(error) => (Err(error), vault),
                Ok(()) => match mdata_transformed(data, account_name, dst, request) {
                    Err(error) => (Err(error), vault),
                    Ok(after) => (
                        Ok(()),
                        (VaultView {
                            data: vault.data.insert(
                                DataId::Mutable(name, tag),
                                DataView::Mutable(after),
                            ),
                            ..vault
                        }).mutation_committed(dst),
                    ),
                },
            },
        }
    }
}

/// The answer to a request that only reads the store.
pub open spec fn answered(vault: VaultView, dst: Authority, request: RequestView) -> ResponseView {
    match request {
        RequestView::GetAccountInfo(msg_id) => ResponseView::GetAccountInfo {
            res: account_info_of(vault, dst),
            msg_id,
        },
        RequestView::GetIData { name, msg_id } => ResponseView::GetIData {
            res: idata_fetched(vault, dst, name),
            msg_id,
        },
        RequestView::GetMData { name, tag, .. } => mdata_read(vault, dst, name, tag, request),
        RequestView::GetMDataVersion { name, tag, .. } => mdata_read(vault, dst, name, tag, request),
        RequestView::GetMDataShell { name, tag, .. } => mdata_read(vault, dst, name, tag, request),
        RequestView::ListMDataEntries { name, tag, .. } => mdata_read(vault, dst, name, tag, request),
        RequestView::ListMDataKeys { name, tag, .. } => mdata_read(vault, dst, name, tag, request),
        RequestView::ListMDataValues { name, tag, .. } => mdata_read(vault, dst, name, tag, request),
        RequestView::GetMDataValue { name, tag, .. } => mdata_read(vault, dst, name, tag, request),
        RequestView::ListMDataPermissions { name, tag, .. } => mdata_read(
            vault,
            dst,
            name,
            tag,
            request,
        ),
        RequestView::ListMDataUserPermissions { name, tag, .. } => mdata_read(
            vault,
            dst,
            name,
            tag,
            request,
        ),
        RequestView::ListAuthKeysAndVersion(msg_id) => ResponseView::ListAuthKeysAndVersion {
            res: auth_keys_of(vault, dst),
            msg_id,
        },
        _ => request.failure(ClientError::InvalidOperation),
    }
}

/// The outcome of a request that may change the store, and the store after
/// it. `client_key` is the key of the client that makes the request and
/// `account_name` the name of the account that the key owns.
pub open spec fn applied(
    vault: VaultView,
    client_key: PublicKey,
    account_name: XorName,
    dst: Authority,
    request: RequestView,
) -> (Result<(), ClientError>, VaultView) {
    match request {
        RequestView::PutIData { data, .. } => idata_put(vault, client_key, account_name, dst, data),
        RequestView::PutMData { data, requester, .. } => mdata_put(
            vault,
            client_key,
            account_name,
            dst,
            data,
            requester,
        ),
        RequestView::MutateMDataEntries { name, tag, requester, .. } => mdata_mutated(
            vault,
            client_key,
            account_name,
            dst,
            name,
            tag,
            requester,
            request,
        ),
        RequestView::SetMDataUserPermissions { name, tag, requester, .. } => mdata_mutated(
            vault,
            client_key,
            account_name,
            dst,
            name,
            tag,
            requester,
            request,
        ),
        RequestView::DelMDataUserPermissions { name, tag, requester, .. } => mdata_mutated(
            vault,
            client_key,
            account_name,
            dst,
            name,
            tag,
            requester,
            request,
        ),
        RequestView::ChangeMDataOwner { name, tag, new_owners, .. } => if new_owners.len() != 1 {
            (Err(ClientError::InvalidOwners), vault)
        } else {
            mdata_mutated(vault, client_key, account_name, dst, name, tag, client_key, request)
        },
        RequestView::InsAuthKey { key, version, .. } => auth_key_changed(
            vault,
            dst,
            key,
            version,
            true,
        ),
        RequestView::DelAuthKey { key, version, .. } => auth_key_changed(
            vault,
            dst,
            key,
            version,
            false,
        ),
        _ => (Err(ClientError::InvalidOperation), vault),
    }
}

/// The response to a request, and the store after it.
pub open spec fn executed(
    vault: VaultView,
    client_key: PublicKey,
    account_name: XorName,
    dst: Authority,
    request: RequestView,
) -> (ResponseView, VaultView) {
    if request.is_query() {
        (answered(vault, dst, request), vault)
    } else {
        let (res, after) = applied(vault, client_key, account_name, dst, request);
        (request.completed(res), after)
    }
}

/// Whether `dst` manages an account whose name is among `owner_names`, the
/// names that the keys of the owners hash to.
pub fn verify_owner_names(dst: &Authority, owner_names: &Vec<XorName>) -> (r: Result<
    (),
    ClientError,
>)
    ensures
        account_named_among(*dst, owner_names@) ==> r == Ok::<(), ClientError>(()),
        !account_named_among(*dst, owner_names@) ==> r == Err::<(), ClientError>(
            ClientError::InvalidOwners,
        ),
{
    let dst_name = match dst {
        Authority::ClientManager(name) => name,
        _ => {
            return Err(ClientError::InvalidOwners);
        },
    };
    let mut i: usize = 0;
    while i < owner_names.len()
        invariant
            i <= owner_names.len(),
            *dst == Authority::ClientManager(*dst_name),
            forall|j: int| 0 <= j < i ==> owner_names[j] != *dst_name,
        decreases owner_names.len() - i,
    {
        if owner_names[i].same(dst_name) {
            return Ok(());
        }
        i += 1;
    }
    Err(ClientError::InvalidOwners)
}

/// Whether `owner_keys` are the owners that a request addressed to `dst`
/// needs.
pub fn verify_owner(dst: &Authority, owner_keys: &VecSet<PublicKey>) -> (r: Result<(), ClientError>)
    ensures
        r == owner_verified(*dst, owner_keys@),
{
    let n = owner_keys.len();
    let mut names: Vec<XorName> = Vec::new();
    let mut i: usize = 0;
    while i < n
        invariant
            i <= n,
            n == owner_keys.seq().len(),
            names@.len() == i,
            forall|j: int| 0 <= j < i ==> names@[j] == key_name(#[trigger] owner_keys.seq()[j]),
        decreases n - i,
    {
        names.push(XorName::of_key(owner_keys.item_at(i)));
        i += 1;
    }
    let r = verify_owner_names(dst, &names);
    proof {
        let keys = owner_keys.seq();
        if account_named_among(*dst, names@) {
            // The key at the place of the name is an owner with that name.
            let j = names@.index_of(dst->ClientManager_0);
            assert(keys.contains(keys[j]));
            assert(key_name(keys[j]) == dst->ClientManager_0);
        }
        if owner_verified(*dst, owner_keys@) is Ok {
            // The name at the place of such an owner is the account's.
            let key = choose|key: PublicKey|
                owner_keys@.contains(key) && #[trigger] key_name(key) == dst->ClientManager_0;
            let j = keys.index_of(key);
            assert(names@[j] == dst->ClientManager_0);
        }
    }
    r
}

/// The counters of the account that `dst` manages.
fn account_info(vault: &Vault, dst: &Authority) -> (r: Result<AccountInfo, ClientError>)
    ensures
        r == account_info_of(vault@, *dst),
{
    match dst {
        Authority::ClientManager(name) => match vault.get_account(name) {
            Some(account) => Ok(*account.account_info()),
            None => Err(ClientError::NoSuchAccount),
        },
        _ => Err(ClientError::InvalidOperation),
    }
}

/// The authorised keys of the account that `dst` manages, and the version of
/// that list.
fn auth_keys_and_version(vault: &Vault, dst: &Authority) -> (r: Result<
    (VecSet<PublicKey>, u64),
    ClientError,
>)
    ensures
        match r {
            Ok((keys, version)) => auth_keys_of(vault@, *dst) == Ok::<
                (Set<PublicKey>, u64),
                ClientError,
            >((keys@, version)),
            Err(error) => auth_keys_of(vault@, *dst) == Err::<(Set<PublicKey>, u64), ClientError>(
                error,
            ),
        },
{
    match dst {
        Authority::ClientManager(name) => match vault.get_account(name) {
            Some(account) => Ok((account.auth_keys().duplicate(), account.version())),
            None => Err(ClientError::NoSuchAccount),
        },
        _ => Err(ClientError::InvalidOperation),
    }
}

/// The immutable blob named `name`.
fn fetch_idata(vault: &Vault, dst: &Authority, name: &XorName) -> (r: Result<
    ImmutableData,
    ClientError,
>)
    ensures
        match r {
            Ok(data) => idata_fetched(vault@, *dst, *name) == Ok::<ImmutableDataView, ClientError>(
                data@,
            ),
            Err(error) => idata_fetched(vault@, *dst, *name) == Err::<
                ImmutableDataView,
                ClientError,
            >(error),
        },
{
    match vault.authorise_read(dst, name) {
        Err(error) => Err(error),
        Ok(()) => match vault.get_data(&DataId::immutable(*name)) {
            Some(Data::Immutable(data)) => Ok(data),
            _ => Err(ClientError::NoSuchData),
        },
    }
}

/// The mutable record with that name and tag.
pub fn fetch_mdata(vault: &Vault, name: &XorName, tag: u64) -> (r: Result<MutableData, ClientError>)
    ensures
        match r {
            Ok(data) => mdata_fetched(vault@, *name, tag) == Ok::<MutableDataView, ClientError>(
                data@,
            ),
            Err(error) => mdata_fetched(vault@, *name, tag) == Err::<MutableDataView, ClientError>(
                error,
            ),
        },
{
    match vault.get_data(&DataId::mutable(*name, tag)) {
        Some(Data::Mutable(data)) => Ok(data),
        _ => if tag == TYPE_TAG_SESSION_PACKET {
            Err(ClientError::NoSuchAccount)
        } else {
            Err(ClientError::NoSuchData)
        },
    }
}

/// The part of `data` that the request asks for.
fn project_mdata(data: MutableData, request: &Request) -> (response: Response)
    ensures
        response@ == mdata_projected(data@, request@),
{
    let msg_id = *request.message_id();
    match request {
        Request::GetMData { .. } => Response::GetMData { res: Ok(data), msg_id },
        Request::GetMDataVersion { .. } => Response::GetMDataVersion {
            res: Ok(data.version()),
            msg_id,
        },
        Request::GetMDataShell { .. } => Response::GetMDataShell { res: Ok(data.shell()), msg_id },
        Request::ListMDataEntries { .. } => Response::ListMDataEntries {
            res: Ok(data.entries().duplicate()),
            msg_id,
        },
        Request::ListMDataKeys { .. } => Response::ListMDataKeys { res: Ok(data.keys()), msg_id },
        Request::ListMDataValues { .. } => {
            let values = data.values();
            proof {
                assert(value_views(values@) =~= entry_values(data@));
            }
            Response::ListMDataValues { res: Ok(values), msg_id }
        },
        Request::GetMDataValue { key, .. } => Response::GetMDataValue {
            res: match data.get(key) {
                Some(value) => Ok(value.duplicate()),
                None => Err(ClientError::NoSuchEntry),
            },
            msg_id,
        },
        Request::ListMDataPermissions { .. } => Response::ListMDataPermissions {
            res: Ok(data.permissions().duplicate()),
            msg_id,
        },
        Request::ListMDataUserPermissions { user, .. } => Response::ListMDataUserPermissions {
            res: match data.user_permissions(user) {
                Ok(permissions) => Ok(*permissions),
                Err(error) => Err(error),
            },
            msg_id,
        },
        _ => request.failure(ClientError::InvalidOperation),
    }
}

/// Answers a request that reads the mutable record with that name and tag.
pub fn read_mdata(vault: &Vault, dst: &Authority, name: &XorName, tag: u64, request: &Request) -> (response:
    Response)
    ensures
        response@ == mdata_read(vault@, *dst, *name, tag, request@),
{
    match fetch_mdata(vault, name, tag) {
        Err(error) => request.failure(error),
        Ok(data) => match vault.authorise_read(dst, name) {
            Err(error) => request.failure(error),
            Ok(()) => project_mdata(data, request),
        },
    }
}

/// Answers a request that only reads the store.
pub fn answer_query(vault: &Vault, dst: &Authority, request: &Request) -> (response: Response)
    ensures
        response@ == answered(vault@, *dst, request@),
{
    match request {
        Request::GetAccountInfo(msg_id) => Response::GetAccountInfo {
            res: account_info(vault, dst),
            msg_id: *msg_id,
        },
        Request::GetIData { name, msg_id } => Response::GetIData {
            res: fetch_idata(vault, dst, name),
            msg_id: *msg_id,
        },
        Request::GetMData { name, tag, .. } => read_mdata(vault, dst, name, *tag, request),
        Request::GetMDataVersion { name, tag, .. } => read_mdata(vault, dst, name, *tag, request),
        Request::GetMDataShell { name, tag, .. } => read_mdata(vault, dst, name, *tag, request),
        Request::ListMDataEntries { name, tag, .. } => read_mdata(vault, dst, name, *tag, request),
        Request::ListMDataKeys { name, tag, .. } => read_mdata(vault, dst, name, *tag, request),
        Request::ListMDataValues { name, tag, .. } => read_mdata(vault, dst, name, *tag, request),
        Request::GetMDataValue { name, tag, .. } => read_mdata(vault, dst, name, *tag, request),
        Request::ListMDataPermissions { name, tag, .. } => read_mdata(
            vault,
            dst,
            name,
            *tag,
            request,
        ),
        Request::ListMDataUserPermissions { name, tag, .. } => read_mdata(
            vault,
            dst,
            name,
            *tag,
            request,
        ),
        Request::ListAuthKeysAndVersion(msg_id) => Response::ListAuthKeysAndVersion {
            res: auth_keys_and_version(vault, dst),
            msg_id: *msg_id,
        },
        _ => request.failure(ClientError::InvalidOperation),
    }
}

/// Whether a request that names `requester`, if it names one, comes from the
/// client with the key `client_key`.
pub fn verify_requester(client_key: &PublicKey, requester: Option<PublicKey>) -> (r: Result<
    (),
    ClientError,
>)
    ensures
        r == (match requester {
            Some(key) if key != *client_key => Err::<(), ClientError>(ClientError::InvalidRequester),
            _ => Ok::<(), ClientError>(()),
        }),
{
    match requester {
        Some(key) => if client_key.same(&key) {
            Ok(())
        } else {
            Err(ClientError::InvalidRequester)
        },
        None => Ok(()),
    }
}

/// Puts the blob `data` into the store.
fn put_idata(vault: &mut Vault, client: &PublicId, dst: &Authority, data: ImmutableData) -> (r:
    Result<(), ClientError>)
    ensures
        (r, final(vault)@) == idata_put(
            old(vault)@,
            client.spec_signing_public_key(),
            client.spec_name(),
            *dst,
            data@,
        ),
{
    match vault.authorise_mutation_as(dst, client.signing_public_key(), client.name()) {
        Err(error) => {
            return Err(error);
        },
        Ok(()) => {},
    }
    let id = DataId::immutable(*data.name());
    match vault.get_data(&id) {
        // A blob is stored once only: putting it again is in order, and
        // nothing is done.
        Some(Data::Immutable(_)) => Ok(()),
        Some(_) => Err(ClientError::DataExists),
        None => {
            vault.insert_data(id, Data::Immutable(data));
            vault.commit_mutation(dst);
            Ok(())
        },
    }
}

/// Puts the mutable record `data` into the store.
fn put_mdata(
    vault: &mut Vault,
    client: &PublicId,
    dst: &Authority,
    data: MutableData,
    requester: &PublicKey,
) -> (r: Result<(), ClientError>)
    ensures
        (r, final(vault)@) == mdata_put(
            old(vault)@,
            client.spec_signing_public_key(),
            client.spec_name(),
            *dst,
            data@,
            *requester,
        ),
{
    match verify_requester(client.signing_public_key(), Some(*requester)) {
        Err(error) => {
            return Err(error);
        },
        Ok(()) => {},
    }
    let id = DataId::mutable(*data.name(), data.tag());
    if data.tag() == TYPE_TAG_SESSION_PACKET {
        // The record is the root of an account: create the account with it.
        let dst_name = match dst {
            Authority::ClientManager(name) => *name,
            _ => {
                return Err(ClientError::InvalidOperation);
            },
        };
        if vault.contains_data(&id) || vault.get_account(&dst_name).is_some() {
            return Err(ClientError::AccountExists);
        }
        vault.insert_account(dst_name);
        vault.insert_data(id, Data::Mutable(data));
        Ok(())
    } else {
        match vault.authorise_mutation_as(dst, client.signing_public_key(), client.name()) {
            Err(error) => {
                return Err(error);
            },
            Ok(()) => {},
        }
        match verify_owner(dst, &data.owners()) {
            Err(error) => {
                return Err(error);
            },
            Ok(()) => {},
        }
        if vault.contains_data(&id) {
            return Err(ClientError::DataExists);
        }
        vault.insert_data(id, Data::Mutable(data));
        vault.commit_mutation(dst);
        Ok(())
    }
}

/// Gives `data` to `new_owner`. Only the owner can do this.
fn transfer_owner(
    data: &mut MutableData,
    requester_name: &XorName,
    dst: &Authority,
    new_owner: PublicKey,
    version: u64,
) -> (r: Result<(), ClientError>)
    ensures
        match owner_transferred(old(data)@, *requester_name, *dst, new_owner, version) {
            Ok(after) => r == Ok::<(), ClientError>(()) && final(data)@ == after,
            Err(error) => r == Err::<(), ClientError>(error) && final(data)@ == old(data)@,
        },
{
    let dst_name = match dst {
        Authority::ClientManager(name) => name,
        _ => {
            return Err(ClientError::InvalidOwners);
        },
    };
    match verify_owner(dst, &data.owners()) {
        Err(_) => {
            return Err(ClientError::AccessDenied);
        },
        Ok(()) => {},
    }
    if !requester_name.same(dst_name) {
        return Err(ClientError::AccessDenied);
    }
    data.change_owner(new_owner, version)
}

/// Changes `data` as the request asks.
fn transform_mdata(
    data: &mut MutableData,
    account_name: &XorName,
    dst: &Authority,
    request: &Request,
) -> (r: Result<(), ClientError>)
    ensures
        match mdata_transformed(old(data)@, *account_name, *dst, request@) {
            Ok(after) => r == Ok::<(), ClientError>(()) && final(data)@ == after,
            Err(error) => r == Err::<(), ClientError>(error) && final(data)@ == old(data)@,
        },
{
    match request {
        Request::MutateMDataEntries { actions, requester, .. } => data.mutate_entries(
            actions,
            *requester,
        ),
        Request::SetMDataUserPermissions {
            user,
            permissions,
            version,
            requester,
            ..
        } => data.set_user_permissions(*user, *permissions, *version, *requester),
        Request::DelMDataUserPermissions {
            user,
            version,
            requester,
            ..
        } => data.del_user_permissions(user, *version, *requester),
        Request::ChangeMDataOwner { new_owners, version, .. } => {
            if new_owners.len() != 1 {
                return Err(ClientError::InvalidOwners);
            }
            let new_owner = *new_owners.item_at(0);
            proof {
                Set::lemma_is_singleton(new_owners@);
            }
            transfer_owner(data, account_name, dst, new_owner, *version)
        },
        _ => Err(ClientError::InvalidOperation),
    }
}

/// Changes the mutable record with that name and tag as the request asks.
pub fn mutate_mdata(
    vault: &mut Vault,
    client: &PublicId,
    dst: &Authority,
    name: &XorName,
    tag: u64,
    requester: &PublicKey,
    request: &Request,
) -> (r: Result<(), ClientError>)
    ensures
        (r, final(vault)@) == mdata_mutated(
            old(vault)@,
            client.spec_signing_public_key(),
            client.spec_name(),
            *dst,
            *name,
            tag,
            *requester,
            request@,
        ),
{
    match verify_requester(client.signing_public_key(), Some(*requester)) {
        Err(error) => {
            return Err(error);
        },
        Ok(()) => {},
    }
    let mut data = match fetch_mdata(vault, name, tag) {
        Err(error) => {
            return Err(error);
        },
        Ok(data) => data,
    };
    match vault.authorise_mutation_as(dst, client.signing_public_key(), client.name()) {
        Err(error) => {
            return Err(error);
        },
        Ok(()) => {},
    }
    match transform_mdata(&mut data, client.name(), dst, request) {
        Err(error) => {
            return Err(error);
        },
        Ok(()) => {},
    }
    vault.insert_data(DataId::mutable(*name, tag), Data::Mutable(data));
    vault.commit_mutation(dst);
    Ok(())
}

/// Puts a key on the list of the account that `dst` manages, or takes it off.
fn change_auth_key(vault: &mut Vault, dst: &Authority, key: &PublicKey, version: u64, insert: bool) -> (r:
    Result<(), ClientError>)
    ensures
        (r, final(vault)@) == auth_key_changed(old(vault)@, *dst, *key, version, insert),
{
    match dst {
        Authority::ClientManager(name) => if insert {
            vault.ins_auth_key(name, *key, version)
        } else {
            vault.del_auth_key(name, key, version)
        },
        _ => Err(ClientError::InvalidOperation),
    }
}

/// Does what a request that may change the store asks for.
pub fn apply(vault: &mut Vault, client: &PublicId, dst: &Authority, request: &Request) -> (r: Result<
    (),
    ClientError,
>)
    ensures
        (r, final(vault)@) == applied(
            old(vault)@,
            client.spec_signing_public_key(),
            client.spec_name(),
            *dst,
            request@,
        ),
{
    match request {
        Request::PutIData { data, .. } => put_idata(vault, client, dst, data.duplicate()),
        Request::PutMData { data, requester, .. } => put_mdata(
            vault,
            client,
            dst,
            data.duplicate(),
            requester,
        ),
        Request::MutateMDataEntries { name, tag, requester, .. } => mutate_mdata(
            vault,
            client,
            dst,
            name,
            *tag,
            requester,
            request,
        ),
        Request::SetMDataUserPermissions { name, tag, requester, .. } => mutate_mdata(
            vault,
            client,
            dst,
            name,
            *tag,
            requester,
            request,
        ),
        Request::DelMDataUserPermissions { name, tag, requester, .. } => mutate_mdata(
            vault,
            client,
            dst,
            name,
            *tag,
            requester,
            request,
        ),
        Request::ChangeMDataOwner { name, tag, new_owners, .. } => {
            if new_owners.len() != 1 {
                return Err(ClientError::InvalidOwners);
            }
            mutate_mdata(vault, client, dst, name, *tag, client.signing_public_key(), request)
        },
        Request::InsAuthKey { key, version, .. } => change_auth_key(vault, dst, key, *version, true),
        Request::DelAuthKey { key, version, .. } => change_auth_key(
            vault,
            dst,
            key,
            *version,
            false,
        ),
        _ => Err(ClientError::InvalidOperation),
    }
}

/// Does what a request asks for, and gives the response.
pub fn execute(vault: &mut Vault, client: &PublicId, dst: &Authority, request: &Request) -> (response:
    Response)
    ensures
        (response@, final(vault)@) == executed(
            old(vault)@,
            client.spec_signing_public_key(),
            client.spec_name(),
            *dst,
            request@,
        ),
{
    if request.is_query() {
        answer_query(vault, dst, request)
    } else {
        let res = apply(vault, client, dst, request);
        request.completed(res)
    }
}

} // verus!
