//! The store: every account and every piece of data, and the rules by which
//! it lets requests read and change them.

use crate::account::{Account, AccountView};
use crate::authority::Authority;
use crate::collections::{Duplicate, KeyEq, VecMap};
use crate::data::{ImmutableData, ImmutableDataView};
use crate::error::ClientError;
use crate::mutable_data::{MutableData, MutableDataView};
use crate::name::{key_name, PublicKey, XorName};
use crate::order::KeyOrd;
use vstd::prelude::*;

verus! {

/// What a piece of data is found by: its kind, its name and, for a mutable
/// record, its tag.
#[derive(Clone, Copy, Debug, PartialEq, Eq, Hash)]
pub enum DataId {
    /// An immutable blob.
    Immutable(XorName),
    /// A mutable record.
    Mutable(XorName, u64),
}

impl View for DataId {
    type V = DataId;

    open spec fn view(&self) -> DataId {
        *self
    }
}

impl KeyEq for DataId {
    fn key_eq(&self, other: &Self) -> (r: bool) {
        match (self, other) {
            (DataId::Immutable(a), DataId::Immutable(b)) => a.same(b),
            (DataId::Mutable(a, s), DataId::Mutable(b, t)) => *s == *t && a.same(b),
            _ => false,
        }
    }
}

impl KeyOrd for DataId {
    /// Blobs come before records. Blobs are ordered by name, records by name
    /// and then by tag.
    open spec fn precedes(a: DataId, b: DataId) -> bool {
        match (a, b) {
            (DataId::Immutable(x), DataId::Immutable(y)) => XorName::precedes(x, y),
            (DataId::Immutable(_), DataId::Mutable(_, _)) => true,
            (DataId::Mutable(x, s), DataId::Mutable(y, t)) => XorName::precedes(x, y) || (x == y
                && s < t),
            _ => false,
        }
    }

    proof fn lemma_in_a_row(a: DataId, b: DataId, c: DataId) {
        XorName::lemma_in_a_row(a.spec_name(), b.spec_name(), c.spec_name());
        XorName::lemma_in_a_row(a.spec_name(), a.spec_name(), a.spec_name());
        XorName::lemma_in_a_row(b.spec_name(), a.spec_name(), c.spec_name());
        XorName::lemma_in_a_row(a.spec_name(), c.spec_name(), b.spec_name());
    }

    fn key_before(&self, other: &Self) -> (r: bool) {
        match (self, other) {
            (DataId::Immutable(x), DataId::Immutable(y)) => x.key_before(y),
            (DataId::Immutable(_), DataId::Mutable(_, _)) => true,
            (DataId::Mutable(x, s), DataId::Mutable(y, t)) => x.key_before(y) || (x.same(y) && *s
                < *t),
            _ => false,
        }
    }
}

impl Duplicate for DataId {
    fn duplicate(&self) -> (r: Self) {
        *self
    }
}

impl DataId {
    /// The identifier of the immutable blob with that name.
    pub fn immutable(name: XorName) -> (id: DataId)
        ensures
            id == DataId::Immutable(name),
    {
        DataId::Immutable(name)
    }

    /// The identifier of the mutable record with that name and tag.
    pub fn mutable(name: XorName, tag: u64) -> (id: DataId)
        ensures
            id == DataId::Mutable(name, tag),
    {
        DataId::Mutable(name, tag)
    }

    /// The name.
    pub open spec fn spec_name(&self) -> XorName {
        match *self {
            DataId::Immutable(name) => name,
            DataId::Mutable(name, _) => name,
        }
    }

    /// The name.
    pub fn name(&self) -> (name: &XorName)
        ensures
            *name == self.spec_name(),
    {
        match self {
            DataId::Immutable(name) => name,
            DataId::Mutable(name, _) => name,
        }
    }
}

/// What a `Data` stands for.
pub enum DataView {
    Immutable(ImmutableDataView),
    Mutable(MutableDataView),
}

/// A piece of data of either kind.
#[derive(Debug)]
pub enum Data {
    /// An immutable blob.
    Immutable(ImmutableData),
    /// A mutable record.
    Mutable(MutableData),
}

impl View for Data {
    type V = DataView;

    open spec fn view(&self) -> DataView {
        match *self {
            Data::Immutable(data) => DataView::Immutable(data@),
            Data::Mutable(data) => DataView::Mutable(data@),
        }
    }
}

impl Duplicate for Data {
    fn duplicate(&self) -> (r: Self) {
        match self {
            Data::Immutable(data) => Data::Immutable(data.duplicate()),
            Data::Mutable(data) => Data::Mutable(data.duplicate()),
        }
    }
}

impl Clone for Data {
    fn clone(&self) -> (r: Self)
        ensures
            r@ == self@,
    {
        self.duplicate()
    }
}

/// What a `Vault` stands for.
pub struct VaultView {
    /// The accounts, by the names of their clients.
    pub accounts: Map<XorName, AccountView>,
    /// The data, by identifier.
    pub data: Map<DataId, DataView>,
}

impl VaultView {
    /// In every account, the mutations made and those left add up to the
    /// allowance; every mutable record has exactly one owner and keeps its
    /// entries by ascending key.
    pub open spec fn wf(self) -> bool {
        &&& forall|name: XorName|
            self.accounts.contains_key(name) ==> (#[trigger] self.accounts[name]).wf()
        &&& forall|id: DataId|
            self.data.contains_key(id) && self.data[id] is Mutable ==> (
            #[trigger] self.data[id])->Mutable_0.wf()
    }

    /// Whether a request addressed to `dst` may read the data named
    /// `data_name`: it has to be addressed to the managers of that data.
    pub open spec fn read_authorised(self, dst: Authority, data_name: XorName) -> Result<
        (),
        ClientError,
    > {
        if dst == Authority::NaeManager(data_name) {
            Ok(())
        } else {
            Err(ClientError::InvalidOperation)
        }
    }

    /// Whether a request addressed to `dst` and made with the key `sign_pk`,
    /// whose name is `key_owner`, may change anything. It has to be addressed
    /// to the managers of an account that exists; the key has to be the
    /// account's own or one that the account has authorised; and the account
    /// has to have a mutation left.
    pub open spec fn mutation_authorised(
        self,
        dst: Authority,
        sign_pk: PublicKey,
        key_owner: XorName,
    ) -> Result<(), ClientError> {
        if !(dst is ClientManager) {
            Err(ClientError::InvalidOperation)
        } else if !self.accounts.contains_key(dst->ClientManager_0) {
            Err(ClientError::NoSuchAccount)
        } else if key_owner != dst->ClientManager_0 && !self.accounts[dst->ClientManager_0].auth_keys.contains(
            sign_pk,
        ) {
            Err(ClientError::AccessDenied)
        } else if self.accounts[dst->ClientManager_0].info.mutations_available == 0 {
            Err(ClientError::LowBalance)
        } else {
            Ok(())
        }
    }

    /// The store after a mutation has been counted in the account that `dst`
    /// is about. Where there is no such account the store stays as it is.
    pub open spec fn mutation_committed(self, dst: Authority) -> VaultView {
        if self.accounts.contains_key(dst.spec_name()) {
            VaultView {
                accounts: self.accounts.insert(
                    dst.spec_name(),
                    self.accounts[dst.spec_name()].mutation_counted(),
                ),
                ..self
            }
        } else {
            self
        }
    }

    /// What becomes of the store when `key` is put on the list of the account
    /// named `name` and `version` is presented.
    pub open spec fn auth_key_inserted(self, name: XorName, key: PublicKey, version: u64) -> Result<
        VaultView,
        ClientError,
    > {
        if !self.accounts.contains_key(name) {
            Err(ClientError::NoSuchAccount)
        } else {
            match self.accounts[name].key_inserted(key, version) {
                Ok(account) => Ok(VaultView { accounts: self.accounts.insert(name, account), ..self }),
                Err(error) => Err(error),
            }
        }
    }

    /// What becomes of the store when `key` is taken off the list of the
    /// account named `name` and `version` is presented.
    pub open spec fn auth_key_deleted(self, name: XorName, key: PublicKey, version: u64) -> Result<
        VaultView,
        ClientError,
    > {
        if !self.accounts.contains_key(name) {
            Err(ClientError::NoSuchAccount)
        } else {
            match self.accounts[name].key_deleted(key, version) {
                Ok(account) => Ok(VaultView { accounts: self.accounts.insert(name, account), ..self }),
                Err(error) => Err(error),
            }
        }
    }
}

/// The store. It holds the accounts and the data of every client.
#[derive(Debug)]
pub struct Vault {
    client_manager: VecMap<XorName, Account>,
    nae_manager: VecMap<DataId, Data>,
}

impl View for Vault {
    type V = VaultView;

    closed spec fn view(&self) -> VaultView {
        VaultView { accounts: self.client_manager@, data: self.nae_manager@ }
    }
}

impl Duplicate for Vault {
    fn duplicate(&self) -> (r: Self) {
        Vault {
            client_manager: self.client_manager.duplicate(),
            nae_manager: self.nae_manager.duplicate(),
        }
    }
}

impl Clone for Vault {
    fn clone(&self) -> (r: Self)
        ensures
            r@ == self@,
    {
        self.duplicate()
    }
}

impl Vault {
    /// An empty store.
    pub fn new() -> (vault: Vault)
        ensures
            vault@.accounts == Map::<XorName, AccountView>::empty(),
            vault@.data == Map::<DataId, DataView>::empty(),
    {
        Vault { client_manager: VecMap::new(), nae_manager: VecMap::new() }
    }

    /// The account of the client named `name`.
    pub fn get_account(&self, name: &XorName) -> (account: Option<&Account>)
        ensures
            match account {
                Some(account) => self@.accounts.contains_key(*name) && account@
                    == self@.accounts[*name],
                None => !self@.accounts.contains_key(*name),
            },
    {
        self.client_manager.get(name)
    }

    /// Gives the client named `name` a new account, in place of any it had.
    pub fn insert_account(&mut self, name: XorName)
        ensures
            final(self)@ == (VaultView {
                accounts: old(self)@.accounts.insert(name, AccountView::new()),
                ..old(self)@
            }),
    {
        self.client_manager.insert(name, Account::new());
    }

    /// Puts `key` on the list of authorised keys of the account named `name`.
    pub fn ins_auth_key(&mut self, name: &XorName, key: PublicKey, version: u64) -> (r: Result<
        (),
        ClientError,
    >)
        ensures
            match old(self)@.auth_key_inserted(*name, key, version) {
                Ok(after) => r == Ok::<(), ClientError>(()) && final(self)@ == after,
                Err(error) => r == Err::<(), ClientError>(error) && final(self)@ == old(self)@,
            },
    {
        let mut account = match self.client_manager.get(name) {
            Some(account) => account.duplicate(),
            None => {
                return Err(ClientError::NoSuchAccount);
            },
        };
        match account.ins_auth_key(key, version) {
            Ok(()) => {
                self.client_manager.insert(*name, account);
                Ok(())
            },
            Err(error) => Err(error),
        }
    }

    /// Takes `key` off the list of authorised keys of the account named
    /// `name`.
    pub fn del_auth_key(&mut self, name: &XorName, key: &PublicKey, version: u64) -> (r: Result<
        (),
        ClientError,
    >)
        ensures
            match old(self)@.auth_key_deleted(*name, *key, version) {
                Ok(after) => r == Ok::<(), ClientError>(()) && final(self)@ == after,
                Err(error) => r == Err::<(), ClientError>(error) && final(self)@ == old(self)@,
            },
    {
        let mut account = match self.client_manager.get(name) {
            Some(account) => account.duplicate(),
            None => {
                return Err(ClientError::NoSuchAccount);
            },
        };
        match account.del_auth_key(key, version) {
            Ok(()) => {
                self.client_manager.insert(*name, account);
                Ok(())
            },
            Err(error) => Err(error),
        }
    }

    /// Whether a request addressed to `dst` may read the data named
    /// `data_name`.
    pub fn authorise_read(&self, dst: &Authority, data_name: &XorName) -> (r: Result<
        (),
        ClientError,
    >)
        ensures
            r == self@.read_authorised(*dst, *data_name),
    {
        match dst {
            Authority::NaeManager(name) => if name.same(data_name) {
                Ok(())
            } else {
                Err(ClientError::InvalidOperation)
            },
            _ => Err(ClientError::InvalidOperation),
        }
    }

    /// Whether a request addressed to `dst` and made with the key `sign_pk`
    /// may change anything.
    pub fn authorise_mutation(&self, dst: &Authority, sign_pk: &PublicKey) -> (r: Result<
        (),
        ClientError,
    >)
        ensures
            r == self@.mutation_authorised(*dst, *sign_pk, key_name(*sign_pk)),
    {
        let key_owner = XorName::of_key(sign_pk);
        self.authorise_mutation_as(dst, sign_pk, &key_owner)
    }

    /// Whether a request addressed to `dst` and made with the key `sign_pk`,
    /// whose name is `key_owner`, may change anything.
    pub fn authorise_mutation_as(
        &self,
        dst: &Authority,
        sign_pk: &PublicKey,
        key_owner: &XorName,
    ) -> (r: Result<(), ClientError>)
        ensures
            r == self@.mutation_authorised(*dst, *sign_pk, *key_owner),
    {
        let dst_name = match dst {
            Authority::ClientManager(name) => name,
            _ => {
                return Err(ClientError::InvalidOperation);
            },
        };
        let account = match self.get_account(dst_name) {
            Some(account) => account,
            None => {
                return Err(ClientError::NoSuchAccount);
            },
        };
        if !key_owner.same(dst_name) && !account.auth_keys().contains(sign_pk) {
            return Err(ClientError::AccessDenied);
        }
        if account.account_info().mutations_available == 0 {
            return Err(ClientError::LowBalance);
        }
        Ok(())
    }

    /// Counts a mutation in the account that `dst` is about.
    pub fn commit_mutation(&mut self, dst: &Authority)
        ensures
            final(self)@ == old(self)@.mutation_committed(*dst),
    {
        let name = dst.name();
        let mut account = match self.client_manager.get(&name) {
            Some(account) => account.duplicate(),
            None => {
                return ;
            },
        };
        account.increment_mutations_counter();
        self.client_manager.insert(name, account);
    }

    /// Whether there is data under `id`.
    pub fn contains_data(&self, id: &DataId) -> (r: bool)
        ensures
            r == self@.data.contains_key(*id),
    {
        self.nae_manager.contains_key(id)
    }

    /// A copy of the data under `id`.
    pub fn get_data(&self, id: &DataId) -> (data: Option<Data>)
        ensures
            match data {
                Some(data) => self@.data.contains_key(*id) && data@ == self@.data[*id],
                None => !self@.data.contains_key(*id),
            },
    {
        match self.nae_manager.get(id) {
            Some(data) => Some(data.duplicate()),
            None => None,
        }
    }

    /// Puts `data` under `id`, in place of any that was there.
    pub fn insert_data(&mut self, id: DataId, data: Data)
        ensures
            final(self)@ == (VaultView { data: old(self)@.data.insert(id, data@), ..old(self)@ }),
    {
        self.nae_manager.insert(id, data);
    }
}

} // verus!
