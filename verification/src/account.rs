//! Client accounts: counters of mutations, the keys of authorised apps, and
//! the version that guards the list of keys.

use crate::collections::{Duplicate, VecSet};
use crate::error::ClientError;
use crate::name::PublicKey;
use vstd::prelude::*;

verus! {

/// How many mutations a new account may make.
pub const DEFAULT_MAX_MUTATIONS: u64 = 1000;

/// The counters of an account.
#[derive(Clone, Copy, Debug, PartialEq, Eq, Structural)]
pub struct AccountInfo {
    /// How many mutations the account has made.
    pub mutations_done: u64,
    /// How many more it may make.
    pub mutations_available: u64,
}

impl View for AccountInfo {
    type V = AccountInfo;

    open spec fn view(&self) -> AccountInfo {
        *self
    }
}

/// What an `Account` stands for.
pub struct AccountView {
    pub info: AccountInfo,
    pub auth_keys: Set<PublicKey>,
    pub version: u64,
}

impl AccountView {
    /// The mutations made and those left add up to the allowance.
    pub open spec fn wf(self) -> bool {
        self.info.mutations_done + self.info.mutations_available == DEFAULT_MAX_MUTATIONS
    }

    /// A new account.
    pub open spec fn new() -> AccountView {
        AccountView {
            info: AccountInfo { mutations_done: 0, mutations_available: DEFAULT_MAX_MUTATIONS },
            auth_keys: Set::empty(),
            version: 0,
        }
    }

    /// Why a change to the list of keys that presents `version` is turned
    /// down, if it is: the caller has to present the version that the account
    /// has now.
    pub open spec fn version_error(self, version: u64) -> Option<ClientError> {
        if version != self.version || self.version == u64::MAX {
            Some(ClientError::InvalidSuccessor(self.version))
        } else {
            None
        }
    }

    /// What becomes of the account when `key` is put on the list and
    /// `version` is presented.
    pub open spec fn key_inserted(self, key: PublicKey, version: u64) -> Result<
        AccountView,
        ClientError,
    > {
        match self.version_error(version) {
            Some(error) => Err(error),
            None => Ok(
                AccountView {
                    auth_keys: self.auth_keys.insert(key),
                    version: (self.version + 1) as u64,
                    ..self
                },
            ),
        }
    }

    /// What becomes of the account when `key` is taken off the list and
    /// `version` is presented.
    pub open spec fn key_deleted(self, key: PublicKey, version: u64) -> Result<
        AccountView,
        ClientError,
    > {
        match self.version_error(version) {
            Some(error) => Err(error),
            None => if self.auth_keys.contains(key) {
                Ok(
                    AccountView {
                        auth_keys: self.auth_keys.remove(key),
                        version: (self.version + 1) as u64,
                        ..self
                    },
                )
            } else {
                Err(ClientError::NoSuchKey)
            },
        }
    }

    /// The account after one more mutation has been counted. An account with
    /// none left stays as it is.
    pub open spec fn mutation_counted(self) -> AccountView {
        if self.info.mutations_available > 0 {
            AccountView {
                info: AccountInfo {
                    mutations_done: (self.info.mutations_done + 1) as u64,
                    mutations_available: (self.info.mutations_available - 1) as u64,
                },
                ..self
            }
        } else {
            self
        }
    }
}

/// The account of one client.
#[derive(Debug)]
pub struct Account {
    account_info: AccountInfo,
    auth_keys: VecSet<PublicKey>,
    version: u64,
}

impl View for Account {
    type V = AccountView;

    closed spec fn view(&self) -> AccountView {
        AccountView { info: self.account_info, auth_keys: self.auth_keys@, version: self.version }
    }
}

impl Duplicate for Account {
    fn duplicate(&self) -> (r: Self) {
        proof {
            use_type_invariant(self);
        }
        Account {
            account_info: self.account_info,
            auth_keys: self.auth_keys.duplicate(),
            version: self.version,
        }
    }
}

impl Clone for Account {
    fn clone(&self) -> (r: Self)
        ensures
            r@ == self@,
    {
        self.duplicate()
    }
}

impl Account {
    /// The mutations made and those left add up to the allowance.
    #[verifier::type_invariant]
    pub closed spec fn wf(&self) -> bool {
        self@.wf()
    }

    /// A new account: no mutation made, no key authorised, version 0.
    pub fn new() -> (account: Account)
        ensures
            account@ == AccountView::new(),
    {
        Account {
            account_info: AccountInfo {
                mutations_done: 0,
                mutations_available: DEFAULT_MAX_MUTATIONS,
            },
            auth_keys: VecSet::new(),
            version: 0,
        }
    }

    /// The counters.
    pub fn account_info(&self) -> (info: &AccountInfo)
        ensures
            *info == self@.info,
            self@.wf(),
    {
        proof {
            use_type_invariant(self);
        }
        &self.account_info
    }

    /// The keys of the authorised apps.
    pub fn auth_keys(&self) -> (keys: &VecSet<PublicKey>)
        ensures
            keys@ == self@.auth_keys,
    {
        &self.auth_keys
    }

    /// The version of the list of keys.
    pub fn version(&self) -> (version: u64)
        ensures
            version == self@.version,
    {
        self.version
    }

    /// Takes the parts out, leaving a new account.
    fn take(&mut self) -> (parts: (AccountInfo, VecSet<PublicKey>, u64))
        ensures
            parts.0 == old(self)@.info,
            parts.1@ == old(self)@.auth_keys,
            parts.2 == old(self)@.version,
            old(self)@.wf(),
    {
        proof {
            use_type_invariant(&*self);
        }
        let mut taken = Account::new();
        core::mem::swap(self, &mut taken);
        let Account { account_info, auth_keys, version } = taken;
        (account_info, auth_keys, version)
    }

    /// Why a change that presents `version` is turned down, if it is.
    fn validate_version(&self, version: u64) -> (error: Option<ClientError>)
        ensures
            error == self@.version_error(version),
    {
        if version != self.version || self.version == u64::MAX {
            Some(ClientError::InvalidSuccessor(self.version))
        } else {
            None
        }
    }

    /// Puts `key` on the list of authorised keys and raises the version by
    /// one. `version` has to be the version that the account has now.
    pub fn ins_auth_key(&mut self, key: PublicKey, version: u64) -> (r: Result<(), ClientError>)
        ensures
            match old(self)@.key_inserted(key, version) {
                Ok(after) => r == Ok::<(), ClientError>(()) && final(self)@ == after,
                Err(error) => r == Err::<(), ClientError>(error) && final(self)@ == old(self)@,
            },
    {
        match self.validate_version(version) {
            Some(error) => {
                return Err(error);
            },
            None => {},
        }
        let (account_info, mut auth_keys, old_version) = self.take();
        auth_keys.insert(key);
        *self = Account { account_info, auth_keys, version: old_version + 1 };
        Ok(())
    }

    /// Takes `key` off the list of authorised keys and raises the version by
    /// one. `version` has to be the version that the account has now, and the
    /// key has to be on the list.
    pub fn del_auth_key(&mut self, key: &PublicKey, version: u64) -> (r: Result<(), ClientError>)
        ensures
            match old(self)@.key_deleted(*key, version) {
                Ok(after) => r == Ok::<(), ClientError>(()) && final(self)@ == after,
                Err(error) => r == Err::<(), ClientError>(error) && final(self)@ == old(self)@,
            },
    {
        match self.validate_version(version) {
            Some(error) => {
                return Err(error);
            },
            None => {},
        }
        if !self.auth_keys.contains(key) {
            return Err(ClientError::NoSuchKey);
        }
        let (account_info, mut auth_keys, old_version) = self.take();
        auth_keys.remove(key);
        *self = Account { account_info, auth_keys, version: old_version + 1 };
        Ok(())
    }

    /// Counts one more mutation: one more made, one fewer left. An account
    /// with none left stays as it is.
    pub fn increment_mutations_counter(&mut self)
        ensures
            final(self)@ == old(self)@.mutation_counted(),
    {
        proof {
            use_type_invariant(&*self);
        }
        if self.account_info.mutations_available > 0 {
            self.account_info = AccountInfo {
                mutations_done: self.account_info.mutations_done + 1,
                mutations_available: self.account_info.mutations_available - 1,
            };
        }
    }
}

} // verus!
