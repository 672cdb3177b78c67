//! Mutable records: named, tagged containers of versioned entries, with a
//! table of permissions and one owner.

use crate::collections::{Duplicate, VecMap, VecSet};
use crate::data::{Action, EntryAction, EntryActionView, PermissionSet, User, Value, ValueView};
use crate::error::ClientError;
use crate::name::{PublicKey, XorName};
use crate::order::{ascending, lemma_put_in_place, rank};
use vstd::prelude::*;

verus! {

/// What a `MutableData` stands for.
pub struct MutableDataView {
    pub name: XorName,
    pub tag: u64,
    pub version: u64,
    pub entries: Map<Seq<u8>, ValueView>,
    /// The keys of the entries, in the order in which the entries are kept:
    /// ascending.
    pub entry_order: Seq<Seq<u8>>,
    pub permissions: Map<User, PermissionSet>,
    pub owners: Set<PublicKey>,
}

/// Why `action` cannot be applied to the entry under `key`, if it cannot.
pub open spec fn entry_action_error(
    entries: Map<Seq<u8>, ValueView>,
    key: Seq<u8>,
    action: EntryActionView,
) -> Option<ClientError> {
    match action {
        EntryActionView::Ins(_) => if entries.contains_key(key) {
            Some(ClientError::EntryExists)
        } else {
            None
        },
        EntryActionView::Update(value) => if !entries.contains_key(key) {
            Some(ClientError::NoSuchEntry)
        } else if value.entry_version != entries[key].entry_version + 1 {
            Some(ClientError::InvalidSuccessor(entries[key].entry_version))
        } else {
            None
        },
        EntryActionView::Del(version) => if !entries.contains_key(key) {
            Some(ClientError::NoSuchEntry)
        } else if version != entries[key].entry_version + 1 {
            Some(ClientError::InvalidSuccessor(entries[key].entry_version))
        } else {
            None
        },
    }
}

/// The error of the first action, from position `from` of `order` on, that
/// cannot be applied.
pub open spec fn first_entry_error(
    entries: Map<Seq<u8>, ValueView>,
    actions: Map<Seq<u8>, EntryActionView>,
    order: Seq<Seq<u8>>,
    from: int,
) -> Option<ClientError>
    decreases order.len() - from,
{
    if from < 0 || from >= order.len() {
        None
    } else {
        match entry_action_error(entries, order[from], actions[order[from]]) {
            Some(error) => Some(error),
            None => first_entry_error(entries, actions, order, from + 1),
        }
    }
}

/// The value that `action` leaves in its entry.
pub open spec fn action_value(action: EntryActionView) -> ValueView {
    match action {
        EntryActionView::Ins(value) => value,
        EntryActionView::Update(value) => value,
        EntryActionView::Del(version) => ValueView { content: Seq::empty(), entry_version: version },
    }
}

/// The entries after every action has been applied to the entry under its
/// key.
pub open spec fn applied_entries(
    entries: Map<Seq<u8>, ValueView>,
    actions: Map<Seq<u8>, EntryActionView>,
) -> Map<Seq<u8>, ValueView> {
    Map::new(
        |key: Seq<u8>| entries.contains_key(key) || actions.contains_key(key),
        |key: Seq<u8>|
            if actions.contains_key(key) {
                action_value(actions[key])
            } else {
                entries[key]
            },
    )
}

/// The order of the entries after the first `upto` actions of `action_order`
/// have been applied: a key that is new is put at its place among the keys,
/// which ascend.
pub open spec fn applied_order(order: Seq<Seq<u8>>, action_order: Seq<Seq<u8>>, upto: int) -> Seq<
    Seq<u8>,
>
    decreases upto,
{
    if upto <= 0 || upto > action_order.len() {
        order
    } else {
        let earlier = applied_order(order, action_order, upto - 1);
        if earlier.contains(action_order[upto - 1]) {
            earlier
        } else {
            earlier.insert(rank::<Vec<u8>>(earlier, action_order[upto - 1]), action_order[upto - 1])
        }
    }
}

/// What kind of change an action makes.
pub open spec fn action_kind(action: EntryActionView) -> Action {
    match action {
        EntryActionView::Ins(_) => Action::Insert,
        EntryActionView::Update(_) => Action::Update,
        EntryActionView::Del(_) => Action::Delete,
    }
}

/// Whether some action among `actions` is of the kind `kind`.
pub open spec fn has_action_of_kind(actions: Map<Seq<u8>, EntryActionView>, kind: Action) -> bool {
    exists|key: Seq<u8>| actions.contains_key(key) && action_kind(#[trigger] actions[key]) == kind
}

/// The entries after the first `upto` actions of `order` have been applied.
spec fn applied_prefix(
    entries: Map<Seq<u8>, ValueView>,
    actions: Map<Seq<u8>, EntryActionView>,
    order: Seq<Seq<u8>>,
    upto: int,
) -> Map<Seq<u8>, ValueView> {
    Map::new(
        |key: Seq<u8>| entries.contains_key(key) || in_prefix(order, upto, key),
        |key: Seq<u8>|
            if in_prefix(order, upto, key) {
                action_value(actions[key])
            } else {
                entries[key]
            },
    )
}

/// Whether `key` is among the first `upto` keys of `order`.
spec fn in_prefix(order: Seq<Seq<u8>>, upto: int, key: Seq<u8>) -> bool {
    exists|j: int| 0 <= j < upto && j < order.len() && #[trigger] order[j] == key
}

/// Whether one of the first `upto` actions is of the kind `kind`.
spec fn kind_in_prefix(actions: Seq<EntryActionView>, upto: int, kind: Action) -> bool {
    exists|j: int| 0 <= j < upto && j < actions.len() && action_kind(#[trigger] actions[j]) == kind
}

/// The order of the entries ascends after actions have been applied, as it
/// did before, and lists the keys that were there and those of the actions.
pub proof fn lemma_applied_order(order: Seq<Seq<u8>>, action_order: Seq<Seq<u8>>, upto: int)
    requires
        ascending::<Vec<u8>>(order),
        0 <= upto <= action_order.len(),
    ensures
        ascending::<Vec<u8>>(applied_order(order, action_order, upto)),
        applied_order(order, action_order, upto).to_set() == order.to_set().union(
            action_order.take(upto).to_set(),
        ),
    decreases upto,
{
    if upto == 0 {
        assert(order.to_set().union(action_order.take(0).to_set()) =~= order.to_set());
    } else {
        lemma_applied_order(order, action_order, upto - 1);
        let earlier = applied_order(order, action_order, upto - 1);
        let key = action_order[upto - 1];
        assert(action_order.take(upto) =~= action_order.take(upto - 1).push(key));
        assert(action_order.take(upto).to_set() =~= action_order.take(upto - 1).to_set().insert(
            key,
        )) by {
            assert forall|q: Seq<u8>| action_order.take(upto).contains(q) <==> (action_order.take(
                upto - 1,
            ).contains(q) || q == key) by {
                if action_order.take(upto - 1).contains(q) {
                    let j = action_order.take(upto - 1).index_of(q);
                    assert(action_order.take(upto)[j] == q);
                }
                if q == key {
                    assert(action_order.take(upto)[upto - 1] == q);
                }
            }
        }
        if !earlier.contains(key) {
            lemma_put_in_place::<Vec<u8>>(earlier, key);
        }
        assert(applied_order(order, action_order, upto).to_set() =~= order.to_set().union(
            action_order.take(upto).to_set(),
        ));
    }
}

impl MutableDataView {
    /// The record has exactly one owner.
    pub open spec fn has_one_owner(self) -> bool {
        self.owners.finite() && self.owners.len() == 1
    }

    /// The record has exactly one owner, and the order of its entries lists
    /// their keys, ascending.
    pub open spec fn wf(self) -> bool {
        &&& self.has_one_owner()
        &&& ascending::<Vec<u8>>(self.entry_order)
        &&& self.entry_order.to_set() == self.entries.dom()
    }

    /// Whether the permissions for everybody allow `action`.
    pub open spec fn anyone_allowed(self, action: Action) -> bool {
        self.permissions.contains_key(User::Anyone) && self.permissions[User::Anyone].spec_is_allowed(
            action,
        ) == Some(true)
    }

    /// Whether `requester` may do `action`. An owner may do anything. For
    /// others the permissions given to their key decide, and where these say
    /// nothing, the permissions given to everybody.
    pub open spec fn is_action_allowed(self, requester: PublicKey, action: Action) -> bool {
        if self.owners.contains(requester) {
            true
        } else if self.permissions.contains_key(User::Key(requester)) {
            match self.permissions[User::Key(requester)].spec_is_allowed(action) {
                Some(answer) => answer,
                None => self.anyone_allowed(action),
            }
        } else {
            self.anyone_allowed(action)
        }
    }

    /// Whether `requester` may make every kind of change that occurs among
    /// `actions`.
    pub open spec fn entry_actions_allowed(
        self,
        actions: Map<Seq<u8>, EntryActionView>,
        requester: PublicKey,
    ) -> bool {
        &&& has_action_of_kind(actions, Action::Insert) ==> self.is_action_allowed(
            requester,
            Action::Insert,
        )
        &&& has_action_of_kind(actions, Action::Update) ==> self.is_action_allowed(
            requester,
            Action::Update,
        )
        &&& has_action_of_kind(actions, Action::Delete) ==> self.is_action_allowed(
            requester,
            Action::Delete,
        )
    }

    /// The record without its entries.
    pub open spec fn shell(self) -> MutableDataView {
        MutableDataView { entries: Map::empty(), entry_order: Seq::empty(), ..self }
    }

    /// What becomes of the record when `requester` asks for `actions`, which
    /// are checked in the order `order`: the record with all of them applied
    /// and its version one higher, or the reason why nothing was changed.
    pub open spec fn entries_mutated(
        self,
        actions: Map<Seq<u8>, EntryActionView>,
        order: Seq<Seq<u8>>,
        requester: PublicKey,
    ) -> Result<MutableDataView, ClientError> {
        if !self.entry_actions_allowed(actions, requester) {
            Err(ClientError::AccessDenied)
        } else if first_entry_error(self.entries, actions, order, 0) is Some {
            Err(first_entry_error(self.entries, actions, order, 0)->0)
        } else if self.version == u64::MAX {
            Err(ClientError::InvalidSuccessor(self.version))
        } else {
            Ok(
                MutableDataView {
                    entries: applied_entries(self.entries, actions),
                    entry_order: applied_order(self.entry_order, order, order.len() as int),
                    version: (self.version + 1) as u64,
                    ..self
                },
            )
        }
    }

    /// What becomes of the record when `requester` sets the permissions of
    /// `user` and presents `version`.
    pub open spec fn permissions_set(
        self,
        user: User,
        permissions: PermissionSet,
        version: u64,
        requester: PublicKey,
    ) -> Result<MutableDataView, ClientError> {
        if !self.is_action_allowed(requester, Action::ManagePermissions) {
            Err(ClientError::AccessDenied)
        } else if version != self.version + 1 {
            Err(ClientError::InvalidSuccessor(self.version))
        } else {
            Ok(
                MutableDataView {
                    permissions: self.permissions.insert(user, permissions),
                    version,
                    ..self
                },
            )
        }
    }

    /// What becomes of the record when `requester` takes away the permissions
    /// of `user` and presents `version`.
    pub open spec fn permissions_deleted(
        self,
        user: User,
        version: u64,
        requester: PublicKey,
    ) -> Result<MutableDataView, ClientError> {
        if !self.is_action_allowed(requester, Action::ManagePermissions) {
            Err(ClientError::AccessDenied)
        } else if version != self.version + 1 {
            Err(ClientError::InvalidSuccessor(self.version))
        } else if !self.permissions.contains_key(user) {
            Err(ClientError::NoSuchKey)
        } else {
            Ok(MutableDataView { permissions: self.permissions.remove(user), version, ..self })
        }
    }

    /// What becomes of the record when it is given to `new_owner` and
    /// `version` is presented.
    pub open spec fn owner_changed(self, new_owner: PublicKey, version: u64) -> Result<
        MutableDataView,
        ClientError,
    > {
        if version != self.version + 1 {
            Err(ClientError::InvalidSuccessor(self.version))
        } else {
            Ok(MutableDataView { owners: set![new_owner], version, ..self })
        }
    }
}

/// A named, tagged container of entries that can be changed. Every accepted
/// change raises its version by one. It has exactly one owner.
#[derive(Debug)]
pub struct MutableData {
    name: XorName,
    tag: u64,
    entries: VecMap<Vec<u8>, Value>,
    permissions: VecMap<User, PermissionSet>,
    version: u64,
    owner: PublicKey,
}

impl View for MutableData {
    type V = MutableDataView;

    closed spec fn view(&self) -> MutableDataView {
        MutableDataView {
            name: self.name,
            tag: self.tag,
            version: self.version,
            entries: self.entries@,
            entry_order: self.entries.key_seq(),
            permissions: self.permissions@,
            owners: set![self.owner],
        }
    }
}

impl Clone for MutableData {
    fn clone(&self) -> (r: Self)
        ensures
            r@ == self@,
    {
        self.duplicate()
    }
}

impl Duplicate for MutableData {
    fn duplicate(&self) -> (r: Self) {
        let _ = self.entries.len();
        MutableData {
            name: self.name,
            tag: self.tag,
            entries: self.entries.duplicate(),
            permissions: self.permissions.duplicate(),
            version: self.version,
            owner: self.owner,
        }
    }
}

impl MutableData {
    /// A new record at version 0. There has to be exactly one owner.
    pub fn new(
        name: XorName,
        tag: u64,
        permissions: VecMap<User, PermissionSet>,
        entries: VecMap<Vec<u8>, Value>,
        owners: VecSet<PublicKey>,
    ) -> (r: Result<MutableData, ClientError>)
        ensures
            match r {
                Ok(data) => owners@.len() == 1 && data@ == (MutableDataView {
                    name,
                    tag,
                    version: 0,
                    entries: entries@,
                    entry_order: entries.key_seq(),
                    permissions: permissions@,
                    owners: owners@,
                }),
                Err(error) => owners@.len() != 1 && error == ClientError::InvalidOwners,
            },
    {
        if owners.len() != 1 {
            return Err(ClientError::InvalidOwners);
        }
        let owner = *owners.item_at(0);
        proof {
            assert(owners@ =~= set![owner]);
        }
        Ok(MutableData { name, tag, entries, permissions, version: 0, owner })
    }

    /// The name.
    pub fn name(&self) -> (name: &XorName)
        ensures
            *name == self@.name,
    {
        &self.name
    }

    /// The tag.
    pub fn tag(&self) -> (tag: u64)
        ensures
            tag == self@.tag,
    {
        self.tag
    }

    /// The version.
    pub fn version(&self) -> (version: u64)
        ensures
            version == self@.version,
    {
        self.version
    }

    /// The entries, kept by ascending key.
    pub fn entries(&self) -> (entries: &VecMap<Vec<u8>, Value>)
        ensures
            entries@ == self@.entries,
            entries.key_seq() == self@.entry_order,
            self@.wf(),
    {
        let _ = self.entries.len();
        &self.entries
    }

    /// The permissions.
    pub fn permissions(&self) -> (permissions: &VecMap<User, PermissionSet>)
        ensures
            permissions@ == self@.permissions,
    {
        &self.permissions
    }

    /// The owners: a set of one key.
    pub fn owners(&self) -> (owners: VecSet<PublicKey>)
        ensures
            owners@ == self@.owners,
            owners@.len() == 1,
            owners.seq().len() == 1,
    {
        let mut owners: VecSet<PublicKey> = VecSet::new();
        owners.insert(self.owner);
        let _ = owners.len();
        owners
    }

    /// The keys of the entries, in ascending order.
    pub fn keys(&self) -> (keys: VecSet<Vec<u8>>)
        ensures
            keys@ == self@.entries.dom(),
            keys.seq() == self@.entry_order,
            ascending::<Vec<u8>>(self@.entry_order),
    {
        let _ = self.entries.len();
        self.entries.keys()
    }

    /// The values of the entries, in the ascending order of their keys.
    pub fn values(&self) -> (values: Vec<Value>)
        ensures
            ascending::<Vec<u8>>(self@.entry_order),
            self@.entry_order.to_set() == self@.entries.dom(),
            values@.len() == self@.entry_order.len(),
            forall|i: int|
                0 <= i < values@.len() ==> self@.entries.contains_key(self@.entry_order[i])
                    && (#[trigger] values@[i])@ == self@.entries[self@.entry_order[i]],
    {
        let _ = self.entries.len();
        self.entries.values()
    }

    /// The value of the entry under `key`.
    pub fn get(&self, key: &Vec<u8>) -> (value: Option<&Value>)
        ensures
            match value {
                Some(v) => self@.entries.contains_key(key@) && v@ == self@.entries[key@],
                None => !self@.entries.contains_key(key@),
            },
    {
        self.entries.get(key)
    }

    /// The record without its entries.
    pub fn shell(&self) -> (shell: MutableData)
        ensures
            shell@ == self@.shell(),
    {
        MutableData {
            name: self.name,
            tag: self.tag,
            entries: VecMap::new(),
            permissions: self.permissions.duplicate(),
            version: self.version,
            owner: self.owner,
        }
    }

    /// The permissions given to `user`.
    pub fn user_permissions(&self, user: &User) -> (r: Result<&PermissionSet, ClientError>)
        ensures
            match r {
                Ok(permissions) => self@.permissions.contains_key(*user) && *permissions
                    == self@.permissions[*user],
                Err(error) => !self@.permissions.contains_key(*user) && error
                    == ClientError::NoSuchKey,
            },
    {
        match self.permissions.get(user) {
            Some(permissions) => Ok(permissions),
            None => Err(ClientError::NoSuchKey),
        }
    }

    /// Whether the permissions for everybody allow `action`.
    fn check_anyone_permissions(&self, action: Action) -> (r: bool)
        ensures
            r == self@.anyone_allowed(action),
    {
        match self.permissions.get(&User::Anyone) {
            Some(permissions) => match permissions.is_allowed(action) {
                Some(answer) => answer,
                None => false,
            },
            None => false,
        }
    }

    /// Whether `requester` may do `action`.
    pub fn is_action_allowed(&self, requester: PublicKey, action: Action) -> (r: bool)
        ensures
            r == self@.is_action_allowed(requester, action),
    {
        if self.owner.same(&requester) {
            return true;
        }
        match self.permissions.get(&User::Key(requester)) {
            Some(permissions) => match permissions.is_allowed(action) {
                Some(answer) => answer,
                None => self.check_anyone_permissions(action),
            },
            None => self.check_anyone_permissions(action),
        }
    }

    /// Sets the permissions of `user`. The requester has to be allowed to
    /// manage permissions, and `version` has to be one more than the record's.
    pub fn set_user_permissions(
        &mut self,
        user: User,
        permissions: PermissionSet,
        version: u64,
        requester: PublicKey,
    ) -> (r: Result<(), ClientError>)
        ensures
            match old(self)@.permissions_set(user, permissions, version, requester) {
                Ok(after) => r == Ok::<(), ClientError>(()) && final(self)@ == after,
                Err(error) => r == Err::<(), ClientError>(error) && final(self)@ == old(self)@,
            },
    {
        if !self.is_action_allowed(requester, Action::ManagePermissions) {
            return Err(ClientError::AccessDenied);
        }
        if self.version == u64::MAX || version != self.version + 1 {
            return Err(ClientError::InvalidSuccessor(self.version));
        }
        self.permissions.insert(user, permissions);
        self.version = version;
        Ok(())
    }

    /// Takes away the permissions of `user`. The requester has to be allowed
    /// to manage permissions, and `version` has to be one more than the
    /// record's.
    pub fn del_user_permissions(&mut self, user: &User, version: u64, requester: PublicKey) -> (r:
        Result<(), ClientError>)
        ensures
            match old(self)@.permissions_deleted(*user, version, requester) {
                Ok(after) => r == Ok::<(), ClientError>(()) && final(self)@ == after,
                Err(error) => r == Err::<(), ClientError>(error) && final(self)@ == old(self)@,
            },
    {
        if !self.is_action_allowed(requester, Action::ManagePermissions) {
            return Err(ClientError::AccessDenied);
        }
        if self.version == u64::MAX || version != self.version + 1 {
            return Err(ClientError::InvalidSuccessor(self.version));
        }
        if !self.permissions.contains_key(user) {
            return Err(ClientError::NoSuchKey);
        }
        self.permissions.remove(user);
        self.version = version;
        Ok(())
    }

    /// Gives the record to `new_owner`. `version` has to be one more than the
    /// record's.
    pub fn change_owner(&mut self, new_owner: PublicKey, version: u64) -> (r: Result<
        (),
        ClientError,
    >)
        ensures
            match old(self)@.owner_changed(new_owner, version) {
                Ok(after) => r == Ok::<(), ClientError>(()) && final(self)@ == after,
                Err(error) => r == Err::<(), ClientError>(error) && final(self)@ == old(self)@,
            },
    {
        if self.version == u64::MAX || version != self.version + 1 {
            return Err(ClientError::InvalidSuccessor(self.version));
        }
        self.owner = new_owner;
        self.version = version;
        Ok(())
    }

    /// Why `action` cannot be applied to an entry that now holds `existing`,
    /// if it cannot.
    fn check_entry_action(existing: Option<&Value>, action: &EntryAction) -> (error: Option<
        ClientError,
    >)
        ensures
            forall|entries: Map<Seq<u8>, ValueView>, key: Seq<u8>|
                (match existing {
                    Some(value) => entries.contains_key(key) && entries[key] == value@,
                    None => !entries.contains_key(key),
                }) ==> error == #[trigger] entry_action_error(entries, key, action@),
    {
        match action {
            EntryAction::Ins(_) => match existing {
                Some(_) => Some(ClientError::EntryExists),
                None => None,
            },
            EntryAction::Update(value) => match existing {
                Some(current) => if current.entry_version == u64::MAX || value.entry_version
                    != current.entry_version + 1 {
                    Some(ClientError::InvalidSuccessor(current.entry_version))
                } else {
                    None
                },
                None => Some(ClientError::NoSuchEntry),
            },
            EntryAction::Del(version) => match existing {
                Some(current) => if current.entry_version == u64::MAX || *version
                    != current.entry_version + 1 {
                    Some(ClientError::InvalidSuccessor(current.entry_version))
                } else {
                    None
                },
                None => Some(ClientError::NoSuchEntry),
            },
        }
    }

    /// The value that `action` leaves in its entry.
    fn value_after(action: &EntryAction) -> (value: Value)
        ensures
            value@ == action_value(action@),
    {
        match action {
            EntryAction::Ins(value) => value.duplicate(),
            EntryAction::Update(value) => value.duplicate(),
            EntryAction::Del(version) => Value { content: Vec::new(), entry_version: *version },
        }
    }

    /// Applies `actions`, each to the entry under its key, or none of them.
    ///
    /// The requester has to be allowed every kind of change that occurs. A new
    /// entry needs a key that is free; a changed or emptied entry has to
    /// exist, and its new version has to be one more than its old one. Where
    /// several actions cannot be applied, the error is that of the one with
    /// the least key. On success the record's version rises by
    /// one.
    pub fn mutate_entries(
        &mut self,
        actions: &VecMap<Vec<u8>, EntryAction>,
        requester: PublicKey,
    ) -> (r: Result<(), ClientError>)
        ensures
            match old(self)@.entries_mutated(actions@, actions.key_seq(), requester) {
                Ok(after) => r == Ok::<(), ClientError>(()) && final(self)@ == after,
                Err(error) => r == Err::<(), ClientError>(error) && final(self)@ == old(self)@,
            },
    {
        let n = actions.len();
        let ghost order = actions.key_seq();
        let ghost kinds = actions.value_seq();
        let ghost before = self.entries@;
        let mut has_insert = false;
        let mut has_update = false;
        let mut has_delete = false;
        let mut i: usize = 0;
        while i < n
            invariant
                i <= n,
                n == actions.key_seq().len(),
                kinds == actions.value_seq(),
                n == kinds.len(),
                has_insert == kind_in_prefix(kinds, i as int, Action::Insert),
                has_update == kind_in_prefix(kinds, i as int, Action::Update),
                has_delete == kind_in_prefix(kinds, i as int, Action::Delete),
            decreases n - i,
        {
            match actions.value_at(i) {
                EntryAction::Ins(_) => {
                    has_insert = true;
                },
                EntryAction::Update(_) => {
                    has_update = true;
                },
                EntryAction::Del(_) => {
                    has_delete = true;
                },
            }
            i += 1;
        }
        proof {
            assert forall|kind: Action|
                has_action_of_kind(actions@, kind) == kind_in_prefix(kinds, n as int, kind) by {
                if has_action_of_kind(actions@, kind) {
                    let key = choose|key: Seq<u8>|
                        actions@.contains_key(key) && action_kind(#[trigger] actions@[key]) == kind;
                    let j = order.index_of(key);
                    assert(action_kind(kinds[j]) == kind);
                }
                if kind_in_prefix(kinds, n as int, kind) {
                    let j = choose|j: int|
                        0 <= j < n && j < kinds.len() && action_kind(#[trigger] kinds[j]) == kind;
                    assert(action_kind(actions@[order[j]]) == kind);
                }
            }
        }
        if (has_insert && !self.is_action_allowed(requester, Action::Insert)) || (has_update
            && !self.is_action_allowed(requester, Action::Update)) || (has_delete
            && !self.is_action_allowed(requester, Action::Delete)) {
            return Err(ClientError::AccessDenied);
        }
        i = 0;
        while i < n
            invariant
                i <= n,
                n == actions.key_seq().len(),
                order == actions.key_seq(),
                kinds == actions.value_seq(),
                n == kinds.len(),
                before == self.entries@,
                *self == *old(self),
                old(self)@.entry_actions_allowed(actions@, requester),
                forall|j: int|
                    0 <= j < n ==> actions@.contains_key(#[trigger] order[j]) && actions@[order[j]]
                        == kinds[j],
                first_entry_error(before, actions@, order, 0) == first_entry_error(
                    before,
                    actions@,
                    order,
                    i as int,
                ),
            decreases n - i,
        {
            let key = actions.key_at(i);
            let action = actions.value_at(i);
            let error = MutableData::check_entry_action(self.entries.get(key), action);
            match error {
                Some(error) => {
                    return Err(error);
                },
                None => {},
            }
            i += 1;
        }
        if self.version == u64::MAX {
            return Err(ClientError::InvalidSuccessor(self.version));
        }
        i = 0;
        while i < n
            invariant
                i <= n,
                n == actions.key_seq().len(),
                order == actions.key_seq(),
                kinds == actions.value_seq(),
                n == kinds.len(),
                forall|j: int|
                    0 <= j < n ==> actions@.contains_key(#[trigger] order[j]) && actions@[order[j]]
                        == kinds[j],
                self.entries@ == applied_prefix(before, actions@, order, i as int),
                self.entries.key_seq() == applied_order(old(self)@.entry_order, order, i as int),
                self.name == old(self).name,
                self.tag == old(self).tag,
                self.version == old(self).version,
                self.permissions == old(self).permissions,
                self.owner == old(self).owner,
            decreases n - i,
        {
            let key = actions.key_at(i).duplicate();
            let value = MutableData::value_after(actions.value_at(i));
            let _ = self.entries.len();
            self.entries.insert(key, value);
            proof {
                // The keys among the first `i + 1` are those among the first
                // `i`, and the key of this action.
                assert forall|k: Seq<u8>| in_prefix(order, i + 1, k) <==> (in_prefix(
                    order,
                    i as int,
                    k,
                ) || k == order[i as int]) by {
                    if in_prefix(order, i as int, k) {
                        let j = choose|j: int| 0 <= j < i && j < order.len() && #[trigger] order[j] == k;
                        assert(j < i + 1 && order[j] == k);
                    }
                }
            }
            i += 1;
        }
        proof {
            assert forall|k: Seq<u8>| in_prefix(order, n as int, k) <==> actions@.contains_key(
                k,
            ) by {
                if actions@.contains_key(k) {
                    let j = order.index_of(k);
                    assert(order[j] == k);
                }
            }
            assert(applied_prefix(before, actions@, order, n as int) =~= applied_entries(
                before,
                actions@,
            ));
        }
        self.version = self.version + 1;
        Ok(())
    }
}

} // verus!
