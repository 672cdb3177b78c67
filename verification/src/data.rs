//! The two kinds of data that the store holds: immutable blobs, named by
//! their content, and mutable records with entries, permissions and an owner.

use crate::collections::{Duplicate, KeyEq};
use crate::order::KeyOrd;
use crate::name::{digest_name, PublicKey, XorName};
use vstd::prelude::*;

verus! {

/// The tag of the record that stands for an account's root.
pub const TYPE_TAG_SESSION_PACKET: u64 = 0;

/// What an `ImmutableData` stands for.
pub struct ImmutableDataView {
    pub name: XorName,
    pub value: Seq<u8>,
}

/// A blob that is never changed. Its name is the hash of its content.
#[derive(Debug)]
pub struct ImmutableData {
    name: XorName,
    value: Vec<u8>,
}

impl View for ImmutableData {
    type V = ImmutableDataView;

    closed spec fn view(&self) -> ImmutableDataView {
        ImmutableDataView { name: self.name, value: self.value@ }
    }
}

impl ImmutableData {
    /// The name is the hash of the content.
    #[verifier::type_invariant]
    pub closed spec fn wf(&self) -> bool {
        self.name == digest_name(self.value@)
    }

    /// The blob that holds `value`.
    pub fn new(value: Vec<u8>) -> (data: ImmutableData)
        ensures
            data@.value == value@,
            data@.name == digest_name(value@),
    {
        let name = XorName::of_bytes(value.as_slice());
        ImmutableData { name, value }
    }

    /// The name: the hash of the content.
    pub fn name(&self) -> (name: &XorName)
        ensures
            *name == self@.name,
            *name == digest_name(self@.value),
    {
        proof {
            use_type_invariant(self);
        }
        &self.name
    }

    /// The content.
    pub fn value(&self) -> (value: &Vec<u8>)
        ensures
            value@ == self@.value,
    {
        &self.value
    }
}

impl Duplicate for ImmutableData {
    fn duplicate(&self) -> (r: Self) {
        proof {
            use_type_invariant(self);
        }
        ImmutableData { name: self.name, value: self.value.duplicate() }
    }
}

impl Clone for ImmutableData {
    fn clone(&self) -> (r: Self)
        ensures
            r@ == self@,
    {
        self.duplicate()
    }
}

/// What a `Value` stands for.
pub struct ValueView {
    pub content: Seq<u8>,
    pub entry_version: u64,
}

/// The value of an entry of a mutable record, with the entry's version.
#[derive(Debug, PartialEq, Eq)]
pub struct Value {
    pub content: Vec<u8>,
    pub entry_version: u64,
}

impl View for Value {
    type V = ValueView;

    open spec fn view(&self) -> ValueView {
        ValueView { content: self.content@, entry_version: self.entry_version }
    }
}

impl Duplicate for Value {
    fn duplicate(&self) -> (r: Self) {
        Value { content: self.content.duplicate(), entry_version: self.entry_version }
    }
}

impl Clone for Value {
    fn clone(&self) -> (r: Self)
        ensures
            r@ == self@,
    {
        self.duplicate()
    }
}

/// What an `EntryAction` stands for.
pub enum EntryActionView {
    Ins(ValueView),
    Update(ValueView),
    Del(u64),
}

/// A change to one entry of a mutable record.
#[derive(Debug, PartialEq, Eq)]
pub enum EntryAction {
    /// Put a new entry in, with this value.
    Ins(Value),
    /// Give an existing entry this value. The value carries the entry's new
    /// version.
    Update(Value),
    /// Empty an existing entry. The number is the entry's new version.
    Del(u64),
}

impl View for EntryAction {
    type V = EntryActionView;

    open spec fn view(&self) -> EntryActionView {
        match *self {
            EntryAction::Ins(value) => EntryActionView::Ins(value@),
            EntryAction::Update(value) => EntryActionView::Update(value@),
            EntryAction::Del(version) => EntryActionView::Del(version),
        }
    }
}

impl Duplicate for EntryAction {
    fn duplicate(&self) -> (r: Self) {
        match self {
            EntryAction::Ins(value) => EntryAction::Ins(value.duplicate()),
            EntryAction::Update(value) => EntryAction::Update(value.duplicate()),
            EntryAction::Del(version) => EntryAction::Del(*version),
        }
    }
}

impl Clone for EntryAction {
    fn clone(&self) -> (r: Self)
        ensures
            r@ == self@,
    {
        self.duplicate()
    }
}

/// Whom a permission is given to.
#[derive(Clone, Copy, Debug, PartialEq, Eq, PartialOrd, Ord, Hash)]
pub enum User {
    /// Everybody.
    Anyone,
    /// The holder of this key.
    Key(PublicKey),
}

impl View for User {
    type V = User;

    open spec fn view(&self) -> User {
        *self
    }
}

impl KeyEq for User {
    fn key_eq(&self, other: &Self) -> (r: bool) {
        match (self, other) {
            (User::Anyone, User::Anyone) => true,
            (User::Key(a), User::Key(b)) => a.same(b),
            _ => false,
        }
    }
}

impl KeyOrd for User {
    /// Everybody comes before every key, and keys are ordered by their
    /// bytes.
    open spec fn precedes(a: User, b: User) -> bool {
        match (a, b) {
            (User::Anyone, User::Key(_)) => true,
            (User::Key(x), User::Key(y)) => PublicKey::precedes(x, y),
            _ => false,
        }
    }

    proof fn lemma_in_a_row(a: User, b: User, c: User) {
        match (a, b, c) {
            (User::Key(x), User::Key(y), User::Key(z)) => {
                PublicKey::lemma_in_a_row(x, y, z);
            },
            (User::Key(x), User::Key(y), _) => {
                PublicKey::lemma_in_a_row(x, y, y);
            },
            (User::Key(x), _, _) => {
                PublicKey::lemma_in_a_row(x, x, x);
            },
            _ => {},
        }
    }

    fn key_before(&self, other: &Self) -> (r: bool) {
        match (self, other) {
            (User::Anyone, User::Key(_)) => true,
            (User::Key(x), User::Key(y)) => x.key_before(y),
            _ => false,
        }
    }
}

impl Duplicate for User {
    fn duplicate(&self) -> (r: Self) {
        *self
    }
}

/// What a permission can be about.
#[derive(Clone, Copy, Debug, PartialEq, Eq, Structural)]
pub enum Action {
    /// Putting new entries in.
    Insert,
    /// Changing entries.
    Update,
    /// Emptying entries.
    Delete,
    /// Changing permissions.
    ManagePermissions,
}

/// What one user may and may not do. For each action the set says yes, no,
/// or nothing.
#[derive(Clone, Copy, Debug, PartialEq, Eq, Structural)]
pub struct PermissionSet {
    pub insert: Option<bool>,
    pub update: Option<bool>,
    pub delete: Option<bool>,
    pub manage_permissions: Option<bool>,
}

impl View for PermissionSet {
    type V = PermissionSet;

    open spec fn view(&self) -> PermissionSet {
        *self
    }
}

impl Duplicate for PermissionSet {
    fn duplicate(&self) -> (r: Self) {
        *self
    }
}

impl PermissionSet {
    /// What the set says about `action`.
    pub open spec fn spec_is_allowed(self, action: Action) -> Option<bool> {
        match action {
            Action::Insert => self.insert,
            Action::Update => self.update,
            Action::Delete => self.delete,
            Action::ManagePermissions => self.manage_permissions,
        }
    }

    /// The set with `answer` for `action`, and as before for the others.
    pub open spec fn spec_with(self, action: Action, answer: Option<bool>) -> PermissionSet {
        match action {
            Action::Insert => PermissionSet { insert: answer, ..self },
            Action::Update => PermissionSet { update: answer, ..self },
            Action::Delete => PermissionSet { delete: answer, ..self },
            Action::ManagePermissions => PermissionSet { manage_permissions: answer, ..self },
        }
    }

    /// The set that says nothing.
    pub fn new() -> (set: PermissionSet)
        ensures
            forall|action: Action| set.spec_is_allowed(action) is None,
    {
        PermissionSet { insert: None, update: None, delete: None, manage_permissions: None }
    }

    fn with(self, action: Action, answer: Option<bool>) -> (set: PermissionSet)
        ensures
            set == self.spec_with(action, answer),
    {
        match action {
            Action::Insert => PermissionSet { insert: answer, ..self },
            Action::Update => PermissionSet { update: answer, ..self },
            Action::Delete => PermissionSet { delete: answer, ..self },
            Action::ManagePermissions => PermissionSet { manage_permissions: answer, ..self },
        }
    }

    /// The set that says yes to `action`.
    pub fn allow(self, action: Action) -> (set: PermissionSet)
        ensures
            set == self.spec_with(action, Some(true)),
    {
        self.with(action, Some(true))
    }

    /// The set that says no to `action`.
    pub fn deny(self, action: Action) -> (set: PermissionSet)
        ensures
            set == self.spec_with(action, Some(false)),
    {
        self.with(action, Some(false))
    }

    /// The set that says nothing about `action`.
    pub fn clear(self, action: Action) -> (set: PermissionSet)
        ensures
            set == self.spec_with(action, None),
    {
        self.with(action, None)
    }

    /// What the set says about `action`.
    #[verifier::when_used_as_spec(spec_is_allowed)]
    pub fn is_allowed(self, action: Action) -> (answer: Option<bool>)
        ensures
            answer == self.spec_is_allowed(action),
    {
        match action {
            Action::Insert => self.insert,
            Action::Update => self.update,
            Action::Delete => self.delete,
            Action::ManagePermissions => self.manage_permissions,
        }
    }
}

} // verus!
