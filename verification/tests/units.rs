use mock_routing::account::{Account, AccountInfo, DEFAULT_MAX_MUTATIONS};
use mock_routing::authority::{Authority, FullId, PublicId};
use mock_routing::collections::{Duplicate, KeyEq, VecMap, VecSet};
use mock_routing::data::{
    Action, EntryAction, ImmutableData, PermissionSet, User, Value, TYPE_TAG_SESSION_PACKET,
};
use mock_routing::entry_actions::{
    mdata_entry_actions_delete, mdata_entry_actions_free, mdata_entry_actions_insert,
    mdata_entry_actions_new, mdata_entry_actions_update, ObjectCache,
};
use mock_routing::error::ClientError;
use mock_routing::execution::{verify_owner, verify_owner_names, verify_requester};
use mock_routing::ffi_error::{
    result_code, FfiError, CORE_ERROR_START_RANGE, FFI_ERROR_START_RANGE,
};
use mock_routing::messages::{MessageId, Request, Response};
use mock_routing::mutable_data::MutableData;
use mock_routing::name::{PublicKey, XorName};
use mock_routing::order::{bytes_before, KeyOrd};
use mock_routing::vault::{Data, DataId, Vault};

fn key(byte: u8) -> PublicKey {
    PublicKey([byte; 32])
}

fn owners(byte: u8) -> VecSet<PublicKey> {
    let mut set = VecSet::new();
    set.insert(key(byte));
    set
}

fn random_bytes(len: usize) -> Vec<u8> {
    (0..len).map(|_| rand::random::<u8>()).collect()
}

#[test]
fn basics() {
    let mut cache = ObjectCache::new();

    let handle = mdata_entry_actions_new(&mut cache);

    {
        let actions = cache.get_mdata_entry_actions(handle).unwrap();
        assert!(actions.is_empty());
    }

    let key0 = b"key0".to_vec();
    let key1 = b"key1".to_vec();
    let key2 = b"key2".to_vec();

    let value0 = random_bytes(10);
    let value1 = random_bytes(10);

    let version1 = 4;
    let version2 = 8;

    mdata_entry_actions_insert(&mut cache, handle, key0.clone(), value0.clone()).unwrap();
    mdata_entry_actions_update(&mut cache, handle, key1.clone(), value1.clone(), version1).unwrap();
    mdata_entry_actions_delete(&mut cache, handle, key2.clone(), version2).unwrap();

    {
        let actions = cache.get_mdata_entry_actions(handle).unwrap();
        assert_eq!(actions.len(), 3);

        match actions.get(&key0).unwrap() {
            &EntryAction::Ins(Value { ref content, entry_version: 0 }) if *content == value0 => (),
            _ => panic!("Unexpected action"),
        }

        match actions.get(&key1).unwrap() {
            &EntryAction::Update(Value { ref content, entry_version })
                if *content == value1 && entry_version == version1 => (),
            _ => panic!("Unexpected action"),
        }

        match actions.get(&key2).unwrap() {
            &EntryAction::Del(version) if version == version2 => (),
            _ => panic!("Unexpected action"),
        }
    }

    mdata_entry_actions_free(&mut cache, handle).unwrap();

    assert!(cache.get_mdata_entry_actions(handle).is_err())
}

#[test]
fn entry_actions_need_a_valid_handle() {
    let mut cache = ObjectCache::new();
    let first = mdata_entry_actions_new(&mut cache);
    let second = mdata_entry_actions_new(&mut cache);
    assert_eq!(first, 1);
    assert_eq!(second, 2);
    assert_eq!(
        mdata_entry_actions_insert(&mut cache, 3, vec![1], vec![2]),
        Err(FfiError::InvalidMDataEntryActionsHandle)
    );
    assert_eq!(
        mdata_entry_actions_update(&mut cache, 3, vec![1], vec![2], 1),
        Err(FfiError::InvalidMDataEntryActionsHandle)
    );
    assert_eq!(
        mdata_entry_actions_delete(&mut cache, 3, vec![1], 1),
        Err(FfiError::InvalidMDataEntryActionsHandle)
    );
    assert_eq!(
        mdata_entry_actions_free(&mut cache, 3),
        Err(FfiError::InvalidMDataEntryActionsHandle)
    );
    // A later action for a key takes the place of the earlier one.
    mdata_entry_actions_insert(&mut cache, first, vec![1], vec![2]).unwrap();
    mdata_entry_actions_delete(&mut cache, first, vec![1], 5).unwrap();
    let actions = cache.get_mdata_entry_actions(first).unwrap();
    assert_eq!(actions.len(), 1);
    assert_eq!(actions.get(&vec![1]), Some(&EntryAction::Del(5)));
    assert!(cache.get_mdata_entry_actions(second).unwrap().is_empty());
    let taken = cache.remove_mdata_entry_actions(first).unwrap();
    assert_eq!(taken.len(), 1);
    assert!(cache.remove_mdata_entry_actions(first).is_err());
}

#[test]
fn error_codes() {
    assert_eq!(CORE_ERROR_START_RANGE, -1);
    assert_eq!(FFI_ERROR_START_RANGE, -1001);
    assert_eq!(FfiError::CoreError("core".to_string()).code(), -1001);
    assert_eq!(FfiError::PathNotFound.code(), -1002);
    assert_eq!(FfiError::InvalidPath.code(), -1003);
    assert_eq!(FfiError::PermissionDenied.code(), -1004);
    assert_eq!(FfiError::LocalConfigAccessFailed("x".to_string()).code(), -1009);
    assert_eq!(FfiError::Unexpected("x".to_string()).code(), -1010);
    assert_eq!(FfiError::UnsuccessfulEncodeDecode("x".to_string()).code(), -1011);
    assert_eq!(FfiError::NulError("x".to_string()).code(), -1012);
    assert_eq!(FfiError::InvalidXorNameHandle.code(), -1014);
    assert_eq!(FfiError::InvalidSelfEncryptorHandle.code(), -1016);
    assert_eq!(FfiError::InvalidCipherOptHandle.code(), -1017);
    assert_eq!(FfiError::InvalidEncryptKeyHandle.code(), -1018);
    assert_eq!(FfiError::InvalidSignKeyHandle.code(), -1019);
    assert_eq!(FfiError::OperationForbiddenForApp.code(), -1020);
    assert_eq!(FfiError::InvalidVersionNumber.code(), -1022);
    assert_eq!(FfiError::InvalidSelfEncryptorReadOffsets.code(), -1023);
    assert_eq!(FfiError::InvalidIndex.code(), -1024);
    assert_eq!(FfiError::UnsupportedOperation.code(), -1025);
    assert_eq!(FfiError::IoError("x".to_string()).code(), -1026);
    assert_eq!(FfiError::InvalidAppHandle.code(), -1027);
    assert_eq!(FfiError::InvalidMDataEntriesHandle.code(), -1028);
    assert_eq!(FfiError::InvalidMDataEntryActionsHandle.code(), -1029);
    assert_eq!(result_code(&Ok(())), 0);
    assert_eq!(result_code(&Err(FfiError::InvalidIndex)), -1024);
    assert_eq!(FfiError::unexpected("oops"), FfiError::Unexpected("oops".to_string()));
}

#[test]
fn names_are_sha3_digests() {
    let empty = XorName::of_bytes(b"");
    assert_eq!(
        empty.0,
        [
            0xa7, 0xff, 0xc6, 0xf8, 0xbf, 0x1e, 0xd7, 0x66, 0x51, 0xc1, 0x47, 0x56, 0xa0, 0x61,
            0xd6, 0x62, 0xf5, 0x80, 0xff, 0x4d, 0xe4, 0x3b, 0x49, 0xfa, 0x82, 0xd8, 0x0a, 0x4b,
            0x80, 0xf8, 0x43, 0x4a,
        ]
    );
    let abc = XorName::of_bytes(b"abc");
    assert_eq!(
        abc.0,
        [
            0x3a, 0x98, 0x5d, 0xa7, 0x4f, 0xe2, 0x25, 0xb2, 0x04, 0x5c, 0x17, 0x2d, 0x6b, 0xd3,
            0x90, 0xbd, 0x85, 0x5f, 0x08, 0x6e, 0x3e, 0x9d, 0x52, 0x5b, 0x46, 0xbf, 0xe2, 0x45,
            0x11, 0x43, 0x15, 0x32,
        ]
    );
    let k = key(5);
    assert_eq!(XorName::of_key(&k), XorName::of_bytes(&[5u8; 32]));
    assert!(XorName::of_key(&k) != XorName(k.0));
    assert!(abc.same(&abc));
    assert!(!abc.same(&empty));
    assert!(k.same(&key(5)));
    assert!(!k.same(&key(6)));
    let mut nearly = k;
    nearly.0[31] = 0;
    assert!(!k.same(&nearly));

    let id = PublicId::new(k);
    assert_eq!(id.name(), &XorName::of_key(&k));
    assert_eq!(id.signing_public_key(), &k);
    let full = FullId::with_signing_key(k);
    assert_eq!(full.public_id(), &id);

    let blob = ImmutableData::new(b"abc".to_vec());
    assert_eq!(blob.name(), &abc);
    assert_eq!(blob.value(), &b"abc".to_vec());
    let copy = blob.clone();
    assert_eq!(copy.name(), &abc);
    assert_eq!(copy.value(), &b"abc".to_vec());
}

#[test]
fn authority_names() {
    let name = XorName([3; 32]);
    assert_eq!(Authority::ClientManager(name).name(), name);
    assert_eq!(Authority::NaeManager(name).name(), name);
    assert_eq!(Authority::NodeManager(name).name(), name);
    assert_eq!(Authority::ManagedNode(name).name(), name);
    let id = PublicId::new(key(1));
    let client = Authority::Client { client_id: id, proxy_node_name: name };
    assert_eq!(client.name(), XorName::of_key(&key(1)));
    assert!(client.is_client());
    assert!(!Authority::NaeManager(name).is_client());
    assert_eq!(DataId::immutable(name).name(), &name);
    assert_eq!(DataId::mutable(name, 4).name(), &name);
    assert_eq!(DataId::mutable(name, 4), DataId::Mutable(name, 4));
    assert!(DataId::mutable(name, 4).key_eq(&DataId::mutable(name, 4)));
    assert!(!DataId::mutable(name, 4).key_eq(&DataId::mutable(name, 5)));
    assert!(!DataId::mutable(name, 4).key_eq(&DataId::immutable(name)));
    assert!(DataId::immutable(name).key_eq(&DataId::immutable(name)));
    assert!(!DataId::immutable(name).key_eq(&DataId::immutable(XorName([4; 32]))));
}

#[test]
fn vec_map_is_a_map() {
    let mut map: VecMap<Vec<u8>, u64> = VecMap::new();
    assert!(map.is_empty());
    assert_eq!(map.len(), 0);
    assert!(!map.insert(vec![1], 10));
    assert!(!map.insert(vec![2], 20));
    assert!(map.insert(vec![1], 11));
    assert_eq!(map.len(), 2);
    assert!(!map.is_empty());
    assert_eq!(map.get(&vec![1]), Some(&11));
    assert_eq!(map.get(&vec![2]), Some(&20));
    assert_eq!(map.get(&vec![3]), None);
    assert!(map.contains_key(&vec![2]));
    assert!(!map.contains_key(&vec![]));
    assert_eq!(map.key_at(0), &vec![1]);
    assert_eq!(map.value_at(0), &11);
    assert_eq!(map.key_at(1), &vec![2]);
    assert_eq!(map.values(), vec![11, 20]);
    let keys = map.keys();
    assert_eq!(keys.len(), 2);
    assert_eq!(keys.item_at(1), &vec![2]);
    let copy = map.duplicate();
    assert!(map.remove(&vec![1]));
    assert!(!map.remove(&vec![1]));
    assert_eq!(map.len(), 1);
    assert_eq!(map.key_at(0), &vec![2]);
    assert_eq!(copy.len(), 2);
    assert_eq!(copy.clone().get(&vec![1]), Some(&11));
}

#[test]
fn vec_set_is_a_set() {
    let mut set: VecSet<PublicKey> = VecSet::new();
    assert_eq!(set.len(), 0);
    assert!(set.insert(key(1)));
    assert!(set.insert(key(2)));
    assert!(!set.insert(key(1)));
    assert_eq!(set.len(), 2);
    assert!(set.contains(&key(2)));
    assert!(!set.contains(&key(3)));
    assert_eq!(set.item_at(0), &key(1));
    let copy = set.clone();
    assert!(set.remove(&key(1)));
    assert!(!set.remove(&key(1)));
    assert_eq!(set.len(), 1);
    assert_eq!(set.item_at(0), &key(2));
    assert_eq!(copy.len(), 2);
    assert!(vec![1u8, 2].key_eq(&vec![1, 2]));
    assert!(!vec![1u8, 2].key_eq(&vec![1, 3]));
    assert!(!vec![1u8, 2].key_eq(&vec![1]));
    assert_eq!(vec![1u8, 2, 3].duplicate(), vec![1, 2, 3]);
    assert!(User::Anyone.key_eq(&User::Anyone));
    assert!(User::Key(key(1)).key_eq(&User::Key(key(1))));
    assert!(!User::Key(key(1)).key_eq(&User::Key(key(2))));
    assert!(!User::Key(key(1)).key_eq(&User::Anyone));
}

#[test]
fn permission_sets() {
    let none = PermissionSet::new();
    for action in [Action::Insert, Action::Update, Action::Delete, Action::ManagePermissions] {
        assert_eq!(none.is_allowed(action), None);
        assert_eq!(none.allow(action).is_allowed(action), Some(true));
        assert_eq!(none.deny(action).is_allowed(action), Some(false));
        assert_eq!(none.allow(action).clear(action), none);
    }
    let set = none.allow(Action::Insert).deny(Action::Delete);
    assert_eq!(
        set,
        PermissionSet { insert: Some(true), update: None, delete: Some(false), manage_permissions: None }
    );
}

#[test]
fn record_has_one_owner() {
    let name = XorName([1; 32]);
    assert_eq!(
        MutableData::new(name, 5, VecMap::new(), VecMap::new(), VecSet::new()).err(),
        Some(ClientError::InvalidOwners)
    );
    let mut two = owners(1);
    two.insert(key(2));
    assert_eq!(
        MutableData::new(name, 5, VecMap::new(), VecMap::new(), two).err(),
        Some(ClientError::InvalidOwners)
    );
    let data = MutableData::new(name, 5, VecMap::new(), VecMap::new(), owners(1)).unwrap();
    assert_eq!(data.name(), &name);
    assert_eq!(data.tag(), 5);
    assert_eq!(data.version(), 0);
    assert_eq!(data.owners().len(), 1);
    assert!(data.owners().contains(&key(1)));
    assert!(data.keys().len() == 0);
    assert!(data.values().is_empty());
    assert!(data.permissions().is_empty());
}

#[test]
fn record_permissions() {
    let name = XorName([1; 32]);
    let mut permissions = VecMap::new();
    permissions.insert(User::Anyone, PermissionSet::new().allow(Action::Insert).allow(Action::Update));
    permissions.insert(User::Key(key(2)), PermissionSet::new().deny(Action::Insert));
    let mut data = MutableData::new(name, 5, permissions, VecMap::new(), owners(1)).unwrap();
    // The owner may do anything.
    assert!(data.is_action_allowed(key(1), Action::ManagePermissions));
    assert!(data.is_action_allowed(key(1), Action::Delete));
    // What is said to a key goes before what is said to everybody.
    assert!(!data.is_action_allowed(key(2), Action::Insert));
    assert!(data.is_action_allowed(key(2), Action::Update));
    assert!(!data.is_action_allowed(key(2), Action::Delete));
    assert!(data.is_action_allowed(key(3), Action::Insert));
    assert!(!data.is_action_allowed(key(3), Action::ManagePermissions));
    assert_eq!(data.user_permissions(&User::Key(key(3))), Err(ClientError::NoSuchKey));

    assert_eq!(
        data.set_user_permissions(User::Key(key(3)), PermissionSet::new(), 1, key(3)),
        Err(ClientError::AccessDenied)
    );
    assert_eq!(
        data.set_user_permissions(User::Key(key(3)), PermissionSet::new(), 0, key(1)),
        Err(ClientError::InvalidSuccessor(0))
    );
    assert_eq!(
        data.set_user_permissions(User::Key(key(3)), PermissionSet::new(), 2, key(1)),
        Err(ClientError::InvalidSuccessor(0))
    );
    let manage = PermissionSet::new().allow(Action::ManagePermissions);
    assert_eq!(data.set_user_permissions(User::Key(key(3)), manage, 1, key(1)), Ok(()));
    assert_eq!(data.version(), 1);
    assert_eq!(data.user_permissions(&User::Key(key(3))), Ok(&manage));
    assert_eq!(data.del_user_permissions(&User::Anyone, 2, key(3)), Ok(()));
    assert_eq!(data.version(), 2);
    assert!(!data.is_action_allowed(key(3), Action::Insert));
    assert_eq!(data.del_user_permissions(&User::Anyone, 3, key(3)), Err(ClientError::NoSuchKey));
    assert_eq!(data.change_owner(key(4), 2), Err(ClientError::InvalidSuccessor(2)));
    assert_eq!(data.change_owner(key(4), 3), Ok(()));
    assert_eq!(data.version(), 3);
    assert!(data.owners().contains(&key(4)));
    assert!(!data.is_action_allowed(key(1), Action::Insert));
    let shell = data.shell();
    assert_eq!(shell.version(), 3);
    assert_eq!(shell.permissions().len(), 2);
}

#[test]
fn record_entries() {
    let name = XorName([1; 32]);
    let mut data = MutableData::new(name, 5, VecMap::new(), VecMap::new(), owners(1)).unwrap();
    let mut actions = VecMap::new();
    actions.insert(vec![2], EntryAction::Ins(Value { content: vec![20], entry_version: 7 }));
    actions.insert(vec![1], EntryAction::Ins(Value { content: vec![10], entry_version: 0 }));
    assert_eq!(data.mutate_entries(&actions, key(9)), Err(ClientError::AccessDenied));
    assert_eq!(data.mutate_entries(&actions, key(1)), Ok(()));
    assert_eq!(data.version(), 1);
    // The entries are kept by ascending key, in whatever order they came.
    assert_eq!(data.keys().item_at(0), &vec![1]);
    assert_eq!(data.keys().item_at(1), &vec![2]);
    assert_eq!(
        data.values(),
        vec![Value { content: vec![10], entry_version: 0 }, Value { content: vec![20], entry_version: 7 }]
    );

    // Of several actions that fail, the one with the least key gives the
    // error.
    let mut actions = VecMap::new();
    actions.insert(vec![3], EntryAction::Ins(Value { content: vec![], entry_version: 0 }));
    actions.insert(vec![4], EntryAction::Update(Value { content: vec![], entry_version: 0 }));
    actions.insert(vec![2], EntryAction::Ins(Value { content: vec![], entry_version: 0 }));
    assert_eq!(data.mutate_entries(&actions, key(1)), Err(ClientError::EntryExists));
    assert_eq!(data.entries().len(), 2);
    assert_eq!(data.version(), 1);

    let mut actions = VecMap::new();
    actions.insert(vec![2], EntryAction::Update(Value { content: vec![21], entry_version: 9 }));
    assert_eq!(data.mutate_entries(&actions, key(1)), Err(ClientError::InvalidSuccessor(7)));
    let mut actions = VecMap::new();
    actions.insert(vec![2], EntryAction::Update(Value { content: vec![21], entry_version: 8 }));
    actions.insert(vec![1], EntryAction::Del(1));
    actions.insert(vec![3], EntryAction::Ins(Value { content: vec![30], entry_version: 0 }));
    assert_eq!(data.mutate_entries(&actions, key(1)), Ok(()));
    assert_eq!(data.version(), 2);
    assert_eq!(
        data.values(),
        vec![
            Value { content: vec![], entry_version: 1 },
            Value { content: vec![21], entry_version: 8 },
            Value { content: vec![30], entry_version: 0 },
        ]
    );
    // Nothing to do is a mutation too.
    assert_eq!(data.mutate_entries(&VecMap::new(), key(9)), Ok(()));
    assert_eq!(data.version(), 3);
}

#[test]
fn account_keys_and_counters() {
    let mut account = Account::new();
    assert_eq!(
        account.account_info(),
        &AccountInfo { mutations_done: 0, mutations_available: DEFAULT_MAX_MUTATIONS }
    );
    assert_eq!(DEFAULT_MAX_MUTATIONS, 1000);
    assert_eq!(account.version(), 0);
    assert_eq!(account.ins_auth_key(key(1), 1), Err(ClientError::InvalidSuccessor(0)));
    assert_eq!(account.ins_auth_key(key(1), 0), Ok(()));
    assert_eq!(account.version(), 1);
    assert_eq!(account.ins_auth_key(key(1), 1), Ok(()));
    assert_eq!(account.auth_keys().len(), 1);
    assert_eq!(account.version(), 2);
    assert_eq!(account.del_auth_key(&key(2), 2), Err(ClientError::NoSuchKey));
    assert_eq!(account.del_auth_key(&key(1), 1), Err(ClientError::InvalidSuccessor(2)));
    assert_eq!(account.del_auth_key(&key(1), 2), Ok(()));
    assert_eq!(account.version(), 3);
    assert_eq!(account.auth_keys().len(), 0);
    account.increment_mutations_counter();
    assert_eq!(
        account.account_info(),
        &AccountInfo { mutations_done: 1, mutations_available: DEFAULT_MAX_MUTATIONS - 1 }
    );
    let copy = account.clone();
    assert_eq!(copy.version(), 3);
    assert_eq!(copy.account_info().mutations_done, 1);
}

#[test]
fn vault_rules() {
    let mut vault = Vault::new();
    let name = XorName::of_key(&key(1));
    let dst = Authority::ClientManager(name);
    assert_eq!(vault.authorise_mutation(&dst, &key(1)), Err(ClientError::NoSuchAccount));
    assert_eq!(
        vault.authorise_mutation(&Authority::NaeManager(name), &key(1)),
        Err(ClientError::InvalidOperation)
    );
    vault.commit_mutation(&dst);
    assert!(vault.get_account(&name).is_none());
    vault.insert_account(name);
    assert_eq!(vault.authorise_mutation(&dst, &key(1)), Ok(()));
    assert_eq!(vault.authorise_mutation(&dst, &key(2)), Err(ClientError::AccessDenied));
    // The name that goes with the key decides, not the key alone.
    assert_eq!(vault.authorise_mutation_as(&dst, &key(2), &name), Ok(()));
    assert_eq!(
        vault.authorise_mutation_as(&dst, &key(1), &XorName([0; 32])),
        Err(ClientError::AccessDenied)
    );
    assert_eq!(vault.ins_auth_key(&name, key(2), 0), Ok(()));
    assert_eq!(vault.authorise_mutation(&dst, &key(2)), Ok(()));
    assert_eq!(vault.del_auth_key(&name, &key(2), 1), Ok(()));
    assert_eq!(vault.del_auth_key(&XorName([0; 32]), &key(2), 1), Err(ClientError::NoSuchAccount));
    vault.commit_mutation(&dst);
    assert_eq!(vault.get_account(&name).unwrap().account_info().mutations_done, 1);

    let data_name = XorName([9; 32]);
    assert_eq!(vault.authorise_read(&Authority::NaeManager(data_name), &data_name), Ok(()));
    assert_eq!(
        vault.authorise_read(&Authority::NaeManager(name), &data_name),
        Err(ClientError::InvalidOperation)
    );
    assert_eq!(vault.authorise_read(&dst, &name), Err(ClientError::InvalidOperation));

    let blob = ImmutableData::new(vec![1, 2, 3]);
    let id = DataId::immutable(*blob.name());
    assert!(!vault.contains_data(&id));
    assert!(vault.get_data(&id).is_none());
    vault.insert_data(id, Data::Immutable(blob));
    assert!(vault.contains_data(&id));
    assert!(matches!(vault.get_data(&id), Some(Data::Immutable(_))));
    assert!(!vault.contains_data(&DataId::mutable(*id.name(), TYPE_TAG_SESSION_PACKET)));
    let copy = vault.clone();
    assert!(copy.contains_data(&id));
}

#[test]
fn owners_are_known_by_their_names() {
    let name = XorName::of_key(&key(1));
    let dst = Authority::ClientManager(name);
    assert_eq!(verify_owner_names(&dst, &vec![XorName([0; 32]), name]), Ok(()));
    assert_eq!(verify_owner_names(&dst, &vec![XorName([0; 32])]), Err(ClientError::InvalidOwners));
    assert_eq!(verify_owner_names(&dst, &vec![]), Err(ClientError::InvalidOwners));
    assert_eq!(
        verify_owner_names(&Authority::NaeManager(name), &vec![name]),
        Err(ClientError::InvalidOwners)
    );
    assert_eq!(verify_owner(&dst, &owners(1)), Ok(()));
    assert_eq!(verify_owner(&dst, &owners(2)), Err(ClientError::InvalidOwners));
    // A key is not its own name.
    assert_eq!(
        verify_owner(&Authority::ClientManager(XorName([1; 32])), &owners(1)),
        Err(ClientError::InvalidOwners)
    );
    assert_eq!(verify_owner(&Authority::NaeManager(name), &owners(1)), Err(ClientError::InvalidOwners));
    assert_eq!(verify_owner(&dst, &VecSet::new()), Err(ClientError::InvalidOwners));

    assert_eq!(verify_requester(&key(1), None), Ok(()));
    assert_eq!(verify_requester(&key(1), Some(key(1))), Ok(()));
    assert_eq!(verify_requester(&key(1), Some(key(2))), Err(ClientError::InvalidRequester));
}

#[test]
fn requests_and_their_failures() {
    let id = MessageId(XorName([4; 32]));
    let name = XorName([1; 32]);
    let query = Request::GetMDataVersion { name, tag: 5, msg_id: id };
    assert!(query.is_query());
    assert_eq!(query.message_id(), &id);
    match query.failure(ClientError::NoSuchData) {
        Response::GetMDataVersion { res, msg_id } => {
            assert_eq!(res, Err(ClientError::NoSuchData));
            assert_eq!(msg_id, id);
        }
        other => panic!("unexpected response {:?}", other),
    }
    let put = Request::PutIData { data: ImmutableData::new(vec![1]), msg_id: id };
    assert!(!put.is_query());
    match put.completed(Ok(())) {
        Response::PutIData { res, msg_id } => {
            assert_eq!(res, Ok(()));
            assert_eq!(msg_id, id);
        }
        other => panic!("unexpected response {:?}", other),
    }
    match put.completed(Err(ClientError::DataExists)) {
        Response::PutIData { res, .. } => assert_eq!(res, Err(ClientError::DataExists)),
        other => panic!("unexpected response {:?}", other),
    }
    assert!(Request::GetAccountInfo(id).is_query());
    assert!(Request::ListAuthKeysAndVersion(id).is_query());
    assert!(!Request::InsAuthKey { key: key(1), version: 0, msg_id: id }.is_query());
    let response = query.failure(ClientError::NoSuchData);
    assert_eq!(response.message_id(), &id);
    match response.clone() {
        Response::GetMDataVersion { res, msg_id } => {
            assert_eq!(res, Err(ClientError::NoSuchData));
            assert_eq!(msg_id, id);
        }
        other => panic!("unexpected response {:?}", other),
    }
    let listed = Response::ListMDataValues {
        res: Ok(vec![Value { content: vec![1, 2], entry_version: 3 }]),
        msg_id: id,
    };
    match listed.clone() {
        Response::ListMDataValues { res, .. } => {
            assert_eq!(res, Ok(vec![Value { content: vec![1, 2], entry_version: 3 }]))
        }
        other => panic!("unexpected response {:?}", other),
    }
    assert_eq!(ClientError::MaxOperationsExhausted.description(), "Max operations exhausted");
    assert_eq!(ClientError::InvalidRequester.description(), "Invalid requester");
}

#[test]
fn keys_ascend() {
    let mut map: VecMap<Vec<u8>, u64> = VecMap::new();
    assert!(!map.insert(vec![2], 20));
    assert!(!map.insert(vec![1, 0], 10));
    assert!(!map.insert(vec![], 0));
    assert!(!map.insert(vec![1], 1));
    assert!(!map.insert(vec![255, 0], 255));
    assert!(map.insert(vec![1, 0], 11));
    assert_eq!(map.len(), 5);
    assert_eq!(map.key_at(0), &Vec::<u8>::new());
    assert_eq!(map.key_at(1), &vec![1]);
    assert_eq!(map.key_at(2), &vec![1, 0]);
    assert_eq!(map.key_at(3), &vec![2]);
    assert_eq!(map.key_at(4), &vec![255, 0]);
    assert_eq!(map.values(), vec![0, 1, 11, 20, 255]);
    assert!(map.remove(&vec![1]));
    assert_eq!(map.values(), vec![0, 11, 20, 255]);
    assert_eq!(map.get(&vec![2]), Some(&20));
    assert_eq!(map.get(&vec![1]), None);

    let mut set: VecSet<PublicKey> = VecSet::new();
    assert!(set.insert(key(9)));
    assert!(set.insert(key(3)));
    assert!(set.insert(key(5)));
    assert!(!set.insert(key(3)));
    assert_eq!(set.item_at(0), &key(3));
    assert_eq!(set.item_at(1), &key(5));
    assert_eq!(set.item_at(2), &key(9));

    let mut users: VecMap<User, PermissionSet> = VecMap::new();
    users.insert(User::Key(key(2)), PermissionSet::new());
    users.insert(User::Anyone, PermissionSet::new());
    users.insert(User::Key(key(1)), PermissionSet::new());
    assert_eq!(users.key_at(0), &User::Anyone);
    assert_eq!(users.key_at(1), &User::Key(key(1)));
    assert_eq!(users.key_at(2), &User::Key(key(2)));
}

#[test]
fn order_of_keys() {
    assert!(bytes_before(b"", b"a"));
    assert!(!bytes_before(b"", b""));
    assert!(!bytes_before(b"a", b""));
    assert!(bytes_before(b"a", b"ab"));
    assert!(bytes_before(b"ab", b"b"));
    assert!(!bytes_before(b"b", b"ab"));
    assert!(!bytes_before(b"ab", b"ab"));
    assert!(bytes_before(&[1, 2, 3], &[1, 2, 4]));
    assert!(vec![1u8, 2].key_before(&vec![1, 3]));
    assert!(!vec![1u8, 3].key_before(&vec![1, 2]));
    assert!(3u64.key_before(&4));
    assert!(!4u64.key_before(&4));
    let mut low = [7u8; 32];
    low[31] = 6;
    assert!(XorName(low).key_before(&XorName([7; 32])));
    assert!(!XorName([7; 32]).key_before(&XorName(low)));
    assert!(!XorName([7; 32]).key_before(&XorName([7; 32])));
    assert!(PublicKey(low).key_before(&PublicKey([7; 32])));
    assert!(User::Anyone.key_before(&User::Key(key(0))));
    assert!(!User::Key(key(0)).key_before(&User::Anyone));
    assert!(!User::Anyone.key_before(&User::Anyone));
    assert!(User::Key(key(0)).key_before(&User::Key(key(1))));
    let name = XorName([7; 32]);
    assert!(DataId::immutable(name).key_before(&DataId::mutable(XorName(low), 0)));
    assert!(!DataId::mutable(XorName(low), 0).key_before(&DataId::immutable(name)));
    assert!(DataId::immutable(XorName(low)).key_before(&DataId::immutable(name)));
    assert!(DataId::mutable(name, 1).key_before(&DataId::mutable(name, 2)));
    assert!(!DataId::mutable(name, 2).key_before(&DataId::mutable(name, 2)));
    assert!(DataId::mutable(XorName(low), 9).key_before(&DataId::mutable(name, 2)));
    assert!(!DataId::mutable(name, 2).key_before(&DataId::mutable(XorName(low), 9)));
}
