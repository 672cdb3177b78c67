use mock_routing::account::{AccountInfo, DEFAULT_MAX_MUTATIONS};
use mock_routing::authority::{Authority, FullId};
use mock_routing::collections::{VecMap, VecSet};
use mock_routing::data::{
    Action, EntryAction, ImmutableData, PermissionSet, User, Value, TYPE_TAG_SESSION_PACKET,
};
use mock_routing::error::{ClientError, InterfaceError};
use mock_routing::messages::{Delivery, Event, MessageId, Request, Response};
use mock_routing::mutable_data::MutableData;
use mock_routing::name::{PublicKey, XorName};
use mock_routing::routing::{NoHook, RequestHook, Routing};
use mock_routing::vault::{Data, DataId, Vault};

const TAG: u64 = 15001;

fn key(byte: u8) -> PublicKey {
    PublicKey([byte; 32])
}

fn msg(byte: u8) -> MessageId {
    MessageId(XorName([byte; 32]))
}

fn session(byte: u8) -> Routing<NoHook> {
    let id = FullId::with_signing_key(key(byte));
    let mut routing = Routing::new(id, *id.public_id(), None, 0).unwrap();
    let events = routing.take_events();
    assert_eq!(events.len(), 1);
    assert!(matches!(events[0].event, Event::Connected));
    routing
}

fn account_of(byte: u8) -> Authority {
    Authority::ClientManager(XorName::of_key(&key(byte)))
}

fn owners(byte: u8) -> VecSet<PublicKey> {
    let mut set = VecSet::new();
    set.insert(key(byte));
    set
}

fn record(name: u8, tag: u64, owner: u8) -> MutableData {
    MutableData::new(XorName([name; 32]), tag, VecMap::new(), VecMap::new(), owners(owner)).unwrap()
}

fn one_response(routing: &mut Routing<NoHook>) -> (Response, Authority, Authority) {
    let mut events = routing.take_events();
    assert_eq!(events.len(), 1);
    let Delivery { delay_ms, event } = events.remove(0);
    assert_eq!(delay_ms, 0);
    match event {
        Event::Response { response, src, dst } => (response, src, dst),
        other => panic!("unexpected event {:?}", other),
    }
}

fn create_account(routing: &mut Routing<NoHook>, vault: &mut Vault, byte: u8) {
    let packet = record(byte, TYPE_TAG_SESSION_PACKET, byte);
    routing.put_mdata(vault, account_of(byte), packet, msg(1), key(byte)).unwrap();
    let (response, src, dst) = one_response(routing);
    assert_eq!(src, Authority::NaeManager(XorName([byte; 32])));
    assert_eq!(dst, routing.client_auth());
    match response {
        Response::PutMData { res, msg_id } => {
            assert_eq!(res, Ok(()));
            assert_eq!(msg_id, msg(1));
        }
        other => panic!("unexpected response {:?}", other),
    }
}

fn put_record(routing: &mut Routing<NoHook>, vault: &mut Vault, account: u8, data: MutableData) -> Result<(), ClientError> {
    routing.put_mdata(vault, account_of(account), data, msg(2), *routing.client_key()).unwrap();
    match one_response(routing).0 {
        Response::PutMData { res, .. } => res,
        other => panic!("unexpected response {:?}", other),
    }
}

fn change_owner(routing: &mut Routing<NoHook>, vault: &mut Vault, account: u8, name: u8, new_owner: u8, version: u64) -> Result<(), ClientError> {
    routing
        .change_mdata_owner(vault, account_of(account), XorName([name; 32]), TAG, owners(new_owner), version, msg(3))
        .unwrap();
    match one_response(routing).0 {
        Response::ChangeMDataOwner { res, msg_id } => {
            assert_eq!(msg_id, msg(3));
            res
        }
        other => panic!("unexpected response {:?}", other),
    }
}

fn stored_record(vault: &Vault, name: u8) -> MutableData {
    match vault.get_data(&DataId::mutable(XorName([name; 32]), TAG)) {
        Some(Data::Mutable(data)) => data,
        other => panic!("unexpected data {:?}", other),
    }
}

fn insert_entry(routing: &mut Routing<NoHook>, vault: &mut Vault, account: u8, name: u8, entry_key: &[u8], content: &[u8]) -> Result<(), ClientError> {
    let mut actions = VecMap::new();
    actions.insert(entry_key.to_vec(), EntryAction::Ins(Value { content: content.to_vec(), entry_version: 0 }));
    mutate(routing, vault, account, name, actions)
}

fn mutate(routing: &mut Routing<NoHook>, vault: &mut Vault, account: u8, name: u8, actions: VecMap<Vec<u8>, EntryAction>) -> Result<(), ClientError> {
    let requester = *routing.client_key();
    routing
        .mutate_mdata_entries(vault, account_of(account), XorName([name; 32]), TAG, actions, msg(4), requester)
        .unwrap();
    match one_response(routing).0 {
        Response::MutateMDataEntries { res, msg_id } => {
            assert_eq!(msg_id, msg(4));
            res
        }
        other => panic!("unexpected response {:?}", other),
    }
}

fn put_blob(routing: &mut Routing<NoHook>, vault: &mut Vault, account: u8, content: &[u8]) -> Result<(), ClientError> {
    let data = ImmutableData::new(content.to_vec());
    let name = *data.name();
    routing.put_idata(vault, account_of(account), data, msg(5)).unwrap();
    let (response, src, _) = one_response(routing);
    assert_eq!(src, Authority::NaeManager(name));
    match response {
        Response::PutIData { res, msg_id } => {
            assert_eq!(msg_id, msg(5));
            res
        }
        other => panic!("unexpected response {:?}", other),
    }
}

fn account_info(routing: &mut Routing<NoHook>, vault: &Vault, account: u8) -> Result<AccountInfo, ClientError> {
    routing.get_account_info(vault, account_of(account), msg(6)).unwrap();
    let (response, src, _) = one_response(routing);
    assert_eq!(src, account_of(account));
    match response {
        Response::GetAccountInfo { res, .. } => res,
        other => panic!("unexpected response {:?}", other),
    }
}

fn version_of(routing: &mut Routing<NoHook>, vault: &Vault, name: u8) -> Result<u64, ClientError> {
    let name = XorName([name; 32]);
    routing.get_mdata_version(vault, Authority::NaeManager(name), name, TAG, msg(7)).unwrap();
    match one_response(routing).0 {
        Response::GetMDataVersion { res, .. } => res,
        other => panic!("unexpected response {:?}", other),
    }
}

#[test]
fn owner_change_is_for_the_owner_only() {
    let mut vault = Vault::new();
    let mut a = session(1);
    let mut c = session(3);
    create_account(&mut a, &mut vault, 1);
    create_account(&mut c, &mut vault, 3);
    assert_eq!(put_record(&mut a, &mut vault, 1, record(50, TAG, 1)), Ok(()));

    // C asks in the name of A's account, then in the name of its own.
    assert_eq!(change_owner(&mut c, &mut vault, 1, 50, 2, 1), Err(ClientError::AccessDenied));
    assert_eq!(change_owner(&mut c, &mut vault, 3, 50, 2, 1), Err(ClientError::AccessDenied));
    let untouched = stored_record(&vault, 50);
    assert_eq!(untouched.version(), 0);
    assert!(untouched.owners().contains(&key(1)));

    assert_eq!(change_owner(&mut a, &mut vault, 1, 50, 2, 1), Ok(()));
    let changed = stored_record(&vault, 50);
    assert_eq!(changed.owners().len(), 1);
    assert!(changed.owners().contains(&key(2)));
    assert!(!changed.owners().contains(&key(1)));
    assert_eq!(changed.version(), 1);

    // A is not the owner any more.
    assert_eq!(change_owner(&mut a, &mut vault, 1, 50, 1, 2), Err(ClientError::AccessDenied));
}

#[test]
fn second_insert_of_a_key_fails() {
    let mut vault = Vault::new();
    let mut a = session(1);
    create_account(&mut a, &mut vault, 1);
    assert_eq!(put_record(&mut a, &mut vault, 1, record(50, TAG, 1)), Ok(()));
    assert_eq!(insert_entry(&mut a, &mut vault, 1, 50, b"k", b"first"), Ok(()));
    assert_eq!(stored_record(&vault, 50).version(), 1);
    assert_eq!(
        insert_entry(&mut a, &mut vault, 1, 50, b"k", b"second"),
        Err(ClientError::EntryExists)
    );
    let data = stored_record(&vault, 50);
    assert_eq!(data.version(), 1);
    assert_eq!(
        data.get(&b"k".to_vec()),
        Some(&Value { content: b"first".to_vec(), entry_version: 0 })
    );
}

#[test]
fn blob_is_stored_once() {
    let mut vault = Vault::new();
    let mut a = session(1);
    create_account(&mut a, &mut vault, 1);
    assert_eq!(put_blob(&mut a, &mut vault, 1, b"content"), Ok(()));
    assert_eq!(put_blob(&mut a, &mut vault, 1, b"content"), Ok(()));
    let name = *ImmutableData::new(b"content".to_vec()).name();
    match vault.get_data(&DataId::immutable(name)) {
        Some(Data::Immutable(data)) => assert_eq!(data.value(), &b"content".to_vec()),
        other => panic!("unexpected data {:?}", other),
    }
    assert_eq!(
        account_info(&mut a, &vault, 1),
        Ok(AccountInfo { mutations_done: 1, mutations_available: DEFAULT_MAX_MUTATIONS - 1 })
    );

    a.get_idata(&vault, Authority::NaeManager(name), name, msg(8)).unwrap();
    match one_response(&mut a).0 {
        Response::GetIData { res, msg_id } => {
            assert_eq!(msg_id, msg(8));
            assert_eq!(res.unwrap().value(), &b"content".to_vec());
        }
        other => panic!("unexpected response {:?}", other),
    }
}

#[test]
fn put_at_a_taken_identifier_fails() {
    let mut vault = Vault::new();
    let mut a = session(1);
    create_account(&mut a, &mut vault, 1);
    assert_eq!(put_record(&mut a, &mut vault, 1, record(50, TAG, 1)), Ok(()));
    let mut entries = VecMap::new();
    entries.insert(b"other".to_vec(), Value { content: vec![9], entry_version: 0 });
    let other =
        MutableData::new(XorName([50; 32]), TAG, VecMap::new(), entries, owners(1)).unwrap();
    assert_eq!(put_record(&mut a, &mut vault, 1, other), Err(ClientError::DataExists));
    assert!(stored_record(&vault, 50).entries().is_empty());
    // The same name under another tag is free.
    assert_eq!(put_record(&mut a, &mut vault, 1, record(50, TAG + 1, 1)), Ok(()));
}

#[test]
fn account_is_created_once() {
    let mut vault = Vault::new();
    let mut a = session(1);
    create_account(&mut a, &mut vault, 1);
    let packet = record(1, TYPE_TAG_SESSION_PACKET, 1);
    a.put_mdata(&mut vault, account_of(1), packet, msg(1), key(1)).unwrap();
    match one_response(&mut a).0 {
        Response::PutMData { res, .. } => assert_eq!(res, Err(ClientError::AccountExists)),
        other => panic!("unexpected response {:?}", other),
    }
    // Another record as the root of the same account fails too.
    let packet = record(77, TYPE_TAG_SESSION_PACKET, 1);
    a.put_mdata(&mut vault, account_of(1), packet, msg(1), key(1)).unwrap();
    match one_response(&mut a).0 {
        Response::PutMData { res, .. } => assert_eq!(res, Err(ClientError::AccountExists)),
        other => panic!("unexpected response {:?}", other),
    }
    assert_eq!(
        account_info(&mut a, &vault, 1),
        Ok(AccountInfo { mutations_done: 0, mutations_available: DEFAULT_MAX_MUTATIONS })
    );
}

#[test]
fn accepted_mutations_raise_the_version_by_one() {
    let mut vault = Vault::new();
    let mut a = session(1);
    create_account(&mut a, &mut vault, 1);
    assert_eq!(put_record(&mut a, &mut vault, 1, record(50, TAG, 1)), Ok(()));
    assert_eq!(version_of(&mut a, &vault, 50), Ok(0));
    assert_eq!(insert_entry(&mut a, &mut vault, 1, 50, b"k", b"v"), Ok(()));
    assert_eq!(version_of(&mut a, &vault, 50), Ok(1));

    let mut actions = VecMap::new();
    actions.insert(b"k".to_vec(), EntryAction::Update(Value { content: b"w".to_vec(), entry_version: 1 }));
    actions.insert(b"l".to_vec(), EntryAction::Ins(Value { content: b"x".to_vec(), entry_version: 0 }));
    assert_eq!(mutate(&mut a, &mut vault, 1, 50, actions), Ok(()));
    assert_eq!(version_of(&mut a, &vault, 50), Ok(2));
    let data = stored_record(&vault, 50);
    assert_eq!(data.get(&b"k".to_vec()), Some(&Value { content: b"w".to_vec(), entry_version: 1 }));
    assert_eq!(data.get(&b"l".to_vec()), Some(&Value { content: b"x".to_vec(), entry_version: 0 }));

    // A stale version of the entry is turned down, and nothing changes.
    let mut actions = VecMap::new();
    actions.insert(b"m".to_vec(), EntryAction::Ins(Value { content: vec![], entry_version: 0 }));
    actions.insert(b"k".to_vec(), EntryAction::Update(Value { content: b"z".to_vec(), entry_version: 1 }));
    assert_eq!(mutate(&mut a, &mut vault, 1, 50, actions), Err(ClientError::InvalidSuccessor(1)));
    assert_eq!(version_of(&mut a, &vault, 50), Ok(2));
    assert_eq!(stored_record(&vault, 50).get(&b"m".to_vec()), None);

    // Emptying an entry keeps the key, with the next version.
    let mut actions = VecMap::new();
    actions.insert(b"k".to_vec(), EntryAction::Del(2));
    assert_eq!(mutate(&mut a, &mut vault, 1, 50, actions), Ok(()));
    assert_eq!(version_of(&mut a, &vault, 50), Ok(3));
    assert_eq!(
        stored_record(&vault, 50).get(&b"k".to_vec()),
        Some(&Value { content: vec![], entry_version: 2 })
    );

    let mut actions = VecMap::new();
    actions.insert(b"nope".to_vec(), EntryAction::Del(1));
    assert_eq!(mutate(&mut a, &mut vault, 1, 50, actions), Err(ClientError::NoSuchEntry));
    assert_eq!(version_of(&mut a, &vault, 50), Ok(3));
}

#[test]
fn quota_runs_out() {
    let mut vault = Vault::new();
    let mut a = session(1);
    create_account(&mut a, &mut vault, 1);
    a.set_network_limits(Some(2));
    assert!(!a.network_limits_reached());
    // Two operations are answered by the store, whatever it says.
    assert_eq!(put_blob(&mut a, &mut vault, 1, b"one"), Ok(()));
    assert_eq!(version_of(&mut a, &vault, 50), Err(ClientError::NoSuchData));
    assert!(a.network_limits_reached());
    // The third, and every later one, is not.
    assert_eq!(put_blob(&mut a, &mut vault, 1, b"three"), Err(ClientError::MaxOperationsExhausted));
    assert_eq!(account_info(&mut a, &vault, 1), Err(ClientError::MaxOperationsExhausted));
    let name = *ImmutableData::new(b"three".to_vec()).name();
    assert!(!vault.contains_data(&DataId::immutable(name)));
    assert!(a.network_limits_reached());
    a.set_network_limits(None);
    assert_eq!(
        account_info(&mut a, &vault, 1),
        Ok(AccountInfo { mutations_done: 1, mutations_available: DEFAULT_MAX_MUTATIONS - 1 })
    );
}

#[test]
fn quota_of_nothing_lets_nothing_through() {
    let mut vault = Vault::new();
    let mut a = session(1);
    a.set_network_limits(Some(0));
    let packet = record(1, TYPE_TAG_SESSION_PACKET, 1);
    a.put_mdata(&mut vault, account_of(1), packet, msg(1), key(1)).unwrap();
    match one_response(&mut a).0 {
        Response::PutMData { res, .. } => assert_eq!(res, Err(ClientError::MaxOperationsExhausted)),
        other => panic!("unexpected response {:?}", other),
    }
    assert!(vault.get_account(&XorName::of_key(&key(1))).is_none());
}

#[test]
fn timeout_sends_nothing() {
    let mut vault = Vault::new();
    let mut a = session(1);
    create_account(&mut a, &mut vault, 1);
    a.set_simulate_timeout(true);
    assert!(a.simulate_network_errors());
    let data = ImmutableData::new(b"lost".to_vec());
    let name = *data.name();
    assert_eq!(a.put_idata(&mut vault, account_of(1), data, msg(5)), Ok::<(), InterfaceError>(()));
    assert_eq!(a.get_account_info(&vault, account_of(1), msg(6)), Ok(()));
    assert!(a.take_events().is_empty());
    assert!(!vault.contains_data(&DataId::immutable(name)));
    a.set_simulate_timeout(false);
    assert_eq!(put_blob(&mut a, &mut vault, 1, b"lost"), Ok(()));
}

struct DenyPuts {
    asked: usize,
}

impl RequestHook for DenyPuts {
    fn respond(&mut self, request: &Request) -> Option<Response> {
        self.asked += 1;
        match request {
            Request::PutIData { msg_id, .. } => Some(Response::PutIData {
                res: Err(ClientError::LowBalance),
                msg_id: *msg_id,
            }),
            _ => None,
        }
    }
}

#[test]
fn hook_goes_first() {
    let mut vault = Vault::new();
    let id = FullId::with_signing_key(key(1));
    let mut a: Routing<DenyPuts> = Routing::new(id, *id.public_id(), None, 0).unwrap();
    let _ = a.take_events();
    a.put_mdata(&mut vault, account_of(1), record(1, TYPE_TAG_SESSION_PACKET, 1), msg(1), key(1)).unwrap();
    let _ = a.take_events();
    a.set_request_hook(DenyPuts { asked: 0 });
    a.set_network_limits(Some(0));
    a.set_simulate_timeout(true);

    let data = ImmutableData::new(b"content".to_vec());
    let name = *data.name();
    a.put_idata(&mut vault, account_of(1), data, msg(5)).unwrap();
    let mut events = a.take_events();
    assert_eq!(events.len(), 1);
    match events.remove(0).event {
        Event::Response { response: Response::PutIData { res, msg_id }, src, dst } => {
            assert_eq!(res, Err(ClientError::LowBalance));
            assert_eq!(msg_id, msg(5));
            assert_eq!(src, Authority::NaeManager(name));
            assert_eq!(dst, a.client_auth());
        }
        other => panic!("unexpected event {:?}", other),
    }
    assert!(!vault.contains_data(&DataId::immutable(name)));
    assert!(a.network_limits_reached());

    // What the hook lets pass goes the usual way.
    a.set_simulate_timeout(false);
    a.set_network_limits(None);
    a.get_account_info(&vault, account_of(1), msg(6)).unwrap();
    let mut events = a.take_events();
    match events.remove(0).event {
        Event::Response { response: Response::GetAccountInfo { res, .. }, .. } => {
            assert_eq!(res, Ok(AccountInfo { mutations_done: 0, mutations_available: DEFAULT_MAX_MUTATIONS }));
        }
        other => panic!("unexpected event {:?}", other),
    }

    a.remove_request_hook();
    let data = ImmutableData::new(b"content".to_vec());
    a.put_idata(&mut vault, account_of(1), data, msg(5)).unwrap();
    let mut events = a.take_events();
    match events.remove(0).event {
        Event::Response { response: Response::PutIData { res, .. }, .. } => assert_eq!(res, Ok(())),
        other => panic!("unexpected event {:?}", other),
    }
    assert!(vault.contains_data(&DataId::immutable(name)));
}

#[test]
fn malformed_owner_set_is_turned_down_at_once() {
    let mut vault = Vault::new();
    let mut a = session(1);
    create_account(&mut a, &mut vault, 1);
    assert_eq!(put_record(&mut a, &mut vault, 1, record(50, TAG, 1)), Ok(()));
    a.set_network_limits(Some(0));
    a.set_simulate_timeout(true);

    a.change_mdata_owner(&mut vault, account_of(1), XorName([50; 32]), TAG, VecSet::new(), 1, msg(3)).unwrap();
    let (response, src, _) = one_response(&mut a);
    assert_eq!(src, account_of(1));
    match response {
        Response::ChangeMDataOwner { res, .. } => assert_eq!(res, Err(ClientError::InvalidOwners)),
        other => panic!("unexpected response {:?}", other),
    }

    let mut two = owners(2);
    two.insert(key(3));
    a.change_mdata_owner(&mut vault, account_of(1), XorName([50; 32]), TAG, two, 1, msg(3)).unwrap();
    match one_response(&mut a).0 {
        Response::ChangeMDataOwner { res, .. } => assert_eq!(res, Err(ClientError::InvalidOwners)),
        other => panic!("unexpected response {:?}", other),
    }
    assert!(stored_record(&vault, 50).owners().contains(&key(1)));
}

#[test]
fn missing_record_and_missing_account_differ() {
    let vault = Vault::new();
    let mut a = session(1);
    let name = XorName([50; 32]);
    a.get_mdata(&vault, Authority::NaeManager(name), name, TAG, msg(7)).unwrap();
    match one_response(&mut a).0 {
        Response::GetMData { res, .. } => assert_eq!(res.err(), Some(ClientError::NoSuchData)),
        other => panic!("unexpected response {:?}", other),
    }
    a.get_mdata(&vault, Authority::NaeManager(name), name, TYPE_TAG_SESSION_PACKET, msg(7)).unwrap();
    match one_response(&mut a).0 {
        Response::GetMData { res, .. } => assert_eq!(res.err(), Some(ClientError::NoSuchAccount)),
        other => panic!("unexpected response {:?}", other),
    }
    assert_eq!(account_info(&mut a, &vault, 1), Err(ClientError::NoSuchAccount));
}

#[test]
fn requester_has_to_be_the_session() {
    let mut vault = Vault::new();
    let mut a = session(1);
    create_account(&mut a, &mut vault, 1);
    assert_eq!(put_record(&mut a, &mut vault, 1, record(50, TAG, 1)), Ok(()));
    let mut actions = VecMap::new();
    actions.insert(b"k".to_vec(), EntryAction::Ins(Value { content: vec![], entry_version: 0 }));
    a.mutate_mdata_entries(&mut vault, account_of(1), XorName([50; 32]), TAG, actions, msg(4), key(9)).unwrap();
    match one_response(&mut a).0 {
        Response::MutateMDataEntries { res, .. } => assert_eq!(res, Err(ClientError::InvalidRequester)),
        other => panic!("unexpected response {:?}", other),
    }
    a.set_mdata_user_permissions(&mut vault, account_of(1), XorName([50; 32]), TAG, User::Anyone, PermissionSet::new(), 1, msg(4), key(9)).unwrap();
    match one_response(&mut a).0 {
        Response::SetMDataUserPermissions { res, .. } => assert_eq!(res, Err(ClientError::InvalidRequester)),
        other => panic!("unexpected response {:?}", other),
    }
    assert_eq!(stored_record(&vault, 50).version(), 0);
    a.put_mdata(&mut vault, account_of(1), record(51, TAG, 1), msg(2), key(9)).unwrap();
    match one_response(&mut a).0 {
        Response::PutMData { res, .. } => assert_eq!(res, Err(ClientError::InvalidRequester)),
        other => panic!("unexpected response {:?}", other),
    }
    assert!(!vault.contains_data(&DataId::mutable(XorName([51; 32]), TAG)));
}

#[test]
fn authorisation_comes_before_the_store() {
    let mut vault = Vault::new();
    let mut a = session(1);
    let mut b = session(2);
    create_account(&mut a, &mut vault, 1);
    // No account yet for B.
    assert_eq!(put_blob(&mut b, &mut vault, 2, b"x"), Err(ClientError::NoSuchAccount));
    // B is not authorised for the account of A.
    assert_eq!(put_blob(&mut b, &mut vault, 1, b"x"), Err(ClientError::AccessDenied));
    // A mutation has to be addressed to the managers of an account.
    let data = ImmutableData::new(b"x".to_vec());
    let name = *data.name();
    a.put_idata(&mut vault, Authority::NaeManager(name), data, msg(5)).unwrap();
    match one_response(&mut a).0 {
        Response::PutIData { res, .. } => assert_eq!(res, Err(ClientError::InvalidOperation)),
        other => panic!("unexpected response {:?}", other),
    }
    // A read has to be addressed to the managers of the data.
    a.get_idata(&vault, account_of(1), name, msg(8)).unwrap();
    match one_response(&mut a).0 {
        Response::GetIData { res, .. } => assert_eq!(res.err(), Some(ClientError::InvalidOperation)),
        other => panic!("unexpected response {:?}", other),
    }
    a.get_idata(&vault, Authority::NaeManager(name), name, msg(8)).unwrap();
    match one_response(&mut a).0 {
        Response::GetIData { res, .. } => assert_eq!(res.err(), Some(ClientError::NoSuchData)),
        other => panic!("unexpected response {:?}", other),
    }
    // A record has to be owned by the account that it is put for.
    assert_eq!(put_record(&mut a, &mut vault, 1, record(50, TAG, 2)), Err(ClientError::InvalidOwners));

    // Once A authorises the key of B, B may put for the account of A.
    a.ins_auth_key(&mut vault, account_of(1), key(2), 0, msg(9)).unwrap();
    match one_response(&mut a).0 {
        Response::InsAuthKey { res, .. } => assert_eq!(res, Ok(())),
        other => panic!("unexpected response {:?}", other),
    }
    assert_eq!(put_blob(&mut b, &mut vault, 1, b"x"), Ok(()));
}

#[test]
fn auth_keys_are_guarded_by_the_version() {
    let mut vault = Vault::new();
    let mut a = session(1);
    create_account(&mut a, &mut vault, 1);

    a.list_auth_keys_and_version(&vault, account_of(1), msg(9)).unwrap();
    match one_response(&mut a).0 {
        Response::ListAuthKeysAndVersion { res, .. } => {
            let (keys, version) = res.unwrap();
            assert_eq!(keys.len(), 0);
            assert_eq!(version, 0);
        }
        other => panic!("unexpected response {:?}", other),
    }
    a.ins_auth_key(&mut vault, account_of(1), key(2), 1, msg(9)).unwrap();
    match one_response(&mut a).0 {
        Response::InsAuthKey { res, .. } => assert_eq!(res, Err(ClientError::InvalidSuccessor(0))),
        other => panic!("unexpected response {:?}", other),
    }
    a.ins_auth_key(&mut vault, account_of(1), key(2), 0, msg(9)).unwrap();
    match one_response(&mut a).0 {
        Response::InsAuthKey { res, .. } => assert_eq!(res, Ok(())),
        other => panic!("unexpected response {:?}", other),
    }
    a.del_auth_key(&mut vault, account_of(1), key(3), 1, msg(9)).unwrap();
    match one_response(&mut a).0 {
        Response::DelAuthKey { res, .. } => assert_eq!(res, Err(ClientError::NoSuchKey)),
        other => panic!("unexpected response {:?}", other),
    }
    a.list_auth_keys_and_version(&vault, account_of(1), msg(9)).unwrap();
    match one_response(&mut a).0 {
        Response::ListAuthKeysAndVersion { res, .. } => {
            let (keys, version) = res.unwrap();
            assert_eq!(keys.len(), 1);
            assert!(keys.contains(&key(2)));
            assert_eq!(version, 1);
        }
        other => panic!("unexpected response {:?}", other),
    }
    a.del_auth_key(&mut vault, account_of(1), key(2), 1, msg(9)).unwrap();
    match one_response(&mut a).0 {
        Response::DelAuthKey { res, .. } => assert_eq!(res, Ok(())),
        other => panic!("unexpected response {:?}", other),
    }
    a.ins_auth_key(&mut vault, account_of(2), key(2), 0, msg(9)).unwrap();
    match one_response(&mut a).0 {
        Response::InsAuthKey { res, .. } => assert_eq!(res, Err(ClientError::NoSuchAccount)),
        other => panic!("unexpected response {:?}", other),
    }
    a.ins_auth_key(&mut vault, Authority::NaeManager(XorName([0; 32])), key(2), 0, msg(9)).unwrap();
    match one_response(&mut a).0 {
        Response::InsAuthKey { res, .. } => assert_eq!(res, Err(ClientError::InvalidOperation)),
        other => panic!("unexpected response {:?}", other),
    }
}

#[test]
fn balance_runs_out() {
    let mut vault = Vault::new();
    let mut a = session(1);
    create_account(&mut a, &mut vault, 1);
    for i in 0..DEFAULT_MAX_MUTATIONS {
        assert_eq!(put_blob(&mut a, &mut vault, 1, &i.to_be_bytes()), Ok(()));
    }
    assert_eq!(put_blob(&mut a, &mut vault, 1, b"one more"), Err(ClientError::LowBalance));
    // Not even a blob that is stored can be put again.
    assert_eq!(put_blob(&mut a, &mut vault, 1, &0u64.to_be_bytes()), Err(ClientError::LowBalance));
    assert_eq!(
        account_info(&mut a, &vault, 1),
        Ok(AccountInfo { mutations_done: DEFAULT_MAX_MUTATIONS, mutations_available: 0 })
    );
}

#[test]
fn permissions_decide_for_others() {
    let mut vault = Vault::new();
    let mut a = session(1);
    let mut b = session(2);
    create_account(&mut a, &mut vault, 1);
    create_account(&mut b, &mut vault, 2);
    assert_eq!(put_record(&mut a, &mut vault, 1, record(50, TAG, 1)), Ok(()));

    assert_eq!(insert_entry(&mut b, &mut vault, 2, 50, b"k", b"v"), Err(ClientError::AccessDenied));

    let allow_insert = PermissionSet::new().allow(Action::Insert);
    a.set_mdata_user_permissions(&mut vault, account_of(1), XorName([50; 32]), TAG, User::Key(key(2)), allow_insert, 1, msg(4), key(1)).unwrap();
    match one_response(&mut a).0 {
        Response::SetMDataUserPermissions { res, .. } => assert_eq!(res, Ok(())),
        other => panic!("unexpected response {:?}", other),
    }
    assert_eq!(insert_entry(&mut b, &mut vault, 2, 50, b"k", b"v"), Ok(()));
    let mut actions = VecMap::new();
    actions.insert(b"k".to_vec(), EntryAction::Update(Value { content: vec![], entry_version: 1 }));
    assert_eq!(mutate(&mut b, &mut vault, 2, 50, actions), Err(ClientError::AccessDenied));

    let name = XorName([50; 32]);
    a.list_mdata_user_permissions(&vault, Authority::NaeManager(name), name, TAG, User::Key(key(2)), msg(4)).unwrap();
    match one_response(&mut a).0 {
        Response::ListMDataUserPermissions { res, .. } => assert_eq!(res, Ok(allow_insert)),
        other => panic!("unexpected response {:?}", other),
    }
    a.list_mdata_user_permissions(&vault, Authority::NaeManager(name), name, TAG, User::Anyone, msg(4)).unwrap();
    match one_response(&mut a).0 {
        Response::ListMDataUserPermissions { res, .. } => assert_eq!(res, Err(ClientError::NoSuchKey)),
        other => panic!("unexpected response {:?}", other),
    }
    a.list_mdata_permissions(&vault, Authority::NaeManager(name), name, TAG, msg(4)).unwrap();
    match one_response(&mut a).0 {
        Response::ListMDataPermissions { res, .. } => {
            let permissions = res.unwrap();
            assert_eq!(permissions.len(), 1);
            assert_eq!(permissions.get(&User::Key(key(2))), Some(&allow_insert));
        }
        other => panic!("unexpected response {:?}", other),
    }

    // B may not manage permissions.
    b.del_mdata_user_permissions(&mut vault, account_of(2), name, TAG, User::Key(key(2)), 3, msg(4), key(2)).unwrap();
    match one_response(&mut b).0 {
        Response::DelMDataUserPermissions { res, .. } => assert_eq!(res, Err(ClientError::AccessDenied)),
        other => panic!("unexpected response {:?}", other),
    }
    a.del_mdata_user_permissions(&mut vault, account_of(1), name, TAG, User::Key(key(2)), 2, msg(4), key(1)).unwrap();
    match one_response(&mut a).0 {
        Response::DelMDataUserPermissions { res, .. } => assert_eq!(res, Err(ClientError::InvalidSuccessor(2))),
        other => panic!("unexpected response {:?}", other),
    }
    a.del_mdata_user_permissions(&mut vault, account_of(1), name, TAG, User::Anyone, 3, msg(4), key(1)).unwrap();
    match one_response(&mut a).0 {
        Response::DelMDataUserPermissions { res, .. } => assert_eq!(res, Err(ClientError::NoSuchKey)),
        other => panic!("unexpected response {:?}", other),
    }
    a.del_mdata_user_permissions(&mut vault, account_of(1), name, TAG, User::Key(key(2)), 3, msg(4), key(1)).unwrap();
    match one_response(&mut a).0 {
        Response::DelMDataUserPermissions { res, .. } => assert_eq!(res, Ok(())),
        other => panic!("unexpected response {:?}", other),
    }
    assert_eq!(insert_entry(&mut b, &mut vault, 2, 50, b"l", b"v"), Err(ClientError::AccessDenied));
    assert_eq!(stored_record(&vault, 50).version(), 3);
}

#[test]
fn record_is_read_in_parts() {
    let mut vault = Vault::new();
    let mut a = session(1);
    create_account(&mut a, &mut vault, 1);
    assert_eq!(put_record(&mut a, &mut vault, 1, record(50, TAG, 1)), Ok(()));
    assert_eq!(insert_entry(&mut a, &mut vault, 1, 50, b"b", b"2"), Ok(()));
    assert_eq!(insert_entry(&mut a, &mut vault, 1, 50, b"a", b"1"), Ok(()));
    let name = XorName([50; 32]);
    let dst = Authority::NaeManager(name);

    a.get_mdata(&vault, dst, name, TAG, msg(7)).unwrap();
    match one_response(&mut a).0 {
        Response::GetMData { res, .. } => {
            let data = res.unwrap();
            assert_eq!(data.name(), &name);
            assert_eq!(data.tag(), TAG);
            assert_eq!(data.version(), 2);
            assert_eq!(data.entries().len(), 2);
        }
        other => panic!("unexpected response {:?}", other),
    }
    a.get_mdata_shell(&vault, dst, name, TAG, msg(7)).unwrap();
    match one_response(&mut a).0 {
        Response::GetMDataShell { res, .. } => {
            let shell = res.unwrap();
            assert_eq!(shell.version(), 2);
            assert!(shell.entries().is_empty());
            assert!(shell.owners().contains(&key(1)));
        }
        other => panic!("unexpected response {:?}", other),
    }
    a.list_mdata_entries(&vault, dst, name, TAG, msg(7)).unwrap();
    match one_response(&mut a).0 {
        Response::ListMDataEntries { res, .. } => {
            let entries = res.unwrap();
            assert_eq!(entries.len(), 2);
            assert_eq!(entries.get(&b"a".to_vec()), Some(&Value { content: b"1".to_vec(), entry_version: 0 }));
        }
        other => panic!("unexpected response {:?}", other),
    }
    a.list_mdata_keys(&vault, dst, name, TAG, msg(7)).unwrap();
    match one_response(&mut a).0 {
        Response::ListMDataKeys { res, .. } => {
            let keys = res.unwrap();
            assert_eq!(keys.len(), 2);
            assert!(keys.contains(&b"a".to_vec()));
            assert!(keys.contains(&b"b".to_vec()));
        }
        other => panic!("unexpected response {:?}", other),
    }
    a.list_mdata_values(&vault, dst, name, TAG, msg(7)).unwrap();
    match one_response(&mut a).0 {
        Response::ListMDataValues { res, .. } => assert_eq!(
            res,
            Ok(vec![
                Value { content: b"1".to_vec(), entry_version: 0 },
                Value { content: b"2".to_vec(), entry_version: 0 },
            ])
        ),
        other => panic!("unexpected response {:?}", other),
    }
    a.get_mdata_value(&vault, dst, name, TAG, b"a".to_vec(), msg(7)).unwrap();
    match one_response(&mut a).0 {
        Response::GetMDataValue { res, .. } => assert_eq!(res, Ok(Value { content: b"1".to_vec(), entry_version: 0 })),
        other => panic!("unexpected response {:?}", other),
    }
    a.get_mdata_value(&vault, dst, name, TAG, b"c".to_vec(), msg(7)).unwrap();
    match one_response(&mut a).0 {
        Response::GetMDataValue { res, .. } => assert_eq!(res, Err(ClientError::NoSuchEntry)),
        other => panic!("unexpected response {:?}", other),
    }
    // Addressed to the wrong managers.
    a.get_mdata_version(&vault, account_of(1), name, TAG, msg(7)).unwrap();
    match one_response(&mut a).0 {
        Response::GetMDataVersion { res, .. } => assert_eq!(res, Err(ClientError::InvalidOperation)),
        other => panic!("unexpected response {:?}", other),
    }
}

#[test]
fn session_ends_once() {
    let id = FullId::with_signing_key(key(1));
    let mut a: Routing<NoHook> = Routing::new(id, *id.public_id(), None, 0).unwrap();
    a.simulate_disconnect();
    a.simulate_disconnect();
    let events = a.shutdown();
    assert_eq!(events.len(), 2);
    assert!(matches!(events[0].event, Event::Connected));
    assert!(matches!(events[1].event, Event::Terminate));

    let b: Routing<NoHook> = Routing::new(id, *id.public_id(), None, 0).unwrap();
    let events = b.shutdown();
    assert_eq!(events.len(), 2);
    assert!(matches!(events[1].event, Event::Terminate));
}

#[test]
fn new_session_is_addressed_as_a_client() {
    let id = FullId::with_signing_key(key(1));
    let other = FullId::with_signing_key(key(8));
    let a: Routing<NoHook> = Routing::new(id, *other.public_id(), None, 0).unwrap();
    assert_eq!(a.client_key(), &key(1));
    assert_eq!(a.account_name(), &XorName::of_key(&key(1)));
    assert_eq!(a.client_name(), XorName::of_key(&key(8)));
    match a.client_auth() {
        Authority::Client { client_id, .. } => assert_eq!(client_id, *other.public_id()),
        other => panic!("unexpected authority {:?}", other),
    }
    assert!(!a.network_limits_reached());
    assert!(!a.simulate_network_errors());
    let config = Routing::bootstrap_config().unwrap();
    assert!(config.hard_coded_contacts.is_empty());
}

#[test]
fn another_kind_under_the_name_of_a_blob() {
    let mut vault = Vault::new();
    let mut a = session(1);
    create_account(&mut a, &mut vault, 1);
    let name = *ImmutableData::new(b"content".to_vec()).name();
    vault.insert_data(DataId::immutable(name), Data::Mutable(record(50, TAG, 1)));
    assert_eq!(put_blob(&mut a, &mut vault, 1, b"content"), Err(ClientError::DataExists));
    assert!(matches!(vault.get_data(&DataId::immutable(name)), Some(Data::Mutable(_))));
    assert_eq!(
        account_info(&mut a, &vault, 1),
        Ok(AccountInfo { mutations_done: 0, mutations_available: DEFAULT_MAX_MUTATIONS })
    );
    a.get_idata(&vault, Authority::NaeManager(name), name, msg(8)).unwrap();
    match one_response(&mut a).0 {
        Response::GetIData { res, .. } => assert_eq!(res.err(), Some(ClientError::NoSuchData)),
        other => panic!("unexpected response {:?}", other),
    }
    // And a blob where a record is looked for.
    let id = DataId::mutable(XorName([60; 32]), TAG);
    vault.insert_data(id, Data::Immutable(ImmutableData::new(vec![1])));
    assert_eq!(version_of(&mut a, &vault, 60), Err(ClientError::NoSuchData));
}

#[test]
fn request_is_looked_at_before_the_store() {
    let mut vault = Vault::new();
    let mut a = session(1);
    create_account(&mut a, &mut vault, 1);
    let dst = account_of(1);

    // A session that never answers turns the request away, and sends nothing.
    a.set_simulate_timeout(true);
    let request = Request::GetAccountInfo(msg(6));
    assert!(!a.intercept(&dst, &request));
    assert!(a.take_events().is_empty());
    a.set_simulate_timeout(false);

    // A session without operations left turns it away, and says so.
    a.set_network_limits(Some(0));
    assert!(!a.intercept(&dst, &request));
    match one_response(&mut a).0 {
        Response::GetAccountInfo { res, .. } => assert_eq!(res, Err(ClientError::MaxOperationsExhausted)),
        other => panic!("unexpected response {:?}", other),
    }

    // A malformed change of owner is turned away whatever else holds.
    let malformed = Request::ChangeMDataOwner {
        name: XorName([50; 32]),
        tag: TAG,
        new_owners: VecSet::new(),
        version: 1,
        msg_id: msg(3),
    };
    assert!(!a.intercept(&dst, &malformed));
    match one_response(&mut a).0 {
        Response::ChangeMDataOwner { res, .. } => assert_eq!(res, Err(ClientError::InvalidOwners)),
        other => panic!("unexpected response {:?}", other),
    }

    // What is let through uses up an operation and is answered from the
    // store.
    a.set_network_limits(Some(2));
    assert!(a.intercept(&dst, &request));
    assert!(a.take_events().is_empty());
    a.complete_query(&vault, dst, request).unwrap();
    match one_response(&mut a).0 {
        Response::GetAccountInfo { res, .. } => assert_eq!(
            res,
            Ok(AccountInfo { mutations_done: 0, mutations_available: DEFAULT_MAX_MUTATIONS })
        ),
        other => panic!("unexpected response {:?}", other),
    }
    let data = ImmutableData::new(b"two steps".to_vec());
    let name = *data.name();
    let put = Request::PutIData { data, msg_id: msg(5) };
    assert!(a.intercept(&dst, &put));
    assert!(a.network_limits_reached());
    a.complete(&mut vault, dst, put).unwrap();
    let (response, src, _) = one_response(&mut a);
    assert_eq!(src, Authority::NaeManager(name));
    match response {
        Response::PutIData { res, .. } => assert_eq!(res, Ok(())),
        other => panic!("unexpected response {:?}", other),
    }
    assert!(vault.contains_data(&DataId::immutable(name)));
}
