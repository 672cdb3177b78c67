//! What holds of the handling of requests, whatever the store, the session
//! and the request.

use crate::authority::Authority;
use crate::data::{EntryActionView, ImmutableDataView, ValueView, TYPE_TAG_SESSION_PACKET};
use crate::error::ClientError;
use crate::account::AccountView;
use crate::execution::{
    answered, applied, executed, idata_put, mdata_fetched, mdata_mutated, mdata_put, mdata_read,
    mdata_transformed, owner_transferred, owner_verified,
};
use crate::messages::{DeliveryView, EventView, MessageId, RequestView, ResponseView};
use crate::mutable_data::{
    applied_entries, entry_action_error, first_entry_error, lemma_applied_order, MutableDataView,
};
use crate::name::{key_name, PublicKey, XorName};
use crate::session::{
    admitted, malformed, processed, refused, response_delay, response_source, SessionView,
};
use crate::vault::{DataId, DataView, VaultView};
use vstd::prelude::*;

verus! {

/// A blob is stored once.
///
/// Where a put of a blob succeeds, the store holds a blob under its name
/// afterwards. A second put of the same blob leaves the whole store as it is,
/// the account too. It succeeds wherever the request is still authorised;
/// it is not where the first put has used up the account's last mutation.
pub proof fn put_idata_twice(
    vault: VaultView,
    client_key: PublicKey,
    account_name: XorName,
    dst: Authority,
    data: ImmutableDataView,
)
    requires
        idata_put(vault, client_key, account_name, dst, data).0 is Ok,
    ensures
        ({
            let id = DataId::Immutable(data.name);
            let first = idata_put(vault, client_key, account_name, dst, data);
            let second = idata_put(first.1, client_key, account_name, dst, data);
            &&& first.1.data.contains_key(id)
            &&& first.1.data[id] is Immutable
            &&& vault.data.contains_key(id) ==> first.1 == vault
            &&& !vault.data.contains_key(id) ==> first.1.data == vault.data.insert(
                id,
                DataView::Immutable(data),
            )
            &&& second.1 == first.1
            &&& second.0 == first.1.mutation_authorised(dst, client_key, account_name)
            &&& vault.data.contains_key(id) ==> second.0 is Ok
        }),
{
}

/// A put of a mutable record under an identifier that is taken fails, and
/// leaves the store as it is, whatever the record holds.
///
/// For an authorised request with the right owners the error is that data
/// exists. For the tag of a session packet it is that the account exists.
pub proof fn put_mdata_conflict(
    vault: VaultView,
    client_key: PublicKey,
    account_name: XorName,
    dst: Authority,
    data: MutableDataView,
    other: MutableDataView,
    requester: PublicKey,
)
    requires
        vault.data.contains_key(DataId::Mutable(data.name, data.tag)),
        other.name == data.name,
        other.tag == data.tag,
        other.owners == data.owners,
    ensures
        ({
            let put = mdata_put(vault, client_key, account_name, dst, data, requester);
            &&& put.0 is Err
            &&& put.1 == vault
            &&& mdata_put(vault, client_key, account_name, dst, other, requester) == put
            &&& requester == client_key && data.tag != TYPE_TAG_SESSION_PACKET
                && vault.mutation_authorised(dst, client_key, account_name) is Ok && owner_verified(
                dst,
                data.owners,
            ) is Ok ==> put.0 == Err::<(), ClientError>(ClientError::DataExists)
            &&& requester == client_key && data.tag == TYPE_TAG_SESSION_PACKET && dst
                is ClientManager ==> put.0 == Err::<(), ClientError>(ClientError::AccountExists)
        }),
{
}

/// Every accepted change of a mutable record raises its version by one.
///
/// This holds of changes of entries, of permissions and of the owner. A
/// request for the version that is answered before the change gives the old
/// version, one that is answered after it the old version plus one.
pub proof fn mutation_raises_version(
    vault: VaultView,
    client_key: PublicKey,
    account_name: XorName,
    dst: Authority,
    name: XorName,
    tag: u64,
    requester: PublicKey,
    request: RequestView,
    msg_id: MessageId,
)
    requires
        mdata_mutated(vault, client_key, account_name, dst, name, tag, requester, request).0 is Ok,
    ensures
        ({
            let after = mdata_mutated(
                vault,
                client_key,
                account_name,
                dst,
                name,
                tag,
                requester,
                request,
            ).1;
            let query = RequestView::GetMDataVersion { name, tag, msg_id };
            let managers = Authority::NaeManager(name);
            &&& mdata_fetched(vault, name, tag) is Ok
            &&& mdata_fetched(after, name, tag) is Ok
            &&& mdata_fetched(after, name, tag)->Ok_0.version == mdata_fetched(
                vault,
                name,
                tag,
            )->Ok_0.version + 1
            &&& mdata_read(vault, managers, name, tag, query) == (ResponseView::GetMDataVersion {
                res: Ok(mdata_fetched(vault, name, tag)->Ok_0.version),
                msg_id,
            })
            &&& mdata_read(after, managers, name, tag, query) == (ResponseView::GetMDataVersion {
                res: Ok((mdata_fetched(vault, name, tag)->Ok_0.version + 1) as u64),
                msg_id,
            })
        }),
{
    // The change itself raises the version; counting the mutation leaves the
    // data alone.
    let before = mdata_fetched(vault, name, tag)->Ok_0;
    let changed = mdata_transformed(before, account_name, dst, request)->Ok_0;
    assert(changed.version == before.version + 1);
}

/// No action that cannot be applied is among actions that were found free of
/// error.
proof fn lemma_no_entry_error(
    entries: Map<Seq<u8>, ValueView>,
    actions: Map<Seq<u8>, EntryActionView>,
    order: Seq<Seq<u8>>,
    from: int,
)
    requires
        0 <= from,
        first_entry_error(entries, actions, order, from) is None,
    ensures
        forall|i: int|
            from <= i < order.len() ==> (#[trigger] entry_action_error(
                entries,
                order[i],
                actions[order[i]],
            )) is None,
    decreases order.len() - from,
{
    if from < order.len() {
        lemma_no_entry_error(entries, actions, order, from + 1);
    }
}

/// Every accepted change of an entry raises the entry's version by one, and
/// an entry that is put in anew was not there before.
///
/// `order` has to list the keys of `actions`.
pub proof fn entry_versions_rise(
    data: MutableDataView,
    actions: Map<Seq<u8>, EntryActionView>,
    order: Seq<Seq<u8>>,
    requester: PublicKey,
    key: Seq<u8>,
)
    requires
        order.to_set() == actions.dom(),
        actions.contains_key(key),
        data.entries_mutated(actions, order, requester) is Ok,
    ensures
        ({
            let after = data.entries_mutated(actions, order, requester)->Ok_0;
            &&& after.version == data.version + 1
            &&& after.entries.contains_key(key)
            &&& actions[key] is Ins ==> !data.entries.contains_key(key) && after.entries[key]
                == actions[key]->Ins_0
            &&& !(actions[key] is Ins) ==> data.entries.contains_key(key)
                && after.entries[key].entry_version == data.entries[key].entry_version + 1
        }),
{
    lemma_no_entry_error(data.entries, actions, order, 0);
    let i = order.index_of(key);
    assert(entry_action_error(data.entries, order[i], actions[order[i]]) is None);
}

/// After an accepted change of owner the record has exactly one owner, the
/// new one, and its version is one higher.
///
/// The change is accepted only where the request was addressed to the
/// managers of an account, the owner until then was that account's, and the
/// requester is that account's too. So where the new owner is the account's
/// as well, the one owner of the record is still the account's.
pub proof fn owner_change_accepted(
    data: MutableDataView,
    requester_name: XorName,
    dst: Authority,
    new_owner: PublicKey,
    version: u64,
)
    requires
        owner_transferred(data, requester_name, dst, new_owner, version) is Ok,
    ensures
        ({
            let after = owner_transferred(data, requester_name, dst, new_owner, version)->Ok_0;
            &&& after.owners == set![new_owner]
            &&& after.owners.finite()
            &&& after.owners.len() == 1
            &&& after.version == data.version + 1
            &&& dst is ClientManager
            &&& requester_name == dst->ClientManager_0
            &&& exists|owner: PublicKey|
                data.owners.contains(owner) && #[trigger] key_name(owner) == dst->ClientManager_0
            &&& key_name(new_owner) == dst->ClientManager_0 ==> forall|owner: PublicKey|
                after.owners.contains(owner) ==> #[trigger] key_name(owner) == dst->ClientManager_0
        }),
{
}

/// A response that a hook puts in the place of the real one is delivered as
/// it is, and nothing else happens: the store stays as it is, no operation
/// is used up, and no other event becomes due.
///
/// This holds of every request but a change of owner that does not name
/// exactly one new owner: that one is turned down before the hook is asked.
pub proof fn hook_precedence(
    session: SessionView,
    vault: VaultView,
    dst: Authority,
    request: RequestView,
    response: ResponseView,
)
    requires
        !malformed(request),
    ensures
        processed(session, vault, dst, request, Some(response)) == (
            session.delivered(response_delay(request), response_source(dst, request), response),
            vault,
        ),
        processed(session, vault, dst, request, Some(response)).0.countdown == session.countdown,
        processed(session, vault, dst, request, Some(response)).0.outbox == session.outbox.push(
            DeliveryView {
                delay_ms: response_delay(request),
                event: EventView::Response {
                    response,
                    src: response_source(dst, request),
                    dst: session.client_auth,
                },
            },
        ),
{
}

/// The session and the store after the requests of `steps` have been
/// processed one after the other, each with the authority that it was sent
/// to, and none with a response put in the place of the real one.
pub open spec fn all_processed(
    session: SessionView,
    vault: VaultView,
    steps: Seq<(Authority, RequestView)>,
) -> (SessionView, VaultView)
    decreases steps.len(),
{
    if steps.len() == 0 {
        (session, vault)
    } else {
        let earlier = all_processed(session, vault, steps.drop_last());
        processed(earlier.0, earlier.1, steps.last().0, steps.last().1, None)
    }
}

/// The event in which the session answers the request at position `i` of
/// `steps`, where it could do `quota` operations at the start: the real
/// response while operations are left, and after that the response that
/// says that none are.
pub open spec fn answer_under_quota(
    session: SessionView,
    vault: VaultView,
    steps: Seq<(Authority, RequestView)>,
    quota: u64,
    i: int,
) -> DeliveryView {
    let dst = steps[i].0;
    let request = steps[i].1;
    let response = if i < quota {
        executed(
            all_processed(session, vault, steps.take(i)).1,
            session.client_key,
            session.account_name,
            dst,
            request,
        ).0
    } else {
        request.failure(ClientError::MaxOperationsExhausted)
    };
    DeliveryView {
        delay_ms: response_delay(request),
        event: EventView::Response {
            response,
            src: response_source(dst, request),
            dst: session.client_auth,
        },
    }
}

/// A session that can do `quota` operations answers that many requests as
/// the store decides, and every later one with the response that says that
/// no operations are left.
///
/// Every request is answered by exactly one event. The count of operations
/// left falls by one with each of the first `quota` requests and then stays
/// at nothing; the later requests leave the store as it is.
///
/// This holds where the network answers, and of requests that get as far as
/// the count: a change of owner that does not name exactly one new owner is
/// turned down before.
pub proof fn quota_exhaustion(
    session: SessionView,
    vault: VaultView,
    steps: Seq<(Authority, RequestView)>,
    quota: u64,
)
    requires
        session.countdown == Some(quota),
        !session.timeout,
        forall|i: int| 0 <= i < steps.len() ==> !malformed(#[trigger] steps[i].1),
    ensures
        ({
            let end = all_processed(session, vault, steps);
            &&& end.0.countdown == Some(
                if steps.len() <= quota {
                    (quota - steps.len()) as u64
                } else {
                    0u64
                },
            )
            &&& end.0 == (SessionView {
                countdown: end.0.countdown,
                outbox: end.0.outbox,
                ..session
            })
            &&& end.0.outbox.len() == session.outbox.len() + steps.len()
            &&& forall|i: int|
                0 <= i < session.outbox.len() ==> end.0.outbox[i] == session.outbox[i]
            &&& forall|i: int|
                0 <= i < steps.len() ==> end.0.outbox[session.outbox.len() + i]
                    == #[trigger] answer_under_quota(session, vault, steps, quota, i)
            &&& steps.len() >= quota ==> end.1 == all_processed(
                session,
                vault,
                steps.take(quota as int),
            ).1
        }),
    decreases steps.len(),
{
    if steps.len() > 0 {
        let earlier_steps = steps.drop_last();
        let last = steps.len() - 1;
        quota_exhaustion(session, vault, earlier_steps, quota);
        let end = all_processed(session, vault, steps);
        assert(steps.take(last) =~= earlier_steps);
        assert forall|i: int| 0 <= i < steps.len() implies end.0.outbox[session.outbox.len() + i]
            == #[trigger] answer_under_quota(session, vault, steps, quota, i) by {
            if i < last {
                assert(earlier_steps.take(i) =~= steps.take(i));
                assert(answer_under_quota(session, vault, earlier_steps, quota, i)
                    == answer_under_quota(session, vault, steps, quota, i));
            }
        }
        if steps.len() >= quota {
            if steps.len() == quota {
                assert(steps.take(quota as int) =~= steps);
            } else {
                assert(earlier_steps.take(quota as int) =~= steps.take(quota as int));
            }
        }
    }
}

/// Every request is answered by exactly one event, but where the session
/// simulates a network that never answers: then nothing happens at all.
///
/// The event is a response, addressed to the client, and it is the last of
/// the events that are due. Unless a hook has put its own response in the
/// place of the real one, the response carries the identifier of the
/// request.
pub proof fn one_response_per_request(
    session: SessionView,
    vault: VaultView,
    dst: Authority,
    request: RequestView,
    overridden: Option<ResponseView>,
)
    ensures
        ({
            let after = processed(session, vault, dst, request, overridden);
            let dropped = !malformed(request) && overridden is None && session.timeout;
            &&& dropped ==> after == (session, vault)
            &&& !dropped ==> {
                &&& after.0.outbox.len() == session.outbox.len() + 1
                &&& after.0.outbox.drop_last() == session.outbox
                &&& after.0.outbox.last().delay_ms == response_delay(request)
                &&& after.0.outbox.last().event is Response
                &&& after.0.outbox.last().event->dst == session.client_auth
                &&& overridden is Some && !malformed(request) ==> after.0.outbox.last().event->response
                    == overridden->0
                &&& overridden is None || malformed(request)
                    ==> after.0.outbox.last().event->response.message_id() == request.message_id()
            }
        }),
{
    let after = processed(session, vault, dst, request, overridden);
    let dropped = !malformed(request) && overridden is None && session.timeout;
    if !dropped {
        assert(after.0.outbox.drop_last() =~= session.outbox);
        if overridden is None || malformed(request) {
            lemma_response_carries_identifier(
                vault,
                session.client_key,
                session.account_name,
                dst,
                request,
            );
        }
    }
}

/// The response to a request carries the identifier of the request.
proof fn lemma_response_carries_identifier(
    vault: VaultView,
    client_key: PublicKey,
    account_name: XorName,
    dst: Authority,
    request: RequestView,
)
    ensures
        executed(vault, client_key, account_name, dst, request).0.message_id()
            == request.message_id(),
        forall|error: ClientError| (#[trigger] request.failure(error)).message_id()
            == request.message_id(),
{
}

/// A request that fails leaves the store as it is; so does a request that
/// only reads.
pub proof fn failure_changes_nothing(
    vault: VaultView,
    client_key: PublicKey,
    account_name: XorName,
    dst: Authority,
    request: RequestView,
)
    ensures
        applied(vault, client_key, account_name, dst, request).0 is Err ==> applied(
            vault,
            client_key,
            account_name,
            dst,
            request,
        ).1 == vault,
        request.is_query() ==> executed(vault, client_key, account_name, dst, request).1 == vault,
{
}

/// A request counts at most one mutation, and only in the account that it
/// was sent to. Every other account stays as it is.
pub proof fn at_most_one_commit(
    vault: VaultView,
    client_key: PublicKey,
    account_name: XorName,
    dst: Authority,
    request: RequestView,
    name: XorName,
)
    requires
        vault.accounts.contains_key(name),
    ensures
        ({
            let after = executed(vault, client_key, account_name, dst, request).1;
            &&& after.accounts.contains_key(name)
            &&& name != dst.spec_name() ==> after.accounts[name] == vault.accounts[name]
            &&& after.accounts[name].info == vault.accounts[name].info || after.accounts[name].info
                == vault.accounts[name].mutation_counted().info
        }),
{
}

/// An account is created once. After a put that created the account of
/// `dst`, every further put of a session packet for `dst` fails, whatever
/// record it carries, and leaves the store as it is.
pub proof fn account_created_once(
    vault: VaultView,
    client_key: PublicKey,
    account_name: XorName,
    dst: Authority,
    packet: MutableDataView,
    other: MutableDataView,
)
    requires
        packet.tag == TYPE_TAG_SESSION_PACKET,
        other.tag == TYPE_TAG_SESSION_PACKET,
        mdata_put(vault, client_key, account_name, dst, packet, client_key).0 is Ok,
    ensures
        ({
            let created = mdata_put(vault, client_key, account_name, dst, packet, client_key).1;
            &&& dst is ClientManager
            &&& !vault.accounts.contains_key(dst->ClientManager_0)
            &&& created.accounts.contains_key(dst->ClientManager_0)
            &&& created.accounts[dst->ClientManager_0] == AccountView::new()
            &&& created.data.contains_key(DataId::Mutable(packet.name, packet.tag))
            &&& mdata_put(created, client_key, account_name, dst, other, client_key) == (
                Err::<(), ClientError>(ClientError::AccountExists),
                created,
            )
        }),
{
}

/// Nothing is changed without authorisation. A request that puts data, or
/// changes a record, and that the store does not authorise, fails and leaves
/// the store as it is. The creation of an account is the one change that
/// needs no account to authorise it.
pub proof fn authorisation_is_enforced(
    vault: VaultView,
    client_key: PublicKey,
    account_name: XorName,
    dst: Authority,
    request: RequestView,
)
    requires
        vault.mutation_authorised(dst, client_key, account_name) is Err,
        request is PutIData || request is MutateMDataEntries || request is SetMDataUserPermissions
            || request is DelMDataUserPermissions || request is ChangeMDataOwner || (request
            matches RequestView::PutMData { data, .. } && data.tag != TYPE_TAG_SESSION_PACKET),
    ensures
        applied(vault, client_key, account_name, dst, request).0 is Err,
        applied(vault, client_key, account_name, dst, request).1 == vault,
{
}

/// Data is read only by a request that is addressed to its managers: any
/// other request for a blob or for a part of a record that exists fails, and
/// for a wrong address.
pub proof fn reads_are_authorised(
    vault: VaultView,
    dst: Authority,
    name: XorName,
    tag: u64,
    request: RequestView,
    msg_id: MessageId,
)
    requires
        dst != Authority::NaeManager(name),
    ensures
        answered(vault, dst, RequestView::GetIData { name, msg_id }) == (ResponseView::GetIData {
            res: Err(ClientError::InvalidOperation),
            msg_id,
        }),
        mdata_fetched(vault, name, tag) is Ok ==> mdata_read(vault, dst, name, tag, request)
            == request.failure(ClientError::InvalidOperation),
{
}

/// At any time every mutable record in the store has exactly one owner and
/// keeps its entries by ascending key, and in every account the mutations
/// made and those left add up to the allowance: no request changes that. A
/// record that is put has to be of that kind itself, as every record is that
/// was made by `MutableData::new`, and the order of the actions of a request
/// has to list their keys, as it does for every `VecMap`.
pub proof fn store_stays_valid(
    vault: VaultView,
    client_key: PublicKey,
    account_name: XorName,
    dst: Authority,
    request: RequestView,
)
    requires
        vault.wf(),
        request matches RequestView::PutMData { data, .. } ==> data.wf(),
        request matches RequestView::MutateMDataEntries { actions, action_order, .. }
            ==> action_order.to_set() == actions.dom(),
    ensures
        executed(vault, client_key, account_name, dst, request).1.wf(),
{
    let after = executed(vault, client_key, account_name, dst, request).1;
    assert forall|name: XorName| after.accounts.contains_key(name) implies (
    #[trigger] after.accounts[name]).wf() by {
        if vault.accounts.contains_key(name) {
            at_most_one_commit(vault, client_key, account_name, dst, request, name);
            assert(vault.accounts[name].wf());
        }
    }
    assert forall|id: DataId| after.data.contains_key(id) && after.data[id] is Mutable implies (
    #[trigger] after.data[id])->Mutable_0.wf() by {
        if vault.data.contains_key(id) && vault.data[id] is Mutable {
            let before = vault.data[id]->Mutable_0;
            assert(before.wf());
            if let RequestView::MutateMDataEntries { actions, action_order, requester, .. } =
                request {
                lemma_applied_order(before.entry_order, action_order, action_order.len() as int);
                assert(action_order.take(action_order.len() as int) =~= action_order);
                assert(applied_entries(before.entries, actions).dom() =~= before.entries.dom().union(
                    actions.dom(),
                ));
            }
        }
    }
}

/// Handling a request in two steps comes to the same as processing it in
/// one. A request that is let through, with one operation used up, and then
/// brought to its end against the store leaves the session and the store as
/// `processed` says; one that is turned away leaves the store untouched. A
/// request that only reads is answered without any change to the store.
pub proof fn two_steps_make_one(
    session: SessionView,
    vault: VaultView,
    dst: Authority,
    request: RequestView,
    overridden: Option<ResponseView>,
)
    ensures
        ({
            let done = executed(vault, session.client_key, session.account_name, dst, request);
            &&& admitted(session, request, overridden) ==> processed(
                session,
                vault,
                dst,
                request,
                overridden,
            ) == (
                session.counted_down().delivered(
                    response_delay(request),
                    response_source(dst, request),
                    done.0,
                ),
                done.1,
            )
            &&& !admitted(session, request, overridden) ==> processed(
                session,
                vault,
                dst,
                request,
                overridden,
            ) == (refused(session, dst, request, overridden), vault)
            &&& request.is_query() ==> done == (answered(vault, dst, request), vault)
        }),
{
}

} // verus!
