//! The session of one client with a network that is not there: requests are
//! answered from a store, as the real network would answer them.

use crate::authority::{Authority, FullId, PublicId};
use crate::collections::{VecMap, VecSet};
use crate::data::{EntryAction, ImmutableData, PermissionSet, User};
use crate::error::{ClientError, InterfaceError, RoutingError};
use crate::execution::{answer_query, answered, execute, executed};
use crate::messages::{
    delivery_views, Delivery, DeliveryView, Event, EventView, MessageId, Request, RequestView,
    Response, ResponseView,
};
use crate::mutable_data::MutableData;
use crate::name::{key_name, PublicKey, XorName};
use crate::session::{
    admitted, malformed, processed, refused, response_delay, response_source, SessionView,
    CHANGE_MDATA_OWNER_DELAY_MS, CONNECT_DELAY_MS, DEFAULT_DELAY_MS, DEL_AUTH_KEY_DELAY_MS,
    GET_ACCOUNT_INFO_DELAY_MS, GET_IDATA_DELAY_MS, GET_MDATA_DELAY_MS, GET_MDATA_ENTRIES_DELAY_MS,
    GET_MDATA_PERMISSIONS_DELAY_MS, GET_MDATA_SHELL_DELAY_MS, GET_MDATA_VERSION_DELAY_MS,
    INS_AUTH_KEY_DELAY_MS, LIST_AUTH_KEYS_AND_VERSION_DELAY_MS, PUT_IDATA_DELAY_MS,
    PUT_MDATA_DELAY_MS, SET_MDATA_ENTRIES_DELAY_MS, SET_MDATA_PERMISSIONS_DELAY_MS,
};
use crate::vault::{Vault, VaultView};
use vstd::prelude::*;

verus! {

/// Something that looks at every request before it is handled, and may put a
/// response of its own in the place of the real one.
pub trait RequestHook {
    /// Whether `response` is what the hook may say to `request`: a response
    /// to put in the place of the real one, or none. A hook that does not say
    /// otherwise may say anything.
    open spec fn may_answer(&self, request: RequestView, response: Option<ResponseView>) -> bool {
        true
    }

    /// The response to put in the place of the real one, if any.
    fn respond(&mut self, request: &Request) -> (response: Option<Response>)
        ensures
            old(self).may_answer(request@, response_view(response)),
    ;
}

/// The hook that never puts a response in the place of the real one.
#[derive(Clone, Copy, Debug)]
pub struct NoHook;

impl RequestHook for NoHook {
    open spec fn may_answer(&self, request: RequestView, response: Option<ResponseView>) -> bool {
        response is None
    }

    fn respond(&mut self, request: &Request) -> (response: Option<Response>) {
        None
    }
}

/// The view of a response that may be there.
pub open spec fn response_view(response: Option<Response>) -> Option<ResponseView> {
    match response {
        Some(response) => Some(response@),
        None => None,
    }
}

/// How a session gets in touch with the network. A session without a network
/// has nobody to get in touch with.
#[derive(Clone, Debug, PartialEq, Eq)]
pub struct BootstrapConfig {
    /// The names of the nodes to contact first.
    pub hard_coded_contacts: Vec<XorName>,
}

/// Calls `rand::random` for an array of 32 bytes. Nothing is claimed about
/// the name that comes back: every call may give another.
#[verifier::external_body]
fn random_name() -> (name: XorName) {
    XorName(rand::random::<[u8; 32]>())
}

/// The delay of the response to a request.
fn delay_of(request: &Request) -> (delay_ms: u64)
    ensures
        delay_ms == response_delay(request@),
{
    match request {
        Request::GetAccountInfo(_) => GET_ACCOUNT_INFO_DELAY_MS,
        Request::PutIData { .. } => PUT_IDATA_DELAY_MS,
        Request::GetIData { .. } => GET_IDATA_DELAY_MS,
        Request::PutMData { .. } => PUT_MDATA_DELAY_MS,
        Request::GetMData { .. } => GET_MDATA_DELAY_MS,
        Request::GetMDataVersion { .. } => GET_MDATA_VERSION_DELAY_MS,
        Request::GetMDataShell { .. } => GET_MDATA_SHELL_DELAY_MS,
        Request::ListMDataEntries { .. } => GET_MDATA_ENTRIES_DELAY_MS,
        Request::ListMDataKeys { .. } => GET_MDATA_ENTRIES_DELAY_MS,
        Request::ListMDataValues { .. } => GET_MDATA_ENTRIES_DELAY_MS,
        Request::GetMDataValue { .. } => GET_MDATA_ENTRIES_DELAY_MS,
        Request::MutateMDataEntries { .. } => SET_MDATA_ENTRIES_DELAY_MS,
        Request::ListMDataPermissions { .. } => GET_MDATA_PERMISSIONS_DELAY_MS,
        Request::ListMDataUserPermissions { .. } => GET_MDATA_PERMISSIONS_DELAY_MS,
        Request::SetMDataUserPermissions { .. } => SET_MDATA_PERMISSIONS_DELAY_MS,
        Request::DelMDataUserPermissions { .. } => SET_MDATA_PERMISSIONS_DELAY_MS,
        Request::ChangeMDataOwner { .. } => CHANGE_MDATA_OWNER_DELAY_MS,
        Request::ListAuthKeysAndVersion(_) => LIST_AUTH_KEYS_AND_VERSION_DELAY_MS,
        Request::InsAuthKey { .. } => INS_AUTH_KEY_DELAY_MS,
        Request::DelAuthKey { .. } => DEL_AUTH_KEY_DELAY_MS,
    }
}

/// The authority in whose name a request that was sent to `dst` is answered.
fn source_of(dst: &Authority, request: &Request) -> (src: Authority)
    ensures
        src == response_source(*dst, request@),
{
    match request {
        Request::GetAccountInfo(_) => *dst,
        Request::PutIData { data, .. } => Authority::NaeManager(*data.name()),
        Request::GetIData { name, .. } => Authority::NaeManager(*name),
        Request::PutMData { data, .. } => Authority::NaeManager(*data.name()),
        Request::GetMData { name, .. } => Authority::NaeManager(*name),
        Request::GetMDataVersion { name, .. } => Authority::NaeManager(*name),
        Request::GetMDataShell { name, .. } => Authority::NaeManager(*name),
        Request::ListMDataEntries { name, .. } => Authority::NaeManager(*name),
        Request::ListMDataKeys { name, .. } => Authority::NaeManager(*name),
        Request::ListMDataValues { name, .. } => Authority::NaeManager(*name),
        Request::GetMDataValue { name, .. } => Authority::NaeManager(*name),
        Request::MutateMDataEntries { name, .. } => Authority::NaeManager(*name),
        Request::ListMDataPermissions { name, .. } => Authority::NaeManager(*name),
        Request::ListMDataUserPermissions { name, .. } => Authority::NaeManager(*name),
        Request::SetMDataUserPermissions { name, .. } => Authority::NaeManager(*name),
        Request::DelMDataUserPermissions { name, .. } => Authority::NaeManager(*name),
        Request::ChangeMDataOwner { name, .. } => Authority::NaeManager(*name),
        Request::ListAuthKeysAndVersion(_) => *dst,
        Request::InsAuthKey { .. } => *dst,
        Request::DelAuthKey { .. } => *dst,
    }
}

/// Whether the request is a change of owner that does not name exactly one
/// new owner.
fn is_malformed(request: &Request) -> (r: bool)
    ensures
        r == malformed(request@),
{
    match request {
        Request::ChangeMDataOwner { new_owners, .. } => new_owners.len() != 1,
        _ => false,
    }
}

/// The session of one client. It behaves as the network does, but answers
/// from a store that is handed to it with every request. `H` is the kind of
/// hook that can be set on it.
///
/// The events that are due to the client are kept in the order in which they
/// were produced, until they are taken out.
pub struct Routing<H: RequestHook = NoHook> {
    outbox: Vec<Delivery>,
    full_id: FullId,
    client_auth: Authority,
    max_ops_countdown: Option<u64>,
    timeout_simulation: bool,
    request_hook: Option<H>,
    terminated: bool,
}

impl<H: RequestHook> View for Routing<H> {
    type V = SessionView;

    closed spec fn view(&self) -> SessionView {
        SessionView {
            client_key: self.full_id.spec_public_id().spec_signing_public_key(),
            account_name: self.full_id.spec_public_id().spec_name(),
            client_auth: self.client_auth,
            countdown: self.max_ops_countdown,
            timeout: self.timeout_simulation,
            terminated: self.terminated,
            outbox: delivery_views(self.outbox@),
        }
    }
}

impl<H: RequestHook> Routing<H> {
    /// The hook, if one is set.
    pub closed spec fn hook(&self) -> Option<H> {
        self.request_hook
    }

    /// Whether a hook is set.
    pub open spec fn has_request_hook(&self) -> bool {
        self.hook() is Some
    }

    /// Whether `response` is what the hook may say to `request`. Where no
    /// hook is set, no response is put in the place of the real one.
    pub open spec fn hook_may_answer(
        &self,
        request: RequestView,
        response: Option<ResponseView>,
    ) -> bool {
        match self.hook() {
            Some(hook) => hook.may_answer(request, response),
            None => response is None,
        }
    }

    /// Whether `after` and `vault_after` are what the handling of a request
    /// makes of the session `self` and the store `vault`: the hook was asked
    /// about the request, and the request was processed with what the hook
    /// said.
    pub open spec fn handled(
        &self,
        vault: VaultView,
        dst: Authority,
        request: RequestView,
        after: Routing<H>,
        vault_after: VaultView,
    ) -> bool {
        &&& after.has_request_hook() == self.has_request_hook()
        &&& exists|overridden: Option<ResponseView>|
            self.hook_may_answer(request, overridden) && #[trigger] processed(
                self@,
                vault,
                dst,
                request,
                overridden,
            ) == (after@, vault_after)
    }

    /// A new session for the client `id`. Its responses are addressed to
    /// `client_id`, by way of a node whose name is picked at random. The
    /// session has no limit, no hook and a network that answers; it starts
    /// by saying that it is connected.
    pub fn new(
        id: FullId,
        client_id: PublicId,
        _config: Option<BootstrapConfig>,
        _msg_expiry_ms: u64,
    ) -> (r: Result<Routing<H>, RoutingError>)
        ensures
            r is Ok,
            r->Ok_0@.client_key == id.spec_public_id().spec_signing_public_key(),
            r->Ok_0@.account_name == id.spec_public_id().spec_name(),
            r->Ok_0@.client_auth is Client,
            r->Ok_0@.client_auth->client_id == client_id,
            r->Ok_0@.countdown is None,
            !r->Ok_0@.timeout,
            !r->Ok_0@.terminated,
            r->Ok_0@.outbox == seq![
                DeliveryView { delay_ms: CONNECT_DELAY_MS, event: EventView::Connected },
            ],
            !r->Ok_0.has_request_hook(),
    {
        let client_auth = Authority::Client { client_id, proxy_node_name: random_name() };
        let mut outbox: Vec<Delivery> = Vec::new();
        outbox.push(Delivery { delay_ms: CONNECT_DELAY_MS, event: Event::Connected });
        let routing = Routing {
            outbox,
            full_id: id,
            client_auth,
            max_ops_countdown: None,
            timeout_simulation: false,
            request_hook: None,
            terminated: false,
        };
        Ok(routing)
    }

    /// The session's own signing key.
    pub fn client_key(&self) -> (key: &PublicKey)
        ensures
            *key == self@.client_key,
    {
        self.full_id.public_id().signing_public_key()
    }

    /// The name of the account that the session's key owns: the hash of the
    /// key.
    pub fn account_name(&self) -> (name: &XorName)
        ensures
            *name == self@.account_name,
            *name == key_name(self@.client_key),
    {
        self.full_id.public_id().name()
    }

    /// The authority under which the client gets its responses.
    pub fn client_auth(&self) -> (auth: Authority)
        ensures
            auth == self@.client_auth,
    {
        self.client_auth
    }

    /// The name under which the client gets its responses.
    pub fn client_name(&self) -> (name: XorName)
        ensures
            name == self@.client_auth.spec_name(),
    {
        self.client_auth.name()
    }

    /// Puts `event` among the events that are due to the client.
    fn send_event(&mut self, delay_ms: u64, event: Event)
        ensures
            final(self)@ == old(self)@.sent(delay_ms, event@),
            final(self).hook() == old(self).hook(),
    {
        let ghost before = self.outbox@;
        let delivery = Delivery { delay_ms, event };
        self.outbox.push(delivery);
        proof {
            assert(delivery_views(self.outbox@) =~= delivery_views(before).push(delivery@));
        }
    }

    /// Makes `response` due to `dst`, in the name of `src`.
    pub fn send_response(&mut self, delay_ms: u64, src: Authority, dst: Authority, response: Response)
        ensures
            final(self)@ == old(self)@.sent(
                delay_ms,
                EventView::Response { response: response@, src, dst },
            ),
            final(self).hook() == old(self).hook(),
    {
        let event = Event::Response { response, src, dst };
        self.send_event(delay_ms, event)
    }

    /// Whether the session has used up its operations.
    pub fn network_limits_reached(&self) -> (r: bool)
        ensures
            r == self@.limits_reached(),
    {
        match self.max_ops_countdown {
            Some(left) => left == 0,
            None => false,
        }
    }

    /// Uses up one operation, and says how many there were, where that is
    /// limited.
    pub fn update_network_limits(&mut self) -> (r: Option<u64>)
        ensures
            final(self)@ == old(self)@.counted_down(),
            r == old(self)@.countdown,
            final(self).hook() == old(self).hook(),
    {
        match self.max_ops_countdown {
            Some(left) => {
                if left > 0 {
                    self.max_ops_countdown = Some(left - 1);
                }
                Some(left)
            },
            None => None,
        }
    }

    /// Uses up one operation, if the session has one left.
    pub fn verify_network_limits(&mut self) -> (r: Result<(), ClientError>)
        ensures
            old(self)@.limits_reached() ==> r == Err::<(), ClientError>(
                ClientError::MaxOperationsExhausted,
            ) && final(self)@ == old(self)@,
            !old(self)@.limits_reached() ==> r == Ok::<(), ClientError>(()) && final(self)@
                == old(self)@.counted_down(),
            final(self).hook() == old(self).hook(),
    {
        if self.network_limits_reached() {
            Err(ClientError::MaxOperationsExhausted)
        } else {
            let _ = self.update_network_limits();
            Ok(())
        }
    }

    /// Whether the session behaves like a network that never answers.
    pub fn simulate_network_errors(&self) -> (r: bool)
        ensures
            r == self@.timeout,
    {
        self.timeout_simulation
    }

    /// Asks the hook, if one is set, what to say to `request`.
    fn consult_hook(&mut self, request: &Request) -> (response: Option<Response>)
        ensures
            old(self).hook_may_answer(request@, response_view(response)),
            final(self)@ == old(self)@,
            final(self).has_request_hook() == old(self).has_request_hook(),
    {
        match &mut self.request_hook {
            Some(hook) => hook.respond(request),
            None => None,
        }
    }

    /// Decides whether the request gets to the store. Where it does not, the
    /// response that says so, if there is one, is made due.
    fn screen(&mut self, dst: &Authority, request: &Request, overridden: Option<Response>) -> (proceed:
        bool)
        ensures
            proceed == admitted(old(self)@, request@, response_view(overridden)),
            proceed ==> final(self)@ == old(self)@.counted_down(),
            !proceed ==> final(self)@ == refused(
                old(self)@,
                *dst,
                request@,
                response_view(overridden),
            ),
            final(self).hook() == old(self).hook(),
    {
        let delay_ms = delay_of(request);
        let client_auth = self.client_auth;
        if is_malformed(request) {
            // There has to be exactly one new owner.
            self.send_response(
                delay_ms,
                *dst,
                client_auth,
                request.failure(ClientError::InvalidOwners),
            );
            return false;
        }
        let src = source_of(dst, request);
        match overridden {
            Some(response) => {
                self.send_response(delay_ms, src, client_auth, response);
                return false;
            },
            None => {},
        }
        if self.simulate_network_errors() {
            return false;
        }
        match self.verify_network_limits() {
            Err(error) => {
                self.send_response(delay_ms, src, client_auth, request.failure(error));
                false
            },
            Ok(()) => true,
        }
    }

    /// Processes a request that only reads the store.
    fn process_query(
        &mut self,
        vault: &Vault,
        dst: Authority,
        request: &Request,
        overridden: Option<Response>,
    ) -> (r: Result<(), InterfaceError>)
        requires
            request@.is_query(),
        ensures
            r == Ok::<(), InterfaceError>(()),
            (final(self)@, vault@) == processed(
                old(self)@,
                vault@,
                dst,
                request@,
                response_view(overridden),
            ),
            final(self).hook() == old(self).hook(),
    {
        if self.screen(&dst, request, overridden) {
            let response = answer_query(vault, &dst, request);
            let client_auth = self.client_auth;
            self.send_response(delay_of(request), source_of(&dst, request), client_auth, response);
        }
        Ok(())
    }

    /// Processes a request that was sent to `dst`, where `overridden` is the
    /// response, if any, to deliver in the place of the real one.
    ///
    /// Exactly one response is made due to the client, except where the
    /// session simulates a network that never answers: then none is. The
    /// result is always `Ok`: a request that fails says so in its response.
    pub fn process(
        &mut self,
        vault: &mut Vault,
        dst: Authority,
        request: Request,
        overridden: Option<Response>,
    ) -> (r: Result<(), InterfaceError>)
        ensures
            r == Ok::<(), InterfaceError>(()),
            (final(self)@, final(vault)@) == processed(
                old(self)@,
                old(vault)@,
                dst,
                request@,
                response_view(overridden),
            ),
            final(self).hook() == old(self).hook(),
    {
        if request.is_query() {
            return self.process_query(vault, dst, &request, overridden);
        }
        if self.screen(&dst, &request, overridden) {
            let response = execute(vault, self.full_id.public_id(), &dst, &request);
            let client_auth = self.client_auth;
            self.send_response(delay_of(&request), source_of(&dst, &request), client_auth, response);
        }
        Ok(())
    }

    /// Whether `after` and `proceed` are what looking at a request, before
    /// the store is touched, makes of the session `self`: the hook was asked,
    /// unless the request is a malformed change of owner, and the request
    /// either gets to the store, which uses up an operation, or is turned
    /// away.
    pub open spec fn intercepted(
        &self,
        dst: Authority,
        request: RequestView,
        after: Routing<H>,
        proceed: bool,
    ) -> bool {
        &&& after.has_request_hook() == self.has_request_hook()
        &&& malformed(request) ==> !proceed && after@ == refused(self@, dst, request, None)
        &&& !malformed(request) ==> exists|overridden: Option<ResponseView>|
            self.hook_may_answer(request, overridden) && proceed == #[trigger] admitted(
                self@,
                request,
                overridden,
            ) && after@ == (if proceed {
                self@.counted_down()
            } else {
                refused(self@, dst, request, overridden)
            })
    }

    /// Looks at a request before the store is touched: asks the hook, then
    /// looks whether the network answers and whether an operation is left.
    /// Says whether the request gets to the store. Where it does not, the
    /// response that says so, if there is one, is made due.
    ///
    /// A request that gets to the store is to be brought to its end by
    /// `complete` or `complete_query`.
    pub fn intercept(&mut self, dst: &Authority, request: &Request) -> (proceed: bool)
        ensures
            old(self).intercepted(*dst, request@, *final(self), proceed),
    {
        if is_malformed(request) {
            return self.screen(dst, request, None);
        }
        let overridden = self.consult_hook(request);
        self.screen(dst, request, overridden)
    }

    /// Brings a request that only reads the store to its end: answers it
    /// from the store and makes the response due.
    pub fn complete_query(&mut self, vault: &Vault, dst: Authority, request: Request) -> (r:
        Result<(), InterfaceError>)
        ensures
            r == Ok::<(), InterfaceError>(()),
            final(self)@ == old(self)@.delivered(
                response_delay(request@),
                response_source(dst, request@),
                answered(vault@, dst, request@),
            ),
            final(self).hook() == old(self).hook(),
    {
        let response = answer_query(vault, &dst, &request);
        let client_auth = self.client_auth;
        self.send_response(delay_of(&request), source_of(&dst, &request), client_auth, response);
        Ok(())
    }

    /// Brings a request to its end: does to the store what it asks for and
    /// makes the response due.
    pub fn complete(&mut self, vault: &mut Vault, dst: Authority, request: Request) -> (r: Result<
        (),
        InterfaceError,
    >)
        ensures
            r == Ok::<(), InterfaceError>(()),
            final(self)@ == old(self)@.delivered(
                response_delay(request@),
                response_source(dst, request@),
                executed(
                    old(vault)@,
                    old(self)@.client_key,
                    old(self)@.account_name,
                    dst,
                    request@,
                ).0,
            ),
            final(vault)@ == executed(
                old(vault)@,
                old(self)@.client_key,
                old(self)@.account_name,
                dst,
                request@,
            ).1,
            final(self).hook() == old(self).hook(),
    {
        let response = execute(vault, self.full_id.public_id(), &dst, &request);
        let client_auth = self.client_auth;
        self.send_response(delay_of(&request), source_of(&dst, &request), client_auth, response);
        Ok(())
    }

    /// Asks the hook about a request that only reads the store, and
    /// processes the request.
    fn handle_query(&mut self, vault: &Vault, dst: Authority, request: Request) -> (r: Result<
        (),
        InterfaceError,
    >)
        requires
            request@.is_query(),
        ensures
            r == Ok::<(), InterfaceError>(()),
            old(self).handled(vault@, dst, request@, *final(self), vault@),
    {
        let overridden = self.consult_hook(&request);
        self.process_query(vault, dst, &request, overridden)
    }

    /// Asks the hook about a request, and processes the request.
    fn handle(&mut self, vault: &mut Vault, dst: Authority, request: Request) -> (r: Result<
        (),
        InterfaceError,
    >)
        ensures
            r == Ok::<(), InterfaceError>(()),
            old(self).handled(old(vault)@, dst, request@, *final(self), final(vault)@),
    {
        let overridden = self.consult_hook(&request);
        self.process(vault, dst, request, overridden)
    }

    /// Asks for the counters of the account that `dst` manages.
    pub fn get_account_info(&mut self, vault: &Vault, dst: Authority, msg_id: MessageId) -> (r:
        Result<(), InterfaceError>)
        ensures
            r == Ok::<(), InterfaceError>(()),
            old(self).handled(vault@, dst, RequestView::GetAccountInfo(msg_id), *final(self), vault@),
    {
        self.handle_query(vault, dst, Request::GetAccountInfo(msg_id))
    }

    /// Puts an immutable blob into the store. A blob that is there already
    /// is not stored again, and the put succeeds.
    pub fn put_idata(
        &mut self,
        vault: &mut Vault,
        dst: Authority,
        data: ImmutableData,
        msg_id: MessageId,
    ) -> (r: Result<(), InterfaceError>)
        ensures
            r == Ok::<(), InterfaceError>(()),
            old(self).handled(
                old(vault)@,
                dst,
                RequestView::PutIData { data: data@, msg_id },
                *final(self),
                final(vault)@,
            ),
    {
        self.handle(vault, dst, Request::PutIData { data, msg_id })
    }


    /// Asks for the immutable blob named `name`.
    pub fn get_idata(
        &mut self,
        vault: &Vault,
        dst: Authority,
        name: XorName,
        msg_id: MessageId,
    ) -> (r: Result<(), InterfaceError>)
        ensures
            r == Ok::<(), InterfaceError>(()),
            old(self).handled(
                vault@,
                dst,
                RequestView::GetIData { name, msg_id },
                *final(self),
                vault@,
            ),
    {
        self.handle_query(vault, dst, Request::GetIData { name, msg_id })
    }

    /// Puts a new mutable record into the store. With the tag of a session
    /// packet this creates the account of `dst`.
    pub fn put_mdata(
        &mut self,
        vault: &mut Vault,
        dst: Authority,
        data: MutableData,
        msg_id: MessageId,
        requester: PublicKey,
    ) -> (r: Result<(), InterfaceError>)
        ensures
            r == Ok::<(), InterfaceError>(()),
            old(self).handled(
                old(vault)@,
                dst,
                RequestView::PutMData { data: data@, msg_id, requester },
                *final(self),
                final(vault)@,
            ),
    {
        self.handle(vault, dst, Request::PutMData { data, msg_id, requester })
    }


    /// Asks for the version of a mutable record.
    pub fn get_mdata_version(
        &mut self,
        vault: &Vault,
        dst: Authority,
        name: XorName,
        tag: u64,
        msg_id: MessageId,
    ) -> (r: Result<(), InterfaceError>)
        ensures
            r == Ok::<(), InterfaceError>(()),
            old(self).handled(
                vault@,
                dst,
                RequestView::GetMDataVersion { name, tag, msg_id },
                *final(self),
                vault@,
            ),
    {
        self.handle_query(vault, dst, Request::GetMDataVersion { name, tag, msg_id })
    }

    /// Asks for a whole mutable record.
    pub fn get_mdata(
        &mut self,
        vault: &Vault,
        dst: Authority,
        name: XorName,
        tag: u64,
        msg_id: MessageId,
    ) -> (r: Result<(), InterfaceError>)
        ensures
            r == Ok::<(), InterfaceError>(()),
            old(self).handled(
                vault@,
                dst,
                RequestView::GetMData { name, tag, msg_id },
                *final(self),
                vault@,
            ),
    {
        self.handle_query(vault, dst, Request::GetMData { name, tag, msg_id })
    }

    /// Asks for a mutable record without its entries.
    pub fn get_mdata_shell(
        &mut self,
        vault: &Vault,
        dst: Authority,
        name: XorName,
        tag: u64,
        msg_id: MessageId,
    ) -> (r: Result<(), InterfaceError>)
        ensures
            r == Ok::<(), InterfaceError>(()),
            old(self).handled(
                vault@,
                dst,
                RequestView::GetMDataShell { name, tag, msg_id },
                *final(self),
                vault@,
            ),
    {
        self.handle_query(vault, dst, Request::GetMDataShell { name, tag, msg_id })
    }

    /// Asks for the entries of a mutable record.
    pub fn list_mdata_entries(
        &mut self,
        vault: &Vault,
        dst: Authority,
        name: XorName,
        tag: u64,
        msg_id: MessageId,
    ) -> (r: Result<(), InterfaceError>)
        ensures
            r == Ok::<(), InterfaceError>(()),
            old(self).handled(
                vault@,
                dst,
                RequestView::ListMDataEntries { name, tag, msg_id },
                *final(self),
                vault@,
            ),
    {
        self.handle_query(vault, dst, Request::ListMDataEntries { name, tag, msg_id })
    }

    /// Asks for the keys of the entries of a mutable record.
    pub fn list_mdata_keys(
        &mut self,
        vault: &Vault,
        dst: Authority,
        name: XorName,
        tag: u64,
        msg_id: MessageId,
    ) -> (r: Result<(), InterfaceError>)
        ensures
            r == Ok::<(), InterfaceError>(()),
            old(self).handled(
                vault@,
                dst,
                RequestView::ListMDataKeys { name, tag, msg_id },
                *final(self),
                vault@,
            ),
    {
        self.handle_query(vault, dst, Request::ListMDataKeys { name, tag, msg_id })
    }

    /// Asks for the values of the entries of a mutable record.
    pub fn list_mdata_values(
        &mut self,
        vault: &Vault,
        dst: Authority,
        name: XorName,
        tag: u64,
        msg_id: MessageId,
    ) -> (r: Result<(), InterfaceError>)
        ensures
            r == Ok::<(), InterfaceError>(()),
            old(self).handled(
                vault@,
                dst,
                RequestView::ListMDataValues { name, tag, msg_id },
                *final(self),
                vault@,
            ),
    {
        self.handle_query(vault, dst, Request::ListMDataValues { name, tag, msg_id })
    }

    /// Asks for the value of one entry of a mutable record.
    pub fn get_mdata_value(
        &mut self,
        vault: &Vault,
        dst: Authority,
        name: XorName,
        tag: u64,
        key: Vec<u8>,
        msg_id: MessageId,
    ) -> (r: Result<(), InterfaceError>)
        ensures
            r == Ok::<(), InterfaceError>(()),
            old(self).handled(
                vault@,
                dst,
                RequestView::GetMDataValue { name, tag, key: key@, msg_id },
                *final(self),
                vault@,
            ),
    {
        self.handle_query(vault, dst, Request::GetMDataValue { name, tag, key, msg_id })
    }

    /// Changes entries of a mutable record: all of `actions`, or none.
    pub fn mutate_mdata_entries(
        &mut self,
        vault: &mut Vault,
        dst: Authority,
        name: XorName,
        tag: u64,
        actions: VecMap<Vec<u8>, EntryAction>,
        msg_id: MessageId,
        requester: PublicKey,
    ) -> (r: Result<(), InterfaceError>)
        ensures
            r == Ok::<(), InterfaceError>(()),
            old(self).handled(
                old(vault)@,
                dst,
                RequestView::MutateMDataEntries {
                    name,
                    tag,
                    actions: actions@,
                    action_order: actions.key_seq(),
                    msg_id,
                    requester,
                },
                *final(self),
                final(vault)@,
            ),
    {
        self.handle(vault, dst, Request::MutateMDataEntries { name, tag, actions, msg_id, requester })
    }


    /// Asks for the permissions of a mutable record.
    pub fn list_mdata_permissions(
        &mut self,
        vault: &Vault,
        dst: Authority,
        name: XorName,
        tag: u64,
        msg_id: MessageId,
    ) -> (r: Result<(), InterfaceError>)
        ensures
            r == Ok::<(), InterfaceError>(()),
            old(self).handled(
                vault@,
                dst,
                RequestView::ListMDataPermissions { name, tag, msg_id },
                *final(self),
                vault@,
            ),
    {
        self.handle_query(vault, dst, Request::ListMDataPermissions { name, tag, msg_id })
    }

    /// Asks for the permissions that a mutable record gives to `user`.
    pub fn list_mdata_user_permissions(
        &mut self,
        vault: &Vault,
        dst: Authority,
        name: XorName,
        tag: u64,
        user: User,
        msg_id: MessageId,
    ) -> (r: Result<(), InterfaceError>)
        ensures
            r == Ok::<(), InterfaceError>(()),
            old(self).handled(
                vault@,
                dst,
                RequestView::ListMDataUserPermissions { name, tag, user, msg_id },
                *final(self),
                vault@,
            ),
    {
        self.handle_query(vault, dst, Request::ListMDataUserPermissions { name, tag, user, msg_id })
    }

    /// Sets the permissions that a mutable record gives to `user`.
    pub fn set_mdata_user_permissions(
        &mut self,
        vault: &mut Vault,
        dst: Authority,
        name: XorName,
        tag: u64,
        user: User,
        permissions: PermissionSet,
        version: u64,
        msg_id: MessageId,
        requester: PublicKey,
    ) -> (r: Result<(), InterfaceError>)
        ensures
            r == Ok::<(), InterfaceError>(()),
            old(self).handled(
                old(vault)@,
                dst,
                RequestView::SetMDataUserPermissions {
                    name,
                    tag,
                    user,
                    permissions,
                    version,
                    msg_id,
                    requester,
                },
                *final(self),
                final(vault)@,
            ),
    {
        self.handle(
            vault,
            dst,
            Request::SetMDataUserPermissions {
                name,
                tag,
                user,
                permissions,
                version,
                msg_id,
                requester,
            },
        )
    }

    /// Takes away the permissions that a mutable record gives to `user`.
    pub fn del_mdata_user_permissions(
        &mut self,
        vault: &mut Vault,
        dst: Authority,
        name: XorName,
        tag: u64,
        user: User,
        version: u64,
        msg_id: MessageId,
        requester: PublicKey,
    ) -> (r: Result<(), InterfaceError>)
        ensures
            r == Ok::<(), InterfaceError>(()),
            old(self).handled(
                old(vault)@,
                dst,
                RequestView::DelMDataUserPermissions { name, tag, user, version, msg_id, requester },
                *final(self),
                final(vault)@,
            ),
    {
        self.handle(
            vault,
            dst,
            Request::DelMDataUserPermissions { name, tag, user, version, msg_id, requester },
        )
    }

    /// Gives a mutable record to a new owner. Only the owner can do this.
    ///
    /// There has to be exactly one new owner. If not, the request is turned
    /// down at once: the hook is not asked, and no operation is used up.
    pub fn change_mdata_owner(
        &mut self,
        vault: &mut Vault,
        dst: Authority,
        name: XorName,
        tag: u64,
        new_owners: VecSet<PublicKey>,
        version: u64,
        msg_id: MessageId,
    ) -> (r: Result<(), InterfaceError>)
        ensures
            r == Ok::<(), InterfaceError>(()),
            new_owners@.len() == 1 ==> old(self).handled(
                old(vault)@,
                dst,
                RequestView::ChangeMDataOwner { name, tag, new_owners: new_owners@, version, msg_id },
                *final(self),
                final(vault)@,
            ),
            new_owners@.len() != 1 ==> final(vault)@ == old(vault)@ && final(self)@
                == old(self)@.delivered(
                CHANGE_MDATA_OWNER_DELAY_MS,
                dst,
                ResponseView::ChangeMDataOwner { res: Err(ClientError::InvalidOwners), msg_id },
            ) && final(self).hook() == old(self).hook(),
    {
        let request = Request::ChangeMDataOwner { name, tag, new_owners, version, msg_id };
        if is_malformed(&request) {
            return self.process(vault, dst, request, None);
        }
        self.handle(vault, dst, request)
    }

    /// Asks for the keys that the account of `dst` has authorised, and for
    /// the version of that list.
    pub fn list_auth_keys_and_version(&mut self, vault: &Vault, dst: Authority, msg_id: MessageId) -> (r:
        Result<(), InterfaceError>)
        ensures
            r == Ok::<(), InterfaceError>(()),
            old(self).handled(
                vault@,
                dst,
                RequestView::ListAuthKeysAndVersion(msg_id),
                *final(self),
                vault@,
            ),
    {
        self.handle_query(vault, dst, Request::ListAuthKeysAndVersion(msg_id))
    }

    /// Authorises `key` for the account of `dst`.
    pub fn ins_auth_key(
        &mut self,
        vault: &mut Vault,
        dst: Authority,
        key: PublicKey,
        version: u64,
        msg_id: MessageId,
    ) -> (r: Result<(), InterfaceError>)
        ensures
            r == Ok::<(), InterfaceError>(()),
            old(self).handled(
                old(vault)@,
                dst,
                RequestView::InsAuthKey { key, version, msg_id },
                *final(self),
                final(vault)@,
            ),
    {
        self.handle(vault, dst, Request::InsAuthKey { key, version, msg_id })
    }

    /// Takes the authorisation of `key` for the account of `dst` away.
    pub fn del_auth_key(
        &mut self,
        vault: &mut Vault,
        dst: Authority,
        key: PublicKey,
        version: u64,
        msg_id: MessageId,
    ) -> (r: Result<(), InterfaceError>)
        ensures
            r == Ok::<(), InterfaceError>(()),
            old(self).handled(
                old(vault)@,
                dst,
                RequestView::DelAuthKey { key, version, msg_id },
                *final(self),
                final(vault)@,
            ),
    {
        self.handle(vault, dst, Request::DelAuthKey { key, version, msg_id })
    }

    /// Sets the hook that is asked about every request from now on, in place
    /// of any that was set.
    pub fn set_request_hook(&mut self, hook: H)
        ensures
            final(self).hook() == Some(hook),
            final(self)@ == old(self)@,
    {
        self.request_hook = Some(hook);
    }

    /// Takes the hook away.
    pub fn remove_request_hook(&mut self)
        ensures
            !final(self).has_request_hook(),
            final(self)@ == old(self)@,
    {
        self.request_hook = None;
    }

    /// Sets how many operations the session has left, or that there is no
    /// limit.
    pub fn set_network_limits(&mut self, max_ops_count: Option<u64>)
        ensures
            final(self)@ == (SessionView { countdown: max_ops_count, ..old(self)@ }),
            final(self).hook() == old(self).hook(),
    {
        self.max_ops_countdown = max_ops_count;
    }

    /// Makes the session say that it ended, if it has not said so yet.
    pub fn simulate_disconnect(&mut self)
        ensures
            final(self)@ == old(self)@.disconnected(),
            final(self).hook() == old(self).hook(),
    {
        if !self.terminated {
            self.send_event(DEFAULT_DELAY_MS, Event::Terminate);
            self.terminated = true;
        }
    }

    /// Makes the session behave like a network that never answers, or
    /// stops it doing so.
    pub fn set_simulate_timeout(&mut self, enable: bool)
        ensures
            final(self)@ == (SessionView { timeout: enable, ..old(self)@ }),
            final(self).hook() == old(self).hook(),
    {
        self.timeout_simulation = enable;
    }

    /// Takes out the events that are due to the client, oldest first.
    pub fn take_events(&mut self) -> (events: Vec<Delivery>)
        ensures
            delivery_views(events@) == old(self)@.outbox,
            final(self)@ == (SessionView { outbox: Seq::empty(), ..old(self)@ }),
            final(self).hook() == old(self).hook(),
    {
        let mut events: Vec<Delivery> = Vec::new();
        core::mem::swap(&mut self.outbox, &mut events);
        proof {
            assert(delivery_views(self.outbox@) =~= Seq::<DeliveryView>::empty());
        }
        events
    }

    /// Ends the session. It says that it ended, if it had not said so, and
    /// hands out the events that are still due to the client.
    pub fn shutdown(self) -> (events: Vec<Delivery>)
        ensures
            delivery_views(events@) == self@.disconnected().outbox,
    {
        let mut session = self;
        session.simulate_disconnect();
        session.take_events()
    }
}

impl Routing<NoHook> {
    /// The way in which a session without a network gets in touch: with
    /// nobody.
    pub fn bootstrap_config() -> (r: Result<BootstrapConfig, InterfaceError>)
        ensures
            r is Ok,
            r->Ok_0.hard_coded_contacts@ == Seq::<XorName>::empty(),
    {
        Ok(BootstrapConfig { hard_coded_contacts: Vec::new() })
    }
}

} // verus!
