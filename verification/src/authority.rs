//! Identities of clients and the authorities that requests are addressed to.

use crate::name::{key_name, PublicKey, XorName};
use vstd::prelude::*;

verus! {

/// The public part of a client's identity: its signing key, and the name
/// that the key hashes to.
#[derive(Clone, Copy, Debug, PartialEq, Eq)]
pub struct PublicId {
    name: XorName,
    signing_public_key: PublicKey,
}

impl PublicId {
    /// The name is the hash of the key.
    #[verifier::type_invariant]
    pub closed spec fn wf(&self) -> bool {
        self.name == key_name(self.signing_public_key)
    }

    /// The signing key.
    pub closed spec fn spec_signing_public_key(&self) -> PublicKey {
        self.signing_public_key
    }

    /// The name.
    pub closed spec fn spec_name(&self) -> XorName {
        self.name
    }

    /// The identity that belongs to `signing_public_key`.
    pub fn new(signing_public_key: PublicKey) -> (id: PublicId)
        ensures
            id.spec_signing_public_key() == signing_public_key,
            id.spec_name() == key_name(signing_public_key),
    {
        PublicId { name: XorName::of_key(&signing_public_key), signing_public_key }
    }

    /// The name: the hash of the signing key.
    pub fn name(&self) -> (name: &XorName)
        ensures
            *name == self.spec_name(),
            *name == key_name(self.spec_signing_public_key()),
    {
        proof {
            use_type_invariant(self);
        }
        &self.name
    }

    /// The signing key.
    pub fn signing_public_key(&self) -> (key: &PublicKey)
        ensures
            *key == self.spec_signing_public_key(),
    {
        &self.signing_public_key
    }
}

/// A client's own identity.
#[derive(Clone, Copy, Debug, PartialEq, Eq)]
pub struct FullId {
    public_id: PublicId,
}

impl FullId {
    /// The public part.
    pub closed spec fn spec_public_id(&self) -> PublicId {
        self.public_id
    }

    /// The identity of the client that signs with `signing_public_key`.
    pub fn with_signing_key(signing_public_key: PublicKey) -> (id: FullId)
        ensures
            id.spec_public_id().spec_signing_public_key() == signing_public_key,
            id.spec_public_id().spec_name() == key_name(signing_public_key),
    {
        FullId { public_id: PublicId::new(signing_public_key) }
    }

    /// The public part.
    pub fn public_id(&self) -> (id: &PublicId)
        ensures
            *id == self.spec_public_id(),
    {
        &self.public_id
    }
}

/// Whom a message is addressed to, or comes from.
#[derive(Clone, Copy, Debug, PartialEq, Eq)]
pub enum Authority {
    /// The group that manages the account of the client with that name.
    ClientManager(XorName),
    /// The group that manages the data with that name.
    NaeManager(XorName),
    /// The group that manages the node with that name.
    NodeManager(XorName),
    /// The node with that name.
    ManagedNode(XorName),
    /// A client, reached through the node named.
    Client { client_id: PublicId, proxy_node_name: XorName },
}

impl View for Authority {
    type V = Authority;

    open spec fn view(&self) -> Authority {
        *self
    }
}

impl Authority {
    /// The name that the authority is about.
    pub open spec fn spec_name(&self) -> XorName {
        match *self {
            Authority::ClientManager(name) => name,
            Authority::NaeManager(name) => name,
            Authority::NodeManager(name) => name,
            Authority::ManagedNode(name) => name,
            Authority::Client { client_id, proxy_node_name } => client_id.spec_name(),
        }
    }

    /// The name that the authority is about.
    #[verifier::when_used_as_spec(spec_name)]
    pub fn name(&self) -> (name: XorName)
        ensures
            name == self.spec_name(),
    {
        match self {
            Authority::ClientManager(name) => *name,
            Authority::NaeManager(name) => *name,
            Authority::NodeManager(name) => *name,
            Authority::ManagedNode(name) => *name,
            Authority::Client { client_id, proxy_node_name } => *client_id.name(),
        }
    }

    /// Whether the authority is a client.
    pub fn is_client(&self) -> (r: bool)
        ensures
            r == (*self is Client),
    {
        match self {
            Authority::Client { .. } => true,
            _ => false,
        }
    }
}

} // verus!
