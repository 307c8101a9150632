//! Peer identifiers, within one zone and across zones.

use vstd::prelude::*;
use vstd::std_specs::convert::{FromSpec, FromSpecImpl};
use crate::clearnet::ClearnetAddr;
use crate::garlic_addr::GarlicAddr;
use crate::onion::OnionAddr;

verus! {

/// The identifier of one connected peer within one zone: its address where
/// that is known, else a number drawn for the connection.
#[derive(Clone, Copy, Debug, PartialEq, Eq, Hash)]
pub enum InternalPeerID<A> {
    /// A peer with a known address.
    KnownAddr(A),
    /// A peer that did not disclose an address.
    Unknown(u128),
}

/// The identifier of a peer on any network.
#[derive(Clone, Debug, PartialEq, Eq, Hash)]
pub enum CrossNetworkInternalPeerId {
    /// A clearnet peer.
    ClearNet(InternalPeerID<ClearnetAddr>),
    /// A Tor onion peer.
    Tor(InternalPeerID<OnionAddr>),
    /// An I2P garlic peer.
    I2p(InternalPeerID<GarlicAddr>),
}

impl From<InternalPeerID<ClearnetAddr>> for CrossNetworkInternalPeerId {
    fn from(addr: InternalPeerID<ClearnetAddr>) -> (id: Self) {
        Self::ClearNet(addr)
    }
}

impl FromSpecImpl<InternalPeerID<ClearnetAddr>> for CrossNetworkInternalPeerId {
    open spec fn obeys_from_spec() -> bool {
        true
    }

    open spec fn from_spec(addr: InternalPeerID<ClearnetAddr>) -> Self {
        Self::ClearNet(addr)
    }
}

impl From<InternalPeerID<OnionAddr>> for CrossNetworkInternalPeerId {
    fn from(addr: InternalPeerID<OnionAddr>) -> (id: Self) {
        Self::Tor(addr)
    }
}

impl FromSpecImpl<InternalPeerID<OnionAddr>> for CrossNetworkInternalPeerId {
    open spec fn obeys_from_spec() -> bool {
        true
    }

    open spec fn from_spec(addr: InternalPeerID<OnionAddr>) -> Self {
        Self::Tor(addr)
    }
}

impl From<InternalPeerID<GarlicAddr>> for CrossNetworkInternalPeerId {
    fn from(addr: InternalPeerID<GarlicAddr>) -> (id: Self) {
        Self::I2p(addr)
    }
}

impl FromSpecImpl<InternalPeerID<GarlicAddr>> for CrossNetworkInternalPeerId {
    open spec fn obeys_from_spec() -> bool {
        true
    }

    open spec fn from_spec(addr: InternalPeerID<GarlicAddr>) -> Self {
        Self::I2p(addr)
    }
}

/// The cross-network identifier of a clearnet peer.
pub open spec fn of_clearnet(id: InternalPeerID<ClearnetAddr>) -> CrossNetworkInternalPeerId {
    <CrossNetworkInternalPeerId as FromSpec<InternalPeerID<ClearnetAddr>>>::from_spec(id)
}

/// The cross-network identifier of a Tor peer.
pub open spec fn of_tor(id: InternalPeerID<OnionAddr>) -> CrossNetworkInternalPeerId {
    <CrossNetworkInternalPeerId as FromSpec<InternalPeerID<OnionAddr>>>::from_spec(id)
}

/// The cross-network identifier of an I2P peer.
pub open spec fn of_i2p(id: InternalPeerID<GarlicAddr>) -> CrossNetworkInternalPeerId {
    <CrossNetworkInternalPeerId as FromSpec<InternalPeerID<GarlicAddr>>>::from_spec(id)
}

/// Identifiers of different zones never meet: whatever the three peers are,
/// their cross-network identifiers are three different values.
pub proof fn zones_never_collide(
    clearnet: InternalPeerID<ClearnetAddr>,
    tor: InternalPeerID<OnionAddr>,
    i2p: InternalPeerID<GarlicAddr>,
)
    ensures
        of_clearnet(clearnet) != of_tor(tor),
        of_clearnet(clearnet) != of_i2p(i2p),
        of_tor(tor) != of_i2p(i2p),
{
}

/// Within a zone, two peers have the same cross-network identifier exactly
/// where they have the same identifier.
pub proof fn wrapping_is_faithful(
    clearnet: (InternalPeerID<ClearnetAddr>, InternalPeerID<ClearnetAddr>),
    tor: (InternalPeerID<OnionAddr>, InternalPeerID<OnionAddr>),
    i2p: (InternalPeerID<GarlicAddr>, InternalPeerID<GarlicAddr>),
)
    ensures
        clearnet.0 == clearnet.1 <==> of_clearnet(clearnet.0) == of_clearnet(clearnet.1),
        tor.0 == tor.1 <==> of_tor(tor.0) == of_tor(tor.1),
        i2p.0 == i2p.1 <==> of_i2p(i2p.0) == of_i2p(i2p.1),
{
}

} // verus!
