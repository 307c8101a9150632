//! The two capabilities that make a network usable by the protocol engine:
//! what an address can do, and what policy a zone fixes.

use vstd::prelude::*;
use crate::clearnet::{clearnet_policy, ClearNet};
use crate::garlic_addr::{i2p_policy, I2p};
use crate::onion::{tor_policy, Tor};

verus! {

/// What every address family offers to the zone-agnostic protocol engine.
///
/// An address is seen as a port plus everything else. `with_port` replaces
/// the port and nothing but the port, which the three port laws below pin
/// down; `canonical` picks one representative among equivalent spellings of
/// the same endpoint.
pub trait NetZoneAddress: Sized {
    /// The key under which a peer of this family is banned.
    type BanID;

    /// The port this address carries.
    spec fn port_of(&self) -> u16;

    /// This address with its port replaced.
    spec fn with_port(&self, port: u16) -> Self;

    /// The ban key of this address.
    spec fn ban_key(&self) -> Self::BanID;

    /// The canonical spelling of this address.
    spec fn canonical(&self) -> Self;

    /// Whether this address may be stored in, and gossiped from, a peer list.
    spec fn admissible(&self) -> bool;

    /// Replaces the port in place.
    fn set_port(&mut self, port: u16)
        ensures
            *final(self) == old(self).with_port(port),
    ;

    /// Derives the key used to apply and to look up bans.
    fn ban_id(&self) -> (id: Self::BanID)
        ensures
            id == self.ban_key(),
    ;

    /// Puts the address into its canonical spelling.
    fn make_canonical(&mut self)
        ensures
            *final(self) == old(self).canonical(),
    ;

    /// Decides whether a received address is eligible for the peer list.
    fn should_add_to_peer_list(&self) -> (eligible: bool)
        ensures
            eligible == self.admissible(),
    ;

    /// Reading the port after replacing it gives the new port.
    proof fn port_after_with_port(&self, port: u16)
        ensures
            self.with_port(port).port_of() == port,
    ;

    /// Replacing the port by the one already there changes nothing, and of
    /// two replacements only the last counts: the port is the only part of
    /// an address that `with_port` touches.
    proof fn with_port_touches_only_the_port(&self, first: u16, second: u16)
        ensures
            self.with_port(self.port_of()) == *self,
            self.with_port(first).with_port(second) == self.with_port(second),
    ;

    /// Canonicalizing twice is the same as canonicalizing once.
    proof fn canonical_is_idempotent(&self)
        ensures
            self.canonical().canonical() == self.canonical(),
    ;
}

/// A network zone: one address family and the policy that goes with it.
pub trait NetworkZone: Sized {
    /// Stable name of the zone, for logs and metrics.
    const NAME: &'static str;

    /// Whether a handshake must validate the node identity the peer claims.
    const CHECK_NODE_ID: bool;

    /// Whether the node advertises its own address to peers of this zone.
    const BROADCAST_OWN_ADDR: bool;

    /// The address family of the zone.
    type Addr: NetZoneAddress;
}

/// The policy of the three zones: clearnet and Tor check the node identity
/// that a peer claims and keep their own address to themselves; I2P does
/// not check identities and does advertise its own address.
pub proof fn zone_policies()
    ensures
        ClearNet::CHECK_NODE_ID && !ClearNet::BROADCAST_OWN_ADDR,
        Tor::CHECK_NODE_ID && !Tor::BROADCAST_OWN_ADDR,
        !I2p::CHECK_NODE_ID && I2p::BROADCAST_OWN_ADDR,
{
    clearnet_policy();
    tor_policy();
    i2p_policy();
}

} // verus!
