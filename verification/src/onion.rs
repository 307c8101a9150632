//! The Tor address family.

use vstd::prelude::*;
use crate::zone::{NetZoneAddress, NetworkZone};

verus! {

/// A Tor endpoint: the identifier of an onion service and a port.
#[derive(Clone, Copy, Debug, PartialEq, Eq, Hash)]
pub struct OnionAddr {
    /// The 56 characters that name the onion service.
    pub identifier: [u8; 56],
    /// Virtual port of the service.
    pub port: u16,
}

impl NetZoneAddress for OnionAddr {
    /// An onion peer is banned by its service identifier.
    type BanID = [u8; 56];

    open spec fn port_of(&self) -> u16 {
        self.port
    }

    open spec fn with_port(&self, port: u16) -> Self {
        OnionAddr { identifier: self.identifier, port }
    }

    open spec fn ban_key(&self) -> [u8; 56] {
        self.identifier
    }

    open spec fn canonical(&self) -> Self {
        *self
    }

    open spec fn admissible(&self) -> bool {
        true
    }

    fn set_port(&mut self, port: u16) {
        self.port = port;
    }

    fn ban_id(&self) -> (id: [u8; 56]) {
        self.identifier
    }

    fn make_canonical(&mut self) {
    }

    fn should_add_to_peer_list(&self) -> (eligible: bool) {
        true
    }

    proof fn port_after_with_port(&self, port: u16) {
    }

    proof fn with_port_touches_only_the_port(&self, first: u16, second: u16) {
    }

    proof fn canonical_is_idempotent(&self) {
    }
}

/// The Tor zone.
#[derive(Clone, Copy)]
pub struct Tor;

impl NetworkZone for Tor {
    const NAME: &'static str = "Tor";

    const CHECK_NODE_ID: bool = true;

    const BROADCAST_OWN_ADDR: bool = false;

    type Addr = OnionAddr;
}

/// The policy of the Tor zone: node identities are checked, and the node's
/// own address is not advertised.
pub proof fn tor_policy()
    ensures
        Tor::NAME@ == "Tor"@,
        Tor::CHECK_NODE_ID,
        !Tor::BROADCAST_OWN_ADDR,
{
}

} // verus!
