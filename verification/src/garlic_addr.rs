//! The I2P address family.

use vstd::prelude::*;
use crate::zone::{NetZoneAddress, NetworkZone};

verus! {

/// What a [`GarlicAddr`] stands for: a destination digest and a port.
pub struct GarlicAddrView {
    pub destination: Seq<u8>,
    pub port: u16,
}

impl GarlicAddrView {
    /// Whether this is the content of an address: the digest has 32 bytes.
    pub open spec fn well_formed(self) -> bool {
        self.destination.len() == 32
    }
}

/// An I2P garlic address: the 32-byte digest of a destination, and the
/// virtual port of a service behind it.
///
/// The digest stands for the destination wherever peers are compared or
/// banned; two addresses with the same digest are the same peer.
#[derive(Clone, Copy, Debug, PartialEq, Eq, Hash)]
pub struct GarlicAddr {
    destination: [u8; 32],
    /// Virtual port of the service.
    pub port: u16,
}

impl View for GarlicAddr {
    type V = GarlicAddrView;

    closed spec fn view(&self) -> GarlicAddrView {
        GarlicAddrView { destination: self.destination@, port: self.port }
    }
}

impl GarlicAddr {
    /// Builds an address from a destination digest and a port.
    pub fn new(destination: [u8; 32], port: u16) -> (addr: Self)
        ensures
            addr@.destination == destination@,
            addr@.port == port,
    {
        Self { destination, port }
    }

    /// The destination digest.
    pub fn destination(&self) -> (digest: [u8; 32])
        ensures
            digest@ == self@.destination,
            digest == self.ban_key(),
    {
        self.destination
    }

    /// The virtual port.
    pub fn port(&self) -> (port: u16)
        ensures
            port == self@.port,
    {
        self.port
    }

    /// The content of an address is well formed: a digest is always 32
    /// bytes long.
    pub proof fn content_is_well_formed(&self)
        ensures
            self@.well_formed(),
    {
    }

    /// What the address capabilities mean for a garlic address: the port is
    /// the port, the ban key is the digest, and replacing the port leaves
    /// the digest alone.
    pub proof fn capabilities_in_content(&self, port: u16)
        ensures
            self.port_of() == self@.port,
            self.ban_key()@ == self@.destination,
            self.with_port(port)@ == (GarlicAddrView { destination: self@.destination, port }),
    {
    }

    /// Two addresses with the same content are the same address.
    pub proof fn view_is_injective(&self, other: &Self)
        requires
            self@ == other@,
        ensures
            *self == *other,
    {
        assert(self.destination =~= other.destination);
    }
}

impl NetZoneAddress for GarlicAddr {
    type BanID = [u8; 32];

    closed spec fn port_of(&self) -> u16 {
        self.port
    }

    closed spec fn with_port(&self, port: u16) -> Self {
        GarlicAddr { destination: self.destination, port }
    }

    closed spec fn ban_key(&self) -> [u8; 32] {
        self.destination
    }

    open spec fn canonical(&self) -> Self {
        *self
    }

    open spec fn admissible(&self) -> bool {
        true
    }

    fn set_port(&mut self, port: u16)
        ensures
            final(self)@.port == port,
            final(self)@.destination == old(self)@.destination,
    {
        self.port = port;
    }

    fn ban_id(&self) -> (id: [u8; 32])
        ensures
            id@ == self@.destination,
    {
        self.destination
    }

    fn make_canonical(&mut self) {
    }

    fn should_add_to_peer_list(&self) -> (eligible: bool) {
        true
    }

    proof fn port_after_with_port(&self, port: u16) {
    }

    proof fn with_port_touches_only_the_port(&self, first: u16, second: u16) {
    }

    proof fn canonical_is_idempotent(&self) {
    }
}

/// The I2P network zone.
#[derive(Clone, Copy)]
pub struct I2p;

impl NetworkZone for I2p {
    const NAME: &'static str = "I2p";

    const CHECK_NODE_ID: bool = false;

    const BROADCAST_OWN_ADDR: bool = true;

    type Addr = GarlicAddr;
}

/// The policy of the I2P zone: node identities are not checked, since
/// binding a peer to an identity would single it out, and the node's own
/// address is advertised, since that is how peers find it.
pub proof fn i2p_policy()
    ensures
        I2p::NAME@ == "I2p"@,
        !I2p::CHECK_NODE_ID,
        I2p::BROADCAST_OWN_ADDR,
{
}

} // verus!
