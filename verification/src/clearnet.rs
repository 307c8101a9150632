//! The clearnet address family.

use vstd::prelude::*;
use crate::zone::{NetZoneAddress, NetworkZone};

verus! {

/// An IP address of either version.
#[derive(Clone, Copy, Debug, PartialEq, Eq, Hash)]
pub enum IpAddress {
    V4([u8; 4]),
    V6([u8; 16]),
}

/// A clearnet endpoint: an IP address and a port.
#[derive(Clone, Copy, Debug, PartialEq, Eq, Hash)]
pub struct ClearnetAddr {
    pub ip: IpAddress,
    pub port: u16,
}

/// Whether sixteen bytes spell an IPv4 address inside IPv6: ten zero bytes,
/// two bytes of `0xff`, then the four bytes of the IPv4 address.
pub open spec fn is_v4_mapped(bytes: Seq<u8>) -> bool {
    &&& bytes.len() == 16
    &&& forall|i: int| 0 <= i < 10 ==> bytes[i] == 0
    &&& bytes[10] == 0xff
    &&& bytes[11] == 0xff
}

/// The one spelling that stands for an IP address: an IPv4 address inside
/// IPv6 is spelled as IPv4, every other address as it is.
pub open spec fn canonical_ip(ip: IpAddress) -> IpAddress {
    match ip {
        IpAddress::V6(bytes) if is_v4_mapped(bytes@) => IpAddress::V4(
            [bytes[12], bytes[13], bytes[14], bytes[15]],
        ),
        _ => ip,
    }
}

impl IpAddress {
    /// The canonical spelling of the address.
    pub fn to_canonical(self) -> (ip: IpAddress)
        ensures
            ip == canonical_ip(self),
    {
        match self {
            IpAddress::V4(_) => self,
            IpAddress::V6(bytes) => {
                let mut i: usize = 0;
                while i < 10
                    invariant
                        i <= 10,
                        self == IpAddress::V6(bytes),
                        forall|j: int| 0 <= j < i ==> bytes@[j] == 0,
                    decreases 10 - i,
                {
                    if bytes[i] != 0 {
                        assert(!is_v4_mapped(bytes@)) by {
                            assert(bytes@[i as int] != 0);
                        }
                        return self;
                    }
                    i = i + 1;
                }
                if bytes[10] == 0xff && bytes[11] == 0xff {
                    IpAddress::V4([bytes[12], bytes[13], bytes[14], bytes[15]])
                } else {
                    self
                }
            },
        }
    }
}

impl NetZoneAddress for ClearnetAddr {
    /// A clearnet peer is banned by its host, whatever the port.
    type BanID = IpAddress;

    open spec fn port_of(&self) -> u16 {
        self.port
    }

    open spec fn with_port(&self, port: u16) -> Self {
        ClearnetAddr { ip: self.ip, port }
    }

    open spec fn ban_key(&self) -> IpAddress {
        self.ip
    }

    open spec fn canonical(&self) -> Self {
        ClearnetAddr { ip: canonical_ip(self.ip), port: self.port }
    }

    open spec fn admissible(&self) -> bool {
        true
    }

    fn set_port(&mut self, port: u16) {
        self.port = port;
    }

    fn ban_id(&self) -> (id: IpAddress) {
        self.ip
    }

    fn make_canonical(&mut self) {
        self.ip = self.ip.to_canonical();
    }

    fn should_add_to_peer_list(&self) -> (eligible: bool) {
        true
    }

    proof fn port_after_with_port(&self, port: u16) {
    }

    proof fn with_port_touches_only_the_port(&self, first: u16, second: u16) {
    }

    proof fn canonical_is_idempotent(&self) {
    }
}

/// The clearnet zone.
#[derive(Clone, Copy)]
pub struct ClearNet;

impl NetworkZone for ClearNet {
    const NAME: &'static str = "ClearNet";

    const CHECK_NODE_ID: bool = true;

    const BROADCAST_OWN_ADDR: bool = false;

    type Addr = ClearnetAddr;
}

/// The policy of the clearnet zone: node identities are checked, and the
/// node's own address is not advertised.
pub proof fn clearnet_policy()
    ensures
        ClearNet::NAME@ == "ClearNet"@,
        ClearNet::CHECK_NODE_ID,
        !ClearNet::BROADCAST_OWN_ADDR,
{
}

} // verus!
