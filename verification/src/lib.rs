//! Network zones of a peer-to-peer node: the address families, the per-zone
//! policy, and the rules by which the zones of a node are brought up.

pub mod b64;
pub mod clearnet;
pub mod decimal;
pub mod garlic_addr;
pub mod onion;
pub mod peer_id;
pub mod resolver;
pub mod startup;
pub mod text;
pub mod transport;
pub mod wire;
pub mod zone;
