//! A transparent TLS interception proxy core: a sinkhole DNS responder that
//! answers every address query with the loopback address, a handshake sniffer
//! that recovers the Server Name Indication from the first bytes of a TLS
//! connection, and a per-connection router that decides how such a connection
//! is resolved and relayed. All I/O stays outside this crate; every function
//! here computes on plain values and is verified.

pub mod addr;
pub mod dns;
pub mod router;
pub mod sniff;
pub mod wire;
