//! Statistics over a packet capture: how many records, and how many bytes,
//! match one filter on a link-layer address, a network-layer address or a
//! transport-layer port.
//!
//! The capture is handed over as bytes. Every record is decoded only as deep
//! as the filter asks (link, then network, then transport), and the scan stops
//! at the first record that cannot be decoded.

pub mod cli;
pub mod pcap;
