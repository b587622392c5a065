//! Fixed-layout header codecs, one per protocol layer.

pub mod eth;
pub mod ip;
pub mod pcap;
pub mod tcp;
pub mod udp;
