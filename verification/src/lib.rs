//! Verified core of a graphical traceroute tool: ICMP echo packets and their
//! Internet checksum, reply matching, the hop-by-hop probing state machine,
//! the location cache and the state of the tracing console.

pub mod icmp;
pub mod traceroute;
pub mod geoip;
pub mod firewall;
pub mod gui;
