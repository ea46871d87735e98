//! A control-plane gateway library that unifies heterogeneous hypervisor
//! nodes (Proxmox VE and Incus) behind one authenticated HTTP/WebSocket API.
//!
//! The library holds the verified core: identifier parsing and
//! normalization, upstream request planning, response interpretation,
//! token extraction and authorization decisions, VNC ticket handling and
//! the WebSocket pump's forwarding rules. Network and database I/O live
//! outside the library and hand it plain values.

pub mod auth;
pub mod ident;
pub mod jsonval;
pub mod metrics;
pub mod model;
pub mod pct;
pub mod strutil;
pub mod urls;
pub mod vms;
pub mod vnc;
