//! A VPN kill-switch rule engine: models the firewall exceptions a tunnel
//! needs, translates them into ordered iptables command batches for the
//! pre-connect, post-connect and disconnect phases of a VPN session, and
//! drives those batches through executors with fail-fast error propagation.

pub mod backend;
pub mod exception;
pub mod executor;
pub mod iptables;
pub mod leaks;
pub mod lifecycle;
pub mod rules;
