//! Control plane for a pair of locally spawned backend services: a service
//! lifecycle supervisor (PID files, process probes, health reconciliation,
//! start/stop orchestration) and an embedded reverse proxy (HTTP and
//! WebSocket forwarding with TLS-only upstreams, port fallback and access
//! logging). The decision logic is verified; the surrounding I/O hands the
//! library plain values and carries out the actions it decides.

pub mod access_log;
pub mod api;
pub mod bui;
pub mod config;
pub mod install;
pub mod links;
pub mod oauth;
pub mod paths;
pub mod pidfile;
pub mod proxy;
pub mod server_status;
pub mod strutil;
pub mod supervisor;
pub mod version;
pub mod ws;
