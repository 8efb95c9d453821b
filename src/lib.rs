//! Provisioning of a point-to-point encrypted tunnel to a remote host, and the
//! lifecycle of the one local tunnel that may be active at a time.
//!
//! - `ipv4`: addresses and their dotted-decimal text.
//! - `config`: the client configuration handed to the tunnel-interface tool.
//! - `store`: the metadata of known endpoints and the secret store of their keys.
//! - `tunnel`: the single-slot lifecycle controller.
//! - `tool`: the tunnel tool's commands on each platform and how its runs are read.
//! - `remote`: key files, host-key trust, remote command capture and hardening.
//! - `provision`: the remote provisioning script and the reading of its output.
//! - `setup`: the order of the steps of a provisioning run.
//! - `text`: text search and byte decoding shared by the above.
//! - `error`: the error kinds of each component.

pub mod config;
pub mod error;
pub mod ipv4;
pub mod provision;
pub mod remote;
pub mod setup;
pub mod store;
pub mod text;
pub mod tool;
pub mod tunnel;
