//! Node lifecycle operations for a Talos Linux cluster: probing workload
//! health, cordoning, draining, waiting for readiness and rolling a fleet.
//!
//! The library decides and never acts: whatever reaches the scheduler API
//! or runs `talosctl` is handed out as a request, and its outcome is taken
//! back as plain values.

pub mod client;
pub mod cni;
pub mod cordon;
pub mod discovery;
pub mod drain;
pub mod insecure;
pub mod lifecycle;
pub mod network;
pub mod probe;
pub mod processes;
pub mod ranking;
pub mod readiness;
pub mod records;
pub mod rolling;
pub mod selection;
pub mod slicing;
pub mod storage;
pub mod talosctl;
pub mod text;
pub mod wizard;
pub mod workloads;
pub mod yaml;
