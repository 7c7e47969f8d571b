//! Verified reconciliation logic for a virtual video-loopback kernel module.
//!
//! The crate holds the decision and parsing core of a single-shot helper:
//! tokenizing module parameter lists, validating request parameters,
//! building an inspection snapshot from observed system state, deciding
//! whether a module reload is needed, and driving the reload to a verified
//! outcome through a small state machine. All I/O (reading sysfs, spawning
//! `modprobe`, the JSON transport) lives outside the library and hands in
//! plain values.

pub mod config;
pub mod inspect;
pub mod params;
pub mod protocol;
pub mod reload;
pub mod text;
pub mod tokens;

pub use config::{modprobe_load, modprobe_unload};
pub use inspect::{inspect_v4l2, module_listed, SysProbe, V4l2Inspect};
pub use params::{valid_label, validate_request_id};
pub use tokens::{normalize_param_token, parse_bool_token, split_param_csv};
