//! Verified core of the Vane DPI-bypass controller: configuration
//! validation, launch planning, DNS and firewall transaction planning, and
//! the small state machines that keep applied configuration consistent.

pub mod text;
pub mod callback_log;
pub mod domain;
pub mod preset;
pub mod sanitizer;
pub mod validator;
pub mod port_spec;
pub mod launch_plan;
pub mod sorting;
pub mod digest;
pub mod runtime_config;
pub mod lifecycle;
pub mod runtime_state;
pub mod dns_config;
pub mod firewall;
pub mod dns_transaction;
pub mod kill_switch;
pub mod text_pattern;
pub mod diagnostics;
pub mod ipc;
pub mod engine_state;
pub mod pattern_transaction;
pub mod dns_forwarder;
pub mod dns_wire;
pub mod dns_manager;
pub mod http_check;
pub mod commands;
pub mod process_control;
pub mod dns_cache;
pub mod dns_query;
pub mod blocklist;
pub mod engine_log;
pub mod preset_file;
pub mod engine_spawn;
pub mod dns_apply;
pub mod bypass_sync;
