//! Client library of the service runtime: the IPC envelope, the service
//! protocols spoken over it, and the pure state machines of the session and
//! setup services.
use vstd::prelude::*;

pub mod abi;
pub mod app_control;
pub mod audio;
pub mod app_permission;
pub mod backup;
pub mod bootstrap;
pub mod clipboard;
pub mod compat;
pub mod config;
pub mod console;
pub mod decode;
pub mod desktop;
pub mod developer;
pub mod devices;
pub mod error;
pub mod graphics;
pub mod ipc;
pub mod kernel;
pub mod lifecycle;
pub mod log_service;
pub mod manager;
pub mod memory;
pub mod message;
pub mod network;
pub mod package;
pub mod pending;
pub mod policy_store;
pub mod relay;
pub mod rights;
pub mod rng;
pub mod security;
pub mod security_page;
pub mod security_service;
pub mod runtime_capability;
pub mod session;
pub mod session_registry;
pub mod session_service;
pub mod settings;
pub mod settings_app;
pub mod settings_pages;
pub mod setup_wizard;
pub mod status;
pub mod storage;
pub mod terminal;
pub mod text;
pub mod types;
pub mod wifi_page;

verus! {
}
