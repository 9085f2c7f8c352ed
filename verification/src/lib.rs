//! Verified core of a Bluetooth Low Energy bridge: identifiers, the
//! structured event protocol, the scan/device/notification state machine that
//! owns all BLE work, and the main-thread caches that project events to the
//! legacy signal set.

pub mod text;
pub mod types;
pub mod info;
pub mod event;
pub mod scan;
pub mod command;
pub mod machine;
pub mod laws;
pub mod subscriptions;
pub mod pumps;
pub mod behaviour;
pub mod android;
pub mod client;
pub mod manager;
pub mod device;
pub mod backend;
pub mod scanner;
pub mod adapter;
pub mod identity;
pub mod outcomes;
