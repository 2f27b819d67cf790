//! Browser fingerprint emulation: ordered HTTP/2 SETTINGS, PRIORITY and
//! pseudo-header configuration, and per-browser TLS parameter tables.

pub mod buf;
pub mod frame;
pub mod small_vec;
pub mod settings_order;
pub mod settings;
pub mod priority;
pub mod pseudo;
pub mod emulator;
pub mod tls;
pub mod cert_compressor;
pub mod agents;
pub mod profile;
pub mod headers;
pub mod selection;
pub mod registry;
