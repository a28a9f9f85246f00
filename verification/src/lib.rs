//! Verified core of a Dark Engine scripting toolkit: GUID arithmetic for
//! script services, the DarkHooky result codes and bundle bookkeeping, the
//! typed views of engine values and messages, vtable slot tables, and the
//! key-ring tool selection rules.
pub mod text;
pub mod guid;
pub mod hooky;
pub mod bundle;
pub mod osm;
pub mod services;
pub mod keyring;
pub mod macros;
