//! Start-up logic for a graphics-API context: which layers and extensions an
//! instance is created with, how diagnostic severities map to log levels, which
//! physical device is selected, and in which order owned handles are created
//! and released.
pub mod context;
pub mod debug;
pub mod device;
pub mod error;
pub mod instance;
pub mod names;
pub mod run_loop;
pub mod version;
