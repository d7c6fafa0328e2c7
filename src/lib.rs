//! The boundary layer through which foreign callers reach the network client:
//! marshalling of text arguments, the uniform result envelope, and the
//! per-call dispatcher that answers every call exactly once.

pub mod config;
pub mod dispatch;
pub mod marshal;
pub mod ops;
pub mod protocol;

pub use ops::{app_is_mock, app_set_config_dir_path, auth_app, connect_app};
