//! Session orchestration logic for a coding-assistant driver: the driver's
//! status machine, the history replay filter, the saved-conversation index,
//! hook configuration and the small text helpers around them.
pub mod config_summary;
pub mod driver;
pub mod exec_config;
pub mod history;
pub mod hooks;
pub mod saves;
pub mod summary;
pub mod text;
