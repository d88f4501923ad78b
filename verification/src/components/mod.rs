//! The state of the interface's components and how actions change it.

pub mod app_id;
pub mod home;
pub mod settings;
pub mod status_bar;
pub mod ux;

pub use app_id::AppId;
pub use home::Home;
pub use settings::Settings;
pub use status_bar::{StatusAction, StatusBar, StatusDuration, StatusLevel};
