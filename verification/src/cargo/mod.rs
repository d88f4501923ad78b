//! The Cargo environment a search runs against: the current project's
//! manifest metadata and the globally installed binaries.

pub mod api;
pub mod cargo_env;
pub mod cargo_manager;
pub mod metadata;
pub mod project;

pub use api::{add, get_installed_binaries, get_metadata, install, remove, uninstall};
pub use cargo_env::CargoEnv;
pub use cargo_manager::CargoManager;
pub use metadata::{Dependency, InstalledBinary, ManifestMetadata, Metadata, Package};
pub use project::Project;
