//! Search options, records, result sets and the search manager.

pub mod cargo_crate;
pub mod crate_search_manager;
pub mod dedup;
pub mod laws;
pub mod list_state;
pub mod search_options;
pub mod search_results;
pub mod sources;

pub use cargo_crate::{Crate, RegistryCrate, Timestamp};
pub use crate_search_manager::{
    CrateSearchManager, HydrationRequest, RegistryQuery, SearchTask,
};
pub use sources::{
    InstalledBinarySource, ProjectDependencySource, RegistryPage, RegistrySource, SearchSource,
};
pub use list_state::ListState;
pub use search_options::{Scope, SearchOptions, Sort};
pub use search_results::SearchResults;
