//! The record a search returns for one crate.

use vstd::prelude::*;

use crate::cargo::metadata::{
    clone_opt_string, clone_opt_strings, opt_str, opt_str_list, };

verus! {

/// A point in time: seconds since the Unix epoch (UTC) and the nanoseconds
/// into that second.
#[derive(Debug, Clone, Copy, PartialEq, Eq, Structural)]
pub struct Timestamp {
    pub secs: i64,
    pub nanos: u32,
}

/// One crate in a list of search results.
#[derive(Debug, PartialEq, Eq)]
pub struct Crate {
    pub id: String,
    pub name: String,
    pub description: Option<String>,
    pub homepage: Option<String>,
    pub documentation: Option<String>,
    pub repository: Option<String>,
    pub version: String,
    pub max_version: Option<String>,
    pub max_stable_version: Option<String>,
    pub downloads: Option<u64>,
    pub recent_downloads: Option<u64>,
    pub features: Option<Vec<String>>,
    pub categories: Option<Vec<String>>,
    pub created_at: Option<Timestamp>,
    pub updated_at: Option<Timestamp>,
    pub exact_match: bool,
    pub project_version: Option<String>,
    pub installed_version: Option<String>,
}

/// Mathematical value of a [`Crate`].
pub struct CrateView {
    pub id: Seq<char>,
    pub name: Seq<char>,
    pub description: Option<Seq<char>>,
    pub homepage: Option<Seq<char>>,
    pub documentation: Option<Seq<char>>,
    pub repository: Option<Seq<char>>,
    pub version: Seq<char>,
    pub max_version: Option<Seq<char>>,
    pub max_stable_version: Option<Seq<char>>,
    pub downloads: Option<u64>,
    pub recent_downloads: Option<u64>,
    pub features: Option<Seq<Seq<char>>>,
    pub categories: Option<Seq<Seq<char>>>,
    pub created_at: Option<Timestamp>,
    pub updated_at: Option<Timestamp>,
    pub exact_match: bool,
    pub project_version: Option<Seq<char>>,
    pub installed_version: Option<Seq<char>>,
}

impl CrateView {
    /// Whether the extended metadata of the crate has been fetched.
    pub open spec fn is_metadata_loaded(self) -> bool {
        self.features.is_some()
    }

    /// A record that carries only what a local source knows: the name and
    /// one version.
    pub open spec fn local(name: Seq<char>, version: Seq<char>, exact_match: bool) -> CrateView {
        CrateView {
            id: name,
            name: name,
            description: None,
            homepage: None,
            documentation: None,
            repository: None,
            version: version,
            max_version: None,
            max_stable_version: None,
            downloads: None,
            recent_downloads: None,
            features: None,
            categories: None,
            created_at: None,
            updated_at: None,
            exact_match: exact_match,
            project_version: None,
            installed_version: None,
        }
    }
}

impl View for Crate {
    type V = CrateView;

    open spec fn view(&self) -> CrateView {
        CrateView {
            id: self.id@,
            name: self.name@,
            description: opt_str(self.description),
            homepage: opt_str(self.homepage),
            documentation: opt_str(self.documentation),
            repository: opt_str(self.repository),
            version: self.version@,
            max_version: opt_str(self.max_version),
            max_stable_version: opt_str(self.max_stable_version),
            downloads: self.downloads,
            recent_downloads: self.recent_downloads,
            features: opt_str_list(self.features),
            categories: opt_str_list(self.categories),
            created_at: self.created_at,
            updated_at: self.updated_at,
            exact_match: self.exact_match,
            project_version: opt_str(self.project_version),
            installed_version: opt_str(self.installed_version),
        }
    }
}

/// The views of a list of records.
pub open spec fn crates_view(crates: Seq<Crate>) -> Seq<CrateView> {
    crates.map_values(|c: Crate| c@)
}

impl Crate {
    /// Whether the extended metadata of the crate has been fetched.
    pub fn is_metadata_loaded(&self) -> (r: bool)
        ensures
            r == self@.is_metadata_loaded(),
    {
        self.features.is_some()
    }

    /// A record that carries only what a local source knows: the name and
    /// one version.
    pub fn local(name: &String, version: &String, exact_match: bool) -> (r: Crate)
        ensures
            r@ == CrateView::local(name@, version@, exact_match),
    {
        Crate {
            id: name.clone(),
            name: name.clone(),
            description: None,
            homepage: None,
            documentation: None,
            repository: None,
            version: version.clone(),
            max_version: None,
            max_stable_version: None,
            downloads: None,
            recent_downloads: None,
            features: None,
            categories: None,
            created_at: None,
            updated_at: None,
            exact_match,
            project_version: None,
            installed_version: None,
        }
    }
}

impl Clone for Crate {
    fn clone(&self) -> (r: Crate)
        ensures
            r@ == self@,
    {
        Crate {
            id: self.id.clone(),
            name: self.name.clone(),
            description: clone_opt_string(&self.description),
            homepage: clone_opt_string(&self.homepage),
            documentation: clone_opt_string(&self.documentation),
            repository: clone_opt_string(&self.repository),
            version: self.version.clone(),
            max_version: clone_opt_string(&self.max_version),
            max_stable_version: clone_opt_string(&self.max_stable_version),
            downloads: self.downloads,
            recent_downloads: self.recent_downloads,
            features: clone_opt_strings(&self.features),
            categories: clone_opt_strings(&self.categories),
            created_at: self.created_at,
            updated_at: self.updated_at,
            exact_match: self.exact_match,
            project_version: clone_opt_string(&self.project_version),
            installed_version: clone_opt_string(&self.installed_version),
        }
    }
}

/// What the registry reports about one crate.
///
/// A listing carries neither `features` nor `categories`; the detail of a
/// single crate carries both.
#[derive(Debug, Clone, PartialEq, Eq)]
pub struct RegistryCrate {
    pub id: String,
    pub name: String,
    pub description: Option<String>,
    pub homepage: Option<String>,
    pub documentation: Option<String>,
    pub repository: Option<String>,
    pub max_version: String,
    pub max_stable_version: Option<String>,
    pub downloads: u64,
    pub recent_downloads: Option<u64>,
    pub features: Option<Vec<String>>,
    pub categories: Option<Vec<String>>,
    pub created_at: Timestamp,
    pub updated_at: Timestamp,
    pub exact_match: Option<bool>,
}

/// Mathematical value of a [`RegistryCrate`].
pub struct RegistryCrateView {
    pub id: Seq<char>,
    pub name: Seq<char>,
    pub description: Option<Seq<char>>,
    pub homepage: Option<Seq<char>>,
    pub documentation: Option<Seq<char>>,
    pub repository: Option<Seq<char>>,
    pub max_version: Seq<char>,
    pub max_stable_version: Option<Seq<char>>,
    pub downloads: u64,
    pub recent_downloads: Option<u64>,
    pub features: Option<Seq<Seq<char>>>,
    pub categories: Option<Seq<Seq<char>>>,
    pub created_at: Timestamp,
    pub updated_at: Timestamp,
    pub exact_match: Option<bool>,
}

impl View for RegistryCrate {
    type V = RegistryCrateView;

    open spec fn view(&self) -> RegistryCrateView {
        RegistryCrateView {
            id: self.id@,
            name: self.name@,
            description: opt_str(self.description),
            homepage: opt_str(self.homepage),
            documentation: opt_str(self.documentation),
            repository: opt_str(self.repository),
            max_version: self.max_version@,
            max_stable_version: opt_str(self.max_stable_version),
            downloads: self.downloads,
            recent_downloads: self.recent_downloads,
            features: opt_str_list(self.features),
            categories: opt_str_list(self.categories),
            created_at: self.created_at,
            updated_at: self.updated_at,
            exact_match: self.exact_match,
        }
    }
}

impl RegistryCrateView {
    /// The version shown for the crate: the newest stable one where there
    /// is one, else the newest.
    pub open spec fn shown_version(self) -> Seq<char> {
        match self.max_stable_version {
            Some(v) => v,
            None => self.max_version,
        }
    }

    /// The record of a registry listing entry: everything the listing
    /// carries, no extended metadata, nothing known of the environment.
    pub open spec fn listed(self) -> CrateView {
        CrateView {
            id: self.id,
            name: self.name,
            description: self.description,
            homepage: self.homepage,
            documentation: self.documentation,
            repository: self.repository,
            version: self.shown_version(),
            max_version: Some(self.max_version),
            max_stable_version: self.max_stable_version,
            downloads: Some(self.downloads),
            recent_downloads: self.recent_downloads,
            features: None,
            categories: None,
            created_at: Some(self.created_at),
            updated_at: Some(self.updated_at),
            exact_match: match self.exact_match {
                Some(b) => b,
                None => false,
            },
            project_version: None,
            installed_version: None,
        }
    }

    /// The features the detail carries, none where it names none.
    pub open spec fn feature_list(self) -> Seq<Seq<char>> {
        match self.features {
            Some(f) => f,
            None => Seq::empty(),
        }
    }

    /// The categories the detail carries, none where it names none.
    pub open spec fn category_list(self) -> Seq<Seq<char>> {
        match self.categories {
            Some(c) => c,
            None => Seq::empty(),
        }
    }

    /// The record `cr` after the detail has been merged into it: the
    /// registry's fields replace the record's, the identifier and what is
    /// known of the environment stay, and the metadata counts as loaded.
    pub open spec fn merged_into(self, cr: CrateView) -> CrateView {
        CrateView {
            id: cr.id,
            name: self.name,
            description: self.description,
            homepage: self.homepage,
            documentation: self.documentation,
            repository: self.repository,
            version: self.shown_version(),
            max_version: Some(self.max_version),
            max_stable_version: self.max_stable_version,
            downloads: Some(self.downloads),
            recent_downloads: self.recent_downloads,
            features: Some(self.feature_list()),
            categories: Some(self.category_list()),
            created_at: Some(self.created_at),
            updated_at: Some(self.updated_at),
            exact_match: match self.exact_match {
                Some(b) => b,
                None => false,
            },
            project_version: cr.project_version,
            installed_version: cr.installed_version,
        }
    }
}

impl RegistryCrate {
    /// The version shown for the crate: the newest stable one where there
    /// is one, else the newest.
    pub fn version(&self) -> (r: &str)
        ensures
            r@ == self@.shown_version(),
    {
        match &self.max_stable_version {
            Some(v) => v.as_str(),
            None => self.max_version.as_str(),
        }
    }

    /// The record of a registry listing entry.
    pub fn into_listed(self) -> (r: Crate)
        ensures
            r@ == self@.listed(),
    {
        let version = match &self.max_stable_version {
            Some(v) => v.clone(),
            None => self.max_version.clone(),
        };
        Crate {
            id: self.id,
            name: self.name,
            description: self.description,
            homepage: self.homepage,
            documentation: self.documentation,
            repository: self.repository,
            version,
            max_version: Some(self.max_version),
            max_stable_version: self.max_stable_version,
            downloads: Some(self.downloads),
            recent_downloads: self.recent_downloads,
            features: None,
            categories: None,
            created_at: Some(self.created_at),
            updated_at: Some(self.updated_at),
            exact_match: match self.exact_match {
                Some(b) => b,
                None => false,
            },
            project_version: None,
            installed_version: None,
        }
    }
}

} // verus!
