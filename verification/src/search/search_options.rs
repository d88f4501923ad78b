//! What a search asks for: term, page, page size, sort key and scope.

use vstd::prelude::*;

verus! {

/// Which sources a search consults.
#[derive(Debug, Clone, Copy, PartialEq, Eq, Structural)]
pub enum Scope {
    All,
    Online,
    Project,
    Installed,
}

impl Scope {
    /// Whether this scope consults the current project's dependencies.
    pub open spec fn includes_project(self) -> bool {
        self == Scope::All || self == Scope::Project
    }

    /// Whether this scope consults the installed binaries.
    pub open spec fn includes_installed(self) -> bool {
        self == Scope::All || self == Scope::Installed
    }

    /// Whether this scope consults the online registry.
    pub open spec fn includes_online(self) -> bool {
        self == Scope::All || self == Scope::Online
    }

    /// Position of the scope in the order in which a dropdown lists them.
    pub open spec fn spec_index(self) -> nat {
        match self {
            Scope::All => 0,
            Scope::Online => 1,
            Scope::Project => 2,
            Scope::Installed => 3,
        }
    }

    /// Position of the scope in the order in which a dropdown lists them.
    pub fn index(&self) -> (r: usize)
        ensures
            r == self.spec_index(),
    {
        match self {
            Scope::All => 0,
            Scope::Online => 1,
            Scope::Project => 2,
            Scope::Installed => 3,
        }
    }

    /// The scope listed at `ix`, if there is one.
    pub fn from_index(ix: usize) -> (r: Option<Scope>)
        ensures
            ix < 4 ==> r.is_some() && r.unwrap().spec_index() == ix,
            ix >= 4 ==> r.is_none(),
    {
        match ix {
            0 => Some(Scope::All),
            1 => Some(Scope::Online),
            2 => Some(Scope::Project),
            3 => Some(Scope::Installed),
            _ => None,
        }
    }

    /// The name shown for the scope.
    pub open spec fn spec_name(self) -> Seq<char> {
        match self {
            Scope::All => "All"@,
            Scope::Online => "Online"@,
            Scope::Project => "Project"@,
            Scope::Installed => "Installed"@,
        }
    }

    /// The name shown for the scope.
    pub fn to_str(&self) -> (r: &'static str)
        ensures
            r@ == self.spec_name(),
    {
        match self {
            Scope::All => "All",
            Scope::Online => "Online",
            Scope::Project => "Project",
            Scope::Installed => "Installed",
        }
    }
}

impl Default for Scope {
    fn default() -> (r: Scope)
        ensures
            r == Scope::Online,
    {
        Scope::Online
    }
}

/// The order in which the registry is asked to return its matches.
#[derive(Debug, Clone, Copy, PartialEq, Eq, Structural)]
pub enum Sort {
    Relevance,
    Name,
    Downloads,
    RecentDownloads,
    RecentlyUpdated,
    NewlyAdded,
}

impl Sort {
    /// Position of the sort key in the order in which a dropdown lists them.
    pub open spec fn spec_index(self) -> nat {
        match self {
            Sort::Relevance => 0,
            Sort::Name => 1,
            Sort::Downloads => 2,
            Sort::RecentDownloads => 3,
            Sort::RecentlyUpdated => 4,
            Sort::NewlyAdded => 5,
        }
    }

    /// Position of the sort key in the order in which a dropdown lists them.
    pub fn index(&self) -> (r: usize)
        ensures
            r == self.spec_index(),
    {
        match self {
            Sort::Relevance => 0,
            Sort::Name => 1,
            Sort::Downloads => 2,
            Sort::RecentDownloads => 3,
            Sort::RecentlyUpdated => 4,
            Sort::NewlyAdded => 5,
        }
    }

    /// The sort key listed at `ix`, if there is one.
    pub fn from_index(ix: usize) -> (r: Option<Sort>)
        ensures
            ix < 6 ==> r.is_some() && r.unwrap().spec_index() == ix,
            ix >= 6 ==> r.is_none(),
    {
        match ix {
            0 => Some(Sort::Relevance),
            1 => Some(Sort::Name),
            2 => Some(Sort::Downloads),
            3 => Some(Sort::RecentDownloads),
            4 => Some(Sort::RecentlyUpdated),
            5 => Some(Sort::NewlyAdded),
            _ => None,
        }
    }

    /// The value of the registry's `sort` query parameter for this key.
    pub open spec fn spec_query_value(self) -> Seq<char> {
        match self {
            Sort::Name => "alpha"@,
            Sort::Relevance => "relevance"@,
            Sort::Downloads => "downloads"@,
            Sort::RecentDownloads => "recent-downloads"@,
            Sort::RecentlyUpdated => "recent-updates"@,
            Sort::NewlyAdded => "new"@,
        }
    }

    /// The value of the registry's `sort` query parameter for this key.
    pub fn to_str(&self) -> (r: &'static str)
        ensures
            r@ == self.spec_query_value(),
    {
        match self {
            Sort::Name => "alpha",
            Sort::Relevance => "relevance",
            Sort::Downloads => "downloads",
            Sort::RecentDownloads => "recent-downloads",
            Sort::RecentlyUpdated => "recent-updates",
            Sort::NewlyAdded => "new",
        }
    }

    /// The name shown for the sort key.
    pub open spec fn spec_label(self) -> Seq<char> {
        match self {
            Sort::Relevance => "Relevance"@,
            Sort::Name => "Name"@,
            Sort::Downloads => "Downloads"@,
            Sort::RecentDownloads => "Recent Downloads"@,
            Sort::RecentlyUpdated => "Recently Updated"@,
            Sort::NewlyAdded => "Newly Added"@,
        }
    }

    /// The name shown for the sort key.
    pub fn label(&self) -> (r: &'static str)
        ensures
            r@ == self.spec_label(),
    {
        match self {
            Sort::Relevance => "Relevance",
            Sort::Name => "Name",
            Sort::Downloads => "Downloads",
            Sort::RecentDownloads => "Recent Downloads",
            Sort::RecentlyUpdated => "Recently Updated",
            Sort::NewlyAdded => "Newly Added",
        }
    }
}

impl Default for Sort {
    fn default() -> (r: Sort)
        ensures
            r == Sort::Relevance,
    {
        Sort::Relevance
    }
}

/// The parameters of one search.
#[derive(Debug, Clone, PartialEq, Eq)]
pub struct SearchOptions {
    pub term: Option<String>,
    pub page: Option<usize>,
    pub per_page: Option<usize>,
    pub sort: Sort,
    pub scope: Scope,
}

impl SearchOptions {
    /// Number of records per page when a search names none.
    pub const DEFAULT_PER_PAGE: usize = 100;

    /// The page a search asks for: the first one unless it names another.
    pub open spec fn spec_page(&self) -> usize {
        match self.page {
            Some(p) => p,
            None => 1,
        }
    }

    /// The page size a search asks for.
    pub open spec fn spec_per_page(&self) -> usize {
        match self.per_page {
            Some(n) => n,
            None => 100,
        }
    }

    /// The page a search asks for: the first one unless it names another.
    pub fn page(&self) -> (r: usize)
        ensures
            r == self.spec_page(),
    {
        match self.page {
            Some(p) => p,
            None => 1,
        }
    }

    /// The page size a search asks for.
    pub fn per_page(&self) -> (r: usize)
        ensures
            r == self.spec_per_page(),
    {
        match self.per_page {
            Some(n) => n,
            None => Self::DEFAULT_PER_PAGE,
        }
    }
}

impl Default for SearchOptions {
    fn default() -> (r: SearchOptions)
        ensures
            r.term.is_none(),
            r.page.is_none(),
            r.per_page.is_none(),
            r.sort == Sort::Relevance,
            r.scope == Scope::Online,
    {
        SearchOptions {
            term: None,
            page: None,
            per_page: None,
            sort: Sort::Relevance,
            scope: Scope::Online,
        }
    }
}

} // verus!
