//! The name and version of the application, shown in a corner.

use vstd::prelude::*;

use crate::text::concat3;

verus! {

/// A component that renders the name and version of the app.
#[derive(Debug, PartialEq, Eq)]
pub struct AppId {
    pub id: String,
}

impl AppId {
    /// The text shown for version `version`.
    pub open spec fn spec_id(version: Seq<char>) -> Seq<char> {
        " 📦 cargo-seek v"@ + version + " "@
    }

    /// The component for version `version` of the application.
    pub fn new(version: &str) -> (r: AppId)
        ensures
            r.id@ == Self::spec_id(version@),
    {
        AppId { id: concat3(" 📦 cargo-seek v", version, " ") }
    }
}

} // verus!
