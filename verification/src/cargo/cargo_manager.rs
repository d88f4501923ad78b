//! The commands for `cargo` and what is read from their output, under one
//! name.

use vstd::prelude::*;

use crate::cargo::api;
use crate::cargo::api::installed_binaries;
use crate::cargo::metadata::{binaries_view, str_list, InstalledBinary};

verus! {

/// Access to what `cargo` knows.
#[derive(Debug, Clone, Copy, PartialEq, Eq, Structural)]
pub struct CargoManager;

impl CargoManager {
    /// The binaries that `cargo install --list` reports, read from what
    /// it printed.
    pub fn get_installed_binaries(stdout: &str) -> (r: Vec<InstalledBinary>)
        ensures
            binaries_view(r@) == installed_binaries(stdout@),
    {
        api::get_installed_binaries(stdout)
    }

    /// The arguments with which `cargo` reports the metadata of a
    /// manifest.
    pub fn get_metadata(manifest_path: &str) -> (r: Vec<String>)
        ensures
            str_list(r@) == seq![
                "metadata"@,
                "--no-deps"@,
                "--format-version"@,
                "1"@,
                "--manifest-path"@,
                manifest_path@,
            ],
    {
        api::get_metadata(manifest_path)
    }
}

} // verus!
