//! The Cargo project a search is run from.

use vstd::prelude::*;

use crate::cargo::metadata::{
    packages_view, Dependency, DependencyView, ManifestMetadata, Package, PackageView,
};
use crate::text::{ascii_case_eq, str_eq, str_eq_ignore_ascii_case};

verus! {

/// The version requirement of the last declaration of `name` among `deps`.
pub open spec fn deps_version(deps: Seq<DependencyView>, name: Seq<char>) -> Option<Seq<char>>
    decreases deps.len(),
{
    if deps.len() == 0 {
        None
    } else if deps.last().name == name {
        Some(deps.last().req)
    } else {
        deps_version(deps.drop_last(), name)
    }
}

/// The version requirement of the last declaration of `name` among the
/// dependencies of `pkgs`, the packages taken in order.
pub open spec fn local_version(pkgs: Seq<PackageView>, name: Seq<char>) -> Option<Seq<char>>
    decreases pkgs.len(),
{
    if pkgs.len() == 0 {
        None
    } else {
        match deps_version(pkgs.last().dependencies, name) {
            Some(v) => Some(v),
            None => local_version(pkgs.drop_last(), name),
        }
    }
}

/// Whether one of `pkgs` is named `name`.
pub open spec fn has_package(pkgs: Seq<PackageView>, name: Seq<char>) -> bool {
    exists|i: int| 0 <= i < pkgs.len() && (#[trigger] pkgs[i]).name == name
}

/// Whether a file of this name is a Cargo manifest: `Cargo.toml`, in any
/// mix of upper and lower case.
pub open spec fn spec_is_manifest_name(file_name: Seq<char>) -> bool {
    ascii_case_eq(file_name, "Cargo.toml"@)
}

/// Whether a file of this name is a Cargo manifest.
pub fn is_manifest_name(file_name: &str) -> (r: bool)
    ensures
        r == spec_is_manifest_name(file_name@),
{
    str_eq_ignore_ascii_case(file_name, "Cargo.toml")
}

/// The position of the first manifest among the file names of one
/// directory, if it holds one.
pub fn find_project_manifest(file_names: &Vec<String>) -> (r: Option<usize>)
    ensures
        match r {
            Some(i) => i < file_names.len() && spec_is_manifest_name(file_names@[i as int]@)
                && forall|j: int| 0 <= j < i ==> !spec_is_manifest_name(#[trigger] file_names@[j]@),
            None => forall|j: int|
                0 <= j < file_names.len() ==> !spec_is_manifest_name(#[trigger] file_names@[j]@),
        },
{
    let mut i: usize = 0;
    while i < file_names.len()
        invariant
            i <= file_names.len(),
            forall|j: int| 0 <= j < i ==> !spec_is_manifest_name(#[trigger] file_names@[j]@),
        decreases file_names.len() - i,
    {
        if is_manifest_name(file_names[i].as_str()) {
            return Some(i);
        }
        i += 1;
    }
    None
}

/// A local Cargo project: its manifest and the packages the manifest
/// declares.
#[derive(Debug, PartialEq, Eq)]
pub struct Project {
    pub manifest_file_path: String,
    pub packages: Vec<Package>,
}

/// Mathematical value of a [`Project`].
pub struct ProjectView {
    pub manifest_file_path: Seq<char>,
    pub packages: Seq<PackageView>,
}

impl View for Project {
    type V = ProjectView;

    open spec fn view(&self) -> ProjectView {
        ProjectView {
            manifest_file_path: self.manifest_file_path@,
            packages: packages_view(self.packages@),
        }
    }
}

/// The last dependency named `name` among `deps`, by its requirement.
fn find_in_deps(deps: &Vec<Dependency>, name: &str) -> (r: Option<String>)
    ensures
        crate::cargo::metadata::opt_str(r) == deps_version(
            crate::cargo::metadata::dependencies_view(deps@),
            name@,
        ),
{
    let ghost all = crate::cargo::metadata::dependencies_view(deps@);
    let mut i: usize = deps.len();
    assert(all.take(i as int) =~= all);
    while i > 0
        invariant
            i <= deps.len(),
            all == crate::cargo::metadata::dependencies_view(deps@),
            deps_version(all, name@) == deps_version(all.take(i as int), name@),
        decreases i,
    {
        proof {
            let cur = all.take(i as int);
            assert(cur.last() == all[i - 1]);
            assert(cur.drop_last() =~= all.take(i - 1));
        }
        if str_eq(deps[i - 1].name.as_str(), name) {
            return Some(deps[i - 1].req.clone());
        }
        i -= 1;
    }
    proof {
        assert(all.take(0).len() == 0);
    }
    None
}

impl Clone for Project {
    fn clone(&self) -> (r: Project)
        ensures
            r@ == self@,
    {
        let mut packages: Vec<Package> = Vec::new();
        let mut i: usize = 0;
        while i < self.packages.len()
            invariant
                i <= self.packages.len(),
                packages.len() == i,
                forall|j: int| 0 <= j < i ==> packages@[j]@ == self.packages@[j]@,
            decreases self.packages.len() - i,
        {
            packages.push(self.packages[i].clone());
            i += 1;
        }
        assert(packages_view(packages@) =~= packages_view(self.packages@));
        Project { manifest_file_path: self.manifest_file_path.clone(), packages }
    }
}

impl Project {
    /// A project with the manifest at `manifest_file_path`, its packages
    /// not read yet.
    pub fn from(manifest_file_path: String) -> (r: Project)
        ensures
            r.manifest_file_path == manifest_file_path,
            r.packages@.len() == 0,
    {
        Project { manifest_file_path, packages: Vec::new() }
    }

    /// Takes over what `cargo metadata` reported for the manifest.
    pub fn read(&mut self, metadata: ManifestMetadata)
        ensures
            final(self).packages == metadata.packages,
            final(self).manifest_file_path == old(self).manifest_file_path,
    {
        self.packages = metadata.packages;
    }

    /// The version requirement under which the project depends on the
    /// crate `package_name`: that of the last declaration, where several
    /// packages declare it. `None` where none does.
    pub fn get_local_version(&self, package_name: &str) -> (r: Option<String>)
        ensures
            crate::cargo::metadata::opt_str(r) == local_version(self@.packages, package_name@),
    {
        let ghost all = self@.packages;
        let mut i: usize = self.packages.len();
        assert(all.take(i as int) =~= all);
        while i > 0
            invariant
                i <= self.packages.len(),
                all == packages_view(self.packages@),
                local_version(all, package_name@) == local_version(
                    all.take(i as int),
                    package_name@,
                ),
            decreases i,
        {
            proof {
                let cur = all.take(i as int);
                assert(cur.last() == all[i - 1]);
                assert(cur.drop_last() =~= all.take(i - 1));
            }
            let found = find_in_deps(&self.packages[i - 1].dependencies, package_name);
            if found.is_some() {
                return found;
            }
            i -= 1;
        }
        proof {
            assert(all.take(0).len() == 0);
        }
        None
    }

    /// Whether the project holds a package named `package_name`.
    pub fn contains_package(&self, package_name: &str) -> (r: bool)
        ensures
            r == has_package(self@.packages, package_name@),
    {
        let mut i: usize = 0;
        while i < self.packages.len()
            invariant
                i <= self.packages.len(),
                forall|j: int| 0 <= j < i ==> (#[trigger] self@.packages[j]).name != package_name@,
            decreases self.packages.len() - i,
        {
            if str_eq(self.packages[i].name.as_str(), package_name) {
                assert(self@.packages[i as int].name == package_name@);
                return true;
            }
            i += 1;
        }
        false
    }
}

} // verus!
