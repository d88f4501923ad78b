//! Plain data taken from `cargo metadata` and `cargo install --list`.

use vstd::prelude::*;

verus! {

/// The view of an optional string.
pub open spec fn opt_str(o: Option<String>) -> Option<Seq<char>> {
    match o {
        Some(s) => Some(s@),
        None => None,
    }
}

/// The view of a list of strings.
pub open spec fn str_list(v: Seq<String>) -> Seq<Seq<char>> {
    v.map_values(|s: String| s@)
}

/// The view of an optional list of strings.
pub open spec fn opt_str_list(o: Option<Vec<String>>) -> Option<Seq<Seq<char>>> {
    match o {
        Some(v) => Some(str_list(v@)),
        None => None,
    }
}

/// One dependency declaration of a package.
#[derive(Debug, PartialEq, Eq)]
pub struct Dependency {
    pub name: String,
    pub req: String,
    pub kind: Option<String>,
    pub optional: bool,
}

/// Mathematical value of a [`Dependency`].
pub struct DependencyView {
    pub name: Seq<char>,
    pub req: Seq<char>,
    pub kind: Option<Seq<char>>,
    pub optional: bool,
}

impl View for Dependency {
    type V = DependencyView;

    open spec fn view(&self) -> DependencyView {
        DependencyView {
            name: self.name@,
            req: self.req@,
            kind: opt_str(self.kind),
            optional: self.optional,
        }
    }
}

impl Clone for Dependency {
    fn clone(&self) -> (r: Dependency)
        ensures
            r@ == self@,
    {
        Dependency {
            name: self.name.clone(),
            req: self.req.clone(),
            kind: clone_opt_string(&self.kind),
            optional: self.optional,
        }
    }
}

/// A copy of an optional string.
pub fn clone_opt_string(o: &Option<String>) -> (r: Option<String>)
    ensures
        opt_str(r) == opt_str(*o),
{
    match o {
        Some(s) => Some(s.clone()),
        None => None,
    }
}

/// A copy of a list of strings.
pub fn clone_strings(v: &Vec<String>) -> (r: Vec<String>)
    ensures
        str_list(r@) == str_list(v@),
{
    let mut out: Vec<String> = Vec::new();
    let mut i: usize = 0;
    while i < v.len()
        invariant
            i <= v.len(),
            out.len() == i,
            forall|j: int| 0 <= j < i ==> out@[j]@ == v@[j]@,
        decreases v.len() - i,
    {
        out.push(v[i].clone());
        i += 1;
    }
    assert(str_list(out@) =~= str_list(v@));
    out
}

/// A copy of an optional list of strings.
pub fn clone_opt_strings(o: &Option<Vec<String>>) -> (r: Option<Vec<String>>)
    ensures
        opt_str_list(r) == opt_str_list(*o),
{
    match o {
        Some(v) => Some(clone_strings(v)),
        None => None,
    }
}

/// The views of a list of dependencies.
pub open spec fn dependencies_view(deps: Seq<Dependency>) -> Seq<DependencyView> {
    deps.map_values(|d: Dependency| d@)
}

/// One package of a workspace, with its dependency declarations.
#[derive(Debug, PartialEq, Eq)]
pub struct Package {
    pub name: String,
    pub version: Option<String>,
    pub description: Option<String>,
    pub dependencies: Vec<Dependency>,
}

/// Mathematical value of a [`Package`].
pub struct PackageView {
    pub name: Seq<char>,
    pub version: Option<Seq<char>>,
    pub description: Option<Seq<char>>,
    pub dependencies: Seq<DependencyView>,
}

impl View for Package {
    type V = PackageView;

    open spec fn view(&self) -> PackageView {
        PackageView {
            name: self.name@,
            version: opt_str(self.version),
            description: opt_str(self.description),
            dependencies: dependencies_view(self.dependencies@),
        }
    }
}

impl Clone for Package {
    fn clone(&self) -> (r: Package)
        ensures
            r@ == self@,
    {
        let mut deps: Vec<Dependency> = Vec::new();
        let mut i: usize = 0;
        while i < self.dependencies.len()
            invariant
                i <= self.dependencies.len(),
                deps.len() == i,
                forall|j: int| 0 <= j < i ==> deps@[j]@ == self.dependencies@[j]@,
            decreases self.dependencies.len() - i,
        {
            deps.push(self.dependencies[i].clone());
            i += 1;
        }
        assert(dependencies_view(deps@) =~= dependencies_view(self.dependencies@));
        Package {
            name: self.name.clone(),
            version: clone_opt_string(&self.version),
            description: clone_opt_string(&self.description),
            dependencies: deps,
        }
    }
}

/// The views of a list of packages.
pub open spec fn packages_view(pkgs: Seq<Package>) -> Seq<PackageView> {
    pkgs.map_values(|p: Package| p@)
}

/// What `cargo metadata` reports about a manifest.
#[derive(Debug)]
pub struct ManifestMetadata {
    pub packages: Vec<Package>,
}

/// What `cargo metadata` reports about a manifest.
pub type Metadata = ManifestMetadata;

/// One binary that `cargo install` has put on this machine.
#[derive(Debug, PartialEq, Eq)]
pub struct InstalledBinary {
    pub name: String,
    pub version: String,
}

/// Mathematical value of an [`InstalledBinary`].
pub struct InstalledBinaryView {
    pub name: Seq<char>,
    pub version: Seq<char>,
}

impl View for InstalledBinary {
    type V = InstalledBinaryView;

    open spec fn view(&self) -> InstalledBinaryView {
        InstalledBinaryView { name: self.name@, version: self.version@ }
    }
}

impl Clone for InstalledBinary {
    fn clone(&self) -> (r: InstalledBinary)
        ensures
            r@ == self@,
    {
        InstalledBinary { name: self.name.clone(), version: self.version.clone() }
    }
}

/// The views of a list of installed binaries.
pub open spec fn binaries_view(bins: Seq<InstalledBinary>) -> Seq<InstalledBinaryView> {
    bins.map_values(|b: InstalledBinary| b@)
}

} // verus!
