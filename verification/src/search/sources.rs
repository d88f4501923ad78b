//! The sources of a search: the dependencies of the current project, the
//! installed binaries, and the registry.
//!
//! The two local sources match names themselves. A name matches a term
//! when the lower-case form of the name contains the term, and matches it
//! exactly when the two are equal. Callers hand in the term in lower case.
//! The registry matches on its side: its source here holds the page that it
//! returned.

use vstd::prelude::*;

use crate::cargo::cargo_env::CargoEnv;
use crate::cargo::metadata::{
    binaries_view, dependencies_view, packages_view, Dependency, DependencyView, InstalledBinary,
    InstalledBinaryView, PackageView,
};
use crate::cargo::project::Project;
use crate::search::cargo_crate::{
    crates_view, Crate, CrateView, RegistryCrate, RegistryCrateView,
};
use crate::text::{contains_seq, lowercase, str_contains, str_eq, to_lowercase};

verus! {

/// The record of a dependency whose lower-case name is `name_lower`, where
/// that name matches `term`.
pub open spec fn spec_dependency_record(
    dep: DependencyView,
    name_lower: Seq<char>,
    term: Seq<char>,
) -> Option<CrateView> {
    if contains_seq(name_lower, term) {
        Some(
            CrateView {
                project_version: Some(dep.req),
                ..CrateView::local(dep.name, dep.req, name_lower == term)
            },
        )
    } else {
        None
    }
}

/// The record of an installed binary whose lower-case name is
/// `name_lower`, where that name matches `term`.
pub open spec fn spec_binary_record(
    bin: InstalledBinaryView,
    name_lower: Seq<char>,
    term: Seq<char>,
) -> Option<CrateView> {
    if contains_seq(name_lower, term) {
        Some(
            CrateView {
                installed_version: Some(bin.version),
                ..CrateView::local(bin.name, bin.version, name_lower == term)
            },
        )
    } else {
        None
    }
}

/// The records of the dependencies among `deps` that match `term`, in
/// order.
pub open spec fn deps_matches(deps: Seq<DependencyView>, term: Seq<char>) -> Seq<CrateView>
    decreases deps.len(),
{
    if deps.len() == 0 {
        Seq::empty()
    } else {
        let before = deps_matches(deps.drop_last(), term);
        match spec_dependency_record(deps.last(), lowercase(deps.last().name), term) {
            Some(c) => before.push(c),
            None => before,
        }
    }
}

/// The records of the dependencies of `pkgs` that match `term`: package by
/// package, each dependency declaration on its own.
pub open spec fn project_matches(pkgs: Seq<PackageView>, term: Seq<char>) -> Seq<CrateView>
    decreases pkgs.len(),
{
    if pkgs.len() == 0 {
        Seq::empty()
    } else {
        project_matches(pkgs.drop_last(), term) + deps_matches(pkgs.last().dependencies, term)
    }
}

/// The records of the installed binaries among `bins` that match `term`,
/// in order.
pub open spec fn binaries_matches(bins: Seq<InstalledBinaryView>, term: Seq<char>) -> Seq<
    CrateView,
>
    decreases bins.len(),
{
    if bins.len() == 0 {
        Seq::empty()
    } else {
        let before = binaries_matches(bins.drop_last(), term);
        match spec_binary_record(bins.last(), lowercase(bins.last().name), term) {
            Some(c) => before.push(c),
            None => before,
        }
    }
}

/// The part of `matches` that belongs on page `page` at `per_page` records
/// a page, cut to `quota` records. Pages count from 1; page 0 is read as
/// the first.
pub open spec fn page_window<T>(matches: Seq<T>, page: int, per_page: int, quota: int) -> Seq<T> {
    let skipped = if page >= 1 {
        (page - 1) * per_page
    } else {
        0
    };
    if skipped >= matches.len() {
        Seq::empty()
    } else {
        let rest = matches.skip(skipped);
        if quota >= rest.len() {
            rest
        } else {
            rest.take(quota)
        }
    }
}

/// The record of `dep`, whose name in lower case is `name_lower`, if that
/// name contains `term`. The match is exact where the two are equal.
pub fn dependency_record(dep: &Dependency, name_lower: &str, term: &str) -> (r: Option<Crate>)
    ensures
        match r {
            Some(c) => spec_dependency_record(dep@, name_lower@, term@) == Some(c@),
            None => spec_dependency_record(dep@, name_lower@, term@).is_none(),
        },
{
    if str_contains(name_lower, term) {
        let mut c = Crate::local(&dep.name, &dep.req, str_eq(name_lower, term));
        c.project_version = Some(dep.req.clone());
        Some(c)
    } else {
        None
    }
}

/// The record of `bin`, whose name in lower case is `name_lower`, if that
/// name contains `term`. The match is exact where the two are equal.
pub fn binary_record(bin: &InstalledBinary, name_lower: &str, term: &str) -> (r: Option<Crate>)
    ensures
        match r {
            Some(c) => spec_binary_record(bin@, name_lower@, term@) == Some(c@),
            None => spec_binary_record(bin@, name_lower@, term@).is_none(),
        },
{
    if str_contains(name_lower, term) {
        let mut c = Crate::local(&bin.name, &bin.version, str_eq(name_lower, term));
        c.installed_version = Some(bin.version.clone());
        Some(c)
    } else {
        None
    }
}

/// The dependencies of the project whose name matches `term`, one record
/// for each declaration, in the order of the packages and of their
/// declarations.
pub fn search_project(term: &str, project: &Project) -> (r: Vec<Crate>)
    ensures
        crates_view(r@) == project_matches(project@.packages, term@),
{
    let ghost pkgs = project@.packages;
    let mut results: Vec<Crate> = Vec::new();
    let mut i: usize = 0;
    proof {
        assert(crates_view(results@) =~= Seq::<CrateView>::empty());
        assert(pkgs.take(0) =~= Seq::<PackageView>::empty());
    }
    while i < project.packages.len()
        invariant
            i <= project.packages.len(),
            pkgs == packages_view(project.packages@),
            crates_view(results@) == project_matches(pkgs.take(i as int), term@),
        decreases project.packages.len() - i,
    {
        let package = &project.packages[i];
        let ghost deps = dependencies_view(package.dependencies@);
        let ghost before = crates_view(results@);
        let mut j: usize = 0;
        proof {
            assert(deps.take(0) =~= Seq::<DependencyView>::empty());
            assert(before + deps_matches(deps.take(0), term@) =~= before);
        }
        while j < package.dependencies.len()
            invariant
                j <= package.dependencies.len(),
                deps == dependencies_view(package.dependencies@),
                crates_view(results@) == before + deps_matches(deps.take(j as int), term@),
            decreases package.dependencies.len() - j,
        {
            let dep = &package.dependencies[j];
            let name_lower = to_lowercase(dep.name.as_str());
            proof {
                assert(deps.take(j + 1).drop_last() =~= deps.take(j as int));
                assert(deps.take(j + 1).last() == dep@);
            }
            let ghost so_far = crates_view(results@);
            match dependency_record(dep, name_lower.as_str(), term) {
                Some(c) => {
                    results.push(c);
                    proof {
                        assert(crates_view(results@) =~= so_far.push(c@));
                        assert(so_far.push(c@) =~= before + deps_matches(
                            deps.take(j as int),
                            term@,
                        ).push(c@));
                    }
                },
                None => {},
            }
            j += 1;
        }
        proof {
            assert(deps.take(j as int) =~= deps);
            assert(pkgs.take(i + 1).drop_last() =~= pkgs.take(i as int));
            assert(pkgs.take(i + 1).last() == package@);
        }
        i += 1;
    }
    proof {
        assert(pkgs.take(i as int) =~= pkgs);
    }
    results
}

/// The installed binaries whose name matches `term`, in the order of the
/// list.
pub fn search_binaries(term: &str, cargo_env: &CargoEnv) -> (r: Vec<Crate>)
    ensures
        crates_view(r@) == binaries_matches(cargo_env@.installed_binaries, term@),
{
    let ghost bins = cargo_env@.installed_binaries;
    let mut results: Vec<Crate> = Vec::new();
    let mut i: usize = 0;
    proof {
        assert(crates_view(results@) =~= Seq::<CrateView>::empty());
        assert(bins.take(0) =~= Seq::<InstalledBinaryView>::empty());
    }
    while i < cargo_env.installed_binaries.len()
        invariant
            i <= cargo_env.installed_binaries.len(),
            bins == binaries_view(cargo_env.installed_binaries@),
            crates_view(results@) == binaries_matches(bins.take(i as int), term@),
        decreases cargo_env.installed_binaries.len() - i,
    {
        let bin = &cargo_env.installed_binaries[i];
        let name_lower = to_lowercase(bin.name.as_str());
        proof {
            assert(bins.take(i + 1).drop_last() =~= bins.take(i as int));
            assert(bins.take(i + 1).last() == bin@);
        }
        let ghost so_far = crates_view(results@);
        match binary_record(bin, name_lower.as_str(), term) {
            Some(c) => {
                results.push(c);
                proof {
                    assert(crates_view(results@) =~= so_far.push(c@));
                }
            },
            None => {},
        }
        i += 1;
    }
    proof {
        assert(bins.take(i as int) =~= bins);
    }
    results
}

/// Cuts `matches` to the records that belong on page `page`, at most
/// `quota` of them.
pub fn take_page_window(matches: Vec<Crate>, page: usize, per_page: usize, quota: usize) -> (r:
    Vec<Crate>)
    ensures
        r@ == page_window(matches@, page as int, per_page as int, quota as int),
        crates_view(r@) == page_window(
            crates_view(matches@),
            page as int,
            per_page as int,
            quota as int,
        ),
{
    let mut matches = matches;
    let ghost all = matches@;
    let skipped: usize = match page.saturating_sub(1).checked_mul(per_page) {
        Some(n) => n,
        None => usize::MAX,
    };
    if skipped >= matches.len() {
        let r: Vec<Crate> = Vec::new();
        proof {
            assert(crates_view(r@) =~= Seq::<CrateView>::empty());
        }
        r
    } else {
        let mut rest = matches.split_off(skipped);
        rest.truncate(quota);
        proof {
            assert(all.skip(skipped as int) =~= all.subrange(skipped as int, all.len() as int));
            let w = page_window(all, page as int, per_page as int, quota as int);
            assert(rest@ =~= w);
            assert(crates_view(rest@) =~= page_window(
                crates_view(all),
                page as int,
                per_page as int,
                quota as int,
            ));
        }
        rest
    }
}

/// A source of search results.
pub trait SearchSource: Sized {
    /// What the source returns for `term`: the records for page `page` at
    /// `per_page` records a page, no more than `quota` of them, and the
    /// number of all its matches.
    spec fn spec_fetch(self, term: Seq<char>, page: usize, per_page: usize, quota: usize) -> (
        Seq<CrateView>,
        usize,
    );

    /// Asks the source for `term`. It returns the records for the page,
    /// no more than `quota` of them, and the number of all its matches,
    /// which does not depend on the quota.
    fn fetch(self, term: &str, page: usize, per_page: usize, quota: usize) -> (r: (
        Vec<Crate>,
        usize,
    ))
        ensures
            crates_view(r.0@) == self.spec_fetch(term@, page, per_page, quota).0,
            r.1 == self.spec_fetch(term@, page, per_page, quota).1,
            r.0@.len() <= quota,
            forall|other: usize|
                (#[trigger] self.spec_fetch(term@, page, per_page, other)).1 == self.spec_fetch(
                    term@,
                    page,
                    per_page,
                    quota,
                ).1,
    ;
}

/// The dependencies that the packages of the current project declare.
pub struct ProjectDependencySource<'a> {
    pub project: &'a Project,
}

/// The binaries installed on this machine.
pub struct InstalledBinarySource<'a> {
    pub cargo_env: &'a CargoEnv,
}

/// The registry, by the page that it returned for the query of a search.
pub struct RegistrySource {
    pub page: RegistryPage,
}

/// The records of a registry listing.
pub open spec fn listed_records(crates: Seq<RegistryCrateView>) -> Seq<CrateView> {
    crates.map_values(|c: RegistryCrateView| c.listed())
}

/// The views of registry entries.
pub open spec fn registry_view(crates: Seq<RegistryCrate>) -> Seq<RegistryCrateView> {
    crates.map_values(|c: RegistryCrate| c@)
}

/// One page of a registry listing and the number of matches over all
/// pages.
#[derive(Debug, PartialEq, Eq)]
pub struct RegistryPage {
    pub crates: Vec<RegistryCrate>,
    pub total: usize,
}

/// Mathematical value of a [`RegistryPage`].
pub struct RegistryPageView {
    pub crates: Seq<RegistryCrateView>,
    pub total: usize,
}

impl View for RegistryPage {
    type V = RegistryPageView;

    open spec fn view(&self) -> RegistryPageView {
        RegistryPageView {
            crates: registry_view(self.crates@),
            total: self.total,
        }
    }
}

/// The first `quota` of `records`, or all of them where there are fewer.
pub open spec fn cut_to<T>(records: Seq<T>, quota: int) -> Seq<T> {
    if quota >= records.len() {
        records
    } else if quota > 0 {
        records.take(quota)
    } else {
        Seq::empty()
    }
}

/// The number of matches as a source reports it.
pub open spec fn count_of(n: nat) -> usize {
    if n > usize::MAX {
        usize::MAX
    } else {
        n as usize
    }
}

impl<'a> SearchSource for ProjectDependencySource<'a> {
    open spec fn spec_fetch(self, term: Seq<char>, page: usize, per_page: usize, quota: usize) -> (
        Seq<CrateView>,
        usize,
    ) {
        let matches = project_matches(self.project@.packages, term);
        (page_window(matches, page as int, per_page as int, quota as int), count_of(matches.len()))
    }

    fn fetch(self, term: &str, page: usize, per_page: usize, quota: usize) -> (r: (
        Vec<Crate>,
        usize,
    )) {
        let matches = search_project(term, self.project);
        let total: usize = matches.len();
        (take_page_window(matches, page, per_page, quota), total)
    }
}

impl<'a> SearchSource for InstalledBinarySource<'a> {
    open spec fn spec_fetch(self, term: Seq<char>, page: usize, per_page: usize, quota: usize) -> (
        Seq<CrateView>,
        usize,
    ) {
        let matches = binaries_matches(self.cargo_env@.installed_binaries, term);
        (page_window(matches, page as int, per_page as int, quota as int), count_of(matches.len()))
    }

    fn fetch(self, term: &str, page: usize, per_page: usize, quota: usize) -> (r: (
        Vec<Crate>,
        usize,
    )) {
        let matches = search_binaries(term, self.cargo_env);
        let total: usize = matches.len();
        (take_page_window(matches, page, per_page, quota), total)
    }
}

impl SearchSource for RegistrySource {
    open spec fn spec_fetch(self, term: Seq<char>, page: usize, per_page: usize, quota: usize) -> (
        Seq<CrateView>,
        usize,
    ) {
        (cut_to(listed_records(self.page@.crates), quota as int), self.page.total)
    }

    fn fetch(self, term: &str, page: usize, per_page: usize, quota: usize) -> (r: (
        Vec<Crate>,
        usize,
    )) {
        let ghost all = listed_records(self.page@.crates);
        let total: usize = self.page.total;
        let mut entries = self.page.crates;
        entries.truncate(quota);
        let ghost kept = entries@;
        let mut out: Vec<Crate> = Vec::new();
        for c in it: entries
            invariant
                out@.len() == it.index(),
                it.seq() == kept,
                forall|j: int|
                    0 <= j < out@.len() ==> (#[trigger] out@[j])@ == it.seq()[j]@.listed(),
        {
            out.push(c.into_listed());
        }
        proof {
            assert(crates_view(out@) =~= cut_to(all, quota as int));
        }
        (out, total)
    }
}

} // verus!
