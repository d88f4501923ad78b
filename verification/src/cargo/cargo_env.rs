//! The current Cargo environment: the installed binaries and the project a
//! search is run from, if there is one.

use vstd::prelude::*;

use crate::cargo::metadata::{binaries_view, opt_str, InstalledBinary, InstalledBinaryView};
use crate::cargo::project::{Project, ProjectView};
use crate::text::str_eq;

verus! {

/// The version of the last binary named `name` among `bins`.
pub open spec fn installed_version(bins: Seq<InstalledBinaryView>, name: Seq<char>) -> Option<
    Seq<char>,
>
    decreases bins.len(),
{
    if bins.len() == 0 {
        None
    } else if bins.last().name == name {
        Some(bins.last().version)
    } else {
        installed_version(bins.drop_last(), name)
    }
}

/// The current Cargo environment (installed binaries and current project,
/// if any).
#[derive(Debug)]
pub struct CargoEnv {
    pub project: Option<Project>,
    pub installed_binaries: Vec<InstalledBinary>,
    pub project_dir: Option<String>,
}

/// Mathematical value of a [`CargoEnv`].
pub struct CargoEnvView {
    pub project: Option<ProjectView>,
    pub installed_binaries: Seq<InstalledBinaryView>,
    pub project_dir: Option<Seq<char>>,
}

impl View for CargoEnv {
    type V = CargoEnvView;

    open spec fn view(&self) -> CargoEnvView {
        CargoEnvView {
            project: match self.project {
                Some(p) => Some(p@),
                None => None,
            },
            installed_binaries: binaries_view(self.installed_binaries@),
            project_dir: opt_str(self.project_dir),
        }
    }
}

impl Clone for CargoEnv {
    fn clone(&self) -> (r: CargoEnv)
        ensures
            r@ == self@,
    {
        let mut installed_binaries: Vec<InstalledBinary> = Vec::new();
        let mut i: usize = 0;
        while i < self.installed_binaries.len()
            invariant
                i <= self.installed_binaries.len(),
                installed_binaries.len() == i,
                forall|j: int|
                    0 <= j < i ==> installed_binaries@[j]@ == self.installed_binaries@[j]@,
            decreases self.installed_binaries.len() - i,
        {
            installed_binaries.push(self.installed_binaries[i].clone());
            i += 1;
        }
        assert(binaries_view(installed_binaries@) =~= binaries_view(self.installed_binaries@));
        CargoEnv {
            project: match &self.project {
                Some(p) => Some(p.clone()),
                None => None,
            },
            installed_binaries,
            project_dir: crate::cargo::metadata::clone_opt_string(&self.project_dir),
        }
    }
}

impl CargoEnv {
    /// An environment of which nothing has been read yet. `project_dir` is
    /// the directory from which a manifest will be looked for.
    pub fn new(project_dir: Option<String>) -> (r: CargoEnv)
        ensures
            r@.project.is_none(),
            r@.installed_binaries.len() == 0,
            r@.project_dir == opt_str(project_dir),
            r.project.is_none(),
            r.installed_binaries@.len() == 0,
    {
        CargoEnv { project_dir, project: None, installed_binaries: Vec::new() }
    }

    /// The directory from which to look for a manifest: the one given at
    /// construction, as long as no project has been found.
    pub fn project_lookup_dir(&self) -> (r: Option<&String>)
        ensures
            match r {
                Some(d) => self.project.is_none() && self@.project_dir == Some(d@),
                None => self.project.is_some() || self@.project_dir.is_none(),
            },
    {
        if self.project.is_none() {
            self.project_dir.as_ref()
        } else {
            None
        }
    }

    /// Takes over what was read of the environment: the installed binaries
    /// (none where listing them failed) and, while no project has been
    /// found, the manifest found from the project directory.
    pub fn read(&mut self, installed: Option<Vec<InstalledBinary>>, manifest_file_path: Option<String>)
        ensures
            final(self)@.project_dir == old(self)@.project_dir,
            final(self).installed_binaries@ == match installed {
                Some(v) => v@,
                None => Seq::<InstalledBinary>::empty(),
            },
            old(self).project.is_some() ==> final(self).project == old(self).project,
            old(self).project.is_none() && old(self).project_dir.is_some()
                && manifest_file_path.is_some() ==> final(self).project.is_some()
                && final(self).project.unwrap().manifest_file_path == manifest_file_path.unwrap()
                && final(self).project.unwrap().packages@.len() == 0,
            old(self).project.is_none() && (old(self).project_dir.is_none()
                || manifest_file_path.is_none()) ==> final(self).project.is_none(),
    {
        self.installed_binaries = match installed {
            Some(v) => v,
            None => Vec::new(),
        };
        if self.project.is_none() && self.project_dir.is_some() {
            if let Some(path) = manifest_file_path {
                self.project = Some(Project::from(path));
            }
        }
    }

    /// Gets the installed version of the given crate name if it is
    /// installed, `None` otherwise. Where the list names a binary twice,
    /// the later entry counts.
    pub fn get_installed_version(&self, name: &str) -> (r: Option<String>)
        ensures
            opt_str(r) == installed_version(self@.installed_binaries, name@),
    {
        let ghost all = self@.installed_binaries;
        let mut i: usize = self.installed_binaries.len();
        assert(all.take(i as int) =~= all);
        while i > 0
            invariant
                i <= self.installed_binaries.len(),
                all == binaries_view(self.installed_binaries@),
                installed_version(all, name@) == installed_version(all.take(i as int), name@),
            decreases i,
        {
            proof {
                let cur = all.take(i as int);
                assert(cur.last() == all[i - 1]);
                assert(cur.drop_last() =~= all.take(i - 1));
            }
            if str_eq(self.installed_binaries[i - 1].name.as_str(), name) {
                return Some(self.installed_binaries[i - 1].version.clone());
            }
            i -= 1;
        }
        proof {
            assert(all.take(0).len() == 0);
        }
        None
    }
}

} // verus!
