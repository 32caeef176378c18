//! A discovered Python environment, as the discovery side describes it.

use crate::arch::Architecture;
use crate::category::PythonEnvironmentCategory;
use crate::manager::{EnvManager, EnvManagerView};
use crate::path::paths_view;
use std::path::PathBuf;
use vstd::prelude::*;

verus! {

/// A discovered Python environment. Everything but the category may be
/// missing: discovery reports what it found.
#[derive(Clone, Debug)]
pub struct PythonEnvironment {
    pub display_name: Option<String>,
    pub name: Option<String>,
    pub executable: Option<PathBuf>,
    pub category: PythonEnvironmentCategory,
    pub version: Option<String>,
    pub prefix: Option<PathBuf>,
    pub manager: Option<EnvManager>,
    pub project: Option<PathBuf>,
    pub arch: Option<Architecture>,
    pub symlinks: Option<Vec<PathBuf>>,
}

/// A discovered environment as a mathematical value: texts as sequences of
/// characters, the list of symlinks as a sequence of paths.
pub struct PythonEnvironmentView {
    pub display_name: Option<Seq<char>>,
    pub name: Option<Seq<char>>,
    pub executable: Option<PathBuf>,
    pub category: PythonEnvironmentCategory,
    pub version: Option<Seq<char>>,
    pub prefix: Option<PathBuf>,
    pub manager: Option<EnvManagerView>,
    pub project: Option<PathBuf>,
    pub arch: Option<Architecture>,
    pub symlinks: Option<Seq<PathBuf>>,
}

impl View for PythonEnvironment {
    type V = PythonEnvironmentView;

    open spec fn view(&self) -> PythonEnvironmentView {
        PythonEnvironmentView {
            display_name: self.display_name.deep_view(),
            name: self.name.deep_view(),
            executable: self.executable,
            category: self.category,
            version: self.version.deep_view(),
            prefix: self.prefix,
            manager: match self.manager {
                Some(manager) => Some(manager@),
                None => None,
            },
            project: self.project,
            arch: self.arch,
            symlinks: paths_view(self.symlinks),
        }
    }
}

impl PythonEnvironmentView {
    /// The environment of which nothing is known: every field missing, the
    /// category `Unknown`.
    pub open spec fn unknown() -> PythonEnvironmentView {
        PythonEnvironmentView {
            display_name: None,
            name: None,
            executable: None,
            category: PythonEnvironmentCategory::Unknown,
            version: None,
            prefix: None,
            manager: None,
            project: None,
            arch: None,
            symlinks: None,
        }
    }
}

impl Default for PythonEnvironment {
    /// The environment of which nothing is known.
    fn default() -> (env: PythonEnvironment)
        ensures
            env@ == PythonEnvironmentView::unknown(),
    {
        PythonEnvironment {
            display_name: None,
            name: None,
            executable: None,
            category: PythonEnvironmentCategory::Unknown,
            version: None,
            prefix: None,
            manager: None,
            project: None,
            arch: None,
            symlinks: None,
        }
    }
}

} // verus!
