//! The report of one environment.

use crate::arch::{
    architecture_to_string, architecture_token, is_architecture_token,
    lemma_architecture_token_total,
};
use crate::category::{
    category_token, is_category_token, lemma_category_token_total, python_category_to_string,
};
use crate::manager::{manager_report_of, Manager, ManagerView};
use crate::path::{copy_path, copy_paths, paths_view};
use crate::python_environment::{PythonEnvironment, PythonEnvironmentView};
use std::path::PathBuf;
use vstd::prelude::*;

verus! {

/// The report of one environment: what discovery found, with the category and
/// the architecture as tokens. A report owns all that it holds; it borrows
/// nothing from the record it was made from.
#[derive(Clone, Debug)]
pub struct Environment {
    pub display_name: Option<String>,
    pub name: Option<String>,
    pub executable: Option<PathBuf>,
    pub category: &'static str,
    pub version: Option<String>,
    pub prefix: Option<PathBuf>,
    pub manager: Option<Manager>,
    pub project: Option<PathBuf>,
    pub arch: Option<&'static str>,
    pub symlinks: Option<Vec<PathBuf>>,
}

/// A report as a mathematical value: texts and tokens as sequences of
/// characters, the list of symlinks as a sequence of paths.
pub struct EnvironmentView {
    pub display_name: Option<Seq<char>>,
    pub name: Option<Seq<char>>,
    pub executable: Option<PathBuf>,
    pub category: Seq<char>,
    pub version: Option<Seq<char>>,
    pub prefix: Option<PathBuf>,
    pub manager: Option<ManagerView>,
    pub project: Option<PathBuf>,
    pub arch: Option<Seq<char>>,
    pub symlinks: Option<Seq<PathBuf>>,
}

impl View for Environment {
    type V = EnvironmentView;

    open spec fn view(&self) -> EnvironmentView {
        EnvironmentView {
            display_name: self.display_name.deep_view(),
            name: self.name.deep_view(),
            executable: self.executable,
            category: self.category@,
            version: self.version.deep_view(),
            prefix: self.prefix,
            manager: match self.manager {
                Some(manager) => Some(manager@),
                None => None,
            },
            project: self.project,
            arch: self.arch.deep_view(),
            symlinks: paths_view(self.symlinks),
        }
    }
}

impl EnvironmentView {
    /// What holds of every report made from a discovered environment: the
    /// category is one of the category tokens and the architecture, where
    /// there is one, is one of the architecture tokens.
    pub open spec fn wf(self) -> bool {
        &&& is_category_token(self.category)
        &&& self.arch matches Some(arch) ==> is_architecture_token(arch)
    }
}

/// The report of a discovered environment: every text, path and list as it
/// was found, the category and the architecture as their tokens, the manager
/// as its own report.
pub open spec fn report_of(source: PythonEnvironmentView) -> EnvironmentView {
    EnvironmentView {
        display_name: source.display_name,
        name: source.name,
        executable: source.executable,
        category: category_token(source.category),
        version: source.version,
        prefix: source.prefix,
        manager: match source.manager {
            Some(manager) => Some(manager_report_of(manager)),
            None => None,
        },
        project: source.project,
        arch: match source.arch {
            Some(arch) => Some(architecture_token(arch)),
            None => None,
        },
        symlinks: source.symlinks,
    }
}

/// A field is present in a report exactly when it was present in the record
/// that the report was made from. The category is always there.
pub proof fn lemma_presence_preserved(source: PythonEnvironmentView)
    ensures
        report_of(source).display_name is Some <==> source.display_name is Some,
        report_of(source).name is Some <==> source.name is Some,
        report_of(source).executable is Some <==> source.executable is Some,
        report_of(source).version is Some <==> source.version is Some,
        report_of(source).prefix is Some <==> source.prefix is Some,
        report_of(source).manager is Some <==> source.manager is Some,
        report_of(source).project is Some <==> source.project is Some,
        report_of(source).arch is Some <==> source.arch is Some,
        report_of(source).symlinks is Some <==> source.symlinks is Some,
{
}

/// Whatever was discovered, its report is well formed: it carries tokens,
/// and nothing else, as its category and its architecture.
pub proof fn lemma_report_wf(source: PythonEnvironmentView)
    ensures
        report_of(source).wf(),
{
    lemma_category_token_total(source.category);
    if let Some(arch) = source.arch {
        lemma_architecture_token_total(arch);
    }
}

/// Copies an optional text.
fn copy_text(text: &Option<String>) -> (copy: Option<String>)
    ensures
        copy.deep_view() == text.deep_view(),
{
    match text {
        Some(s) => Some(s.clone()),
        None => None,
    }
}

impl Environment {
    /// Reports a discovered environment. The report is made of copies, so
    /// nothing that is done to `env` afterwards shows in it.
    pub fn from(env: &PythonEnvironment) -> (report: Environment)
        ensures
            report@ == report_of(env@),
            report@.wf(),
    {
        proof {
            lemma_report_wf(env@);
        }
        Environment {
            display_name: copy_text(&env.display_name),
            name: copy_text(&env.name),
            executable: copy_path(&env.executable),
            category: python_category_to_string(&env.category),
            version: copy_text(&env.version),
            prefix: copy_path(&env.prefix),
            manager: match &env.manager {
                Some(manager) => Some(Manager::from(manager)),
                None => None,
            },
            project: copy_path(&env.project),
            arch: match &env.arch {
                Some(arch) => Some(architecture_to_string(arch)),
                None => None,
            },
            symlinks: match &env.symlinks {
                Some(paths) => Some(copy_paths(paths)),
                None => None,
            },
        }
    }
}

} // verus!
