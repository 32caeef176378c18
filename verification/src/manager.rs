//! The tool that manages an environment, as discovered and as reported.

use crate::path::{path_text, path_to_str, shown_text, text_or_empty};
use std::path::PathBuf;
use vstd::prelude::*;

verus! {

/// A discovered environment manager: the tool's name and where its
/// executable lives.
#[derive(Clone, Debug)]
pub struct EnvManager {
    pub executable: PathBuf,
    pub tool: String,
}

/// What a report says of an environment's manager.
#[derive(Clone, Debug)]
pub struct Manager {
    pub executable: PathBuf,
    pub tool: String,
}

/// A discovered manager as a mathematical value.
pub struct EnvManagerView {
    pub executable: PathBuf,
    pub tool: Seq<char>,
}

/// A reported manager as a mathematical value.
pub struct ManagerView {
    pub executable: PathBuf,
    pub tool: Seq<char>,
}

impl View for EnvManager {
    type V = EnvManagerView;

    open spec fn view(&self) -> EnvManagerView {
        EnvManagerView { executable: self.executable, tool: self.tool@ }
    }
}

impl View for Manager {
    type V = ManagerView;

    open spec fn view(&self) -> ManagerView {
        ManagerView { executable: self.executable, tool: self.tool@ }
    }
}

/// The report of a discovered manager: the same tool and the same executable.
pub open spec fn manager_report_of(source: EnvManagerView) -> ManagerView {
    ManagerView { executable: source.executable, tool: source.tool }
}

impl ManagerView {
    /// How a manager shows in the summary of its environment: the tool, a
    /// comma and a space, then the executable's text (nothing, where the path
    /// has no text).
    pub open spec fn summary(self) -> Seq<char> {
        self.tool + ", "@ + text_or_empty(path_text(self.executable))
    }
}

impl Manager {
    /// Reports a discovered manager. The report holds copies of its own.
    pub fn from(source: &EnvManager) -> (report: Manager)
        ensures
            report@ == manager_report_of(source@),
    {
        Manager { executable: source.executable.clone(), tool: source.tool.clone() }
    }

    /// The manager as one piece of text, `<tool>, <executable>`.
    pub fn summary(&self) -> (text: String)
        ensures
            text@ == self@.summary(),
    {
        let mut text = self.tool.clone();
        text.append(", ");
        text.append(shown_text(path_to_str(&self.executable)));
        text
    }
}

} // verus!
