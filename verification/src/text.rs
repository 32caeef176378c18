//! The summary of a report, as lines of text for a terminal.
//!
//! The first line names the category. After it comes one line for each field
//! that is present, always in the same order; a field that is missing leaves
//! no line behind. The symlinks are never shown.

use crate::environment::{Environment, EnvironmentView};
use crate::path::{path_text, path_to_str, shown_text, text_or_empty};
use std::path::PathBuf;
use vstd::prelude::*;

verus! {

/// The fields of a report that the summary shows, in the order it shows them.
#[derive(Clone, Copy, Debug, PartialEq, Eq, Structural)]
pub enum Field {
    DisplayName,
    Name,
    Executable,
    Version,
    Prefix,
    Project,
    Architecture,
    Manager,
}

/// The width that every label is filled up to.
pub const LABEL_WIDTH: usize = 12;

impl Field {
    /// The label that a field's line begins with.
    pub open spec fn label(self) -> Seq<char> {
        match self {
            Field::DisplayName => "Display-Name"@,
            Field::Name => "Name"@,
            Field::Executable => "Executable"@,
            Field::Version => "Version"@,
            Field::Prefix => "Prefix"@,
            Field::Project => "Project"@,
            Field::Architecture => "Architecture"@,
            Field::Manager => "Manager"@,
        }
    }

    /// Where a field stands in the order of the summary, counted from zero.
    pub open spec fn position(self) -> nat {
        match self {
            Field::DisplayName => 0,
            Field::Name => 1,
            Field::Executable => 2,
            Field::Version => 3,
            Field::Prefix => 4,
            Field::Project => 5,
            Field::Architecture => 6,
            Field::Manager => 7,
        }
    }
}

/// The field that stands at a position; the last one for every position
/// past the end.
pub open spec fn field_at(position: nat) -> Field {
    if position == 0 {
        Field::DisplayName
    } else if position == 1 {
        Field::Name
    } else if position == 2 {
        Field::Executable
    } else if position == 3 {
        Field::Version
    } else if position == 4 {
        Field::Prefix
    } else if position == 5 {
        Field::Project
    } else if position == 6 {
        Field::Architecture
    } else {
        Field::Manager
    }
}

/// `count` spaces; none where `count` is not positive.
pub open spec fn spaces(count: int) -> Seq<char> {
    Seq::new(
        if count > 0 {
            count as nat
        } else {
            0
        },
        |i: int| ' ',
    )
}

/// What stands before the value on a field's line: three spaces, the label
/// filled with spaces up to `LABEL_WIDTH` characters, a colon and a space.
pub open spec fn line_prefix(label: Seq<char>) -> Seq<char> {
    "   "@ + label + spaces(LABEL_WIDTH - label.len()) + ": "@
}

/// The line of a field: its prefix, then the value.
pub open spec fn field_line(label: Seq<char>, value: Seq<char>) -> Seq<char> {
    line_prefix(label) + value
}

/// The first line of a summary: the category token in round brackets.
pub open spec fn header_line(category: Seq<char>) -> Seq<char> {
    "Environment ("@ + category + ")"@
}

/// The lines as one text: each line followed by a line feed.
pub open spec fn join_lines(lines: Seq<Seq<char>>) -> Seq<char>
    decreases lines.len(),
{
    if lines.len() == 0 {
        Seq::empty()
    } else {
        join_lines(lines.drop_last()) + lines.last() + seq!['\n']
    }
}

/// What a line shows for an optional path: the path's text, or nothing at
/// all where the path has no text.
pub open spec fn shown_path(path: Option<PathBuf>) -> Option<Seq<char>> {
    match path {
        Some(p) => Some(text_or_empty(path_text(p))),
        None => None,
    }
}

/// The line of a field where there is a value to show, and no line where
/// there is none.
pub open spec fn optional_line(label: Seq<char>, value: Option<Seq<char>>) -> Seq<Seq<char>> {
    match value {
        Some(v) => seq![field_line(label, v)],
        None => Seq::empty(),
    }
}

/// One for a field that is present, zero for one that is not.
pub open spec fn one_if(present: bool) -> nat {
    if present {
        1
    } else {
        0
    }
}

impl EnvironmentView {
    /// Whether the report holds the field at all.
    pub open spec fn present(self, field: Field) -> bool {
        match field {
            Field::DisplayName => self.display_name is Some,
            Field::Name => self.name is Some,
            Field::Executable => self.executable is Some,
            Field::Version => self.version is Some,
            Field::Prefix => self.prefix is Some,
            Field::Project => self.project is Some,
            Field::Architecture => self.arch is Some,
            Field::Manager => self.manager is Some,
        }
    }

    /// Whether the summary can be written: the project path, where there is
    /// one, must have a text. Every other path may be without.
    pub open spec fn renders(self) -> bool {
        self.project matches Some(project) ==> path_text(project) is Some
    }

    /// The value that a field's line shows, where the field is present. The
    /// project shows the text of its path, which `renders` asks for.
    pub open spec fn shown(self, field: Field) -> Option<Seq<char>> {
        match field {
            Field::DisplayName => self.display_name,
            Field::Name => self.name,
            Field::Executable => shown_path(self.executable),
            Field::Version => self.version,
            Field::Prefix => shown_path(self.prefix),
            Field::Project => match self.project {
                Some(project) => Some(path_text(project)->0),
                None => None,
            },
            Field::Architecture => self.arch,
            Field::Manager => match self.manager {
                Some(manager) => Some(manager.summary()),
                None => None,
            },
        }
    }

    /// The lines that a field adds to the summary: one where it is present,
    /// none where it is not.
    pub open spec fn field_lines(self, field: Field) -> Seq<Seq<char>> {
        optional_line(field.label(), self.shown(field))
    }

    /// The lines of the summary, without their line feeds.
    pub open spec fn lines(self) -> Seq<Seq<char>> {
        seq![header_line(self.category)]
            + self.field_lines(Field::DisplayName)
            + self.field_lines(Field::Name)
            + self.field_lines(Field::Executable)
            + self.field_lines(Field::Version)
            + self.field_lines(Field::Prefix)
            + self.field_lines(Field::Project)
            + self.field_lines(Field::Architecture)
            + self.field_lines(Field::Manager)
    }

    /// The summary as one text.
    pub open spec fn text(self) -> Seq<char> {
        join_lines(self.lines())
    }

    /// How many of the fields that stand before `position` are present.
    pub open spec fn present_before(self, position: nat) -> nat
        decreases position,
    {
        if position == 0 {
            0
        } else {
            self.present_before((position - 1) as nat) + one_if(
                self.present(field_at((position - 1) as nat)),
            )
        }
    }

    /// Where among the lines the line of a present field stands: after the
    /// first line and the lines of the present fields before it.
    pub open spec fn line_index(self, field: Field) -> int {
        1 + self.present_before(field.position()) as int
    }
}

/// A field that is present adds exactly one line, a field that is missing
/// adds none.
pub proof fn lemma_field_lines(report: EnvironmentView, field: Field)
    ensures
        report.field_lines(field).len() == one_if(report.present(field)),
        report.present(field) ==> report.field_lines(field) == seq![
            field_line(field.label(), report.shown(field)->0),
        ],
{
}

/// The summary has its first line and then one line for each field that is
/// present among the eight it shows.
pub proof fn lemma_line_count(report: EnvironmentView)
    ensures
        report.lines().len() == 1
            + one_if(report.present(Field::DisplayName))
            + one_if(report.present(Field::Name))
            + one_if(report.present(Field::Executable))
            + one_if(report.present(Field::Version))
            + one_if(report.present(Field::Prefix))
            + one_if(report.present(Field::Project))
            + one_if(report.present(Field::Architecture))
            + one_if(report.present(Field::Manager)),
        report.lines()[0] == header_line(report.category),
{
    lemma_field_lines(report, Field::DisplayName);
    lemma_field_lines(report, Field::Name);
    lemma_field_lines(report, Field::Executable);
    lemma_field_lines(report, Field::Version);
    lemma_field_lines(report, Field::Prefix);
    lemma_field_lines(report, Field::Project);
    lemma_field_lines(report, Field::Architecture);
    lemma_field_lines(report, Field::Manager);
}

/// The first line and the lines of the fields before `position`.
spec fn lines_before(report: EnvironmentView, position: nat) -> Seq<Seq<char>>
    decreases position,
{
    if position == 0 {
        seq![header_line(report.category)]
    } else {
        lines_before(report, (position - 1) as nat) + report.field_lines(
            field_at((position - 1) as nat),
        )
    }
}

/// There are as many lines before a position as there are present fields
/// before it, and one more for the first line.
proof fn lemma_lines_before_len(report: EnvironmentView, position: nat)
    ensures
        lines_before(report, position).len() == 1 + report.present_before(position),
    decreases position,
{
    if position > 0 {
        lemma_lines_before_len(report, (position - 1) as nat);
        lemma_field_lines(report, field_at((position - 1) as nat));
    }
}

/// The lines before a position stay where they are when more fields follow.
proof fn lemma_lines_before_stay(report: EnvironmentView, position: nat, later: nat, index: int)
    requires
        position <= later,
        0 <= index < lines_before(report, position).len(),
    ensures
        index < lines_before(report, later).len(),
        lines_before(report, later)[index] == lines_before(report, position)[index],
    decreases later,
{
    if position < later {
        lemma_lines_before_stay(report, position, (later - 1) as nat, index);
    }
}

/// All the lines are the lines before the position past the last field.
proof fn lemma_lines_are_lines_before(report: EnvironmentView)
    ensures
        report.lines() == lines_before(report, 8),
{
    reveal_with_fuel(lines_before, 9);
}

/// The lines keep the order of the fields: the line of a field that is
/// present stands after the first line and after the lines of the present
/// fields before it.
pub proof fn lemma_line_position(report: EnvironmentView, field: Field)
    requires
        report.present(field),
    ensures
        0 < report.line_index(field) < report.lines().len(),
        report.lines()[report.line_index(field)] == field_line(
            field.label(),
            report.shown(field)->0,
        ),
{
    let position = field.position();
    lemma_lines_before_len(report, position);
    lemma_lines_before_len(report, position + 1);
    assert(lines_before(report, position + 1) == lines_before(report, position)
        + report.field_lines(field));
    lemma_lines_before_stay(report, position + 1, 8, report.line_index(field));
    lemma_lines_are_lines_before(report);
}

/// The symlinks are no part of the summary: two reports that differ in
/// nothing else have the same lines.
pub proof fn lemma_symlinks_not_shown(report: EnvironmentView, symlinks: Option<Seq<PathBuf>>)
    ensures
        (EnvironmentView { symlinks, ..report }).lines() == report.lines(),
        (EnvironmentView { symlinks, ..report }).renders() == report.renders(),
{
}

/// What stands before the value on a field's line, written out in full.
pub fn field_prefix(field: Field) -> (prefix: &'static str)
    ensures
        prefix@ == line_prefix(field.label()),
        prefix@.len() == 3 + LABEL_WIDTH + 2,
{
    proof {
        reveal_strlit("   ");
        reveal_strlit(": ");
    }
    match field {
        Field::DisplayName => {
            proof {
                reveal_strlit("Display-Name");
                reveal_strlit("   Display-Name: ");
                assert("   Display-Name: "@ =~= line_prefix("Display-Name"@));
            }
            "   Display-Name: "
        },
        Field::Name => {
            proof {
                reveal_strlit("Name");
                reveal_strlit("   Name        : ");
                assert("   Name        : "@ =~= line_prefix("Name"@));
            }
            "   Name        : "
        },
        Field::Executable => {
            proof {
                reveal_strlit("Executable");
                reveal_strlit("   Executable  : ");
                assert("   Executable  : "@ =~= line_prefix("Executable"@));
            }
            "   Executable  : "
        },
        Field::Version => {
            proof {
                reveal_strlit("Version");
                reveal_strlit("   Version     : ");
                assert("   Version     : "@ =~= line_prefix("Version"@));
            }
            "   Version     : "
        },
        Field::Prefix => {
            proof {
                reveal_strlit("Prefix");
                reveal_strlit("   Prefix      : ");
                assert("   Prefix      : "@ =~= line_prefix("Prefix"@));
            }
            "   Prefix      : "
        },
        Field::Project => {
            proof {
                reveal_strlit("Project");
                reveal_strlit("   Project     : ");
                assert("   Project     : "@ =~= line_prefix("Project"@));
            }
            "   Project     : "
        },
        Field::Architecture => {
            proof {
                reveal_strlit("Architecture");
                reveal_strlit("   Architecture: ");
                assert("   Architecture: "@ =~= line_prefix("Architecture"@));
            }
            "   Architecture: "
        },
        Field::Manager => {
            proof {
                reveal_strlit("Manager");
                reveal_strlit("   Manager     : ");
                assert("   Manager     : "@ =~= line_prefix("Manager"@));
            }
            "   Manager     : "
        },
    }
}

/// Writes the first line of a summary.
pub fn header(category: &str) -> (line: String)
    ensures
        line@ == header_line(category@),
{
    let mut line = String::from_str("Environment (");
    line.append(category);
    line.append(")");
    line
}

/// Writes the line of one field.
pub fn labelled(field: Field, value: &str) -> (line: String)
    ensures
        line@ == field_line(field.label(), value@),
{
    let mut line = String::from_str(field_prefix(field));
    line.append(value);
    line
}

/// Joins the lines into one text, each followed by a line feed.
pub fn join(lines: &Vec<String>) -> (text: String)
    ensures
        text@ == join_lines(lines.deep_view()),
{
    let mut text = String::new();
    let mut i: usize = 0;
    while i < lines.len()
        invariant
            i <= lines.len(),
            text@ == join_lines(lines.deep_view().take(i as int)),
        decreases lines.len() - i,
    {
        text.append(lines[i].as_str());
        text.append("\n");
        proof {
            reveal_strlit("\n");
            let all = lines.deep_view();
            assert(all.take(i + 1).drop_last() =~= all.take(i as int));
            assert(all.take(i + 1).last() == lines[i as int]@);
        }
        i += 1;
    }
    proof {
        assert(lines.deep_view().take(lines.len() as int) =~= lines.deep_view());
    }
    text
}

/// Borrows an optional text as an optional string slice.
fn as_text(text: &Option<String>) -> (slice: Option<&str>)
    ensures
        slice.deep_view() == text.deep_view(),
{
    match text {
        Some(s) => Some(s.as_str()),
        None => None,
    }
}

/// The text that a line shows for an optional path.
fn as_shown_path(path: &Option<PathBuf>) -> (slice: Option<&str>)
    ensures
        slice.deep_view() == shown_path(*path),
{
    match path {
        Some(p) => Some(shown_text(path_to_str(p))),
        None => None,
    }
}

/// Adds the line of a field to `lines` where there is a value to show, and
/// leaves `lines` as they are where there is none.
fn push_field(lines: &mut Vec<String>, field: Field, value: Option<&str>)
    ensures
        final(lines).deep_view() == old(lines).deep_view() + optional_line(
            field.label(),
            value.deep_view(),
        ),
{
    match value {
        Some(v) => {
            let line = labelled(field, v);
            lines.push(line);
            assert(lines.deep_view() =~= old(lines).deep_view() + seq![
                field_line(field.label(), v@),
            ]);
        },
        None => {
            assert(lines.deep_view() =~= old(lines).deep_view() + Seq::empty());
        },
    }
}

impl Environment {
    /// Whether the summary can be written: whether the project path, where
    /// there is one, has a text.
    pub fn can_render(&self) -> (ok: bool)
        ensures
            ok == self@.renders(),
    {
        match &self.project {
            Some(project) => path_to_str(project).is_some(),
            None => true,
        }
    }

    /// The lines of the summary, without their line feeds.
    pub fn lines(&self) -> (lines: Vec<String>)
        requires
            self@.renders(),
        ensures
            lines.deep_view() == self@.lines(),
    {
        let mut lines: Vec<String> = Vec::new();
        lines.push(header(self.category));
        assert(lines.deep_view() =~= seq![header_line(self@.category)]);
        push_field(&mut lines, Field::DisplayName, as_text(&self.display_name));
        push_field(&mut lines, Field::Name, as_text(&self.name));
        push_field(&mut lines, Field::Executable, as_shown_path(&self.executable));
        push_field(&mut lines, Field::Version, as_text(&self.version));
        push_field(&mut lines, Field::Prefix, as_shown_path(&self.prefix));
        let project: Option<&str> = match &self.project {
            Some(project) => path_to_str(project),
            None => None,
        };
        push_field(&mut lines, Field::Project, project);
        push_field(&mut lines, Field::Architecture, self.arch);
        match &self.manager {
            Some(manager) => {
                let summary = manager.summary();
                push_field(&mut lines, Field::Manager, Some(summary.as_str()));
            },
            None => {
                push_field(&mut lines, Field::Manager, None);
            },
        }
        lines
    }

    /// The summary as one text. It can be written only of a report whose
    /// project path has a text; `render` asks first.
    pub fn to_string(&self) -> (text: String)
        requires
            self@.renders(),
        ensures
            text@ == self@.text(),
    {
        let lines = self.lines();
        join(&lines)
    }

    /// The summary as one text, or `None` where it cannot be written because
    /// the project path has no text.
    pub fn render(&self) -> (text: Option<String>)
        ensures
            text is Some <==> self@.renders(),
            text matches Some(t) ==> t@ == self@.text(),
    {
        if self.can_render() {
            Some(self.to_string())
        } else {
            None
        }
    }
}

} // verus!
