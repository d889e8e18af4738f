//! Classification of competitor projects and the data that resolving one
//! competitor surfaces.
//!
//! A competitor is identified by its source directory.  Inspecting that
//! directory (an external, filesystem-reading step) yields two markers: a
//! compiled-project manifest and an interpreted-project entry script.  The
//! classification decision itself is pure and lives here.

use vstd::prelude::*;

verus! {

/// The implementation technology of a competitor project.
///
/// `Unknown` is a terminal error state: it never participates in a launch.
#[derive(Clone, Copy, Debug, PartialEq, Eq, Structural)]
pub enum ProjectKind {
    Compiled,
    Interpreted,
    Unknown,
}

/// What `classify` returns for a given pair of filesystem markers.
pub open spec fn classify_spec(compiled_marker: bool, interpreted_marker: bool) -> ProjectKind {
    if compiled_marker && !interpreted_marker {
        ProjectKind::Compiled
    } else if interpreted_marker && !compiled_marker {
        ProjectKind::Interpreted
    } else {
        ProjectKind::Unknown
    }
}

/// Decide a competitor's kind from the markers its directory holds.
///
/// `compiled_marker` says whether a compiled-project manifest was found,
/// `interpreted_marker` whether an interpreted-project entry script was.
/// Exactly one recognized marker yields its kind; none, or both (ambiguous),
/// yields `Unknown`.
pub fn classify(compiled_marker: bool, interpreted_marker: bool) -> (k: ProjectKind)
    ensures
        k == classify_spec(compiled_marker, interpreted_marker),
{
    if compiled_marker && !interpreted_marker {
        ProjectKind::Compiled
    } else if interpreted_marker && !compiled_marker {
        ProjectKind::Interpreted
    } else {
        ProjectKind::Unknown
    }
}

/// Everything that inspecting and resolving one competitor's directory
/// surfaces: its kind and the paths derived from the directory.
///
/// The paths are produced by external collaborators (filesystem inspection);
/// the pipeline only records and validates them.
pub struct ProjectInfo {
    /// The classified kind of the project.
    pub kind: ProjectKind,
    /// Path of the binary a successful build produces (meaningful for
    /// `Compiled`).
    pub binary: String,
    /// Path of the entry script (meaningful for `Interpreted`).
    pub script: String,
    /// Path of the interpreter that runs interpreted competitors.
    pub interpreter: String,
    /// Path of the static assets served alongside the tournament.
    pub static_assets: String,
}

/// Mathematical image of a `ProjectInfo`.
pub struct ReportView {
    pub kind: ProjectKind,
    pub binary: Seq<char>,
    pub script: Seq<char>,
    pub interpreter: Seq<char>,
    pub static_assets: Seq<char>,
}

impl View for ProjectInfo {
    type V = ReportView;

    open spec fn view(&self) -> ReportView {
        ReportView {
            kind: self.kind,
            binary: self.binary@,
            script: self.script@,
            interpreter: self.interpreter@,
            static_assets: self.static_assets@,
        }
    }
}

impl ReportView {
    /// A report is usable when the shared interpreter path it surfaces is a
    /// real path.  An `Unknown` report is rejected before its paths are read.
    pub open spec fn valid(self) -> bool {
        self.kind is Unknown || self.interpreter.len() > 0
    }

    /// The runnable artifact this competitor contributes to the launch
    /// configuration: the built binary for a compiled project, the entry
    /// script for an interpreted one.
    pub open spec fn artifact(self) -> Seq<char> {
        if self.kind is Interpreted {
            self.script
        } else {
            self.binary
        }
    }
}

} // verus!
