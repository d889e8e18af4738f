//! The competitor resolution and arena-configuration pipeline.
//!
//! `ConfigBuilder` turns an ordered selection of competitor directories into
//! a validated [`LaunchConfig`](crate::launch::LaunchConfig).  Classification
//! and building touch the filesystem and an external toolchain, so the
//! pipeline is driven step by step: `next_step` says what must happen next
//! (inspect a directory, run a build), and the driver reports each outcome
//! back.  Competitors are processed strictly one at a time, in selection
//! order, and the first failure halts the pipeline for good: a halted
//! pipeline never requests another classification or build.

use crate::launch::ARENA_PORT;
use crate::launch::INCREMENT_SECS;
use crate::launch::INITIAL_TIME_SECS;
use crate::launch::LaunchConfig;
use crate::project::ProjectInfo;
use crate::project::ProjectKind;
use crate::project::ReportView;
use vstd::prelude::*;

verus! {

/// Why preparing a launch configuration failed.
#[derive(Debug)]
pub enum SetupError {
    /// The selection was empty; there is nothing to launch.
    NoCompetitors,
    /// The named project directory could not be classified.
    UnrecognizedProject(String),
    /// The named compiled project failed its build.
    Build(String),
    /// An interpreted competitor takes part but no interpreter path was ever
    /// resolved.  Defensive: the pipeline proves this state unreachable.
    MissingInterpreter,
}

/// What the driver must do next to advance the pipeline.
pub enum Step {
    /// Inspect the project directory at this path and report its
    /// classification.
    Classify(String),
    /// Run the build toolchain for the compiled project at this path and
    /// report whether it succeeded.
    RunBuild(String),
    /// Every competitor is resolved; call `finish`.
    Ready,
    /// The pipeline has failed; nothing further will be requested.
    Halted,
}

/// The artifact sequence a run of processed competitors contributes, in
/// processing order.
pub open spec fn artifacts_of(reports: Seq<ReportView>) -> Seq<Seq<char>> {
    reports.map_values(|r: ReportView| r.artifact())
}

/// The view of an optional owned string.
pub open spec fn opt_str_view(o: Option<String>) -> Option<Seq<char>> {
    match o {
        Option::Some(s) => Option::Some(s@),
        Option::None => Option::None,
    }
}

/// Mathematical image of the pipeline state.
pub struct PipelineView {
    /// The selected competitor directories, in selection order.
    pub selection: Seq<Seq<char>>,
    /// Index of the next competitor to process.
    pub pos: nat,
    /// Whether a failure has halted the pipeline.
    pub halted: bool,
    /// The report of a compiled competitor whose build outcome is pending.
    pub pending: Option<ReportView>,
    /// Artifact paths accumulated so far, in selection order.
    pub binaries: Seq<Seq<char>>,
    /// The shared interpreter path resolved so far (last writer wins).
    pub interpreter: Option<Seq<char>>,
    /// The shared static-assets path resolved so far (last writer wins).
    pub static_assets: Option<Seq<char>>,
    /// Whether any processed competitor was interpreted.
    pub any_interpreted: bool,
    /// The reports of the fully processed competitors, in selection order.
    pub processed: Seq<ReportView>,
}

/// The pipeline state machine.  Obtain one with `new`, drive it with
/// `next_step` / `report_classification` / `report_build`, and close it with
/// `finish`.
pub struct ConfigBuilder {
    /// The selected competitor directories, in selection order.
    pub selection: Vec<String>,
    /// Index of the next competitor to process.
    pub pos: usize,
    /// Whether a failure has halted the pipeline.
    pub halted: bool,
    /// A compiled competitor's data, held while its build outcome is
    /// pending.
    pub pending: Option<ProjectInfo>,
    /// Artifact paths accumulated so far, in selection order.
    pub binaries: Vec<String>,
    /// The shared interpreter path resolved so far.
    pub interpreter: Option<String>,
    /// The shared static-assets path resolved so far.
    pub static_assets: Option<String>,
    /// Whether any processed competitor was interpreted.
    pub any_interpreted: bool,
    /// Trace of the fully processed competitors' reports.
    pub processed: Ghost<Seq<ReportView>>,
}

impl View for ConfigBuilder {
    type V = PipelineView;

    open spec fn view(&self) -> PipelineView {
        PipelineView {
            selection: self.selection.deep_view(),
            pos: self.pos as nat,
            halted: self.halted,
            pending: match self.pending {
                Option::Some(p) => Option::Some(p.view()),
                Option::None => Option::None,
            },
            binaries: self.binaries.deep_view(),
            interpreter: opt_str_view(self.interpreter),
            static_assets: opt_str_view(self.static_assets),
            any_interpreted: self.any_interpreted,
            processed: self.processed@,
        }
    }
}

impl ConfigBuilder {
    /// Well-formedness of the pipeline state: the accumulated configuration
    /// is exactly what the processed reports dictate.
    pub open spec fn wf(self) -> bool {
        let v = self.view();
        &&& v.selection.len() > 0
        &&& v.pos <= v.selection.len()
        &&& v.processed.len() == v.pos
        &&& (v.pending is Some ==> v.pos < v.selection.len())
        &&& (v.pending matches Option::Some(p) ==> p.kind is Compiled && p.valid())
        &&& v.binaries == artifacts_of(v.processed)
        &&& (forall|i: int|
            0 <= i < v.processed.len() ==> (#[trigger] v.processed[i]).valid()
                && !(v.processed[i].kind is Unknown))
        &&& if v.processed.len() == 0 {
            v.interpreter is None && v.static_assets is None && !v.any_interpreted
        } else {
            v.interpreter == Option::Some(v.processed.last().interpreter)
                && v.static_assets == Option::Some(v.processed.last().static_assets)
        }
        &&& v.any_interpreted <==> (exists|i: int|
            0 <= i < v.processed.len() && (#[trigger] v.processed[i]).kind is Interpreted)
    }

    /// Start a pipeline over the given selection.  An empty selection is
    /// rejected outright with `NoCompetitors`: no classification is ever
    /// attempted for it.
    pub fn new(selection: Vec<String>) -> (r: Result<ConfigBuilder, SetupError>)
        ensures
            selection@.len() == 0 ==> (r matches Err(e) && e is NoCompetitors),
            selection@.len() > 0 ==> (r matches Ok(m) && m.wf() && !m@.halted && m@.pos == 0
                && m@.pending is None && m@.selection == selection.deep_view()
                && m@.processed == Seq::<ReportView>::empty()),
    {
        if selection.len() == 0 {
            Err(SetupError::NoCompetitors)
        } else {
            let m = ConfigBuilder {
                selection,
                pos: 0,
                halted: false,
                pending: None,
                binaries: Vec::new(),
                interpreter: None,
                static_assets: None,
                any_interpreted: false,
                processed: Ghost(Seq::empty()),
            };
            proof {
                assert(m@.binaries =~= artifacts_of(m@.processed));
                assert(m@.selection.len() == m.selection@.len());
            }
            Ok(m)
        }
    }

    /// What the driver must do next.  A halted pipeline requests nothing: in
    /// particular, no build is ever requested after a failure.
    pub fn next_step(&self) -> (s: Step)
        requires
            self.wf(),
        ensures
            self@.halted ==> s is Halted,
            !self@.halted && self@.pending is Some ==> (s matches Step::RunBuild(p) && p@
                == self@.selection[self@.pos as int]),
            !self@.halted && self@.pending is None && self@.pos < self@.selection.len() ==> (
            s matches Step::Classify(p) && p@ == self@.selection[self@.pos as int]),
            !self@.halted && self@.pending is None && self@.pos == self@.selection.len()
                ==> s is Ready,
    {
        if self.halted {
            Step::Halted
        } else if self.pending.is_some() {
            Step::RunBuild(self.selection[self.pos].clone())
        } else if self.pos < self.selection.len() {
            Step::Classify(self.selection[self.pos].clone())
        } else {
            Step::Ready
        }
    }

    /// Record the classification of the current competitor together with the
    /// paths its resolution surfaced.
    ///
    /// An `Unknown` kind halts the pipeline at once with
    /// `UnrecognizedProject` carrying that competitor's exact path.  An
    /// interpreted competitor is resolved on the spot: its entry script
    /// becomes its artifact and it updates the shared interpreter and
    /// static-assets paths (last writer wins).  A compiled competitor is
    /// held pending until its build outcome arrives.
    pub fn report_classification(&mut self, info: ProjectInfo) -> (r: Result<(), SetupError>)
        requires
            old(self).wf(),
            !old(self)@.halted,
            old(self)@.pending is None,
            old(self)@.pos < old(self)@.selection.len(),
            info@.valid(),
        ensures
            final(self).wf(),
            final(self)@.selection == old(self)@.selection,
            info@.kind is Unknown ==> ({
                &&& r matches Err(e) && (e matches SetupError::UnrecognizedProject(p) && p@
                    == old(self)@.selection[old(self)@.pos as int])
                &&& final(self)@.halted
                &&& final(self)@.processed == old(self)@.processed
            }),
            info@.kind is Interpreted ==> ({
                &&& r is Ok
                &&& !final(self)@.halted
                &&& final(self)@.pending is None
                &&& final(self)@.pos == old(self)@.pos + 1
                &&& final(self)@.processed == old(self)@.processed.push(info@)
                &&& final(self)@.binaries == old(self)@.binaries.push(info@.script)
                &&& final(self)@.interpreter == Option::Some(info@.interpreter)
                &&& final(self)@.static_assets == Option::Some(info@.static_assets)
                &&& final(self)@.any_interpreted
            }),
            info@.kind is Compiled ==> ({
                &&& r is Ok
                &&& !final(self)@.halted
                &&& final(self)@.pending == Option::Some(info@)
                &&& final(self)@.pos == old(self)@.pos
                &&& final(self)@.processed == old(self)@.processed
                &&& final(self)@.binaries == old(self)@.binaries
                &&& final(self)@.interpreter == old(self)@.interpreter
                &&& final(self)@.static_assets == old(self)@.static_assets
                &&& final(self)@.any_interpreted == old(self)@.any_interpreted
            }),
    {
        let ghost iv = info@;
        let ghost pre = self@;
        let ProjectInfo { kind, binary, script, interpreter, static_assets } = info;
        match kind {
            ProjectKind::Unknown => {
                self.halted = true;
                let p = self.selection[self.pos].clone();
                Err(SetupError::UnrecognizedProject(p))
            },
            ProjectKind::Interpreted => {
                self.binaries.push(script);
                self.interpreter = Some(interpreter);
                self.static_assets = Some(static_assets);
                self.any_interpreted = true;
                proof {
                    assert(pre.selection.len() == old(self).selection@.len());
                    assert(self.pos < self.selection.len());
                }
                self.pos = self.pos + 1;
                self.processed = Ghost(self.processed@.push(iv));
                proof {
                    assert(self@.binaries =~= artifacts_of(self@.processed)) by {
                        assert(self@.binaries =~= pre.binaries.push(iv.script));
                        assert(artifacts_of(pre.processed.push(iv)) =~= artifacts_of(
                            pre.processed,
                        ).push(iv.artifact()));
                    }
                    assert(self@.processed.last() == iv);
                    assert(self@.processed[pre.processed.len() as int].kind is Interpreted);
                }
                Ok(())
            },
            ProjectKind::Compiled => {
                self.pending = Some(
                    ProjectInfo { kind, binary, script, interpreter, static_assets },
                );
                proof {
                    assert(self@.binaries =~= pre.binaries);
                    assert(self@.pending == Option::Some(iv));
                }
                Ok(())
            },
        }
    }

    /// Record the outcome of the build that `next_step` requested for the
    /// pending compiled competitor.
    ///
    /// On success the competitor's binary becomes its artifact and it
    /// updates the shared interpreter and static-assets paths.  On failure
    /// the pipeline halts at once with `Build` carrying that competitor's
    /// exact path: competitors after it are never resolved.
    pub fn report_build(&mut self, success: bool) -> (r: Result<(), SetupError>)
        requires
            old(self).wf(),
            !old(self)@.halted,
            old(self)@.pending is Some,
        ensures
            final(self).wf(),
            final(self)@.selection == old(self)@.selection,
            !success ==> ({
                &&& r matches Err(e) && (e matches SetupError::Build(p) && p@
                    == old(self)@.selection[old(self)@.pos as int])
                &&& final(self)@.halted
                &&& final(self)@.processed == old(self)@.processed
                &&& final(self)@.binaries == old(self)@.binaries
            }),
            success ==> (old(self)@.pending matches Option::Some(rep) ==> ({
                &&& r is Ok
                &&& !final(self)@.halted
                &&& final(self)@.pending is None
                &&& final(self)@.pos == old(self)@.pos + 1
                &&& final(self)@.processed == old(self)@.processed.push(rep)
                &&& final(self)@.binaries == old(self)@.binaries.push(rep.binary)
                &&& final(self)@.interpreter == Option::Some(rep.interpreter)
                &&& final(self)@.static_assets == Option::Some(rep.static_assets)
                &&& final(self)@.any_interpreted == old(self)@.any_interpreted
            })),
    {
        let ghost pre = self@;
        if success {
            let info = self.pending.take().unwrap();
            let ghost iv = info@;
            let ProjectInfo { kind, binary, script, interpreter, static_assets } = info;
            self.binaries.push(binary);
            self.interpreter = Some(interpreter);
            self.static_assets = Some(static_assets);
            proof {
                assert(pre.selection.len() == old(self).selection@.len());
                assert(self.pos < self.selection.len());
            }
            self.pos = self.pos + 1;
            self.processed = Ghost(self.processed@.push(iv));
            proof {
                assert(self@.binaries =~= artifacts_of(self@.processed)) by {
                    assert(self@.binaries =~= pre.binaries.push(iv.binary));
                    assert(iv.artifact() == iv.binary);
                    assert(artifacts_of(pre.processed.push(iv)) =~= artifacts_of(
                        pre.processed,
                    ).push(iv.artifact()));
                }
                assert(self@.processed.last() == iv);
                assert(self@.any_interpreted <==> (exists|i: int|
                    0 <= i < self@.processed.len() && (
                    #[trigger] self@.processed[i]).kind is Interpreted)) by {
                    if self@.any_interpreted {
                        let w = choose|i: int|
                            0 <= i < pre.processed.len() && (
                            #[trigger] pre.processed[i]).kind is Interpreted;
                        assert(self@.processed[w].kind is Interpreted);
                    }
                    if exists|i: int|
                        0 <= i < self@.processed.len() && (
                        #[trigger] self@.processed[i]).kind is Interpreted {
                        let w = choose|i: int|
                            0 <= i < self@.processed.len() && (
                            #[trigger] self@.processed[i]).kind is Interpreted;
                        if w < pre.processed.len() {
                            assert(pre.processed[w].kind is Interpreted);
                        } else {
                            assert(self@.processed[w] == iv);
                        }
                    }
                }
            }
            Ok(())
        } else {
            self.halted = true;
            let p = self.selection[self.pos].clone();
            Err(SetupError::Build(p))
        }
    }

    /// Close a fully resolved pipeline and hand out the launch
    /// configuration.
    ///
    /// The artifact sequence holds one entry per selected competitor, in
    /// selection order; the clock and port parameters are the fixed values
    /// of this version; the configuration is not yet marked for remote
    /// reporting.  The `MissingInterpreter` check is performed defensively,
    /// but well-formedness makes that state unreachable, so success is
    /// guaranteed.
    pub fn finish(self) -> (r: Result<LaunchConfig, SetupError>)
        requires
            self.wf(),
            !self@.halted,
            self@.pending is None,
            self@.pos == self@.selection.len(),
        ensures
            r matches Ok(cfg) && ({
                &&& cfg.valid()
                &&& cfg.port == ARENA_PORT
                &&& cfg.initial_time_secs == INITIAL_TIME_SECS
                &&& cfg.increment_secs == INCREMENT_SECS
                &&& cfg.binaries.deep_view() == artifacts_of(self@.processed)
                &&& cfg.binaries@.len() == self@.selection.len()
                &&& opt_str_view(cfg.interpreter) == self@.interpreter
                &&& opt_str_view(cfg.static_assets) == self@.static_assets
                &&& !cfg.watch
                &&& cfg.api_key is None
                &&& (self@.any_interpreted ==> (cfg.interpreter matches Some(s) && s@.len() > 0))
            }),
    {
        proof {
            if self.any_interpreted {
                let w = choose|i: int|
                    0 <= i < self@.processed.len() && (
                    #[trigger] self@.processed[i]).kind is Interpreted;
                assert(self@.processed[w].valid());
                assert(self@.processed.last().valid());
            }
            assert(self@.binaries.len() == self@.selection.len());
        }
        if self.any_interpreted && self.interpreter.is_none() {
            return Err(SetupError::MissingInterpreter);
        }
        Ok(
            LaunchConfig {
                port: ARENA_PORT,
                initial_time_secs: INITIAL_TIME_SECS,
                increment_secs: INCREMENT_SECS,
                binaries: self.binaries,
                interpreter: self.interpreter,
                static_assets: self.static_assets,
                watch: false,
                api_key: None,
            },
        )
    }
}

/// Law: the artifact sequence of a processed run lines up with the
/// competitors index by index — competitor `i`'s artifact stands at
/// position `i`, so selection order is preserved exactly.
pub proof fn lemma_artifact_order_preserved(reports: Seq<ReportView>)
    ensures
        artifacts_of(reports).len() == reports.len(),
        forall|i: int|
            0 <= i < reports.len() ==> artifacts_of(reports)[i] == (
            #[trigger] reports[i]).artifact(),
{
}

/// Law: a pipeline that ran to completion resolved exactly one artifact per
/// selected competitor and kept selection order exactly — the artifact at
/// position `i` belongs to the `i`-th selected competitor.
pub proof fn lemma_completed_run_preserves_order(m: ConfigBuilder)
    requires
        m.wf(),
        m@.pending is None,
        m@.pos == m@.selection.len(),
    ensures
        m@.binaries.len() == m@.selection.len(),
        forall|i: int|
            0 <= i < m@.selection.len() ==> m@.binaries[i] == (#[trigger] m@.processed[i]).artifact(),
{
    lemma_artifact_order_preserved(m@.processed);
}

/// Law: a well-formed pipeline that has processed at least one interpreted
/// competitor always holds a resolved, non-empty interpreter path.
pub proof fn lemma_interpreted_has_interpreter(m: ConfigBuilder)
    requires
        m.wf(),
        m@.any_interpreted,
    ensures
        m@.interpreter matches Some(s) && s.len() > 0,
{
    let w = choose|i: int|
        0 <= i < m@.processed.len() && (#[trigger] m@.processed[i]).kind is Interpreted;
    assert(m@.processed[w].valid());
    assert(m@.processed.last().valid());
}

} // verus!
