//! The pipeline orchestrator. A compiling command runs, strictly in order:
//! dependency acquisition, compilation, then the follow-up action the
//! command implies. Each stage runs only after the previous one succeeded;
//! the first failure aborts the run and is forwarded unchanged.
//!
//! The orchestrator is a state machine: the caller asks for the next stage
//! to perform, performs it, and hands back the outcome. The decisions are
//! all here and verified; performing a stage is the caller's business.

use vstd::prelude::*;
use crate::error::{Error, Stage};
use crate::options::Options;
use crate::platform::{Runtime, Which};

verus! {

/// The progress sink of one invocation: a visible reporter or a silent
/// no-op, selected once by a flag. Every stage receives the same sink.
#[derive(Clone, Copy, Debug, PartialEq, Eq, Structural)]
pub enum Telemetry {
    Reporter,
    Null,
}

/// Whether an existing lock file is honoured when resolving dependencies.
#[derive(Clone, Copy, Debug, PartialEq, Eq, Structural)]
pub enum UseManifest {
    Yes,
    No,
}

/// Whether resolution warns about incompatible major versions.
#[derive(Clone, Copy, Debug, PartialEq, Eq, Structural)]
pub enum CheckMajorVersions {
    Yes,
    No,
}

/// Configuration handed to the dependency resolver.
#[derive(Clone, Copy, Debug, PartialEq, Eq, Structural)]
pub struct DependencyConfig {
    pub use_manifest: UseManifest,
    pub check_major_versions: CheckMajorVersions,
}

/// The configuration a compiling command resolves dependencies with: the
/// lock file is honoured and major-version checks stay off.
pub open spec fn spec_dependency_download_config() -> DependencyConfig {
    DependencyConfig { use_manifest: UseManifest::Yes, check_major_versions: CheckMajorVersions::No }
}

/// Assembles the dependency-resolution configuration of a compiling
/// command.
pub fn dependency_download_config() -> (c: DependencyConfig)
    ensures
        c == spec_dependency_download_config(),
{
    DependencyConfig { use_manifest: UseManifest::Yes, check_major_versions: CheckMajorVersions::No }
}

/// The action a command implies once compilation has succeeded.
#[derive(Debug, Clone, PartialEq, Eq)]
pub enum Followup {
    /// Nothing follows compilation.
    NoFollowup,
    /// Execute an entry point with the given runtime and arguments.
    RunModule {
        which: Which,
        module: Option<String>,
        runtime: Option<Runtime>,
        arguments: Vec<String>,
    },
}

/// Everything a pipeline run is determined by: the compiler configuration,
/// the dependency-resolution configuration, the progress sink, and the
/// follow-up action.
#[derive(Debug, Clone, PartialEq, Eq)]
pub struct BuildPlan {
    pub options: Options,
    pub dependency_config: DependencyConfig,
    pub telemetry: Telemetry,
    pub followup: Followup,
}

/// A stage the caller is asked to perform next.
#[derive(Clone, Copy, Debug, PartialEq, Eq, Structural)]
pub enum StageAction {
    /// Acquire the dependency manifest.
    ResolveDeps,
    /// Invoke the compilation pipeline.
    Compile,
    /// Invoke the follow-up action of the plan.
    RunFollowup,
}

/// What performing a stage came to.
#[derive(Debug, Clone, PartialEq, Eq)]
pub enum StageOutcome {
    Success,
    Failure { diagnostic: String },
}

/// A failure remembered by the run: which stage failed and its diagnostic.
#[derive(Debug, Clone, PartialEq, Eq)]
pub struct FailureRecord {
    pub stage: Stage,
    pub diagnostic: String,
}

/// The state of one pipeline run.
#[derive(Debug, Clone, PartialEq, Eq)]
pub struct PipelineRun {
    pub plan: BuildPlan,
    pub deps_resolved: bool,
    pub compiled: bool,
    pub followed_up: bool,
    pub failure: Option<FailureRecord>,
}

/// The stage an action belongs to.
pub open spec fn stage_of(a: StageAction) -> Stage {
    match a {
        StageAction::ResolveDeps => Stage::DependencyResolution,
        StageAction::Compile => Stage::Compilation,
        StageAction::RunFollowup => Stage::FollowUp,
    }
}

impl PipelineRun {
    /// A fresh run of the given plan: nothing done, nothing failed.
    pub open spec fn spec_start(plan: BuildPlan) -> PipelineRun {
        PipelineRun {
            plan,
            deps_resolved: false,
            compiled: false,
            followed_up: false,
            failure: None,
        }
    }

    /// Whether the plan implies an action after compilation.
    pub open spec fn has_followup(self) -> bool {
        !(self.plan.followup is NoFollowup)
    }

    /// Stage ordering: compilation only after dependency acquisition, the
    /// follow-up action only after compilation.
    pub open spec fn wf(self) -> bool {
        &&& self.compiled ==> self.deps_resolved
        &&& self.followed_up ==> self.compiled
    }

    /// The stage owed next, if any. A run that has failed owes nothing.
    pub open spec fn spec_next_action(self) -> Option<StageAction> {
        if self.failure is Some {
            None
        } else if !self.deps_resolved {
            Some(StageAction::ResolveDeps)
        } else if !self.compiled {
            Some(StageAction::Compile)
        } else if self.has_followup() && !self.followed_up {
            Some(StageAction::RunFollowup)
        } else {
            None
        }
    }

    /// The state after the owed stage came to the given outcome.
    pub open spec fn spec_apply(self, outcome: StageOutcome) -> PipelineRun {
        match self.spec_next_action() {
            None => self,
            Some(a) => match outcome {
                StageOutcome::Success => match a {
                    StageAction::ResolveDeps => PipelineRun { deps_resolved: true, ..self },
                    StageAction::Compile => PipelineRun { compiled: true, ..self },
                    StageAction::RunFollowup => PipelineRun { followed_up: true, ..self },
                },
                StageOutcome::Failure { diagnostic } => PipelineRun {
                    failure: Some(FailureRecord { stage: stage_of(a), diagnostic }),
                    ..self
                },
            },
        }
    }

    /// Starts a run of the given plan.
    pub fn start(plan: BuildPlan) -> (s: Self)
        ensures
            s == Self::spec_start(plan),
            s.wf(),
    {
        PipelineRun {
            plan,
            deps_resolved: false,
            compiled: false,
            followed_up: false,
            failure: None,
        }
    }

    /// The next stage to perform. Compilation is only ever asked for after
    /// dependency acquisition succeeded, the follow-up action only after
    /// compilation succeeded, and nothing is asked for once a stage failed.
    pub fn next_action(&self) -> (a: Option<StageAction>)
        ensures
            a == self.spec_next_action(),
            self.failure is Some ==> a is None,
            a == Some(StageAction::Compile) ==> self.deps_resolved && self.failure is None,
            a == Some(StageAction::RunFollowup) ==> self.compiled && self.deps_resolved
                || !self.wf(),
    {
        if self.failure.is_some() {
            None
        } else if !self.deps_resolved {
            Some(StageAction::ResolveDeps)
        } else if !self.compiled {
            Some(StageAction::Compile)
        } else {
            let wants_followup = match &self.plan.followup {
                Followup::NoFollowup => false,
                Followup::RunModule { .. } => true,
            };
            if wants_followup && !self.followed_up {
                Some(StageAction::RunFollowup)
            } else {
                None
            }
        }
    }

    /// Records the outcome of the stage that was owed. A success marks the
    /// stage done; a failure ends the run, keeping the diagnostic
    /// unchanged.
    pub fn apply(&mut self, outcome: StageOutcome)
        requires
            old(self).spec_next_action() is Some,
        ensures
            *final(self) == old(self).spec_apply(outcome),
            old(self).wf() ==> final(self).wf(),
    {
        let stage = if !self.deps_resolved {
            Stage::DependencyResolution
        } else if !self.compiled {
            Stage::Compilation
        } else {
            Stage::FollowUp
        };
        match outcome {
            StageOutcome::Success => {
                if !self.deps_resolved {
                    self.deps_resolved = true;
                } else if !self.compiled {
                    self.compiled = true;
                } else {
                    self.followed_up = true;
                }
            },
            StageOutcome::Failure { diagnostic } => {
                self.failure = Some(FailureRecord { stage, diagnostic });
            },
        }
    }

    /// The run's result: success exactly when no stage failed; otherwise
    /// the failed stage's diagnostic, forwarded unchanged.
    pub fn result(&self) -> (r: Result<(), Error>)
        ensures
            r is Ok <==> self.failure is None,
            self.failure matches Some(f) ==> r == Err::<(), Error>(
                Error::StageFailed { stage: f.stage, diagnostic: f.diagnostic },
            ),
    {
        match &self.failure {
            None => Ok(()),
            Some(f) => Err(Error::StageFailed { stage: f.stage, diagnostic: f.diagnostic.clone() }),
        }
    }
}

/// The stages actually performed when a run of state `s` is driven with the
/// given stage outcomes, in order. The caller performs one stage per
/// outcome; the trace ends when the run owes nothing or the outcomes run
/// out.
pub open spec fn spec_trace(s: PipelineRun, outcomes: Seq<StageOutcome>) -> Seq<StageAction>
    decreases outcomes.len(),
{
    match s.spec_next_action() {
        None => Seq::empty(),
        Some(a) => if outcomes.len() == 0 {
            Seq::empty()
        } else {
            seq![a] + spec_trace(s.spec_apply(outcomes[0]), outcomes.drop_first())
        },
    }
}

/// A run that has failed performs no further stage, whatever outcomes
/// would follow.
pub proof fn lemma_failure_ends_trace(s: PipelineRun, outcomes: Seq<StageOutcome>)
    requires
        s.failure is Some,
    ensures
        spec_trace(s, outcomes) =~= Seq::<StageAction>::empty(),
{
}

/// The stages a plan can perform, in the only order they may happen.
pub open spec fn full_trace(plan: BuildPlan) -> Seq<StageAction> {
    if plan.followup is NoFollowup {
        seq![StageAction::ResolveDeps, StageAction::Compile]
    } else {
        seq![StageAction::ResolveDeps, StageAction::Compile, StageAction::RunFollowup]
    }
}

/// Stage ordering, in full generality: whatever outcomes the stages come
/// to, the stages performed are a prefix of dependency acquisition, then
/// compilation, then the follow-up action. No stage is ever skipped,
/// repeated or reordered, and nothing runs after a failure.
pub proof fn lemma_trace_is_ordered_prefix(plan: BuildPlan, outcomes: Seq<StageOutcome>)
    ensures
        ({
            let tr = spec_trace(PipelineRun::spec_start(plan), outcomes);
            tr.len() <= full_trace(plan).len() && tr =~= full_trace(plan).take(tr.len() as int)
        }),
{
    let s0 = PipelineRun::spec_start(plan);
    if outcomes.len() == 0 {
        assert(spec_trace(s0, outcomes) =~= Seq::<StageAction>::empty());
    } else if outcomes[0] is Failure {
        lemma_dependency_failure_blocks_compilation(plan, outcomes);
    } else {
        let s1 = s0.spec_apply(outcomes[0]);
        let rest1 = outcomes.drop_first();
        assert(s1.deps_resolved && s1.failure is None);
        if rest1.len() == 0 {
            assert(spec_trace(s1, rest1) =~= Seq::<StageAction>::empty());
            assert(spec_trace(s0, outcomes) =~= seq![StageAction::ResolveDeps]);
        } else if rest1[0] is Failure {
            assert(rest1[0] == outcomes[1]);
            lemma_compilation_failure_blocks_followup(plan, outcomes);
        } else {
            let s2 = s1.spec_apply(rest1[0]);
            let rest2 = rest1.drop_first();
            assert(s2.deps_resolved && s2.compiled && s2.failure is None);
            if plan.followup is NoFollowup {
                assert(s2.spec_next_action() is None);
                assert(spec_trace(s2, rest2) =~= Seq::<StageAction>::empty());
                assert(spec_trace(s1, rest1) =~= seq![StageAction::Compile]);
                assert(spec_trace(s0, outcomes) =~= seq![
                    StageAction::ResolveDeps,
                    StageAction::Compile,
                ]);
            } else if rest2.len() == 0 {
                assert(spec_trace(s2, rest2) =~= Seq::<StageAction>::empty());
                assert(spec_trace(s1, rest1) =~= seq![StageAction::Compile]);
                assert(spec_trace(s0, outcomes) =~= seq![
                    StageAction::ResolveDeps,
                    StageAction::Compile,
                ]);
            } else {
                let s3 = s2.spec_apply(rest2[0]);
                assert(s3.spec_next_action() is None);
                assert(spec_trace(s3, rest2.drop_first()) =~= Seq::<StageAction>::empty());
                assert(spec_trace(s2, rest2) =~= seq![StageAction::RunFollowup]);
                assert(spec_trace(s1, rest1) =~= seq![
                    StageAction::Compile,
                    StageAction::RunFollowup,
                ]);
                assert(spec_trace(s0, outcomes) =~= seq![
                    StageAction::ResolveDeps,
                    StageAction::Compile,
                    StageAction::RunFollowup,
                ]);
            }
        }
    }
}

/// If dependency acquisition fails, compilation is never invoked, nor is
/// any later stage: the whole trace is the single dependency stage.
pub proof fn lemma_dependency_failure_blocks_compilation(
    plan: BuildPlan,
    outcomes: Seq<StageOutcome>,
)
    requires
        outcomes.len() > 0,
        outcomes[0] is Failure,
    ensures
        spec_trace(PipelineRun::spec_start(plan), outcomes) =~= seq![StageAction::ResolveDeps],
        forall|k: int|
            0 <= k < spec_trace(PipelineRun::spec_start(plan), outcomes).len()
                ==> spec_trace(PipelineRun::spec_start(plan), outcomes)[k]
                != StageAction::Compile,
{
    let s0 = PipelineRun::spec_start(plan);
    let s1 = s0.spec_apply(outcomes[0]);
    assert(s0.spec_next_action() == Some(StageAction::ResolveDeps));
    assert(s1.failure is Some);
    lemma_failure_ends_trace(s1, outcomes.drop_first());
    assert(spec_trace(s0, outcomes) =~= seq![StageAction::ResolveDeps]);
}

/// If compilation fails, no downstream action is invoked: the trace stops
/// at the compilation stage.
pub proof fn lemma_compilation_failure_blocks_followup(
    plan: BuildPlan,
    outcomes: Seq<StageOutcome>,
)
    requires
        outcomes.len() >= 2,
        outcomes[0] is Success,
        outcomes[1] is Failure,
    ensures
        spec_trace(PipelineRun::spec_start(plan), outcomes) =~= seq![
            StageAction::ResolveDeps,
            StageAction::Compile,
        ],
        forall|k: int|
            0 <= k < spec_trace(PipelineRun::spec_start(plan), outcomes).len()
                ==> spec_trace(PipelineRun::spec_start(plan), outcomes)[k]
                != StageAction::RunFollowup,
{
    let s0 = PipelineRun::spec_start(plan);
    let s1 = s0.spec_apply(outcomes[0]);
    let rest1 = outcomes.drop_first();
    let s2 = s1.spec_apply(rest1[0]);
    assert(s0.spec_next_action() == Some(StageAction::ResolveDeps));
    assert(s1.deps_resolved && s1.failure is None);
    assert(s1.spec_next_action() == Some(StageAction::Compile));
    assert(rest1[0] == outcomes[1]);
    assert(s2.failure is Some);
    lemma_failure_ends_trace(s2, rest1.drop_first());
    assert(spec_trace(s1, rest1) =~= seq![StageAction::Compile]);
    assert(spec_trace(s0, outcomes) =~= seq![StageAction::ResolveDeps, StageAction::Compile]);
}

} // verus!
