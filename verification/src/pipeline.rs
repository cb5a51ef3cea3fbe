//! A pipeline: stages that run one after another, each only after the one
//! before it has succeeded.
//!
//! The pipeline does not run anything. Whoever runs the tools asks it for
//! the current stage, runs that stage, and reports how it ended. A stage
//! that failed, or that succeeded without leaving its output behind, ends
//! the pipeline: the later stages are never handed out, and nothing is
//! retried.
use vstd::prelude::*;

verus! {

/// How the run of a stage ended.
#[derive(Clone, Copy, Debug, PartialEq, Eq, Structural)]
pub enum StageOutcome {
    /// The stage did its work and its output is there.
    Succeeded,
    /// The tool of the stage reported a failure.
    ToolFailed,
    /// The tool reported success, but the output that the stage was to
    /// produce is not there.
    OutputMissing,
}

/// Why a pipeline was aborted.
#[derive(Clone, Copy, Debug, PartialEq, Eq, Structural)]
pub enum Failure {
    /// The tool of a stage reported a failure.
    ToolFailed,
    /// A stage left no output behind.
    OutputMissing,
}

/// A pipeline as plain data: its stages, how many of them have succeeded,
/// and the failure of the stage at that position, if it failed.
pub struct PipelineView<S> {
    pub steps: Seq<S>,
    pub position: nat,
    pub failure: Option<Failure>,
}

impl<S> PipelineView<S> {
    /// A pipeline of `steps` of which none has run.
    pub open spec fn start(steps: Seq<S>) -> Self {
        PipelineView { steps: steps, position: 0, failure: None }
    }

    /// Whether every stage has succeeded.
    pub open spec fn is_done(self) -> bool {
        self.failure is None && self.position == self.steps.len()
    }

    /// Whether a stage is waiting to be run.
    pub open spec fn is_running(self) -> bool {
        self.failure is None && self.position < self.steps.len()
    }

    /// The pipeline after the current stage ended with `outcome`. A pipeline
    /// that is done or aborted stays as it is.
    pub open spec fn advance(self, outcome: StageOutcome) -> Self {
        if !self.is_running() {
            self
        } else {
            match outcome {
                StageOutcome::Succeeded => PipelineView { position: self.position + 1, ..self },
                StageOutcome::ToolFailed => PipelineView {
                    failure: Some(Failure::ToolFailed),
                    ..self
                },
                StageOutcome::OutputMissing => PipelineView {
                    failure: Some(Failure::OutputMissing),
                    ..self
                },
            }
        }
    }

    /// The pipeline after a run of stages ended with `outcomes`, in order.
    pub open spec fn run(self, outcomes: Seq<StageOutcome>) -> Self
        decreases outcomes.len(),
    {
        if outcomes.len() == 0 {
            self
        } else {
            self.run(outcomes.drop_last()).advance(outcomes.last())
        }
    }
}

/// A pipeline of stages of the type `S`.
pub struct Pipeline<S: Copy> {
    steps: Vec<S>,
    position: usize,
    failure: Option<Failure>,
}

impl<S: Copy> View for Pipeline<S> {
    type V = PipelineView<S>;

    closed spec fn view(&self) -> PipelineView<S> {
        PipelineView { steps: self.steps@, position: self.position as nat, failure: self.failure }
    }
}

impl<S: Copy> Pipeline<S> {
    #[verifier::type_invariant]
    spec fn well_formed(self) -> bool {
        &&& self.position <= self.steps.len()
        &&& self.failure is Some ==> self.position < self.steps.len()
    }

    /// A pipeline of `steps`, none of which has run.
    pub fn new(steps: Vec<S>) -> (pipeline: Self)
        ensures
            pipeline@ == PipelineView::start(steps@),
    {
        Pipeline { steps, position: 0, failure: None }
    }

    /// The stage that is to be run next: none once the pipeline is done or
    /// aborted.
    pub fn current(&self) -> (step: Option<S>)
        ensures
            step == (if self@.is_running() {
                Some(self@.steps[self@.position as int])
            } else {
                None
            }),
    {
        proof {
            use_type_invariant(self);
        }
        if self.failure.is_none() && self.position < self.steps.len() {
            Some(self.steps[self.position])
        } else {
            None
        }
    }

    /// Records how the current stage ended.
    pub fn advance(&mut self, outcome: StageOutcome)
        ensures
            final(self)@ == old(self)@.advance(outcome),
    {
        proof {
            use_type_invariant(&*self);
        }
        if self.failure.is_none() && self.position < self.steps.len() {
            match outcome {
                StageOutcome::Succeeded => {
                    self.position = self.position + 1;
                },
                StageOutcome::ToolFailed => {
                    self.failure = Some(Failure::ToolFailed);
                },
                StageOutcome::OutputMissing => {
                    self.failure = Some(Failure::OutputMissing);
                },
            }
        }
    }

    /// Whether every stage has succeeded.
    pub fn is_done(&self) -> (done: bool)
        ensures
            done == self@.is_done(),
    {
        self.failure.is_none() && self.position == self.steps.len()
    }

    /// The failure that aborted the pipeline and the stage that failed.
    pub fn failure(&self) -> (failed: Option<(Failure, S)>)
        ensures
            failed == (match self@.failure {
                Some(f) => Some((f, self@.steps[self@.position as int])),
                None => None,
            }),
    {
        proof {
            use_type_invariant(self);
        }
        match self.failure {
            Some(f) => Some((f, self.steps[self.position])),
            None => None,
        }
    }
}

/// A copy of a list of plain values.
pub fn copy_of<T: Copy>(items: &[T]) -> (copy: Vec<T>)
    ensures
        copy@ == items@,
{
    let mut copy: Vec<T> = Vec::new();
    let mut i: usize = 0;
    while i < items.len()
        invariant
            i <= items.len(),
            copy@ == items@.take(i as int),
        decreases items.len() - i,
    {
        copy.push(items[i]);
        assert(copy@ =~= items@.take(i + 1));
        i += 1;
    }
    assert(items@.take(items.len() as int) == items@);
    copy
}

/// Whether the first `n` of `outcomes` are all successes.
pub open spec fn all_succeeded(outcomes: Seq<StageOutcome>, n: int) -> bool {
    forall|i: int| 0 <= i < n && i < outcomes.len() ==> outcomes[i] == StageOutcome::Succeeded
}

/// A run never changes the stages, never steps back, and takes at most one
/// step for every outcome. While no outcome is a failure it takes exactly one
/// step for every outcome until it is done.
pub proof fn lemma_run_keeps_order<S>(steps: Seq<S>, outcomes: Seq<StageOutcome>)
    ensures
        ({
            let end = PipelineView::start(steps).run(outcomes);
            &&& end.steps == steps
            &&& end.position <= steps.len()
            &&& end.position <= outcomes.len()
            &&& all_succeeded(outcomes, end.position as int)
            &&& end.failure is Some ==> end.position < outcomes.len() && end.position
                < steps.len() && outcomes[end.position as int] != StageOutcome::Succeeded
            &&& end.failure is None ==> end.position == outcomes.len() || end.position
                == steps.len()
        }),
    decreases outcomes.len(),
{
    if outcomes.len() > 0 {
        lemma_run_keeps_order(steps, outcomes.drop_last());
        let before = PipelineView::start(steps).run(outcomes.drop_last());
        assert forall|i: int| 0 <= i < outcomes.len() - 1 implies outcomes.drop_last()[i]
            == outcomes[i] by {}
        assert(outcomes.last() == outcomes[outcomes.len() - 1]);
        let end = before.advance(outcomes.last());
        assert forall|i: int| 0 <= i < end.position && i < outcomes.len() implies outcomes[i]
            == StageOutcome::Succeeded by {
            if i < before.position {
                assert(outcomes.drop_last()[i] == StageOutcome::Succeeded);
            }
        }
        if end.failure is Some && before.failure is Some {
            assert(outcomes[end.position as int] == outcomes.drop_last()[end.position as int]);
        }
    }
}

/// A pipeline is done exactly if every one of its stages has succeeded, in
/// order: after at least as many outcomes as there are stages, it is done if
/// and only if the outcomes of all stages are successes.
pub proof fn lemma_done_iff_all_succeeded<S>(steps: Seq<S>, outcomes: Seq<StageOutcome>)
    requires
        outcomes.len() >= steps.len(),
    ensures
        PipelineView::start(steps).run(outcomes).is_done() <==> all_succeeded(
            outcomes,
            steps.len() as int,
        ),
{
    lemma_run_keeps_order(steps, outcomes);
    let end = PipelineView::start(steps).run(outcomes);
    if all_succeeded(outcomes, steps.len() as int) {
        if end.failure is Some {
            assert(outcomes[end.position as int] == StageOutcome::Succeeded);
        }
    }
}

} // verus!
