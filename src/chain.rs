use vstd::prelude::*;

use crate::command::{views, Command, CommandView, StepResult};

verus! {

/// The progress of one project's ordered chain of steps. The caller runs
/// [`BuildChain::current`], hands its result to [`BuildChain::advance`], and
/// repeats until the chain is done.
pub struct BuildChain {
    pub steps: Vec<Command>,
    pub next: usize,
    pub failure: Option<String>,
}

pub struct ChainView {
    pub steps: Seq<CommandView>,
    pub next: nat,
    pub failure: Option<Seq<char>>,
}

impl View for BuildChain {
    type V = ChainView;

    open spec fn view(&self) -> ChainView {
        ChainView {
            steps: views(self.steps@),
            next: self.next as nat,
            failure: match self.failure {
                Some(e) => Some(e@),
                None => None,
            },
        }
    }
}

impl ChainView {
    /// No step runs twice, and a failure stops the chain at the step that
    /// failed.
    pub open spec fn wf(self) -> bool {
        &&& self.next <= self.steps.len()
        &&& self.failure is Some ==> self.next < self.steps.len()
    }

    /// Nothing is left to run: a required step failed, or every step ran.
    pub open spec fn done(self) -> bool {
        self.failure is Some || self.next >= self.steps.len()
    }

    /// The chain after the current step gave `result`: a failure of a
    /// required step stops it with the captured error output; anything else
    /// moves on to the next step.
    pub open spec fn advanced(self, result: StepResult) -> ChainView {
        match result {
            StepResult::Failure(e) => if self.steps[self.next as int].required {
                ChainView { failure: Some(e@), ..self }
            } else {
                ChainView { next: self.next + 1, ..self }
            },
            StepResult::Success(_) => ChainView { next: self.next + 1, ..self },
        }
    }
}

impl BuildChain {
    /// A chain about to run `steps` from the first.
    pub fn new(steps: Vec<Command>) -> (r: BuildChain)
        ensures
            r@ == (ChainView { steps: views(steps@), next: 0, failure: None }),
            r@.wf(),
    {
        BuildChain { steps, next: 0, failure: None }
    }

    pub fn is_done(&self) -> (r: bool)
        requires
            self@.wf(),
        ensures
            r == self@.done(),
    {
        self.failure.is_some() || self.next >= self.steps.len()
    }

    /// The step to run now, or `None` once the chain is done.
    pub fn current(&self) -> (r: Option<&Command>)
        requires
            self@.wf(),
        ensures
            r is None <==> self@.done(),
            r is Some ==> r->0@ == self@.steps[self@.next as int],
    {
        if self.is_done() {
            None
        } else {
            Some(&self.steps[self.next])
        }
    }

    /// Records what the current step gave.
    pub fn advance(&mut self, result: StepResult)
        requires
            old(self)@.wf(),
            !old(self)@.done(),
        ensures
            final(self)@ == old(self)@.advanced(result),
            final(self)@.wf(),
    {
        let n = self.steps.len();
        assert(self.next < n);
        let required = self.steps[self.next].required;
        match result {
            StepResult::Failure(e) => {
                if required {
                    self.failure = Some(e);
                } else {
                    self.next = self.next + 1;
                }
            },
            StepResult::Success(_) => {
                self.next = self.next + 1;
            },
        }
    }

    /// The captured error output of the step that stopped the chain.
    pub fn failure(&self) -> (r: Option<String>)
        ensures
            match r {
                Some(e) => self@.failure == Some(e@),
                None => self@.failure is None,
            },
    {
        match &self.failure {
            Some(e) => Some(e.clone()),
            None => None,
        }
    }
}

} // verus!
