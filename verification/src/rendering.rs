//! The run of one emission on its stream.
//!
//! The caller that owns the stream performs the steps; the rendering decides
//! which step comes next. The caller asks for the step to perform, performs
//! it, and reports whether it went well. A step that fails ends the
//! rendering: what is left of the record is dropped, and nobody is told.

use vstd::prelude::*;

use crate::emission::{views, Step, StepView};

verus! {

/// How far the steps of one emission have been performed.
pub struct Rendering {
    steps: Vec<Step>,
    settled: usize,
    failed: bool,
}

impl Rendering {
    #[verifier::type_invariant]
    spec fn well_formed(self) -> bool {
        &&& self.settled <= self.steps.len()
        &&& self.failed ==> self.settled >= 1
    }

    /// All the steps of the emission, first to last.
    pub closed spec fn plan(&self) -> Seq<StepView> {
        views(self.steps@)
    }

    /// How many steps were performed and reported, the failed one included.
    pub closed spec fn settled(&self) -> nat {
        self.settled as nat
    }

    /// Whether a step failed.
    pub closed spec fn failed(&self) -> bool {
        self.failed
    }

    /// The step to perform now: the first one not yet reported, unless a step
    /// failed or none is left.
    pub open spec fn pending(&self) -> Option<StepView> {
        if !self.failed() && self.settled() < self.plan().len() {
            Some(self.plan()[self.settled() as int])
        } else {
            None
        }
    }

    /// The steps that were performed and went well.
    pub open spec fn done(&self) -> Seq<StepView> {
        if self.failed() {
            self.plan().take(self.settled() - 1)
        } else {
            self.plan().take(self.settled() as int)
        }
    }

    /// Whether every step was performed and went well.
    pub open spec fn complete(&self) -> bool {
        !self.failed() && self.settled() == self.plan().len()
    }

    /// Starts the rendering of `steps`: none is performed yet.
    pub fn new(steps: Vec<Step>) -> (r: Rendering)
        ensures
            r.plan() == views(steps@),
            r.settled() == 0,
            !r.failed(),
    {
        Rendering { steps, settled: 0, failed: false }
    }

    /// The step to perform now, if any.
    pub fn next(&self) -> (r: Option<&Step>)
        ensures
            match r {
                Some(step) => self.pending() == Some(step@),
                None => self.pending() is None,
            },
            self.settled() <= self.plan().len(),
            self.failed() ==> self.settled() >= 1,
    {
        proof {
            use_type_invariant(self);
        }
        if !self.failed && self.settled < self.steps.len() {
            Some(&self.steps[self.settled])
        } else {
            None
        }
    }

    /// Takes the report on the pending step: `ok` says whether it went well.
    /// A failure ends the rendering. Without a pending step nothing changes.
    pub fn settle(&mut self, ok: bool)
        ensures
            final(self).plan() == old(self).plan(),
            old(self).pending() is Some ==> final(self).settled() == old(self).settled() + 1
                && final(self).failed() == !ok,
            old(self).pending() is None ==> final(self).settled() == old(self).settled()
                && final(self).failed() == old(self).failed(),
            final(self).settled() <= final(self).plan().len(),
    {
        proof {
            use_type_invariant(&*self);
        }
        if !self.failed && self.settled < self.steps.len() {
            self.settled = self.settled + 1;
            self.failed = !ok;
        }
    }

    /// Whether every step was performed and went well.
    pub fn is_complete(&self) -> (r: bool)
        ensures
            r == self.complete(),
    {
        !self.failed && self.settled == self.steps.len()
    }

    /// Whether a step failed, which ended the rendering.
    pub fn has_failed(&self) -> (r: bool)
        ensures
            r == self.failed(),
    {
        self.failed
    }
}

} // verus!
