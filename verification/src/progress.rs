//! An ordered list of named steps with a cursor that only moves forward.

use vstd::prelude::*;

verus! {

/// A read of a progress sequence at one moment: which step the work stands
/// on (1-based), how many steps there are, the title of that step and
/// whether the sequence has run to its end.
#[derive(Clone, Debug)]
pub struct Progress {
    pub current_step: usize,
    pub max_steps: usize,
    pub current_title: String,
    pub finished: bool,
}

/// A finished read of a whole sequence: the step names next to the fields
/// of [`Progress`]. This is the value handed back to a caller that asks
/// for the progress of a service.
#[derive(Clone, Debug)]
pub struct ProgressSummary {
    pub steps: Vec<String>,
    pub current_step: usize,
    pub max_steps: usize,
    pub current_title: String,
    pub finished: bool,
}

/// An ordered sequence of named steps, fixed at creation, and a cursor
/// counting how many of them have been entered. Advancing the cursor is
/// the only mutation; it never decreases and never passes the number of
/// steps. An empty sequence is legal and is finished from the start.
#[derive(Debug)]
pub struct ProgressSequence {
    pub steps: Vec<String>,
    pub current: usize,
}

impl ProgressSequence {
    /// The cursor never passes the number of steps.
    pub open spec fn wf(self) -> bool {
        self.current <= self.steps@.len()
    }

    /// The title reported at the cursor: the name of the step the cursor
    /// stands on, or the empty string while no step has been entered (the
    /// cursor is at zero, or the sequence has no steps at all).
    pub open spec fn spec_title(self) -> Seq<char> {
        if 1 <= self.current && self.current <= self.steps@.len() {
            self.steps@[self.current - 1]@
        } else {
            Seq::<char>::empty()
        }
    }

    /// A sequence is finished once the cursor has reached the number of
    /// steps.
    pub open spec fn spec_finished(self) -> bool {
        self.current >= self.steps@.len()
    }

    /// What a faithful read of this sequence holds.
    pub open spec fn is_snapshot(self, p: Progress) -> bool {
        &&& p.current_step == self.current
        &&& p.max_steps == self.steps@.len()
        &&& p.current_title@ == self.spec_title()
        &&& p.finished == self.spec_finished()
    }

    /// Builds a sequence over the given step names with the cursor at
    /// zero. Every input is legal; an empty list gives a sequence that is
    /// already finished.
    pub fn new(step_names: Vec<String>) -> (s: Self)
        ensures
            s.steps@ == step_names@,
            s.current == 0,
            s.wf(),
    {
        ProgressSequence { steps: step_names, current: 0 }
    }

    /// Reads the current state without changing it.
    pub fn snapshot(&self) -> (p: Progress)
        requires
            self.wf(),
        ensures
            self.is_snapshot(p),
    {
        let title = if 1 <= self.current && self.current <= self.steps.len() {
            self.steps[self.current - 1].clone()
        } else {
            String::new()
        };
        Progress {
            current_step: self.current,
            max_steps: self.steps.len(),
            current_title: title,
            finished: self.current >= self.steps.len(),
        }
    }

    /// Moves the cursor one step forward and reports the state after the
    /// move. On a finished sequence it changes nothing and reports
    /// nothing.
    pub fn advance(&mut self) -> (r: Option<Progress>)
        requires
            old(self).wf(),
        ensures
            final(self).wf(),
            final(self).steps@ == old(self).steps@,
            old(self).current < old(self).steps@.len() ==> {
                &&& final(self).current == old(self).current + 1
                &&& r matches Some(p) && final(self).is_snapshot(p)
            },
            old(self).current >= old(self).steps@.len() ==> {
                &&& *final(self) == *old(self)
                &&& r is None
            },
    {
        if self.current < self.steps.len() {
            self.current = self.current + 1;
            Some(self.snapshot())
        } else {
            None
        }
    }
}

} // verus!
