//! The service status coordinator: one optional progress sequence and a
//! busy/idle flag, mutated one request at a time, with every mutation
//! recording the events it must publish.
//!
//! The manager is the single owner of its state. Concurrent callers never
//! touch it directly: a channel front end (outside this library) drains
//! their requests in arrival order, calls one method here per request, and
//! publishes the events that [`ServiceStatusManager::take_events`] hands
//! back, in that same order.

use vstd::prelude::*;

use crate::progress::{Progress, ProgressSequence, ProgressSummary};

verus! {

/// Whether a service currently runs a task.
#[derive(Clone, Copy, Debug, PartialEq, Eq, Structural)]
pub enum ServiceStatus {
    Idle,
    Busy,
}

impl ServiceStatus {
    /// The code published for this status: 0 when idle, 1 when busy.
    pub open spec fn spec_code(self) -> u32 {
        match self {
            ServiceStatus::Idle => 0,
            ServiceStatus::Busy => 1,
        }
    }

    /// Returns the published status code.
    pub fn code(self) -> (c: u32)
        ensures
            c == self.spec_code(),
    {
        match self {
            ServiceStatus::Idle => 0,
            ServiceStatus::Busy => 1,
        }
    }
}

/// The failures a caller of the status coordinator can see.
#[derive(Clone, Copy, Debug, PartialEq, Eq, Structural)]
pub enum ServiceStatusError {
    /// A task was started while one was already running.
    Busy,
    /// The coordinator is no longer reachable: a request or a reply was
    /// lost because its channel closed.
    ChannelClosed,
}

impl ServiceStatusError {
    /// A short description of the failure.
    pub fn message(&self) -> (r: String)
        ensures
            *self is Busy ==> r@ == "The service is busy"@,
            *self is ChannelClosed ==> r@ == "The channel is closed"@,
    {
        match self {
            ServiceStatusError::Busy => "The service is busy".to_string(),
            ServiceStatusError::ChannelClosed => "The channel is closed".to_string(),
        }
    }
}

/// An event owed to the subscribers of a service, recorded in the order
/// the triggering requests were processed.
#[derive(Clone, Debug)]
pub enum Event {
    /// The service moved to a step of its progress sequence, or the
    /// sequence was cleared.
    Progress { service: String, progress: Progress },
    /// The service switched between idle and busy; `status` is the code
    /// of [`ServiceStatus`].
    ServiceStatusChanged { service: String, status: u32 },
}

/// Holds whether `e` is a progress event of the service named `service`
/// carrying a faithful read of the sequence `q`.
pub open spec fn is_progress_event(e: Event, service: Seq<char>, q: ProgressSequence) -> bool {
    e matches Event::Progress { service: s, progress: p } && s@ == service && q.is_snapshot(p)
}

/// Holds whether `e` is the cleared progress event of the service named
/// `service`: no steps, an empty title, and finished.
pub open spec fn is_cleared_progress_event(e: Event, service: Seq<char>) -> bool {
    e matches Event::Progress { service: s, progress: p } && s@ == service
        && p.current_step == 0 && p.max_steps == 0 && p.current_title@ == Seq::<char>::empty()
        && p.finished
}

/// Holds whether `e` is a status change event of the service named
/// `service` carrying the code `code`.
pub open spec fn is_status_event(e: Event, service: Seq<char>, code: u32) -> bool {
    e matches Event::ServiceStatusChanged { service: s, status } && s@ == service && status == code
}

/// Keeps track of the status of one service: its name, at most one active
/// progress sequence, the busy/idle flag, and the events recorded by the
/// mutations and not yet handed out.
#[derive(Debug)]
pub struct ServiceStatusManager {
    pub name: String,
    pub progress: Option<ProgressSequence>,
    pub status: ServiceStatus,
    pub events: Vec<Event>,
}

impl ServiceStatusManager {
    /// A sequence is active exactly while the service is busy, and an
    /// active sequence keeps its own invariant.
    pub open spec fn wf(self) -> bool {
        &&& (self.status is Busy) <==> (self.progress is Some)
        &&& (self.progress matches Some(q) ==> q.wf())
    }

    /// Builds an idle manager for the service of the given name, with no
    /// active sequence and no recorded events.
    pub fn new(name: &str) -> (m: Self)
        ensures
            m.name@ == name@,
            m.progress is None,
            m.status is Idle,
            m.events@ == Seq::<Event>::empty(),
            m.wf(),
    {
        ServiceStatusManager {
            name: name.to_string(),
            progress: None,
            status: ServiceStatus::Idle,
            events: Vec::new(),
        }
    }

    /// Determines whether the service is busy.
    pub fn is_busy(&self) -> (r: bool)
        ensures
            r == (self.status is Busy),
    {
        self.status == ServiceStatus::Busy
    }

    /// How a state after `start_task` relates to the one before it.
    pub open spec fn start_post(
        pre: Self,
        post: Self,
        steps: Vec<String>,
        r: Result<(), ServiceStatusError>,
    ) -> bool {
        &&& post.wf()
        &&& post.name == pre.name
        &&& (pre.status is Busy ==> (r matches Err(e) && e is Busy) && post == pre)
        &&& (pre.status is Idle ==> {
            &&& r is Ok
            &&& post.status is Busy
            &&& post.progress matches Some(q) && q.steps@ == steps@
                && q.current == (if steps@.len() == 0 { 0int } else { 1int })
            &&& post.events@.len() == pre.events@.len() + 2
            &&& post.events@.take(pre.events@.len() as int) == pre.events@
            &&& is_progress_event(
                post.events@[pre.events@.len() as int],
                pre.name@,
                post.progress->0,
            )
            &&& is_status_event(post.events@[pre.events@.len() as int + 1], pre.name@, 1)
        })
    }

    /// Starts a task made of the given steps.
    ///
    /// While a task is already running nothing changes and the caller
    /// gets the busy failure. Otherwise a fresh sequence is built over
    /// the steps and advanced once, so the task is reported on its first
    /// step; one progress event with that read and one status change
    /// event to busy are recorded, in that order.
    pub fn start_task(&mut self, steps: Vec<String>) -> (r: Result<(), ServiceStatusError>)
        requires
            old(self).wf(),
        ensures
            Self::start_post(*old(self), *final(self), steps, r),
    {
        if self.is_busy() {
            return Err(ServiceStatusError::Busy);
        }
        let mut progress = ProgressSequence::new(steps);
        let _ = progress.advance();
        let first = progress.snapshot();
        let ev = Event::Progress { service: self.name.clone(), progress: first };
        self.events.push(ev);
        self.progress = Some(progress);
        self.status = ServiceStatus::Busy;
        let code = self.status.code();
        let changed = Event::ServiceStatusChanged { service: self.name.clone(), status: code };
        self.events.push(changed);
        proof {
            assert(self.events@.take(old(self).events@.len() as int) =~= old(self).events@);
        }
        Ok(())
    }

    /// How a state after `next_step` relates to the one before it.
    pub open spec fn next_post(pre: Self, post: Self, r: Option<Progress>) -> bool {
        &&& post.wf()
        &&& post.name == pre.name
        &&& post.status == pre.status
        &&& (pre.progress is None ==> post == pre && r is None)
        &&& (pre.progress matches Some(q) ==> {
            &&& (q.spec_finished() ==> post == pre && r is None)
            &&& (!q.spec_finished() ==> (post.progress matches Some(q2)
                && q2.steps@ == q.steps@
                && q2.current == q.current + 1
                && (r matches Some(p) && q2.is_snapshot(p))
                && post.events@.len() == pre.events@.len() + 1
                && post.events@.take(pre.events@.len() as int) == pre.events@
                && is_progress_event(post.events@[pre.events@.len() as int], pre.name@, q2)))
        })
    }

    /// Moves the active sequence to its next step.
    ///
    /// When a step is entered, its read is recorded as a progress event
    /// and returned. With no active sequence, or one that is already
    /// finished, nothing changes, nothing is recorded and nothing is
    /// returned: stepping too often is tolerated, not an error.
    pub fn next_step(&mut self) -> (r: Option<Progress>)
        requires
            old(self).wf(),
        ensures
            Self::next_post(*old(self), *final(self), r),
    {
        match self.progress.take() {
            None => None,
            Some(mut q) => {
                let stepped = q.advance();
                let r = match stepped {
                    None => None,
                    Some(step) => {
                        let ev = Event::Progress { service: self.name.clone(), progress: step };
                        self.events.push(ev);
                        proof {
                            assert(self.events@.take(old(self).events@.len() as int)
                                =~= old(self).events@);
                        }
                        Some(q.snapshot())
                    },
                };
                self.progress = Some(q);
                r
            },
        }
    }

    /// Reads the progress of the active sequence.
    ///
    /// With no active sequence there is nothing to report. Otherwise the
    /// summary carries the step names and the current read, derived
    /// fresh; nothing is mutated and nothing is recorded.
    pub fn get_progress(&self) -> (r: Option<ProgressSummary>)
        requires
            self.wf(),
        ensures
            self.progress is None ==> r is None,
            self.progress matches Some(q) ==> {
                &&& r matches Some(s)
                &&& s.steps@ == q.steps@
                &&& s.current_step == q.current
                &&& s.max_steps == q.steps@.len()
                &&& s.current_title@ == q.spec_title()
                &&& s.finished == q.spec_finished()
            },
    {
        match &self.progress {
            None => None,
            Some(q) => {
                let snap = q.snapshot();
                let steps = q.steps.clone();
                proof {
                    assert forall|i: int| 0 <= i < q.steps@.len() implies steps@[i]
                        == q.steps@[i] by {
                        assert(vstd::pervasive::cloned::<String>(q.steps@[i], steps@[i]));
                    }
                    assert(steps@ =~= q.steps@);
                }
                Some(
                    ProgressSummary {
                        steps,
                        current_step: snap.current_step,
                        max_steps: snap.max_steps,
                        current_title: snap.current_title,
                        finished: snap.finished,
                    },
                )
            },
        }
    }

    /// How a state after `finish_task` relates to the one before it.
    pub open spec fn finish_post(pre: Self, post: Self) -> bool {
        &&& post.wf()
        &&& post.name == pre.name
        &&& post.progress is None
        &&& post.status is Idle
        &&& post.events@.len() == pre.events@.len() + 2
        &&& post.events@.take(pre.events@.len() as int) == pre.events@
        &&& is_cleared_progress_event(post.events@[pre.events@.len() as int], pre.name@)
        &&& is_status_event(post.events@[pre.events@.len() as int + 1], pre.name@, 0)
    }

    /// Finishes the current task, whatever its state.
    ///
    /// The active sequence, if any, is discarded; a cleared progress
    /// event (no steps, finished) and a status change event to idle are
    /// recorded, in that order, and the service is idle afterwards.
    pub fn finish_task(&mut self)
        requires
            old(self).wf(),
        ensures
            Self::finish_post(*old(self), *final(self)),
    {
        self.progress = None;
        let cleared = Progress {
            current_step: 0,
            max_steps: 0,
            current_title: String::new(),
            finished: true,
        };
        let ev = Event::Progress { service: self.name.clone(), progress: cleared };
        self.events.push(ev);
        self.status = ServiceStatus::Idle;
        let code = self.status.code();
        let changed = Event::ServiceStatusChanged { service: self.name.clone(), status: code };
        self.events.push(changed);
        proof {
            assert(self.events@.take(old(self).events@.len() as int) =~= old(self).events@);
        }
    }

    /// Hands out the recorded events, oldest first, and leaves none
    /// behind. The caller publishes them in this order.
    pub fn take_events(&mut self) -> (r: Vec<Event>)
        ensures
            r@ == old(self).events@,
            final(self).events@ == Seq::<Event>::empty(),
            final(self).name == old(self).name,
            final(self).progress == old(self).progress,
            final(self).status == old(self).status,
    {
        let mut out: Vec<Event> = Vec::new();
        core::mem::swap(&mut out, &mut self.events);
        out
    }

    /// Law: for every list of step names, starting a task on an idle
    /// service records exactly one progress event — standing on step 1
    /// of the list, or already finished when the list is empty —
    /// followed by exactly one status change event to busy.
    pub proof fn lemma_start_records_progress_then_busy(
        pre: Self,
        post: Self,
        steps: Vec<String>,
        r: Result<(), ServiceStatusError>,
    )
        requires
            pre.wf(),
            pre.status is Idle,
            Self::start_post(pre, post, steps, r),
        ensures
            post.events@.len() == pre.events@.len() + 2,
            post.events@.take(pre.events@.len() as int) == pre.events@,
            ({
                let e = post.events@[pre.events@.len() as int];
                e matches Event::Progress { service, progress }
                    && service@ == pre.name@
                    && progress.max_steps == steps@.len()
                    && (steps@.len() > 0 ==> progress.current_step == 1
                        && progress.current_title@ == steps@[0]@)
                    && (steps@.len() == 0 ==> progress.finished)
            }),
            is_status_event(post.events@[pre.events@.len() as int + 1], pre.name@, 1),
    {
    }

    /// Law: starting a task twice without finishing in between leaves
    /// the second caller with the busy failure and changes nothing the
    /// first start left behind — in particular the running sequence's
    /// cursor stays where it was.
    pub proof fn lemma_second_start_rejected(
        pre: Self,
        mid: Self,
        post: Self,
        first_steps: Vec<String>,
        second_steps: Vec<String>,
        r1: Result<(), ServiceStatusError>,
        r2: Result<(), ServiceStatusError>,
    )
        requires
            pre.wf(),
            pre.status is Idle,
            Self::start_post(pre, mid, first_steps, r1),
            Self::start_post(mid, post, second_steps, r2),
        ensures
            r2 == Err::<(), ServiceStatusError>(ServiceStatusError::Busy),
            post == mid,
    {
    }

    /// Law: with a task on its way, calling `next_step` once for each
    /// step still ahead enters every one of them — each call returning a
    /// read and recording exactly one progress event — and leaves the
    /// sequence finished, its cursor at the number of steps.
    ///
    /// `states` are the manager states around the calls, oldest first;
    /// `results` are what the calls returned.
    pub proof fn lemma_steps_drain(states: Seq<Self>, results: Seq<Option<Progress>>)
        requires
            states.len() == results.len() + 1,
            states[0].wf(),
            states[0].progress matches Some(q) && results.len() == q.steps@.len() - q.current,
            forall|i: int| 0 <= i < results.len()
                ==> Self::next_post(#[trigger] states[i], states[i + 1], results[i]),
        ensures
            states[states.len() - 1].progress matches Some(qf)
                && qf.steps@ == states[0].progress->0.steps@
                && qf.current == qf.steps@.len(),
            forall|i: int| 0 <= i < results.len() ==> (#[trigger] results[i]) is Some,
            forall|i: int| 0 <= i < results.len()
                ==> (#[trigger] states[i + 1]).events@.len() == states[i].events@.len() + 1
                    && is_progress_event(
                    states[i + 1].events@[states[i].events@.len() as int],
                    states[i].name@,
                    states[i + 1].progress->0,
                ),
        decreases results.len(),
    {
        let n = results.len() as int;
        if n > 0 {
            let q = states[0].progress->0;
            assert(Self::next_post(states[0], states[1], results[0]));
            assert(!q.spec_finished());
            let sub_states = states.skip(1);
            let sub_results = results.skip(1);
            assert forall|i: int| 0 <= i < sub_results.len() implies Self::next_post(
                #[trigger] sub_states[i],
                sub_states[i + 1],
                sub_results[i],
            ) by {
                assert(Self::next_post(states[i + 1], states[i + 2], results[i + 1]));
            }
            Self::lemma_steps_drain(sub_states, sub_results);
            assert forall|i: int| 0 <= i < results.len() implies (#[trigger] results[i])
                is Some by {
                if i > 0 {
                    assert(sub_results[i - 1] is Some);
                }
            }
            assert forall|i: int| 0 <= i < results.len() implies (#[trigger] states[i
                + 1]).events@.len() == states[i].events@.len() + 1 && is_progress_event(
                states[i + 1].events@[states[i].events@.len() as int],
                states[i].name@,
                states[i + 1].progress->0,
            ) by {
                if i > 0 {
                    assert(sub_states[(i - 1) + 1].events@.len() == sub_states[i
                        - 1].events@.len() + 1);
                    assert(is_progress_event(
                        sub_states[(i - 1) + 1].events@[sub_states[i - 1].events@.len() as int],
                        sub_states[i - 1].name@,
                        sub_states[(i - 1) + 1].progress->0,
                    ));
                }
            }
            assert(sub_states[0] == states[1]);
            assert(sub_states[sub_states.len() - 1] == states[states.len() - 1]);
        }
    }

    /// Law: calling `next_step` with the sequence already finished — or
    /// with none active at all — mutates nothing, records no event and
    /// returns nothing.
    pub proof fn lemma_step_past_end(pre: Self, post: Self, r: Option<Progress>)
        requires
            pre.wf(),
            pre.progress is None || pre.progress->0.spec_finished(),
            Self::next_post(pre, post, r),
        ensures
            post == pre,
            r is None,
    {
    }

    /// Law: finishing always idles the service and drops the sequence,
    /// whatever the cursor stood at, recording exactly one cleared
    /// progress event followed by one status change event to idle.
    pub proof fn lemma_finish_always_idles(pre: Self, post: Self)
        requires
            Self::finish_post(pre, post),
        ensures
            post.status is Idle,
            post.progress is None,
            post.events@.len() == pre.events@.len() + 2,
            post.events@.take(pre.events@.len() as int) == pre.events@,
            is_cleared_progress_event(post.events@[pre.events@.len() as int], pre.name@),
            is_status_event(post.events@[pre.events@.len() as int + 1], pre.name@, 0),
    {
    }
}

} // verus!
