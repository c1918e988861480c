//! Chain continuation state for auto-continue: a cursor over the steps of
//! an orchestration loop that a worker can resume.

use vstd::prelude::*;
use crate::text::owned;

verus! {

/// Default follow-up prompt after a successful tool dispatch in auto-continue.
pub const DEFAULT_CONTINUATION_PROMPT: &'static str = "Continue the orchestration. If specialist work is complete, emit plan.only with handoff_return_to swarm-coordinator summarizing recent_tool_results. Otherwise execute the next required tool. Do not repeat successful tools.";

/// Lifecycle of an auto-continue loop.
#[derive(Debug, Clone, Copy, PartialEq, Eq, Structural)]
pub enum ContinuationStatus {
    Pending,
    Running,
    Done,
    Exhausted,
    Failed,
}

/// Continuation cursor stored on the session.
#[derive(Debug, Clone, PartialEq, Eq)]
pub struct ChainContinuation {
    pub enabled: bool,
    pub max_steps: u32,
    pub step: u32,
    pub start_agent: String,
    pub active_agent: String,
    pub initial_prompt: Option<String>,
    pub next_prompt: String,
    pub status: ContinuationStatus,
}

/// The loop may take another step: enabled, pending or running, and below the step budget.
pub open spec fn spec_should_run(c: ChainContinuation) -> bool {
    &&& c.enabled
    &&& (c.status == ContinuationStatus::Pending || c.status == ContinuationStatus::Running)
    &&& c.step < c.max_steps
}

/// The prompt for the current step: the initial prompt on step 0 (the
/// default prompt when there is none), afterwards the next prompt.
pub open spec fn spec_current_prompt(c: ChainContinuation) -> Seq<char> {
    if c.step == 0 {
        match c.initial_prompt {
            Some(p) => p@,
            None => DEFAULT_CONTINUATION_PROMPT@,
        }
    } else {
        c.next_prompt@
    }
}

/// The step now being taken is the last one the budget allows.
pub open spec fn spec_at_max_steps(c: ChainContinuation) -> bool {
    c.step + 1 >= c.max_steps
}

impl ChainContinuation {
    pub fn new(start_agent: &str, initial_prompt: &str, max_steps: u32) -> (r: Self)
        ensures
            r.enabled,
            r.max_steps == max_steps,
            r.step == 0,
            r.start_agent@ == start_agent@,
            r.active_agent@ == start_agent@,
            r.initial_prompt matches Some(p) && p@ == initial_prompt@,
            r.next_prompt@ == DEFAULT_CONTINUATION_PROMPT@,
            r.status == ContinuationStatus::Pending,
    {
        ChainContinuation {
            enabled: true,
            max_steps,
            step: 0,
            start_agent: owned(start_agent),
            active_agent: owned(start_agent),
            initial_prompt: Some(owned(initial_prompt)),
            next_prompt: owned(DEFAULT_CONTINUATION_PROMPT),
            status: ContinuationStatus::Pending,
        }
    }

    pub fn should_run(&self) -> (r: bool)
        ensures
            r == spec_should_run(*self),
    {
        self.enabled && (match self.status {
            ContinuationStatus::Pending | ContinuationStatus::Running => true,
            _ => false,
        }) && self.step < self.max_steps
    }

    pub fn mark_running(&mut self)
        ensures
            *final(self) == (ChainContinuation { status: ContinuationStatus::Running, ..*old(self) }),
    {
        self.status = ContinuationStatus::Running;
    }

    /// One step was dispatched; `next_agent` is now active and the default
    /// follow-up prompt is queued.
    pub fn advance_after_dispatch(&mut self, next_agent: &str)
        requires
            old(self).step < u32::MAX,
        ensures
            final(self).step == old(self).step + 1,
            final(self).active_agent@ == next_agent@,
            final(self).next_prompt@ == DEFAULT_CONTINUATION_PROMPT@,
            final(self).enabled == old(self).enabled,
            final(self).max_steps == old(self).max_steps,
            final(self).status == old(self).status,
            final(self).start_agent == old(self).start_agent,
            final(self).initial_prompt == old(self).initial_prompt,
    {
        self.step = self.step + 1;
        self.active_agent = owned(next_agent);
        self.step_prompt_assign(DEFAULT_CONTINUATION_PROMPT);
    }

    pub fn step_prompt_assign(&mut self, prompt: &str)
        ensures
            final(self).next_prompt@ == prompt@,
            final(self).enabled == old(self).enabled,
            final(self).max_steps == old(self).max_steps,
            final(self).step == old(self).step,
            final(self).status == old(self).status,
            final(self).start_agent == old(self).start_agent,
            final(self).active_agent == old(self).active_agent,
            final(self).initial_prompt == old(self).initial_prompt,
    {
        self.next_prompt = owned(prompt);
    }

    pub fn current_prompt(&self) -> (r: &str)
        ensures
            r@ == spec_current_prompt(*self),
    {
        if self.step == 0 {
            match &self.initial_prompt {
                Some(p) => p.as_str(),
                None => DEFAULT_CONTINUATION_PROMPT,
            }
        } else {
            self.next_prompt.as_str()
        }
    }

    pub fn at_max_steps(&self) -> (r: bool)
        ensures
            r == spec_at_max_steps(*self),
    {
        self.max_steps == 0 || self.step >= self.max_steps - 1
    }

    pub fn finish(&mut self, status: ContinuationStatus)
        ensures
            *final(self) == (ChainContinuation { enabled: false, status, ..*old(self) }),
    {
        self.enabled = false;
        self.status = status;
    }
}

/// A finished continuation never runs again, whatever status it ended with.
pub proof fn law_finished_never_runs(c: ChainContinuation, status: ContinuationStatus)
    ensures
        !spec_should_run(ChainContinuation { enabled: false, status, ..c }),
{
}

/// Advancing past the last allowed step stops the loop.
pub proof fn law_advance_at_max_stops(before: ChainContinuation, after: ChainContinuation)
    requires
        spec_at_max_steps(before),
        after.step == before.step + 1,
        after.max_steps == before.max_steps,
    ensures
        !spec_should_run(after),
{
}

/// A fresh continuation runs iff its budget allows at least one step, and
/// starts from the caller's prompt.
pub proof fn law_fresh_continuation(c: ChainContinuation, prompt: Seq<char>)
    requires
        c.enabled,
        c.step == 0,
        c.status == ContinuationStatus::Pending,
        c.initial_prompt matches Some(p) && p@ == prompt,
    ensures
        spec_should_run(c) == (c.max_steps > 0),
        spec_current_prompt(c) == prompt,
{
}

/// `after` is what one of the mutating methods (`mark_running`,
/// `advance_after_dispatch`, `step_prompt_assign`, `finish`) may leave of
/// `before`, as their contracts state it.
pub open spec fn method_step(before: ChainContinuation, after: ChainContinuation) -> bool {
    ||| after == (ChainContinuation { status: ContinuationStatus::Running, ..before })
    ||| {
        &&& before.step < u32::MAX
        &&& after.step == before.step + 1
        &&& after.next_prompt@ == DEFAULT_CONTINUATION_PROMPT@
        &&& after.enabled == before.enabled
        &&& after.max_steps == before.max_steps
        &&& after.status == before.status
        &&& after.start_agent == before.start_agent
        &&& after.initial_prompt == before.initial_prompt
    }
    ||| {
        &&& after.enabled == before.enabled
        &&& after.max_steps == before.max_steps
        &&& after.step == before.step
        &&& after.status == before.status
        &&& after.start_agent == before.start_agent
        &&& after.active_agent == before.active_agent
        &&& after.initial_prompt == before.initial_prompt
    }
    ||| after == (ChainContinuation { enabled: false, status: after.status, ..before })
}

/// Once finished, the loop never runs again: along any sequence of method
/// calls that starts from a finished continuation, every state is disabled
/// and `should_run` is false.
pub proof fn law_finished_stays_finished(trace: Seq<ChainContinuation>)
    requires
        trace.len() > 0,
        !trace[0].enabled,
        forall|k: int| 0 <= k < trace.len() - 1 ==> #[trigger] method_step(trace[k], trace[k + 1]),
    ensures
        forall|k: int| 0 <= k < trace.len() ==> !(#[trigger] trace[k]).enabled && !spec_should_run(trace[k]),
    decreases trace.len(),
{
    if trace.len() > 1 {
        let prefix = trace.drop_last();
        assert forall|k: int| 0 <= k < prefix.len() - 1 implies #[trigger] method_step(prefix[k], prefix[k + 1]) by {
            assert(method_step(trace[k], trace[k + 1]));
        }
        law_finished_stays_finished(prefix);
        let n = trace.len() - 1;
        assert(!prefix[n - 1].enabled);
        let m = n - 1;
        assert(method_step(trace[m], trace[m + 1]));
        assert(m + 1 == n);
        assert forall|k: int| 0 <= k < trace.len() implies !(#[trigger] trace[k]).enabled && !spec_should_run(trace[k]) by {
            if k < n {
                assert(trace[k] == prefix[k]);
            }
        }
    }
}

} // verus!
