//! Shared orchestration state, modeled as plain values: the cooperative
//! cancellation token, the one-shot setup flags, and the per-tool registry
//! that keeps the last completed job's engine state. The thread and
//! channel plumbing around this state lives outside the library.

use vstd::prelude::*;
use crate::tools::{Tool, TOOL_COUNT, spec_tool_index};

verus! {

/// The cooperative cancellation token: reset at the start of every job,
/// set only by an explicit stop request, polled by workers.
pub struct CancelToken {
    pub cancelled: bool,
}

impl CancelToken {
    /// A fresh token: not cancelled.
    pub fn new() -> (r: Self)
        ensures
            !r.cancelled,
    {
        CancelToken { cancelled: false }
    }

    /// Resets the token at job start: a stale stop request from an earlier
    /// job no longer affects the new one.
    pub fn reset(&mut self)
        ensures
            !final(self).cancelled,
    {
        self.cancelled = false;
    }

    /// Requests a stop: every later poll observes the cancellation.
    pub fn request_stop(&mut self)
        ensures
            final(self).cancelled,
    {
        self.cancelled = true;
    }

    /// Polls the token: reports exactly the current cancellation state.
    pub fn is_cancelled(&self) -> (r: bool)
        ensures
            r == self.cancelled,
    {
        self.cancelled
    }
}

/// One-shot configuration of the worker-pool size: the first call decides,
/// later calls only report what was decided.
pub struct ThreadSetup {
    pub configured: Option<usize>,
}

impl ThreadSetup {
    /// The setup starts undecided.
    pub fn new() -> (r: Self)
        ensures
            r.configured is None,
    {
        ThreadSetup { configured: None }
    }

    /// The first call configures the requested size and returns it; any
    /// later call changes nothing and returns the size already configured.
    pub fn setup(&mut self, n: usize) -> (r: usize)
        ensures
            match old(self).configured {
                None => final(self).configured == Some(n) && r == n,
                Some(m) => final(self).configured == Some(m) && r == m,
            },
    {
        match self.configured {
            None => {
                self.configured = Some(n);
                n
            },
            Some(m) => m,
        }
    }
}

/// One-shot startup of the progress listener: the first request starts it,
/// later requests are no-ops.
pub struct ListenerFlag {
    pub started: bool,
}

impl ListenerFlag {
    /// The listener starts not yet running.
    pub fn new() -> (r: Self)
        ensures
            !r.started,
    {
        ListenerFlag { started: false }
    }

    /// Whether this request should start the listener: true exactly on the
    /// first call; afterwards the flag stays set.
    pub fn try_start(&mut self) -> (r: bool)
        ensures
            final(self).started,
            r == !old(self).started,
    {
        let r = !self.started;
        self.started = true;
        r
    }
}

/// The job state store: for each tool, the most recent completed job's
/// engine state, overwritten whenever a job of that tool completes.
pub struct JobStateStore<T> {
    pub slots: Vec<Option<T>>,
}

impl<T> JobStateStore<T> {
    /// The store always holds one slot per tool.
    pub open spec fn wf(self) -> bool {
        self.slots@.len() == TOOL_COUNT
    }

    /// What the store holds for a tool.
    pub open spec fn spec_get(self, t: Tool) -> Option<T> {
        self.slots@[spec_tool_index(t)]
    }

    /// A fresh store: nothing stored for any tool.
    pub fn new() -> (r: Self)
        ensures
            r.wf(),
            forall|t: Tool| r.spec_get(t) is None,
    {
        let mut slots: Vec<Option<T>> = Vec::new();
        let mut i: usize = 0;
        while i < TOOL_COUNT
            invariant
                i <= TOOL_COUNT,
                slots@.len() == i,
                forall|j: int| 0 <= j < i ==> slots@[j] is None,
            decreases TOOL_COUNT - i,
        {
            slots.push(None);
            i = i + 1;
        }
        JobStateStore { slots }
    }

    /// Stores a completed job's state for its tool, dropping whatever the
    /// tool held before and touching no other tool's slot.
    pub fn store(&mut self, tool: Tool, value: T)
        requires
            old(self).wf(),
        ensures
            final(self).wf(),
            final(self).spec_get(tool) == Some(value),
            forall|u: Tool|
                spec_tool_index(u) != spec_tool_index(tool) ==> final(self).spec_get(u) == old(
                    self,
                ).spec_get(u),
    {
        let i = tool.index();
        let _ = self.slots.remove(i);
        self.slots.insert(i, Some(value));
        proof {
            assert(self.slots@ =~= old(self).slots@.update(spec_tool_index(tool), Some(value)));
        }
    }

    /// What the store holds for a tool: the last stored state, if any.
    pub fn get(&self, tool: Tool) -> (r: &Option<T>)
        requires
            self.wf(),
        ensures
            *r == self.spec_get(tool),
    {
        let i = tool.index();
        &self.slots[i]
    }
}

/// The orchestration context, constructed once at process start: the
/// cancellation token, the one-shot flags, and the job state store.
pub struct OrchestratorState<T> {
    pub token: CancelToken,
    pub threads: ThreadSetup,
    pub listener: ListenerFlag,
    pub store: JobStateStore<T>,
}

impl<T> OrchestratorState<T> {
    /// A fresh context: not cancelled, nothing configured, nothing stored.
    pub fn new() -> (r: Self)
        ensures
            !r.token.cancelled,
            r.threads.configured is None,
            !r.listener.started,
            r.store.wf(),
            forall|t: Tool| r.store.spec_get(t) is None,
    {
        OrchestratorState {
            token: CancelToken::new(),
            threads: ThreadSetup::new(),
            listener: ListenerFlag::new(),
            store: JobStateStore::new(),
        }
    }

    /// Hands a job its channels: the cancellation token is reset first, so
    /// a stale stop request from an earlier job cannot cancel the new one.
    /// Everything else is left untouched.
    pub fn acquire_job_token(&mut self)
        ensures
            !final(self).token.cancelled,
            final(self).threads == old(self).threads,
            final(self).listener == old(self).listener,
            final(self).store == old(self).store,
    {
        self.token.reset();
    }
}

} // verus!
