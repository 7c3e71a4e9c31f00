//! The mailbox between the event thread and the background saving thread: one slot
//! holding the latest submitted state, generation counters, and the shutdown request.
//!
//! The lock, the condition variable and the thread itself stay with the caller; this
//! type decides what each side sees and does.

use vstd::prelude::*;

verus! {

/// A non-blocking report that the saving thread sends to the event thread.
#[derive(Debug, Clone, PartialEq, Eq)]
pub enum RecoveryEvent {
    Error(String),
}

/// How the saving thread leaves: keeping the recovery files, or removing them after a
/// clean exit.
#[derive(Debug, Clone, Copy, PartialEq, Eq, Structural)]
pub enum ShutdownMode {
    Preserve,
    Clean,
}

/// What a waiting `flush` learns from the mailbox.
#[derive(Debug, Clone, PartialEq, Eq)]
pub enum FlushStatus {
    /// The target generation is not processed yet and the worker still runs: wait.
    Pending,
    /// The worker stopped with this saving error.
    Failed(String),
    /// The worker stopped before it processed the target generation.
    Exited,
    /// Every state submitted up to the target generation has been persisted.
    Done,
}

/// The mailbox state, guarded by the caller's mutex.
pub struct WorkerState<T> {
    latest: Option<(u64, T)>,
    submitted_generation: u64,
    processed_generation: u64,
    shutdown: Option<ShutdownMode>,
    stopped: bool,
    error: Option<String>,
}

impl<T> WorkerState<T> {
    /// The latest submitted state that the worker has not taken yet, with its generation.
    pub closed spec fn pending(&self) -> Option<(u64, T)> {
        self.latest
    }

    /// The generation of the last submitted state.
    pub closed spec fn submitted(&self) -> u64 {
        self.submitted_generation
    }

    /// The highest generation that the worker has persisted.
    pub closed spec fn processed(&self) -> u64 {
        self.processed_generation
    }

    /// The requested way to shut down, if any.
    pub closed spec fn shutdown_request(&self) -> Option<ShutdownMode> {
        self.shutdown
    }

    /// Whether the worker has stopped.
    pub closed spec fn is_stopped(&self) -> bool {
        self.stopped
    }

    /// The saving error the worker stopped with, if any.
    pub closed spec fn failure(&self) -> Option<String> {
        self.error
    }

    /// An empty mailbox of a running worker.
    pub fn new() -> (state: WorkerState<T>)
        ensures
            state.pending() is None,
            state.submitted() == 0,
            state.processed() == 0,
            state.shutdown_request() is None,
            !state.is_stopped(),
            state.failure() is None,
    {
        WorkerState {
            latest: None,
            submitted_generation: 0,
            processed_generation: 0,
            shutdown: None,
            stopped: false,
            error: None,
        }
    }

    /// Replaces any state that the worker has not taken yet with `state`, under the
    /// next generation; refused once the worker stopped or a shutdown was requested.
    pub fn submit(&mut self, state: T) -> (accepted: bool)
        ensures
            accepted == (!old(self).is_stopped() && old(self).shutdown_request() is None),
            accepted ==> {
                &&& final(self).submitted() == (if old(self).submitted() == u64::MAX {
                    0
                } else {
                    old(self).submitted() + 1
                })
                &&& final(self).pending() == Some((final(self).submitted(), state))
            },
            !accepted ==> final(self).submitted() == old(self).submitted() && final(self).pending()
                == old(self).pending(),
            final(self).processed() == old(self).processed(),
            final(self).shutdown_request() == old(self).shutdown_request(),
            final(self).is_stopped() == old(self).is_stopped(),
            final(self).failure() == old(self).failure(),
    {
        if self.stopped || self.shutdown.is_some() {
            return false;
        }
        self.submitted_generation = self.submitted_generation.wrapping_add(1);
        self.latest = Some((self.submitted_generation, state));
        true
    }

    /// What the worker takes when it wakes: the pending state and the shutdown request.
    /// `None` while there is neither, and the worker goes on waiting.
    pub fn take_request(&mut self) -> (request: Option<(Option<(u64, T)>, Option<ShutdownMode>)>)
        ensures
            (old(self).pending() is None && old(self).shutdown_request() is None) ==> request is None
                && final(self).pending() is None,
            !(old(self).pending() is None && old(self).shutdown_request() is None) ==> request
                == Some((old(self).pending(), old(self).shutdown_request()))
                && final(self).pending() is None,
            final(self).submitted() == old(self).submitted(),
            final(self).processed() == old(self).processed(),
            final(self).shutdown_request() == old(self).shutdown_request(),
            final(self).is_stopped() == old(self).is_stopped(),
            final(self).failure() == old(self).failure(),
    {
        if self.latest.is_none() && self.shutdown.is_none() {
            return None;
        }
        let latest = self.latest.take();
        Some((latest, self.shutdown))
    }

    /// Records that the state of `generation` has been persisted.
    pub fn mark_processed(&mut self, generation: u64)
        ensures
            final(self).processed() == (if generation > old(self).processed() {
                generation
            } else {
                old(self).processed()
            }),
            final(self).pending() == old(self).pending(),
            final(self).submitted() == old(self).submitted(),
            final(self).shutdown_request() == old(self).shutdown_request(),
            final(self).is_stopped() == old(self).is_stopped(),
            final(self).failure() == old(self).failure(),
    {
        if generation > self.processed_generation {
            self.processed_generation = generation;
        }
    }

    /// Records a saving error that the worker cannot continue after; it stops.
    pub fn mark_failed(&mut self, detail: String)
        ensures
            final(self).failure() == Some(detail),
            final(self).is_stopped(),
            final(self).pending() == old(self).pending(),
            final(self).submitted() == old(self).submitted(),
            final(self).processed() == old(self).processed(),
            final(self).shutdown_request() == old(self).shutdown_request(),
    {
        self.error = Some(detail);
        self.stopped = true;
    }

    /// Records that the worker left normally.
    pub fn mark_stopped(&mut self)
        ensures
            final(self).is_stopped(),
            final(self).failure() == old(self).failure(),
            final(self).pending() == old(self).pending(),
            final(self).submitted() == old(self).submitted(),
            final(self).processed() == old(self).processed(),
            final(self).shutdown_request() == old(self).shutdown_request(),
    {
        self.stopped = true;
    }

    /// The generation that a `flush` called now waits for.
    pub fn flush_target(&self) -> (target: u64)
        ensures
            target == self.submitted(),
    {
        self.submitted_generation
    }

    /// Whether a `flush` waiting for `target` may return, and with what.
    pub fn flush_status(&self, target: u64) -> (status: FlushStatus)
        ensures
            self.processed() < target && !self.is_stopped() ==> status == FlushStatus::Pending,
            !(self.processed() < target && !self.is_stopped()) ==> match self.failure() {
                Some(error) => status == FlushStatus::Failed(error),
                None => status == (if self.processed() < target {
                    FlushStatus::Exited
                } else {
                    FlushStatus::Done
                }),
            },
    {
        if self.processed_generation < target && !self.stopped {
            return FlushStatus::Pending;
        }
        match &self.error {
            Some(error) => FlushStatus::Failed(error.clone()),
            None => if self.processed_generation < target {
                FlushStatus::Exited
            } else {
                FlushStatus::Done
            },
        }
    }

    /// Asks a running worker to leave after the pending state, in the given mode.
    pub fn request_shutdown(&mut self, mode: ShutdownMode)
        ensures
            final(self).shutdown_request() == (if old(self).is_stopped() {
                old(self).shutdown_request()
            } else {
                Some(mode)
            }),
            final(self).pending() == old(self).pending(),
            final(self).submitted() == old(self).submitted(),
            final(self).processed() == old(self).processed(),
            final(self).is_stopped() == old(self).is_stopped(),
            final(self).failure() == old(self).failure(),
    {
        if !self.stopped {
            self.shutdown = Some(mode);
        }
    }

    /// The saving error the worker stopped with.
    pub fn error(&self) -> (error: Option<String>)
        ensures
            error == self.failure(),
    {
        self.error.clone()
    }
}

} // verus!
