use vstd::prelude::*;

verus! {

/// How many coalesced signals may wait for the indexing task.
pub const SIGNAL_QUEUE_CAPACITY: usize = 100;

/// Whether a batch delivered by the debounce engine becomes a signal: a
/// batch of events does when it holds at least one; an error batch is only
/// reported and never stops the watch.
pub open spec fn is_signal(batch_is_error: bool, event_count: nat) -> bool {
    !batch_is_error && event_count > 0
}

pub fn batch_signals(batch_is_error: bool, event_count: usize) -> (r: bool)
    ensures
        r == is_signal(batch_is_error, event_count as nat),
{
    !batch_is_error && event_count > 0
}

/// The configuration an indexing run uses: the one read just now, or the
/// one captured when the watch started if that read failed.
pub fn select_config<C, E>(fresh: Result<C, E>, snapshot: C) -> (r: C)
    ensures
        r == match fresh {
            Ok(c) => c,
            Err(_) => snapshot,
        },
{
    match fresh {
        Ok(c) => c,
        Err(_) => snapshot,
    }
}

/// What the indexing task does next.
#[derive(PartialEq, Eq, Structural, Clone, Copy, Debug)]
pub enum PipelineAction {
    /// Run the indexing operation once.
    StartIndexing,
    /// Wait for a signal or for the running operation to finish.
    Wait,
    /// The watch was stopped and no signal is left: the task ends.
    Finish,
}

/// The abstract state of one watch's trigger pipeline.
pub ghost struct PipelineState {
    /// Signals queued and not yet taken.
    pub pending: nat,
    /// An indexing operation is in flight.
    pub indexing: bool,
    /// The watch still exists, so signals can still arrive.
    pub open: bool,
    /// How many indexing operations have been started.
    pub runs: nat,
}

impl PipelineState {
    pub open spec fn is_idle(self) -> bool {
        !self.indexing
    }

    pub open spec fn after_offer(self) -> PipelineState {
        if self.open && self.pending < SIGNAL_QUEUE_CAPACITY {
            PipelineState { pending: self.pending + 1, ..self }
        } else {
            self
        }
    }

    pub open spec fn next_action(self) -> PipelineAction {
        if self.indexing {
            PipelineAction::Wait
        } else if self.pending > 0 {
            PipelineAction::StartIndexing
        } else if !self.open {
            PipelineAction::Finish
        } else {
            PipelineAction::Wait
        }
    }

    pub open spec fn after_step(self) -> PipelineState {
        if self.next_action() == PipelineAction::StartIndexing {
            PipelineState {
                pending: (self.pending - 1) as nat,
                indexing: true,
                runs: self.runs + 1,
                ..self
            }
        } else {
            self
        }
    }

    /// Whether the operation succeeded or failed, the pipeline goes back to
    /// idle and the watch stays as it was.
    pub open spec fn after_finish(self, succeeded: bool) -> PipelineState {
        PipelineState { indexing: false, ..self }
    }

    pub open spec fn after_close(self) -> PipelineState {
        PipelineState { open: false, ..self }
    }
}

/// The trigger pipeline of one watch: a bounded queue of coalesced signals
/// consumed one at a time by the indexing task.
pub struct TriggerPipeline {
    pending: usize,
    indexing: bool,
    open: bool,
    runs: Ghost<nat>,
}

impl View for TriggerPipeline {
    type V = PipelineState;

    closed spec fn view(&self) -> PipelineState {
        PipelineState {
            pending: self.pending as nat,
            indexing: self.indexing,
            open: self.open,
            runs: self.runs@,
        }
    }
}

impl TriggerPipeline {
    pub closed spec fn wf(&self) -> bool {
        self.pending <= SIGNAL_QUEUE_CAPACITY
    }

    /// A fresh pipeline: open, idle, with no signal queued.
    pub fn new() -> (r: Self)
        ensures
            r.wf(),
            r@ == (PipelineState { pending: 0, indexing: false, open: true, runs: 0 }),
    {
        TriggerPipeline { pending: 0, indexing: false, open: true, runs: Ghost(0) }
    }

    /// Offers one coalesced signal without blocking. Returns whether it was
    /// queued; it is dropped when the queue is full or the watch is stopped.
    pub fn offer_signal(&mut self) -> (r: bool)
        requires
            old(self).wf(),
        ensures
            final(self).wf(),
            final(self)@ == old(self)@.after_offer(),
            r == (old(self)@.open && old(self)@.pending < SIGNAL_QUEUE_CAPACITY),
    {
        if self.open && self.pending < SIGNAL_QUEUE_CAPACITY {
            self.pending = self.pending + 1;
            true
        } else {
            false
        }
    }

    /// Decides what the indexing task does next, and takes a signal when it
    /// starts an indexing run. Runs never overlap.
    pub fn step(&mut self) -> (r: PipelineAction)
        requires
            old(self).wf(),
        ensures
            final(self).wf(),
            r == old(self)@.next_action(),
            final(self)@ == old(self)@.after_step(),
    {
        if self.indexing {
            PipelineAction::Wait
        } else if self.pending > 0 {
            self.pending = self.pending - 1;
            self.indexing = true;
            self.runs = Ghost(self.runs@ + 1);
            PipelineAction::StartIndexing
        } else if !self.open {
            PipelineAction::Finish
        } else {
            PipelineAction::Wait
        }
    }

    /// Records the end of an indexing run, successful or not.
    pub fn finish_indexing(&mut self, succeeded: bool)
        requires
            old(self).wf(),
        ensures
            final(self).wf(),
            final(self)@ == old(self)@.after_finish(succeeded),
    {
        self.indexing = false;
    }

    /// Stops accepting signals; those already queued are still processed.
    pub fn close(&mut self)
        requires
            old(self).wf(),
        ensures
            final(self).wf(),
            final(self)@ == old(self)@.after_close(),
    {
        self.open = false;
    }

    pub fn is_open(&self) -> (r: bool)
        ensures
            r == self@.open,
    {
        self.open
    }
}

/// A burst of changes that the debounce engine delivers as one batch, on an
/// idle, open pipeline with nothing queued, leads to exactly one indexing
/// run: the task starts one, and once it finishes the task waits again
/// without starting another.
pub proof fn lemma_one_signal_one_run(s: PipelineState, event_count: nat, succeeded: bool)
    requires
        s.open,
        !s.indexing,
        s.pending == 0,
        event_count > 0,
    ensures
        is_signal(false, event_count),
        s.after_offer().next_action() == PipelineAction::StartIndexing,
        s.after_offer().after_step().runs == s.runs + 1,
        s.after_offer().after_step().after_finish(succeeded).next_action() == PipelineAction::Wait,
        s.after_offer().after_step().after_finish(succeeded).after_step().runs == s.runs + 1,
{
}

/// A failed indexing run leaves the watch open and the pipeline idle, so the
/// next change starts another run.
pub proof fn lemma_failure_keeps_watching(s: PipelineState)
    requires
        s.open,
        s.indexing,
        s.pending == 0,
    ensures
        s.after_finish(false).open,
        s.after_finish(false).is_idle(),
        s.after_finish(false).after_offer().next_action() == PipelineAction::StartIndexing,
        s.after_finish(false).after_offer().after_step().runs == s.runs + 1,
{
}

} // verus!
