//! State shared between a running session's background tasks and the
//! controlling side: the completion outcome, the termination handle, and
//! the decisions each task takes on what it observes.

use vstd::prelude::*;
use crate::output::{OutputLog, lossy_text};
use crate::ansi::stripped;
use crate::text::{push_char, push_str};

verus! {

/// What is known of the child process's end.
#[derive(Clone, Copy, Debug, PartialEq, Eq, Structural)]
pub enum Completion {
    /// Still running, as far as anyone knows.
    Unset,
    /// Exited with a success status.
    Succeeded,
    /// Exited with a failure status.
    Failed,
    /// Waiting on the child failed, so its status is unknown.
    WaitFailed,
}

/// What the waiting task observed.
#[derive(Clone, Copy, Debug, PartialEq, Eq, Structural)]
pub enum WaitEvent {
    /// The child exited; `true` when its status means success.
    Exited(bool),
    /// The wait itself failed.
    Failed,
}

/// Errors reported to the caller of a session operation.
#[derive(Clone, Debug, PartialEq, Eq)]
pub enum SessionError {
    /// The terminal could not be opened or the shell could not be started.
    SpawnFailed(String),
    /// Waiting on the child failed.
    WaitFailed,
    /// Input could not be written to the terminal.
    DeliveryFailed(String),
    /// Shared state was left unusable by a task that panicked while holding it.
    InternalStateCorrupted,
    /// Writing the log file failed.
    Io(String),
}

/// The outcome that `event` settles.
pub open spec fn outcome_of(event: WaitEvent) -> Completion {
    match event {
        WaitEvent::Exited(true) => Completion::Succeeded,
        WaitEvent::Exited(false) => Completion::Failed,
        WaitEvent::Failed => Completion::WaitFailed,
    }
}

/// The outcome after `event` is recorded over `c`: the first event settles
/// it, later ones change nothing.
pub open spec fn settle(c: Completion, event: WaitEvent) -> Completion {
    if c == Completion::Unset {
        outcome_of(event)
    } else {
        c
    }
}

/// The outcome after each of `events` is recorded in turn over `c`.
pub open spec fn settle_all(c: Completion, events: Seq<WaitEvent>) -> Completion
    decreases events.len(),
{
    if events.len() == 0 {
        c
    } else {
        settle_all(settle(c, events[0]), events.drop_first())
    }
}

/// A settled outcome never changes again, whatever is recorded after it.
pub proof fn lemma_settled_stays(c: Completion, events: Seq<WaitEvent>)
    requires
        c != Completion::Unset,
    ensures
        settle_all(c, events) == c,
    decreases events.len(),
{
    if events.len() > 0 {
        lemma_settled_stays(c, events.drop_first());
    }
}

/// Starting unset, the outcome is the one that the first event gives (for
/// an exit, success exactly when the status is success), and stays so.
pub proof fn lemma_first_event_decides(events: Seq<WaitEvent>)
    requires
        events.len() > 0,
    ensures
        settle_all(Completion::Unset, events) == outcome_of(events[0]),
        settle_all(Completion::Unset, events) != Completion::Unset,
        events[0] == WaitEvent::Exited(true) ==> settle_all(Completion::Unset, events)
            == Completion::Succeeded,
        events[0] == WaitEvent::Exited(false) ==> settle_all(Completion::Unset, events)
            == Completion::Failed,
{
    lemma_settled_stays(outcome_of(events[0]), events.drop_first());
}

/// The cell that records how the child ended, exactly once.
pub struct CompletionCell {
    outcome: Completion,
}

impl View for CompletionCell {
    type V = Completion;

    closed spec fn view(&self) -> Completion {
        self.outcome
    }
}

impl CompletionCell {
    /// A cell for a session that has just started.
    pub fn new() -> (r: CompletionCell)
        ensures
            r@ == Completion::Unset,
    {
        CompletionCell { outcome: Completion::Unset }
    }

    /// The outcome recorded so far.
    pub fn get(&self) -> (r: Completion)
        ensures
            r == self@,
    {
        self.outcome
    }

    /// Records what the waiting task observed; returns whether this call
    /// settled the outcome.
    pub fn record(&mut self, event: WaitEvent) -> (r: bool)
        ensures
            final(self)@ == settle(old(self)@, event),
            r == (old(self)@ == Completion::Unset),
    {
        if self.outcome == Completion::Unset {
            self.outcome = match event {
                WaitEvent::Exited(true) => Completion::Succeeded,
                WaitEvent::Exited(false) => Completion::Failed,
                WaitEvent::Failed => Completion::WaitFailed,
            };
            true
        } else {
            false
        }
    }

    /// Whether the outcome is settled; a poller that sees this does one more
    /// read of the log and then stops.
    pub fn is_settled(&self) -> (r: bool)
        ensures
            r == (self@ != Completion::Unset),
    {
        self.outcome != Completion::Unset
    }
}

/// The status text shown for an outcome.
pub fn status_text(c: Completion) -> (r: &'static str)
    ensures
        c == Completion::Unset ==> r@ == "Running..."@,
        c == Completion::Succeeded ==> r@ == "Finished successfully."@,
        c == Completion::Failed ==> r@ == "Finished with errors."@,
        c == Completion::WaitFailed ==> r@ == "Could not wait for the command."@,
{
    match c {
        Completion::Unset => "Running...",
        Completion::Succeeded => "Finished successfully.",
        Completion::Failed => "Finished with errors.",
        Completion::WaitFailed => "Could not wait for the command.",
    }
}

/// The outcome as the controlling side sees it: a failed wait is reported
/// as an error, every other outcome as it is.
pub fn completion_report(c: Completion) -> (r: Result<Completion, SessionError>)
    ensures
        c == Completion::WaitFailed ==> r == Err::<Completion, SessionError>(
            SessionError::WaitFailed,
        ),
        c != Completion::WaitFailed ==> r == Ok::<Completion, SessionError>(c),
{
    match c {
        Completion::WaitFailed => Err(SessionError::WaitFailed),
        _ => Ok(c),
    }
}

/// The state after a kill request over `handle`, and the handle that the
/// caller is given to signal with.
pub open spec fn kill_step<K>(handle: Option<K>) -> (Option<K>, Option<K>) {
    (None, handle)
}

/// A second kill request finds the handle gone: it hands out nothing and
/// leaves the state as the first one left it.
pub proof fn lemma_kill_idempotent<K>(handle: Option<K>)
    ensures
        kill_step(kill_step(handle).0) == (kill_step(handle).0, None::<K>),
        kill_step(kill_step(handle).0).0 == kill_step(handle).0,
{
}

/// A process-termination handle that can be taken at most once.
pub struct KillSwitch<K> {
    handle: Option<K>,
}

impl<K> View for KillSwitch<K> {
    type V = Option<K>;

    closed spec fn view(&self) -> Option<K> {
        self.handle
    }
}

impl<K> KillSwitch<K> {
    /// A switch holding `handle`.
    pub fn new(handle: K) -> (r: KillSwitch<K>)
        ensures
            r@ == Some(handle),
    {
        KillSwitch { handle: Some(handle) }
    }

    /// Takes the handle for the first caller; later callers get nothing and
    /// change nothing.
    pub fn take(&mut self) -> (r: Option<K>)
        ensures
            (final(self)@, r) == kill_step(old(self)@),
    {
        self.handle.take()
    }

    /// Whether the handle is still there.
    pub fn is_armed(&self) -> (r: bool)
        ensures
            r == (self@ is Some),
    {
        self.handle.is_some()
    }
}

/// One result of reading the terminal: bytes (none at end of stream), or
/// a read error.
#[derive(Clone, Debug)]
pub enum ReadOutcome {
    Data(Vec<u8>),
    Failed,
}

impl OutputLog {
    /// Takes one read result into the log; returns whether the reader goes
    /// on. End of stream and read errors both end it and leave the log as
    /// it was.
    pub fn on_read(&mut self, outcome: &ReadOutcome) -> (r: bool)
        ensures
            match outcome {
                ReadOutcome::Data(bytes) => {
                    &&& r == (bytes@.len() > 0)
                    &&& final(self)@ == if bytes@.len() > 0 {
                        old(self)@ + stripped(lossy_text(bytes@))
                    } else {
                        old(self)@
                    }
                },
                ReadOutcome::Failed => !r && final(self)@ == old(self)@,
            },
    {
        match outcome {
            ReadOutcome::Data(bytes) => {
                if bytes.len() == 0 {
                    false
                } else {
                    self.ingest(bytes.as_slice());
                    true
                }
            },
            ReadOutcome::Failed => false,
        }
    }
}

/// The text written to the terminal for one line of input: the text and a
/// line terminator.
pub fn input_line(text: &str) -> (r: String)
    ensures
        r@ == text@.push('\n'),
{
    let mut line = String::new();
    push_str(&mut line, text);
    push_char(&mut line, '\n');
    assert(line@ =~= text@.push('\n'));
    line
}

/// Maps the result of writing input to the terminal: a failure, whatever
/// its cause, is a delivery failure that carries `cause`.
pub fn delivery_result(written: bool, cause: String) -> (r: Result<(), SessionError>)
    ensures
        written ==> r is Ok,
        !written ==> r == Err::<(), SessionError>(SessionError::DeliveryFailed(cause)),
{
    if written {
        Ok(())
    } else {
        Err(SessionError::DeliveryFailed(cause))
    }
}

} // verus!
