use vstd::prelude::*;

verus! {

/// What a start request asks of the code that owns the reader's thread.
#[derive(Clone, Copy, Debug, PartialEq, Eq, Structural)]
pub enum StartDecision {
    /// A reader is still running: leave it alone and report success.
    AlreadyRunning,
    /// Make a fresh stop flag, launch a reader with a clone of it and keep
    /// its handle.
    Launch,
}

/// Start/stop bookkeeping for the one reader a process may run.
#[derive(Clone, Copy, Debug, PartialEq, Eq, Structural)]
pub struct SessionController {
    /// A handle to the last launched reader is held.
    pub reader_held: bool,
    /// The current session's stop flag is set.
    pub stop_requested: bool,
}

/// The controller after a start request and the decision it makes, where
/// `reader_finished` says whether the held reader (if any) has ended.
pub open spec fn start_outcome(c: SessionController, reader_finished: bool) -> (
    SessionController,
    StartDecision,
) {
    if c.reader_held && !reader_finished {
        (c, StartDecision::AlreadyRunning)
    } else {
        (SessionController { reader_held: true, stop_requested: false }, StartDecision::Launch)
    }
}

/// The controller after a stop request: the flag is set and the handle let go,
/// without waiting for the reader.
pub open spec fn stop_outcome(c: SessionController) -> SessionController {
    SessionController { reader_held: false, stop_requested: true }
}

/// Whether a reader is running, given whether the held one has ended.
pub open spec fn reader_active(c: SessionController, reader_finished: bool) -> bool {
    c.reader_held && !reader_finished
}

impl SessionController {
    /// A held reader's stop flag is never set: a stop request always lets go of
    /// the handle, and only a launch (with a fresh flag) takes one.
    pub open spec fn wf(self) -> bool {
        !(self.reader_held && self.stop_requested)
    }

    /// No reader held and no stop requested.
    pub fn new() -> (r: SessionController)
        ensures
            !r.reader_held,
            !r.stop_requested,
            r.wf(),
    {
        SessionController { reader_held: false, stop_requested: false }
    }

    /// Handles a start request. A running reader is left as it is; otherwise
    /// a new session begins, with a stop flag that is not set.
    pub fn start(&mut self, reader_finished: bool) -> (r: StartDecision)
        ensures
            (*final(self), r) == start_outcome(*old(self), reader_finished),
            old(self).wf() ==> final(self).wf(),
    {
        if self.reader_held && !reader_finished {
            StartDecision::AlreadyRunning
        } else {
            self.reader_held = true;
            self.stop_requested = false;
            StartDecision::Launch
        }
    }

    /// Handles a stop request: sets the current session's stop flag and lets
    /// go of the reader's handle. Never blocks and never fails.
    pub fn stop(&mut self)
        ensures
            *final(self) == stop_outcome(*old(self)),
            final(self).wf(),
    {
        self.stop_requested = true;
        self.reader_held = false;
    }
}

/// Two start requests in a row launch at most one reader, and after them one
/// reader is running: the second request, made while the first one's reader
/// runs, changes nothing.
pub proof fn lemma_start_twice_one_reader(c: SessionController, first_finished: bool)
    ensures
        ({
            let (c1, d1) = start_outcome(c, first_finished);
            let (c2, d2) = start_outcome(c1, false);
            &&& d2 == StartDecision::AlreadyRunning
            &&& c2 == c1
            &&& reader_active(c2, false)
            &&& (d1 == StartDecision::AlreadyRunning ==> c1 == c)
        }),
{
}

/// A stop request with no reader running starts nothing, leaves no reader
/// held, and a second stop changes nothing more.
pub proof fn lemma_stop_when_stopped(c: SessionController, reader_finished: bool)
    requires
        !reader_active(c, reader_finished),
    ensures
        !reader_active(stop_outcome(c), reader_finished),
        !stop_outcome(c).reader_held,
        stop_outcome(stop_outcome(c)) == stop_outcome(c),
{
}

/// A session launched after a stop starts with its own flag unset: a stop
/// meant for an earlier session cannot end the new one.
pub proof fn lemma_new_session_not_stopped(c: SessionController, reader_finished: bool)
    ensures
        ({
            let (c1, d1) = start_outcome(stop_outcome(c), reader_finished);
            d1 == StartDecision::Launch && !c1.stop_requested && c1.reader_held
        }),
{
}

} // verus!
