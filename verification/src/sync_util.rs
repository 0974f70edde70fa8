//! The shutdown request: a flag that is raised once, and what it means to
//! someone who sleeps.
//!
//! The flag itself neither locks nor waits. Whoever shares it puts it behind
//! a lock, and asks it before and after every wait what to do.

use vstd::prelude::*;

verus! {

/// A sleep ended early because the agent is to shut down.
#[derive(Debug, Clone, Copy, PartialEq, Eq, Structural)]
pub struct ShutdownError;

/// Whether a shutdown has been asked for.
#[derive(Debug, Clone, Copy, PartialEq, Eq, Structural)]
pub struct Shutdown {
    pub requested: bool,
}

/// What a sleeper does next.
#[derive(Debug, Clone, Copy, PartialEq, Eq)]
pub enum SleepStep {
    /// Wait to be woken, but not beyond the end of the sleep.
    Wait,
    /// The sleep is over, with this outcome.
    Done(Result<(), ShutdownError>),
}

impl Shutdown {
    /// A flag that is not raised.
    pub fn new() -> (flag: Shutdown)
        ensures
            !flag.requested,
    {
        Shutdown { requested: false }
    }

    /// Asks for the shutdown. Sleepers are to be woken after this.
    pub fn shutdown(&mut self)
        ensures
            *final(self) == old(self).raised(),
    {
        self.requested = true;
    }

    /// What a sleeper does when it is about to wait: it does not even begin
    /// if the shutdown has been asked for.
    pub fn before_wait(&self) -> (step: SleepStep)
        ensures
            step == self.before_wait_spec(),
    {
        if self.requested {
            SleepStep::Done(Err(ShutdownError))
        } else {
            SleepStep::Wait
        }
    }

    /// What a sleeper does when a wait has ended. A wait that ran out of
    /// time ends the sleep in peace; one that was woken ends it with an
    /// error if the shutdown has been asked for, and is followed by another
    /// wait if not.
    pub fn after_wait(&self, timed_out: bool) -> (step: SleepStep)
        ensures
            step == if timed_out {
                SleepStep::Done(Ok(()))
            } else {
                self.before_wait_spec()
            },
    {
        if timed_out {
            SleepStep::Done(Ok(()))
        } else {
            self.before_wait()
        }
    }

    /// What `before_wait` answers.
    pub open spec fn before_wait_spec(&self) -> SleepStep {
        if self.requested {
            SleepStep::Done(Err(ShutdownError))
        } else {
            SleepStep::Wait
        }
    }

    /// The flag after the shutdown was asked for.
    pub open spec fn raised(self) -> Shutdown {
        Shutdown { requested: true }
    }
}

/// Asking for the shutdown a second time changes nothing.
pub proof fn law_shutdown_once_is_enough(flag: Shutdown)
    ensures
        flag.raised().raised() == flag.raised(),
        flag.requested ==> flag.raised() == flag,
{
}

/// Once the shutdown has been asked for, no sleep begins, and a sleeper that
/// is woken does not go back to sleep.
pub proof fn law_no_sleep_after_shutdown(flag: Shutdown)
    requires
        flag.requested,
    ensures
        flag.before_wait_spec() == SleepStep::Done(Err(ShutdownError)),
{
}

} // verus!
