use vstd::prelude::*;

use crate::router::InputTarget;

verus! {

/// An installable program with a name and a running state.  An
/// application that was created unrunnable never starts.
pub struct Application {
    pub name: String,
    pub running: bool,
    pub can_run: bool,
}

impl Application {
    pub fn new(name: String) -> (r: Application)
        ensures
            r.name == name,
            !r.running,
            r.can_run,
    {
        Application { name, running: false, can_run: true }
    }

    pub fn new_unrunnable(name: String) -> (r: Application)
        ensures
            r.name == name,
            !r.running,
            !r.can_run,
    {
        Application { name, running: false, can_run: false }
    }

    /// Install this application: it takes keyboard focus, so every key
    /// decoded from now on is forwarded to it.  The installed value is
    /// returned to whoever keeps it.
    pub fn init(self, target: &mut InputTarget) -> (r: Application)
        ensures
            r == self,
            *final(target) == InputTarget::Application,
    {
        *target = InputTarget::Application;
        self
    }

    /// Start, unless this application cannot run.
    pub fn run(&mut self)
        ensures
            old(self).can_run ==> *final(self) == (Application { running: true, ..*old(self) }),
            !old(self).can_run ==> *final(self) == *old(self),
    {
        if !self.can_run {
            return;
        }
        self.running = true;
    }

    /// Stop running.
    pub fn stop(&mut self)
        ensures
            *final(self) == (Application { running: false, ..*old(self) }),
    {
        self.running = false;
    }
}

} // verus!
