//! The master: it gives every client that connects a session of its own.
use std::rc::Rc;
use vstd::prelude::*;
use crate::client::MasterClient;
use crate::startup::Config;

verus! {

/// A running master. `C` is the way to reach the command center.
pub struct Master<C> {
    /// The configuration.
    pub cfg: Rc<Config>,
    /// The way to reach the command center.
    pub cmd: C,
}

impl<C: Clone> Master<C> {
    /// A client has connected: the session with it reaches the same command center.
    pub fn handle(&mut self) -> (client: MasterClient<C>)
        ensures
            cloned(old(self).cmd, client.cmd),
            *final(self) == *old(self),
    {
        MasterClient { cmd: self.cmd.clone() }
    }
}

} // verus!
