use vstd::prelude::*;

verus! {

/// The single shared record of the sidecar's identity: the port it is
/// expected to listen on, and (in production mode) exclusive ownership
/// of the launched process's handle.
///
/// A port of `0` is the sentinel for "not yet assigned". The handle is
/// `None` in development mode, before a successful launch, and forever
/// after it has been taken once for shutdown.
pub struct SupervisorState<H> {
    pub port: u16,
    pub child: Option<H>,
}

impl<H> SupervisorState<H> {
    /// A port has been recorded: consumers may connect.
    pub open spec fn port_assigned(self) -> bool {
        self.port != 0
    }

    /// The state after the process handle has been taken out.
    pub open spec fn after_take(self) -> Self {
        SupervisorState { port: self.port, child: None }
    }

    /// What taking the process handle yields.
    pub open spec fn take_result(self) -> Option<H> {
        self.child
    }

    /// Fresh state at host startup: no port, no process.
    pub fn new() -> (s: Self)
        ensures
            s.port == 0,
            s.child is None,
    {
        SupervisorState { port: 0, child: None }
    }

    /// Record the port the sidecar is expected to listen on.
    pub fn set_port(&mut self, port: u16)
        requires
            port != 0,
        ensures
            final(self).port == port,
            final(self).child == old(self).child,
    {
        self.port = port;
    }

    /// Store the launched process's handle for later shutdown.
    pub fn store_child(&mut self, child: H)
        ensures
            final(self).port == old(self).port,
            final(self).child == Some(child),
    {
        self.child = Some(child);
    }

    /// The queryable accessor for consumers: `None` while the port is
    /// unassigned (still `0`), `Some(port)` once it has been set.
    pub fn get_current_port(&self) -> (r: Option<u16>)
        ensures
            r is Some <==> self.port_assigned(),
            self.port_assigned() ==> r == Some(self.port),
    {
        if self.port == 0 {
            None
        } else {
            Some(self.port)
        }
    }

    /// Take the process handle out for shutdown, leaving the slot
    /// empty. Whatever was stored comes back exactly once; the port is
    /// untouched.
    pub fn take_child(&mut self) -> (r: Option<H>)
        ensures
            r == old(self).take_result(),
            *final(self) == old(self).after_take(),
    {
        self.child.take()
    }
}

/// Taking the process handle is idempotent: once a take has emptied the
/// slot, a second take yields nothing, so a process can never be killed
/// twice through this state.
pub proof fn lemma_take_idempotent<H>(s: SupervisorState<H>)
    ensures
        s.after_take().take_result() is None,
        s.after_take().after_take() == s.after_take(),
        s.after_take().port == s.port,
{
}

} // verus!
