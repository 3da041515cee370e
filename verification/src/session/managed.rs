//! The replaceable transport behind one stable session.
use vstd::prelude::*;

use crate::error::TransportLinkError;

verus! {

/// What a [`ManagedDriver`] holds.
pub struct Slot<T> {
    /// The transport in use.
    pub current: Option<T>,
    /// Operations are refused.
    pub closed: bool,
    /// The owner of the session has closed it.
    pub stopped: bool,
    /// Whoever waits for the session to stop is to be woken.
    pub stop: bool,
}

impl<T> Slot<T> {
    /// The slot of a session that was just opened over `transport`.
    pub open spec fn opened(transport: T) -> Self {
        Slot { current: Some(transport), closed: false, stopped: false, stop: false }
    }

    /// The slot after its owner has closed the session.
    pub open spec fn stopping(self) -> Self {
        Slot { closed: true, stopped: true, stop: true, ..self }
    }

    /// The slot after a replacement transport has arrived.
    pub open spec fn replaced(self, transport: T) -> Self {
        if self.stopped {
            self
        } else {
            Slot { current: Some(transport), closed: false, ..self }
        }
    }

    /// The slot after its transport has failed.
    pub open spec fn discarded(self) -> Self {
        Slot { current: None, closed: true, ..self }
    }

    /// The slot after its transport has been taken out.
    pub open spec fn emptied(self) -> Self {
        Slot { current: None, ..self }
    }

    /// Operations can use the transport.
    pub open spec fn usable(self) -> bool {
        !self.closed && self.current is Some
    }
}

/// The transport slot behind one stable session.
pub struct ManagedDriver<T> {
    current: Option<T>,
    closed: bool,
    stopped: bool,
    stop: bool,
}

impl<T> View for ManagedDriver<T> {
    type V = Slot<T>;

    closed spec fn view(&self) -> Slot<T> {
        Slot {
            current: self.current,
            closed: self.closed,
            stopped: self.stopped,
            stop: self.stop,
        }
    }
}

impl<T> ManagedDriver<T> {
    #[verifier::type_invariant]
    spec fn wf(self) -> bool {
        self.stopped ==> self.closed
    }

    pub fn new(transport: T) -> (driver: Self)
        ensures
            driver@ == Slot::opened(transport),
    {
        ManagedDriver { current: Some(transport), closed: false, stopped: false, stop: false }
    }

    pub fn is_closed(&self) -> (closed: bool)
        ensures
            closed == self@.closed,
            self@.stopped ==> closed,
    {
        proof {
            use_type_invariant(self);
        }
        self.closed
    }

    /// Refuses operations from now on and wakes whoever waits for the session to stop. Returns
    /// whether this was the first call since the session was last opened.
    pub fn begin_close(&mut self) -> (first: bool)
        ensures
            first == !old(self)@.stopped,
            final(self)@ == old(self)@.stopping(),
    {
        let first = !self.stopped;
        self.closed = true;
        self.stopped = true;
        self.stop = true;
        first
    }

    pub fn should_stop(&self) -> (stop: bool)
        ensures
            stop == self@.stopped,
    {
        self.stopped
    }

    /// Takes the wake-up of [`Self::begin_close`], if it is there to take.
    pub fn take_stop(&mut self) -> (woken: bool)
        ensures
            woken == old(self)@.stop,
            final(self)@ == (Slot { stop: false, ..old(self)@ }),
    {
        proof {
            use_type_invariant(&*self);
        }
        let woken = self.stop;
        self.stop = false;
        woken
    }

    /// Puts a replacement transport in place, unless the session has been closed meanwhile.
    pub fn install(&mut self, transport: T)
        ensures
            final(self)@ == old(self)@.replaced(transport),
    {
        proof {
            use_type_invariant(&*self);
        }
        if self.stopped {
            return;
        }
        self.current = Some(transport);
        self.closed = false;
    }

    /// Opens a session again that its owner has closed.
    pub fn reopen(&mut self, transport: T) -> (reopened: Result<(), TransportLinkError>)
        ensures
            reopened is Ok <==> old(self)@.stopped,
            reopened matches Err(error) ==> error == TransportLinkError::TransportClosed
                && final(self)@ == old(self)@,
            reopened is Ok ==> final(self)@ == Slot::opened(transport),
    {
        proof {
            use_type_invariant(&*self);
        }
        if !self.stopped {
            return Err(TransportLinkError::TransportClosed);
        }
        self.stop = false;
        self.current = Some(transport);
        self.stopped = false;
        self.closed = false;
        Ok(())
    }

    /// The transport to send and receive on.
    pub fn driver(&self) -> (driver: Result<&T, TransportLinkError>)
        ensures
            driver is Ok <==> self@.usable(),
            driver matches Ok(driver) ==> Some(*driver) == self@.current,
            driver matches Err(error) ==> error == TransportLinkError::TransportClosed,
    {
        if self.closed {
            return Err(TransportLinkError::TransportClosed);
        }
        match &self.current {
            Some(driver) => Ok(driver),
            None => Err(TransportLinkError::TransportClosed),
        }
    }

    /// Takes the transport out so that it can be closed.
    pub fn finish_close(&mut self) -> (transport: Option<T>)
        ensures
            transport == old(self)@.current,
            final(self)@ == old(self)@.emptied(),
    {
        proof {
            use_type_invariant(&*self);
        }
        let mut transport: Option<T> = None;
        std::mem::swap(&mut transport, &mut self.current);
        transport
    }

    /// Drops a failed transport.
    pub fn discard_transport(&mut self)
        ensures
            final(self)@ == old(self)@.discarded(),
    {
        proof {
            use_type_invariant(&*self);
        }
        self.closed = true;
        self.current = None;
    }
}

/// Closing a session twice is closing it once, and only the first call is told so.
pub proof fn law_closing_is_idempotent<T>(slot: Slot<T>)
    ensures
        slot.stopping().stopping() == slot.stopping(),
        slot.stopping().stopped,
{
}

/// A session that its owner has closed takes no replacement transport and stays closed, whatever
/// becomes of its transport.
pub proof fn law_a_stopped_session_stays_closed<T>(slot: Slot<T>, transport: T)
    ensures
        slot.stopping().replaced(transport) == slot.stopping(),
        !slot.stopping().usable(),
        !slot.stopping().discarded().replaced(transport).usable(),
        !slot.stopping().emptied().replaced(transport).usable(),
{
}

/// A lost transport refuses operations until a replacement arrives, which the session then uses.
pub proof fn law_a_replacement_reopens_a_lost_transport<T>(slot: Slot<T>, transport: T)
    requires
        !slot.stopped,
    ensures
        !slot.discarded().usable(),
        slot.discarded().replaced(transport).usable(),
        slot.discarded().replaced(transport).current == Some(transport),
{
}

/// What each event makes of the slot. A session that was just opened uses its transport. Its owner
/// closes it for good: it is closed, stopped, and whoever waits is woken, while the transport stays
/// until it is taken out. A lost transport is gone and operations are refused, but the owner has not
/// closed. A replacement is taken into use unless the owner has closed.
pub proof fn law_the_slot_follows_its_session<T>(slot: Slot<T>, transport: T)
    ensures
        Slot::opened(transport).current == Some(transport),
        Slot::opened(transport).usable(),
        !Slot::opened(transport).closed && !Slot::opened(transport).stopped,
        !Slot::opened(transport).stop,
        slot.stopping().closed && slot.stopping().stopped && slot.stopping().stop,
        slot.stopping().current == slot.current,
        slot.discarded().current is None && slot.discarded().closed,
        slot.discarded().stopped == slot.stopped && slot.discarded().stop == slot.stop,
        slot.emptied().current is None,
        slot.emptied().closed == slot.closed && slot.emptied().stopped == slot.stopped
            && slot.emptied().stop == slot.stop,
        slot.stopped ==> slot.replaced(transport) == slot,
        !slot.stopped ==> {
            &&& slot.replaced(transport).current == Some(transport)
            &&& !slot.replaced(transport).closed
            &&& !slot.replaced(transport).stopped
            &&& slot.replaced(transport).stop == slot.stop
        },
        slot.usable() <==> !slot.closed && slot.current is Some,
{
}

} // verus!
