//! The receive loop of one transport.
//!
//! The loop alternates between the two halves of the transport, the clock and whoever is handed the
//! messages. [`Run`] takes the decisions. It is told what came of the last action and names the next
//! one.
use vstd::prelude::*;

use crate::error::TransportLinkError;
use crate::fields::ZenohIdProto;

verus! {

/// What whoever is handed a message says about going on.
pub trait RunControl: Sized {
    /// The loop is to end.
    spec fn stops(&self) -> bool;

    fn should_stop(self) -> (stop: bool)
        ensures
            stop == self.stops(),
    ;
}

impl RunControl for () {
    open spec fn stops(&self) -> bool {
        false
    }

    fn should_stop(self) -> (stop: bool) {
        false
    }
}

impl RunControl for bool {
    open spec fn stops(&self) -> bool {
        *self
    }

    fn should_stop(self) -> (stop: bool) {
        self
    }
}

/// The flags of one transport.
#[derive(Clone, Copy, Debug, PartialEq, Eq, Structural)]
pub struct Driver {
    zid: ZenohIdProto,
    closed: bool,
    shutdown: bool,
}

/// What a [`Driver`] holds.
pub struct DriverView {
    /// The peer at the other end.
    pub zid: ZenohIdProto,
    /// Nothing is sent any more.
    pub closed: bool,
    /// The receive loop is to be woken.
    pub shutdown: bool,
}

impl View for Driver {
    type V = DriverView;

    closed spec fn view(&self) -> DriverView {
        DriverView { zid: self.zid, closed: self.closed, shutdown: self.shutdown }
    }
}

impl Driver {
    /// The driver of a transport to the peer `zid`.
    pub fn new(zid: ZenohIdProto) -> (driver: Self)
        ensures
            driver@ == (DriverView { zid, closed: false, shutdown: false }),
    {
        Driver { zid, closed: false, shutdown: false }
    }

    pub fn zid(&self) -> (zid: ZenohIdProto)
        ensures
            zid == self@.zid,
    {
        self.zid
    }

    pub fn is_closed(&self) -> (closed: bool)
        ensures
            closed == self@.closed,
    {
        self.closed
    }

    /// Refuses to send on a closed transport.
    pub fn tx(&self) -> (open: Result<(), TransportLinkError>)
        ensures
            open is Ok <==> !self@.closed,
            open matches Err(error) ==> error == TransportLinkError::TransportClosed,
    {
        if self.closed {
            return Err(TransportLinkError::TransportClosed);
        }
        Ok(())
    }

    /// Enters the closed state, and returns whether this call did so.
    pub fn begin_close(&mut self) -> (first: bool)
        ensures
            first == !old(self)@.closed,
            final(self)@ == (DriverView { closed: true, ..old(self)@ }),
    {
        let first = !self.closed;
        self.closed = true;
        first
    }

    /// Wakes the receive loop, once the peer has been told with the result `told`.
    pub fn finish_close(&mut self, told: Result<(), TransportLinkError>) -> (result: Result<
        (),
        TransportLinkError,
    >)
        ensures
            result == told,
            final(self)@ == (DriverView { shutdown: true, ..old(self)@ }),
    {
        self.shutdown = true;
        told
    }

    /// Takes the wake-up of the receive loop, if it is there to take.
    pub fn take_shutdown(&mut self) -> (woken: bool)
        ensures
            woken == old(self)@.shutdown,
            final(self)@ == (DriverView { shutdown: false, ..old(self)@ }),
    {
        let woken = self.shutdown;
        self.shutdown = false;
        woken
    }
}

/// Why a receive loop failed: the transport, or whoever was handed the messages.
#[derive(Debug, PartialEq, Eq)]
pub enum EitherError<A, B> {
    A(A),
    B(B),
}

/// What a receive loop waits for.
#[derive(Clone, Copy, Debug, PartialEq, Eq, Structural)]
pub enum RunPhase {
    /// The state of the receiving half.
    Polling,
    /// The lease deadlines of the two halves.
    Syncing,
    /// A deadline, a message or the wake-up.
    Waiting,
    /// A keep-alive that is being sent.
    KeepingAlive,
    /// Whoever is handed the messages.
    Updating,
    /// The peer that is being told that the transport ends, for this reason.
    Closing(TransportLinkError),
    /// Nothing: it has ended.
    Finished,
}

/// What came of an action.
#[derive(Debug, PartialEq, Eq)]
pub enum RunEvent<E> {
    /// Whether the receiving half is closed, and whether its lease has expired.
    Polled { closed: bool, expired: bool },
    /// The deadlines are set.
    Synced,
    /// The deadline of the sending half has come: whether its lease has expired, and whether a
    /// keep-alive is due.
    WriteLease { expired: bool, keepalive: bool },
    /// The deadline of the receiving half has come: whether its lease has expired.
    ReadLease { expired: bool },
    /// Messages have arrived, or receiving failed.
    Received(Result<(), TransportLinkError>),
    /// The driver was woken.
    Shutdown,
    KeepaliveSent(Result<(), TransportLinkError>),
    /// One message was handed over: whether to stop, or why that failed.
    Updated(Result<bool, E>),
    /// No message is left to hand over.
    Drained,
    /// The peer was told, or could not be.
    Closed,
}

/// What to do next.
#[derive(Debug, PartialEq, Eq)]
pub enum RunAction<E> {
    /// Look at the receiving half.
    Poll,
    /// Set the lease deadlines of the two halves.
    Sync,
    /// Wait for a deadline, a message or the wake-up.
    Wait,
    SendKeepalive,
    /// Hand over the next of the messages that have arrived.
    Update,
    /// Tell the peer that the transport ends.
    Close,
    /// Nothing: this is the result of the loop.
    Finish(Result<(), EitherError<TransportLinkError, E>>),
}

/// A phase waits for an event of this kind.
pub open spec fn expects<E>(phase: RunPhase, event: RunEvent<E>) -> bool {
    match event {
        RunEvent::Polled { .. } => phase is Polling,
        RunEvent::Synced => phase is Syncing,
        RunEvent::WriteLease { .. } => phase is Waiting,
        RunEvent::ReadLease { .. } => phase is Waiting,
        RunEvent::Received(_) => phase is Waiting,
        RunEvent::Shutdown => phase is Waiting,
        RunEvent::KeepaliveSent(_) => phase is KeepingAlive,
        RunEvent::Updated(_) => phase is Updating,
        RunEvent::Drained => phase is Updating,
        RunEvent::Closed => phase is Closing,
    }
}

/// The loop fails in the transport.
pub open spec fn failure<E>(error: TransportLinkError) -> (RunPhase, RunAction<E>) {
    (RunPhase::Finished, RunAction::Finish(Err(EitherError::A(error))))
}

/// The phase and the action that follow `event` on a driver that is closed or not.
pub open spec fn run_step<E>(phase: RunPhase, event: RunEvent<E>, closed: bool) -> (
    RunPhase,
    RunAction<E>,
) {
    let success = (RunPhase::Finished, RunAction::<E>::Finish(Ok(())));
    match event {
        RunEvent::Polled { closed: true, .. } => failure(TransportLinkError::TransportClosed),
        RunEvent::Polled { closed: false, expired: true } => (
            RunPhase::Closing(TransportLinkError::RxLeaseExpired),
            RunAction::Close,
        ),
        RunEvent::Polled { closed: false, expired: false } => (RunPhase::Syncing, RunAction::Sync),
        RunEvent::Synced => if closed {
            success
        } else {
            (RunPhase::Waiting, RunAction::Wait)
        },
        RunEvent::WriteLease { expired: true, .. } => (
            RunPhase::Closing(TransportLinkError::TxLeaseExpired),
            RunAction::Close,
        ),
        RunEvent::WriteLease { expired: false, keepalive: true } => (
            RunPhase::KeepingAlive,
            RunAction::SendKeepalive,
        ),
        RunEvent::WriteLease { expired: false, keepalive: false } => (
            RunPhase::Polling,
            RunAction::Poll,
        ),
        RunEvent::ReadLease { expired: true } => (
            RunPhase::Closing(TransportLinkError::RxLeaseExpired),
            RunAction::Close,
        ),
        RunEvent::ReadLease { expired: false } => (RunPhase::Polling, RunAction::Poll),
        RunEvent::Received(Ok(_)) => (RunPhase::Updating, RunAction::Update),
        RunEvent::Received(Err(error)) => failure(error),
        RunEvent::Shutdown => success,
        RunEvent::KeepaliveSent(Ok(_)) => (RunPhase::Polling, RunAction::Poll),
        RunEvent::KeepaliveSent(Err(error)) => failure(error),
        RunEvent::Updated(Ok(true)) => success,
        RunEvent::Updated(Ok(false)) => (RunPhase::Updating, RunAction::Update),
        RunEvent::Updated(Err(error)) => (
            RunPhase::Finished,
            RunAction::Finish(Err(EitherError::B(error))),
        ),
        RunEvent::Drained => (RunPhase::Polling, RunAction::Poll),
        RunEvent::Closed => match phase {
            RunPhase::Closing(error) => failure(error),
            _ => failure(TransportLinkError::TransportClosed),
        },
    }
}

/// The driver once a loop over it has answered with `action`: one that fails closes it and wakes
/// whoever else waits on it.
pub open spec fn driver_after<E>(driver: DriverView, action: RunAction<E>) -> DriverView {
    if action matches RunAction::Finish(Err(_)) {
        DriverView { closed: true, shutdown: true, ..driver }
    } else {
        driver
    }
}

/// A receive loop.
#[derive(Clone, Copy, Debug)]
pub struct Run {
    pub phase: RunPhase,
}

impl Run {
    /// Starts a loop, unless the driver is closed.
    pub fn start(driver: &Driver) -> (run: Result<Run, TransportLinkError>)
        ensures
            run is Ok <==> !driver@.closed,
            run matches Ok(run) ==> run.phase == RunPhase::Polling,
            run matches Err(error) ==> error == TransportLinkError::TransportClosed,
    {
        if driver.is_closed() {
            return Err(TransportLinkError::TransportClosed);
        }
        Ok(Run { phase: RunPhase::Polling })
    }

    fn decide<E>(&mut self, event: RunEvent<E>, closed: bool) -> (action: RunAction<E>)
        requires
            expects(old(self).phase, event),
        ensures
            (final(self).phase, action) == run_step(old(self).phase, event, closed),
            event is Shutdown ==> action == RunAction::<E>::Finish(Ok(())),
    {
        match event {
            RunEvent::Polled { closed: true, .. } => {
                self.phase = RunPhase::Finished;
                RunAction::Finish(Err(EitherError::A(TransportLinkError::TransportClosed)))
            },
            RunEvent::Polled { closed: false, expired: true } => {
                self.phase = RunPhase::Closing(TransportLinkError::RxLeaseExpired);
                RunAction::Close
            },
            RunEvent::Polled { closed: false, expired: false } => {
                self.phase = RunPhase::Syncing;
                RunAction::Sync
            },
            RunEvent::Synced => {
                if closed {
                    self.phase = RunPhase::Finished;
                    RunAction::Finish(Ok(()))
                } else {
                    self.phase = RunPhase::Waiting;
                    RunAction::Wait
                }
            },
            RunEvent::WriteLease { expired: true, .. } => {
                self.phase = RunPhase::Closing(TransportLinkError::TxLeaseExpired);
                RunAction::Close
            },
            RunEvent::WriteLease { expired: false, keepalive: true } => {
                self.phase = RunPhase::KeepingAlive;
                RunAction::SendKeepalive
            },
            RunEvent::WriteLease { expired: false, keepalive: false } => {
                self.phase = RunPhase::Polling;
                RunAction::Poll
            },
            RunEvent::ReadLease { expired: true } => {
                self.phase = RunPhase::Closing(TransportLinkError::RxLeaseExpired);
                RunAction::Close
            },
            RunEvent::ReadLease { expired: false } => {
                self.phase = RunPhase::Polling;
                RunAction::Poll
            },
            RunEvent::Received(Ok(_)) => {
                self.phase = RunPhase::Updating;
                RunAction::Update
            },
            RunEvent::Received(Err(error)) => {
                self.phase = RunPhase::Finished;
                RunAction::Finish(Err(EitherError::A(error)))
            },
            RunEvent::Shutdown => {
                self.phase = RunPhase::Finished;
                RunAction::Finish(Ok(()))
            },
            RunEvent::KeepaliveSent(Ok(_)) => {
                self.phase = RunPhase::Polling;
                RunAction::Poll
            },
            RunEvent::KeepaliveSent(Err(error)) => {
                self.phase = RunPhase::Finished;
                RunAction::Finish(Err(EitherError::A(error)))
            },
            RunEvent::Updated(Ok(true)) => {
                self.phase = RunPhase::Finished;
                RunAction::Finish(Ok(()))
            },
            RunEvent::Updated(Ok(false)) => {
                self.phase = RunPhase::Updating;
                RunAction::Update
            },
            RunEvent::Updated(Err(error)) => {
                self.phase = RunPhase::Finished;
                RunAction::Finish(Err(EitherError::B(error)))
            },
            RunEvent::Drained => {
                self.phase = RunPhase::Polling;
                RunAction::Poll
            },
            RunEvent::Closed => {
                let reason = match self.phase {
                    RunPhase::Closing(reason) => reason,
                    _ => TransportLinkError::TransportClosed,
                };
                self.phase = RunPhase::Finished;
                RunAction::Finish(Err(EitherError::A(reason)))
            },
        }
    }

    /// Takes what came of the last action and names the next one. The driver is closed if the loop
    /// fails.
    pub fn step<E>(&mut self, driver: &mut Driver, event: RunEvent<E>) -> (action: RunAction<E>)
        requires
            expects(old(self).phase, event),
        ensures
            (final(self).phase, action) == run_step(old(self).phase, event, old(driver)@.closed),
            final(driver)@ == driver_after(old(driver)@, action),
            event is Shutdown ==> action == RunAction::<E>::Finish(Ok(())),
    {
        let action = self.decide(event, driver.is_closed());
        if let RunAction::Finish(Err(_)) = action {
            driver.begin_close();
            driver.shutdown = true;
        }
        action
    }
}

/// A receive loop that ends without an error was asked to: by whoever closed the driver or woke it,
/// or by whoever was handed the messages.
pub proof fn law_a_loop_succeeds_only_when_asked_to_end<E>(
    phase: RunPhase,
    event: RunEvent<E>,
    closed: bool,
)
    requires
        expects(phase, event),
        run_step(phase, event, closed).1 == RunAction::<E>::Finish(Ok(())),
    ensures
        (event is Synced && closed) || event is Shutdown || event == RunEvent::<E>::Updated(
            Ok(true),
        ),
{
}

/// A receive loop that fails leaves its driver closed, so that nothing more is sent over it.
pub proof fn law_a_failed_loop_closes_its_driver<E>(
    driver: DriverView,
    error: EitherError<TransportLinkError, E>,
)
    ensures
        driver_after(driver, RunAction::Finish(Err::<(), _>(error))).closed,
        driver_after(driver, RunAction::Finish(Err::<(), _>(error))).shutdown,
        driver_after(driver, RunAction::Finish(Err::<(), _>(error))).zid == driver.zid,
{
}

/// An expired lease ends the loop, and the peer is told before it ends.
pub proof fn law_an_expired_lease_is_told_to_the_peer<E>(
    phase: RunPhase,
    event: RunEvent<E>,
    closed: bool,
    driver_closed: bool,
)
    requires
        expects(phase, event),
        event == (RunEvent::<E>::Polled { closed: false, expired: true }) || event == (RunEvent::<
            E,
        >::ReadLease { expired: true }) || (event matches RunEvent::WriteLease { expired, .. }
            && expired),
    ensures
        ({
            let (next, action) = run_step(phase, event, closed);
            let reason = if event is WriteLease {
                TransportLinkError::TxLeaseExpired
            } else {
                TransportLinkError::RxLeaseExpired
            };
            &&& action == RunAction::<E>::Close
            &&& next == RunPhase::Closing(reason)
            &&& run_step(next, RunEvent::<E>::Closed, driver_closed) == failure::<E>(reason)
        }),
{
}

/// A receive loop that is asked to end does end, and with success: woken while it waits, whether the
/// driver is closed or not, found closed before it waits, or told to stop by whoever was handed a
/// message. Nothing else makes it succeed.
pub proof fn law_a_loop_that_is_asked_to_end_succeeds<E>(
    phase: RunPhase,
    event: RunEvent<E>,
    closed: bool,
)
    requires
        expects(phase, event),
    ensures
        run_step(phase, event, closed).1 == RunAction::<E>::Finish(Ok(())) <==> match event {
            RunEvent::Shutdown => true,
            RunEvent::Synced => closed,
            RunEvent::Updated(Ok(stop)) => stop,
            _ => false,
        },
        run_step::<E>(RunPhase::Waiting, RunEvent::Shutdown, closed).1 == RunAction::<E>::Finish(
            Ok(()),
        ),
        run_step::<E>(RunPhase::Syncing, RunEvent::Synced, true).1 == RunAction::<E>::Finish(
            Ok(()),
        ),
        run_step::<E>(RunPhase::Updating, RunEvent::Updated(Ok(true)), closed).1 == RunAction::<
            E,
        >::Finish(Ok(())),
{
}

/// A receive loop fails with the error that it was told of, and with no other: that of receiving or
/// of a keep-alive, that of whoever was handed a message, the reason why the peer was told that the
/// transport ends, or the refusal of a receiving half that is closed. Nothing else makes it fail.
pub proof fn law_a_loop_fails_with_what_it_was_told<E>(
    phase: RunPhase,
    event: RunEvent<E>,
    closed: bool,
    error: EitherError<TransportLinkError, E>,
)
    requires
        expects(phase, event),
    ensures
        run_step(phase, event, closed).1 == RunAction::<E>::Finish(Err(error)) <==> match event {
            RunEvent::Received(Err(e)) => error == EitherError::<TransportLinkError, E>::A(e),
            RunEvent::KeepaliveSent(Err(e)) => error == EitherError::<TransportLinkError, E>::A(e),
            RunEvent::Updated(Err(e)) => error == EitherError::<TransportLinkError, E>::B(e),
            RunEvent::Closed => error == EitherError::<TransportLinkError, E>::A(
                phase->Closing_0,
            ),
            RunEvent::Polled { closed: ended, .. } => ended && error == EitherError::<
                TransportLinkError,
                E,
            >::A(TransportLinkError::TransportClosed),
            _ => false,
        },
{
}

/// As long as nobody asks it to end and nothing fails, a receive loop goes on: it looks at the
/// receiving half, sets the deadlines and waits. Whatever it then waits for, it comes back to that,
/// with a keep-alive sent when one is due, and with every message handed over that has arrived.
pub proof fn law_a_loop_goes_on<E>(closed: bool)
    ensures
        run_step::<E>(
            RunPhase::Polling,
            RunEvent::Polled { closed: false, expired: false },
            closed,
        ) == (RunPhase::Syncing, RunAction::<E>::Sync),
        run_step::<E>(RunPhase::Syncing, RunEvent::Synced, false) == (
            RunPhase::Waiting,
            RunAction::<E>::Wait,
        ),
        run_step::<E>(
            RunPhase::Waiting,
            RunEvent::WriteLease { expired: false, keepalive: true },
            closed,
        ) == (RunPhase::KeepingAlive, RunAction::<E>::SendKeepalive),
        run_step::<E>(RunPhase::KeepingAlive, RunEvent::KeepaliveSent(Ok(())), closed) == (
            RunPhase::Polling,
            RunAction::<E>::Poll,
        ),
        run_step::<E>(
            RunPhase::Waiting,
            RunEvent::WriteLease { expired: false, keepalive: false },
            closed,
        ) == (RunPhase::Polling, RunAction::<E>::Poll),
        run_step::<E>(RunPhase::Waiting, RunEvent::ReadLease { expired: false }, closed) == (
            RunPhase::Polling,
            RunAction::<E>::Poll,
        ),
        run_step::<E>(RunPhase::Waiting, RunEvent::Received(Ok(())), closed) == (
            RunPhase::Updating,
            RunAction::<E>::Update,
        ),
        run_step::<E>(RunPhase::Updating, RunEvent::Updated(Ok(false)), closed) == (
            RunPhase::Updating,
            RunAction::<E>::Update,
        ),
        run_step::<E>(RunPhase::Updating, RunEvent::Drained, closed) == (
            RunPhase::Polling,
            RunAction::<E>::Poll,
        ),
{
}

/// The peer is told that the transport ends exactly when a lease has expired on a receiving half that
/// is still open, with the lease that expired as the reason, and the loop then fails with it.
pub proof fn law_only_an_expired_lease_is_told_to_the_peer<E>(
    phase: RunPhase,
    event: RunEvent<E>,
    closed: bool,
)
    requires
        expects(phase, event),
    ensures
        ({
            let (next, action) = run_step(phase, event, closed);
            let (expired, reason) = match event {
                RunEvent::Polled { closed: ended, expired } => (
                    expired && !ended,
                    TransportLinkError::RxLeaseExpired,
                ),
                RunEvent::ReadLease { expired } => (expired, TransportLinkError::RxLeaseExpired),
                RunEvent::WriteLease { expired, .. } => (
                    expired,
                    TransportLinkError::TxLeaseExpired,
                ),
                _ => (false, TransportLinkError::TransportClosed),
            };
            &&& action == RunAction::<E>::Close <==> expired
            &&& expired ==> next == RunPhase::Closing(reason)
            &&& run_step::<E>(RunPhase::Closing(reason), RunEvent::Closed, closed).1
                == RunAction::<E>::Finish(Err(EitherError::A(reason)))
        }),
{
}

/// A driver is left as it is by every step but the one that fails, which closes it and wakes whoever
/// waits on it.
pub proof fn law_only_a_failure_touches_the_driver<E>(driver: DriverView, action: RunAction<E>)
    ensures
        driver_after(driver, action).zid == driver.zid,
        action matches RunAction::Finish(Err(_)) ==> driver_after(driver, action).closed
            && driver_after(driver, action).shutdown,
        !(action matches RunAction::Finish(Err(_))) ==> driver_after(driver, action).closed
            == driver.closed && driver_after(driver, action).shutdown == driver.shutdown,
{
}

/// Whatever comes of an action, the loop is ready to be told of it.
pub proof fn law_every_outcome_of_an_action_is_expected<E>(
    phase: RunPhase,
    event: RunEvent<E>,
    closed: bool,
    first: bool,
    second: bool,
    sent: Result<(), TransportLinkError>,
    updated: Result<bool, E>,
)
    requires
        expects(phase, event),
    ensures
        ({
            let (next, action) = run_step(phase, event, closed);
            match action {
                RunAction::Poll => expects(
                    next,
                    RunEvent::<E>::Polled { closed: first, expired: second },
                ),
                RunAction::Sync => expects(next, RunEvent::<E>::Synced),
                RunAction::Wait => expects(
                    next,
                    RunEvent::<E>::WriteLease { expired: first, keepalive: second },
                ) && expects(next, RunEvent::<E>::ReadLease { expired: first }) && expects(
                    next,
                    RunEvent::<E>::Received(sent),
                ) && expects(next, RunEvent::<E>::Shutdown),
                RunAction::SendKeepalive => expects(next, RunEvent::<E>::KeepaliveSent(sent)),
                RunAction::Update => expects(next, RunEvent::Updated(updated)) && expects(
                    next,
                    RunEvent::<E>::Drained,
                ),
                RunAction::Close => expects(next, RunEvent::<E>::Closed),
                RunAction::Finish(_) => next == RunPhase::Finished,
            }
        }),
        expects(RunPhase::Polling, RunEvent::<E>::Polled { closed: first, expired: second }),
{
}

/// Whoever is handed the messages ends the loop by saying `true`, and goes on by saying `false` or
/// nothing.
pub proof fn law_saying_true_ends_the_loop(stop: bool)
    ensures
        stop.stops() == stop,
        !().stops(),
{
}

/// Whatever loop it is asked of: being woken or told to stop ends it with success and leaves the
/// driver as it is, a failure ends it with that failure and closes the driver, and what has arrived is
/// handed over.
pub proof fn law_a_loop_answers_what_it_is_told<E>()
    ensures
        forall|run: &mut Run, driver: &mut Driver, event: RunEvent<E>, action: RunAction<E>|
            #[trigger] call_ensures(Run::step::<E>, (run, driver, event), action) ==> {
                let before = (*driver)@;
                let after = (*final(driver))@;
                let success = RunAction::<E>::Finish(Ok(()));
                &&& match event {
                    RunEvent::Shutdown => action == success,
                    RunEvent::Synced => action == if before.closed {
                        success
                    } else {
                        RunAction::<E>::Wait
                    },
                    RunEvent::Updated(Ok(stop)) => action == if stop {
                        success
                    } else {
                        RunAction::<E>::Update
                    },
                    RunEvent::Updated(Err(error)) => action == RunAction::<E>::Finish(
                        Err(EitherError::B(error)),
                    ),
                    RunEvent::Received(Ok(_)) => action == RunAction::<E>::Update,
                    RunEvent::Received(Err(error)) => action == RunAction::<E>::Finish(
                        Err(EitherError::A(error)),
                    ),
                    RunEvent::KeepaliveSent(Ok(_)) => action == RunAction::<E>::Poll,
                    RunEvent::KeepaliveSent(Err(error)) => action == RunAction::<E>::Finish(
                        Err(EitherError::A(error)),
                    ),
                    RunEvent::Drained => action == RunAction::<E>::Poll,
                    RunEvent::WriteLease { expired, keepalive } => action == if expired {
                        RunAction::<E>::Close
                    } else if keepalive {
                        RunAction::<E>::SendKeepalive
                    } else {
                        RunAction::<E>::Poll
                    },
                    RunEvent::ReadLease { expired } => action == if expired {
                        RunAction::<E>::Close
                    } else {
                        RunAction::<E>::Poll
                    },
                    RunEvent::Polled { closed, expired } => action == if closed {
                        RunAction::<E>::Finish(
                            Err(EitherError::A(TransportLinkError::TransportClosed)),
                        )
                    } else if expired {
                        RunAction::<E>::Close
                    } else {
                        RunAction::<E>::Sync
                    },
                    RunEvent::Closed => (*run).phase is Closing ==> action == RunAction::<
                        E,
                    >::Finish(Err(EitherError::A((*run).phase->Closing_0))),
                }
                &&& after.zid == before.zid
                &&& action matches RunAction::Finish(Err(_)) ==> after.closed && after.shutdown
                &&& !(action matches RunAction::Finish(Err(_))) ==> after == before
            },
{
}

/// A driver sends and runs until it is closed. Closing it is told to the first who does, and waking
/// its loop is told to the loop once.
pub proof fn law_a_driver_is_closed_once()
    ensures
        forall|driver: &mut Driver, first: bool| #[trigger]
            call_ensures(Driver::begin_close, (driver,), first) ==> {
                &&& first == !(*driver)@.closed
                &&& (*final(driver))@.closed
                &&& (*final(driver))@.zid == (*driver)@.zid
                &&& (*final(driver))@.shutdown == (*driver)@.shutdown
            },
        forall|
            driver: &mut Driver,
            told: Result<(), TransportLinkError>,
            result: Result<(), TransportLinkError>,
        | #[trigger]
            call_ensures(Driver::finish_close, (driver, told), result) ==> {
                &&& result == told
                &&& (*final(driver))@.shutdown
                &&& (*final(driver))@.zid == (*driver)@.zid
                &&& (*final(driver))@.closed == (*driver)@.closed
            },
        forall|driver: &mut Driver, woken: bool| #[trigger]
            call_ensures(Driver::take_shutdown, (driver,), woken) ==> {
                &&& woken == (*driver)@.shutdown
                &&& !(*final(driver))@.shutdown
                &&& (*final(driver))@.closed == (*driver)@.closed
            },
        forall|driver: &Driver, open: Result<(), TransportLinkError>| #[trigger]
            call_ensures(Driver::tx, (driver,), open) ==> {
                &&& open is Ok <==> !driver@.closed
                &&& open matches Err(error) ==> error == TransportLinkError::TransportClosed
            },
        forall|driver: &Driver, run: Result<Run, TransportLinkError>| #[trigger]
            call_ensures(Run::start, (driver,), run) ==> {
                &&& run is Ok <==> !driver@.closed
                &&& run matches Ok(run) ==> run.phase == RunPhase::Polling
            },
{
}

} // verus!
