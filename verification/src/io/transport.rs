//! Opening transports.
use vstd::prelude::*;

use crate::error::{LinkError, TransportError, TransportLinkError};
use crate::establishment::{Description, State};
use crate::fields::{BatchSize, Resolution, ZenohIdProto};
use crate::msgs::transport::{InitIdentifier, InitResolution, InitSyn};
use crate::time::{Duration, TickDuration};

verus! {

/// Bounded exponential backoff for opening a transport.
///
/// The maximum caps the interval between attempts, not the time spent on all of them.
#[derive(Clone, Copy, Debug, PartialEq, Eq, Structural)]
pub struct ConnectionRetryPolicy {
    /// Delay after the first failed attempt.
    pub initial_delay: TickDuration,
    /// Upper bound for the delays that follow.
    pub maximum_delay: TickDuration,
    /// Multiplier applied after each delay.
    pub increase_factor: u32,
}

impl Default for ConnectionRetryPolicy {
    fn default() -> (policy: Self)
        ensures
            policy.initial_delay@ == 250 * 1_000,
            policy.maximum_delay@ == 60 * 1_000_000,
            policy.increase_factor == 2,
    {
        ConnectionRetryPolicy {
            initial_delay: TickDuration::from_millis(250),
            maximum_delay: TickDuration::from_secs(60),
            increase_factor: 2,
        }
    }
}

impl ConnectionRetryPolicy {
    /// The factor that is applied, which is never zero.
    pub open spec fn factor(self) -> nat {
        if self.increase_factor == 0 {
            1
        } else {
            self.increase_factor as nat
        }
    }

    /// The ticks that follow a delay of `ticks` ticks: as many times the factor, but never more than
    /// the maximum.
    pub open spec fn ticks_after(self, ticks: nat) -> nat {
        let product = ticks * self.factor();
        let most = self.maximum_delay@ as nat;
        if product <= most {
            product
        } else {
            most
        }
    }

    /// The delay after the one that was just waited.
    pub fn next_delay(self, current: TickDuration) -> (next: TickDuration)
        ensures
            next@ == self.ticks_after(current@ as nat),
            next@ <= self.maximum_delay@,
            self.increase_factor > 0 && current@ * self.increase_factor <= self.maximum_delay@
                ==> next@ == current@ * self.increase_factor,
            self.increase_factor == 0 && current@ <= self.maximum_delay@ ==> next@ == current@,
    {
        let factor: u64 = if self.increase_factor == 0 {
            1
        } else {
            self.increase_factor as u64
        };
        let most: u64 = self.maximum_delay.as_ticks();
        let next: u64 = match current.as_ticks().checked_mul(factor) {
            Some(product) => if product <= most {
                product
            } else {
                most
            },
            None => most,
        };
        TickDuration::from_ticks(next)
    }

    /// The ticks waited after attempt number `attempt`, the first one being zero.
    pub open spec fn ticks_of(self, attempt: nat) -> nat
        decreases attempt,
    {
        if attempt == 0 {
            self.initial_delay@ as nat
        } else {
            self.ticks_after(self.ticks_of((attempt - 1) as nat))
        }
    }
}

/// No delay that follows another exceeds the maximum.
pub proof fn law_backoff_is_bounded(policy: ConnectionRetryPolicy, current: nat)
    ensures
        policy.ticks_after(current) <= policy.maximum_delay@,
{
}

/// A delay that does not exceed the maximum is followed by none that is shorter.
pub proof fn law_backoff_never_shrinks(policy: ConnectionRetryPolicy, current: nat)
    requires
        current <= policy.maximum_delay@,
    ensures
        current <= policy.ticks_after(current),
{
    let factor = policy.factor();
    assert(current <= current * factor) by (nonlinear_arith)
        requires
            factor >= 1,
    ;
}

/// As long as the first delay does not exceed the maximum, no delay does, and none is shorter than
/// the one before.
pub proof fn law_delays_rise_to_the_maximum(policy: ConnectionRetryPolicy, attempt: nat)
    requires
        policy.initial_delay@ <= policy.maximum_delay@,
    ensures
        policy.ticks_of(attempt) <= policy.ticks_of(attempt + 1),
        policy.ticks_of(attempt) <= policy.maximum_delay@,
    decreases attempt,
{
    if attempt > 0 {
        law_delays_rise_to_the_maximum(policy, (attempt - 1) as nat);
    }
    law_backoff_never_shrinks(policy, policy.ticks_of(attempt));
}

/// A backoff that grows reaches its maximum and stays there.
pub proof fn law_backoff_reaches_its_maximum(policy: ConnectionRetryPolicy, attempt: nat)
    requires
        1 <= policy.initial_delay@ <= policy.maximum_delay@,
        policy.increase_factor >= 2,
        attempt >= policy.maximum_delay@,
    ensures
        policy.ticks_of(attempt) == policy.maximum_delay@,
{
    lemma_backoff_grows(policy, attempt);
}

proof fn lemma_backoff_grows(policy: ConnectionRetryPolicy, attempt: nat)
    requires
        1 <= policy.initial_delay@ <= policy.maximum_delay@,
        policy.increase_factor >= 2,
    ensures
        policy.ticks_of(attempt) <= policy.maximum_delay@,
        policy.ticks_of(attempt) > attempt || policy.ticks_of(attempt) == policy.maximum_delay@,
    decreases attempt,
{
    if attempt > 0 {
        lemma_backoff_grows(policy, (attempt - 1) as nat);
        let ticks = policy.ticks_of((attempt - 1) as nat);
        let factor = policy.factor();
        assert(ticks * 2 <= ticks * factor) by (nonlinear_arith)
            requires
                factor >= 2,
        ;
    }
}

/// Attempts to open a transport, one after the other.
#[derive(Clone, Copy, Debug)]
pub struct Retrying {
    pub policy: ConnectionRetryPolicy,
    /// How long to wait after the next failed attempt.
    pub delay: TickDuration,
}

impl Retrying {
    /// The first attempt is immediate.
    pub fn start(policy: ConnectionRetryPolicy) -> (retrying: Self)
        ensures
            retrying.policy == policy,
            retrying.delay == policy.initial_delay,
    {
        Retrying { policy, delay: policy.initial_delay }
    }

    /// Takes the result of an attempt: the transport, or how long to wait before the next attempt.
    pub fn attempted<T>(&mut self, result: Result<T, TransportLinkError>) -> (next: Result<
        T,
        TickDuration,
    >)
        ensures
            final(self).policy == old(self).policy,
            match result {
                Ok(transport) => next == Ok::<T, TickDuration>(transport) && final(self).delay
                    == old(self).delay,
                Err(_) => next == Err::<T, TickDuration>(old(self).delay) && final(self).delay@
                    == old(self).policy.ticks_after(old(self).delay@ as nat),
            },
    {
        match result {
            Ok(transport) => Ok(transport),
            Err(_) => {
                let delay: TickDuration = self.delay;
                self.delay = self.policy.next_delay(delay);
                Err(delay)
            },
        }
    }
}

/// What the two ends of a transport are told when it is opened.
#[derive(Clone, Copy, Debug, PartialEq, Eq, Structural)]
pub struct OpenPlan {
    pub zid: ZenohIdProto,
    pub lease: Duration,
    pub resolution: Resolution,
    /// Each batch is preceded by its length, and reads fill their buffer: the link is a stream.
    pub prefixed: bool,
}

impl OpenPlan {
    /// The handshake of the end that connects, with the message that starts it.
    pub fn initiate(&self, batch_size: u16) -> (start: (State, InitSyn))
        ensures
            start.0 == (State::WaitingInitAck {
                mine_zid: self.zid,
                mine_batch_size: batch_size,
                mine_resolution: self.resolution,
                mine_lease: self.lease,
            }),
            start.1 == (InitSyn {
                identifier: InitIdentifier { zid: self.zid },
                resolution: InitResolution {
                    resolution: self.resolution,
                    batch_size: BatchSize(batch_size),
                },
            }),
    {
        (
            State::WaitingInitAck {
                mine_zid: self.zid,
                mine_batch_size: batch_size,
                mine_resolution: self.resolution,
                mine_lease: self.lease,
            },
            InitSyn {
                identifier: InitIdentifier { zid: self.zid },
                resolution: InitResolution {
                    resolution: self.resolution,
                    batch_size: BatchSize(batch_size),
                },
            },
        )
    }

    /// The handshake of the end that listens.
    pub fn accept(&self, batch_size: u16) -> (state: State)
        ensures
            state == (State::WaitingInitSyn {
                mine_zid: self.zid,
                mine_batch_size: batch_size,
                mine_resolution: self.resolution,
                mine_lease: self.lease,
            }),
    {
        State::WaitingInitSyn {
            mine_zid: self.zid,
            mine_batch_size: batch_size,
            mine_resolution: self.resolution,
            mine_lease: self.lease,
        }
    }
}

/// The sending half of a transport.
pub struct TransportTx<Buff> {
    pub buff: Buff,
}

/// The receiving half of a transport.
pub struct TransportRx<Buff> {
    pub buff: Buff,
    /// Frames are taken in whatever their sequence number.
    pub ignores_invalid_sn: bool,
}

impl<Buff> TransportRx<Buff> {
    /// Takes frames in whatever their sequence number from now on.
    pub fn ignore_invalid_sn(&mut self)
        ensures
            final(self).ignores_invalid_sn,
            final(self).buff == old(self).buff,
    {
        self.ignores_invalid_sn = true;
    }
}

/// An opened transport.
pub struct Transport<Buff> {
    pub other_zid: ZenohIdProto,
    pub tx: TransportTx<Buff>,
    pub rx: TransportRx<Buff>,
}

/// An opened transport and the two halves of the link it runs over.
pub struct TransportLink<LinkTx, LinkRx, Buff> {
    link_tx: LinkTx,
    link_rx: LinkRx,
    transport: Transport<Buff>,
}

/// The sending half of a transport over the sending half of its link.
pub struct TransportLinkTx<'a, LinkTx, Buff> {
    pub link: &'a mut LinkTx,
    pub transport: &'a mut TransportTx<Buff>,
}

/// The receiving half of a transport over the receiving half of its link.
pub struct TransportLinkRx<'a, LinkRx, Buff> {
    pub link: &'a mut LinkRx,
    pub transport: &'a mut TransportRx<Buff>,
}

/// What a [`TransportLink`] holds.
pub struct TransportLinkView<LinkTx, LinkRx, Buff> {
    pub link_tx: LinkTx,
    pub link_rx: LinkRx,
    pub transport: Transport<Buff>,
}

impl<LinkTx, LinkRx, Buff> View for TransportLink<LinkTx, LinkRx, Buff> {
    type V = TransportLinkView<LinkTx, LinkRx, Buff>;

    closed spec fn view(&self) -> TransportLinkView<LinkTx, LinkRx, Buff> {
        TransportLinkView {
            link_tx: self.link_tx,
            link_rx: self.link_rx,
            transport: self.transport,
        }
    }
}

impl<LinkTx, LinkRx, Buff> TransportLink<LinkTx, LinkRx, Buff> {
    pub fn new(link: (LinkTx, LinkRx), transport: Transport<Buff>) -> (transport_link: Self)
        ensures
            transport_link@ == (TransportLinkView {
                link_tx: link.0,
                link_rx: link.1,
                transport,
            }),
    {
        TransportLink { link_tx: link.0, link_rx: link.1, transport }
    }

    /// The two halves, each with its half of the link.
    pub fn split(&mut self) -> (halves: (
        TransportLinkTx<'_, LinkTx, Buff>,
        TransportLinkRx<'_, LinkRx, Buff>,
    ))
        ensures
            *halves.0.link == old(self)@.link_tx,
            *halves.0.transport == old(self)@.transport.tx,
            *halves.1.link == old(self)@.link_rx,
            *halves.1.transport == old(self)@.transport.rx,
            final(self)@ == (TransportLinkView {
                link_tx: *final(halves.0.link),
                link_rx: *final(halves.1.link),
                transport: Transport {
                    other_zid: old(self)@.transport.other_zid,
                    tx: *final(halves.0.transport),
                    rx: *final(halves.1.transport),
                },
            }),
    {
        (
            TransportLinkTx { link: &mut self.link_tx, transport: &mut self.transport.tx },
            TransportLinkRx { link: &mut self.link_rx, transport: &mut self.transport.rx },
        )
    }

    pub fn transport(&self) -> (transport: &Transport<Buff>)
        ensures
            *transport == self@.transport,
    {
        &self.transport
    }

    pub fn transport_mut(&mut self) -> (transport: &mut Transport<Buff>)
        ensures
            *transport == old(self)@.transport,
            final(self)@ == (TransportLinkView { transport: *final(transport), ..old(self)@ }),
    {
        &mut self.transport
    }
}

/// Why a handshake failed: the transport, or the link under it.
#[derive(Clone, Copy, Debug, PartialEq, Eq, Structural)]
pub enum HandshakeError {
    Transport(TransportError),
    Link(LinkError),
}

/// What became of opening a transport.
#[derive(Clone, Copy, Debug, PartialEq, Eq, Structural)]
pub enum OpenEvent {
    /// There is a link, which is a stream or not.
    LinkAcquired { streamed: bool },
    LinkFailed(LinkError),
    HandshakeFailed(HandshakeError),
    HandshakeDone(Description),
    /// The time to open the transport has run out.
    TimedOut,
}

/// What to do next.
#[derive(Clone, Copy, Debug, PartialEq, Eq)]
pub enum OpenAction {
    /// Carry the handshake out over the link.
    Handshake(OpenPlan),
    /// Nothing: this is the transport, or the reason why there is none.
    Done(Result<Description, TransportLinkError>),
}

/// Opens transports over the links of a link manager.
pub struct TransportLinkManager<LinkManager> {
    link_manager: LinkManager,
    open_timeout: Duration,
    zid: ZenohIdProto,
    lease: Duration,
    resolution: Resolution,
}

/// What a [`TransportLinkManager`] holds.
pub struct ManagerView<LinkManager> {
    pub link_manager: LinkManager,
    pub open_timeout: Duration,
    pub zid: ZenohIdProto,
    pub lease: Duration,
    pub resolution: Resolution,
}

impl<LinkManager> View for TransportLinkManager<LinkManager> {
    type V = ManagerView<LinkManager>;

    closed spec fn view(&self) -> ManagerView<LinkManager> {
        ManagerView {
            link_manager: self.link_manager,
            open_timeout: self.open_timeout,
            zid: self.zid,
            lease: self.lease,
            resolution: self.resolution,
        }
    }
}

impl<LinkManager> From<LinkManager> for TransportLinkManager<LinkManager> {
    fn from(value: LinkManager) -> (manager: Self)
        ensures
            manager@.link_manager == value,
            manager@.open_timeout.nanoseconds() == 10 * 1_000_000_000,
            manager@.zid@ == 1,
            manager@.lease.nanoseconds() == 10 * 1_000_000_000,
            manager@.resolution == (Resolution {
                frame_sn: crate::fields::Bits::U32,
                request_id: crate::fields::Bits::U32,
            }),
    {
        TransportLinkManager::new(
            value,
            Duration::from_secs(10),
            ZenohIdProto::default(),
            Duration::from_secs(10),
            Resolution::default(),
        )
    }
}

impl<LinkManager> vstd::std_specs::convert::FromSpecImpl<LinkManager>
    for TransportLinkManager<LinkManager> {
    open spec fn obeys_from_spec() -> bool {
        false
    }

    open spec fn from_spec(value: LinkManager) -> Self {
        arbitrary()
    }
}

/// The action that an event of opening a transport leads to.
pub open spec fn opening<LinkManager>(
    manager: ManagerView<LinkManager>,
    event: OpenEvent,
) -> OpenAction {
    match event {
        OpenEvent::LinkAcquired { streamed } => OpenAction::Handshake(
            OpenPlan {
                zid: manager.zid,
                lease: manager.lease,
                resolution: manager.resolution,
                prefixed: streamed,
            },
        ),
        OpenEvent::LinkFailed(error) => OpenAction::Done(Err(TransportLinkError::Link(error))),
        OpenEvent::HandshakeFailed(HandshakeError::Link(error)) => OpenAction::Done(
            Err(TransportLinkError::Link(error)),
        ),
        OpenEvent::HandshakeFailed(HandshakeError::Transport(error)) => OpenAction::Done(
            Err(TransportLinkError::Transport(error)),
        ),
        OpenEvent::HandshakeDone(description) => OpenAction::Done(Ok(description)),
        OpenEvent::TimedOut => OpenAction::Done(Err(TransportLinkError::OpenTimeout)),
    }
}

impl<LinkManager> TransportLinkManager<LinkManager> {
    pub fn new(
        link_manager: LinkManager,
        open_timeout: Duration,
        zid: ZenohIdProto,
        lease: Duration,
        resolution: Resolution,
    ) -> (manager: Self)
        ensures
            manager@ == (ManagerView { link_manager, open_timeout, zid, lease, resolution }),
    {
        TransportLinkManager { link_manager, open_timeout, zid, lease, resolution }
    }

    /// Sets the lease advertised when this manager opens a session.
    ///
    /// A zero lease is not accepted: a transport opened with it would be stale at once.
    pub fn with_lease(self, lease: Duration) -> (manager: Self)
        requires
            lease.nanoseconds() != 0,
        ensures
            manager@ == (ManagerView { lease, ..self@ }),
    {
        TransportLinkManager { lease, ..self }
    }

    pub fn link_manager(&self) -> (link_manager: &LinkManager)
        ensures
            *link_manager == self@.link_manager,
    {
        &self.link_manager
    }

    /// How long acquiring the link and carrying out the handshake may take together.
    pub fn open_timeout(&self) -> (timeout: Duration)
        ensures
            timeout == self@.open_timeout,
    {
        self.open_timeout
    }

    /// Takes what became of opening a transport, and names the next action. Connecting and listening
    /// differ only in how the link is acquired and in which end of the handshake is carried out.
    pub fn open(&self, event: OpenEvent) -> (action: OpenAction)
        ensures
            action == opening(self@, event),
    {
        match event {
            OpenEvent::LinkAcquired { streamed } => OpenAction::Handshake(
                OpenPlan {
                    zid: self.zid,
                    lease: self.lease,
                    resolution: self.resolution,
                    prefixed: streamed,
                },
            ),
            OpenEvent::LinkFailed(error) => OpenAction::Done(Err(TransportLinkError::Link(error))),
            OpenEvent::HandshakeFailed(HandshakeError::Link(error)) => OpenAction::Done(
                Err(TransportLinkError::Link(error)),
            ),
            OpenEvent::HandshakeFailed(HandshakeError::Transport(error)) => OpenAction::Done(
                Err(TransportLinkError::Transport(error)),
            ),
            OpenEvent::HandshakeDone(description) => OpenAction::Done(Ok(description)),
            OpenEvent::TimedOut => OpenAction::Done(Err(TransportLinkError::OpenTimeout)),
        }
    }
}

/// How a delay follows another: it is as many times as long as the factor says, a factor of zero
/// counting as one, and it is the maximum where that would be more. The first delay is the initial
/// one.
pub proof fn law_each_delay_multiplies_the_one_before(
    policy: ConnectionRetryPolicy,
    current: nat,
    attempt: nat,
)
    ensures
        ({
            let factor = if policy.increase_factor == 0 {
                1
            } else {
                policy.increase_factor as nat
            };
            let next = policy.ticks_after(current);
            &&& current * factor <= policy.maximum_delay@ ==> next == current * factor
            &&& current * factor > policy.maximum_delay@ ==> next == policy.maximum_delay@
        }),
        policy.ticks_of(0) == policy.initial_delay@,
        policy.ticks_of(attempt + 1) == policy.ticks_after(policy.ticks_of(attempt)),
{
}

/// What opening a transport leads to: over a link the handshake is carried out with what the manager
/// was set up with, framed where the link is a stream. A handshake that succeeds is the transport.
/// Each failure is told as what it is, and a deadline that passes as that.
pub proof fn law_opening_a_transport_ends_as_its_parts_do<LinkManager>(
    manager: ManagerView<LinkManager>,
    streamed: bool,
    link: LinkError,
    transport: TransportError,
    description: Description,
)
    ensures
        opening(manager, OpenEvent::LinkAcquired { streamed }) matches OpenAction::Handshake(plan)
            && plan.zid == manager.zid && plan.lease == manager.lease && plan.resolution
            == manager.resolution && plan.prefixed == streamed,
        opening(manager, OpenEvent::HandshakeDone(description)) == OpenAction::Done(
            Ok(description),
        ),
        opening(manager, OpenEvent::LinkFailed(link)) == OpenAction::Done(
            Err(TransportLinkError::Link(link)),
        ),
        opening(manager, OpenEvent::HandshakeFailed(HandshakeError::Link(link)))
            == OpenAction::Done(Err(TransportLinkError::Link(link))),
        opening(manager, OpenEvent::HandshakeFailed(HandshakeError::Transport(transport)))
            == OpenAction::Done(Err(TransportLinkError::Transport(transport))),
        opening(manager, OpenEvent::TimedOut) == OpenAction::Done(
            Err(TransportLinkError::OpenTimeout),
        ),
{
}

/// Attempts that fail are told to wait, each as long as the one before says, and the wait grows by
/// the factor up to the maximum. An attempt that succeeds hands its transport on and changes nothing.
pub proof fn law_failed_attempts_wait_longer<T>()
    ensures
        forall|
            retrying: &mut Retrying,
            result: Result<T, TransportLinkError>,
            next: Result<T, TickDuration>,
        | #[trigger]
            call_ensures(Retrying::attempted::<T>, (retrying, result), next) ==> {
                let before = *retrying;
                let after = *final(retrying);
                let factor = if before.policy.increase_factor == 0 {
                    1int
                } else {
                    before.policy.increase_factor as int
                };
                let grown = before.delay@ * factor;
                &&& after.policy == before.policy
                &&& result matches Ok(transport) ==> next == Ok::<T, TickDuration>(transport)
                    && after.delay == before.delay
                &&& result is Err ==> {
                    &&& next == Err::<T, TickDuration>(before.delay)
                    &&& grown <= before.policy.maximum_delay@ ==> after.delay@ == grown
                    &&& grown > before.policy.maximum_delay@ ==> after.delay@
                        == before.policy.maximum_delay@
                }
            },
        forall|policy: ConnectionRetryPolicy, retrying: Retrying| #[trigger]
            call_ensures(Retrying::start, (policy,), retrying) ==> retrying.policy == policy
                && retrying.delay == policy.initial_delay,
{
}

/// The two ends that one manager sets up meet: the end that connects offers what it will accept, and
/// the end that listens accepts as much, with the same identifier and lease.
pub proof fn law_a_plan_offers_what_it_accepts()
    ensures
        forall|plan: &OpenPlan, batch_size: u16, start: (State, InitSyn)| #[trigger]
            call_ensures(OpenPlan::initiate, (plan, batch_size), start) ==> {
                &&& start.0 matches State::WaitingInitAck {
                    mine_zid,
                    mine_batch_size,
                    mine_resolution,
                    mine_lease,
                }
                &&& mine_zid == plan.zid && start.1.identifier.zid == plan.zid
                &&& mine_batch_size == batch_size && start.1.resolution.batch_size.0 == batch_size
                &&& mine_resolution == plan.resolution && start.1.resolution.resolution
                    == plan.resolution
                &&& mine_lease == plan.lease
            },
        forall|plan: &OpenPlan, batch_size: u16, state: State| #[trigger]
            call_ensures(OpenPlan::accept, (plan, batch_size), state) ==> {
                &&& state matches State::WaitingInitSyn {
                    mine_zid,
                    mine_batch_size,
                    mine_resolution,
                    mine_lease,
                }
                &&& mine_zid == plan.zid
                &&& mine_batch_size == batch_size
                &&& mine_resolution == plan.resolution
                &&& mine_lease == plan.lease
            },
{
}

} // verus!
