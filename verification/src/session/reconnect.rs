//! Keeping one session alive over transports that fail.
//!
//! Subscribers, queryables and interests are announced again, with their ids, on every replacement
//! transport. Queries in flight are finalized once and forgotten: repeating a request could repeat
//! what it caused.
use vstd::prelude::*;

use crate::config::ZSessionConfig;
use crate::error::{CollectionError, SessionError};
use crate::msgs::network::NetworkMessage;
use crate::session::declarations::{Declaration, ZDeclarations};
use crate::session::keyexprs::{KeyExprTable, TokenTable};
use crate::session::managed::Slot;
use crate::session::{Session, StateView};

verus! {

/// A change of transport that the application is told of.
pub enum SessionEvent<'a> {
    /// The old transport ended. Queries in flight have been finalized and are never repeated.
    Disconnected(&'a SessionError),
    /// A replacement transport is open and the session's declarations have been announced on it.
    Reconnected,
}

/// How far a session has come in replacing its transport.
#[derive(Clone, Copy, Debug, PartialEq, Eq, Structural)]
pub enum ReconnectPhase {
    /// It receives messages.
    Running,
    /// Its transport failed, and its queries are being finalized.
    Finalizing(SessionError),
    /// A replacement is being connected.
    Connecting,
    /// Its declarations are being announced on the replacement.
    Replaying,
    /// It has ended.
    Finished,
}

/// What came of an action.
pub enum ReconnectEvent<T> {
    RunEnded(Result<(), SessionError>),
    QueriesFinalized,
    Connected(T),
    /// The session was closed while a replacement was being connected.
    StopRequested,
    Replayed(Result<(), SessionError>),
}

/// What to do next.
#[derive(Clone, Copy, Debug, PartialEq, Eq)]
pub enum ReconnectAction {
    /// Report [`SessionEvent::Reconnected`] if so, and receive messages until that ends.
    Run { reconnected: bool },
    /// Tell every query in flight that no more answers will come, forget them all, and forget how
    /// many queryables were to answer.
    FinalizeQueries,
    /// Report [`SessionEvent::Disconnected`] if a transport was lost, and connect a replacement
    /// while watching for the session to be closed.
    Connect { lost: Option<SessionError> },
    /// Announce the declarations again.
    Replay,
    /// Nothing: the session has ended.
    Finish,
}

/// A phase waits for an event of this kind.
pub open spec fn expects<T>(phase: ReconnectPhase, event: ReconnectEvent<T>) -> bool {
    match event {
        ReconnectEvent::RunEnded(_) => phase is Running,
        ReconnectEvent::QueriesFinalized => phase is Finalizing,
        ReconnectEvent::Connected(_) => phase is Connecting,
        ReconnectEvent::StopRequested => phase is Connecting,
        ReconnectEvent::Replayed(_) => phase is Replaying,
    }
}

/// The phase, the action, the transport slot and the memory that follow.
pub struct ReconnectStep<T> {
    pub phase: ReconnectPhase,
    pub action: ReconnectAction,
    pub slot: Slot<T>,
    pub memory: StateView,
}

/// What `event` makes of a session in the phase `phase`.
pub open spec fn reconnect_step<T>(
    phase: ReconnectPhase,
    event: ReconnectEvent<T>,
    slot: Slot<T>,
    memory: StateView,
) -> ReconnectStep<T> {
    let finished = |slot: Slot<T>|
        ReconnectStep {
            phase: ReconnectPhase::Finished,
            action: ReconnectAction::Finish,
            slot,
            memory,
        };
    match (phase, event) {
        (ReconnectPhase::Running, ReconnectEvent::RunEnded(Err(error))) => ReconnectStep {
            phase: ReconnectPhase::Finalizing(error),
            action: ReconnectAction::FinalizeQueries,
            slot: slot.discarded(),
            memory: memory.without_peer(),
        },
        (
            ReconnectPhase::Finalizing(error),
            ReconnectEvent::QueriesFinalized,
        ) => if slot.stopped {
            finished(slot)
        } else {
            ReconnectStep {
                phase: ReconnectPhase::Connecting,
                action: ReconnectAction::Connect { lost: Some(error) },
                slot,
                memory,
            }
        },
        (ReconnectPhase::Connecting, ReconnectEvent::Connected(transport)) => if slot.stopped {
            finished(slot)
        } else {
            ReconnectStep {
                phase: ReconnectPhase::Replaying,
                action: ReconnectAction::Replay,
                slot: slot.replaced(transport),
                memory,
            }
        },
        (ReconnectPhase::Replaying, ReconnectEvent::Replayed(Ok(_))) => ReconnectStep {
            phase: ReconnectPhase::Running,
            action: ReconnectAction::Run { reconnected: true },
            slot,
            memory,
        },
        (ReconnectPhase::Replaying, ReconnectEvent::Replayed(Err(_))) => ReconnectStep {
            phase: ReconnectPhase::Connecting,
            action: ReconnectAction::Connect { lost: None },
            slot: slot.discarded(),
            memory,
        },
        _ => finished(slot),
    }
}

/// A session whose transports are replaced.
#[derive(Clone, Copy, Debug)]
pub struct Reconnecting {
    pub phase: ReconnectPhase,
}

impl Reconnecting {
    /// Starts with the transport the session has.
    pub fn start() -> (start: (Self, ReconnectAction))
        ensures
            start.0.phase == ReconnectPhase::Running,
            start.1 == (ReconnectAction::Run { reconnected: false }),
    {
        (
            Reconnecting { phase: ReconnectPhase::Running },
            ReconnectAction::Run { reconnected: false },
        )
    }

    /// Takes what came of the last action and names the next one.
    pub fn step<'res, Config: ZSessionConfig, T>(
        &mut self,
        session: &mut Session<'res, Config, T>,
        event: ReconnectEvent<T>,
    ) -> (action: ReconnectAction)
        requires
            old(session).wf(),
            expects(old(self).phase, event),
        ensures
            final(session).wf(),
            final(session).namespace() == old(session).namespace(),
            final(session).has_room() == old(session).has_room(),
            (ReconnectStep {
                phase: final(self).phase,
                action,
                slot: final(session).slot(),
                memory: final(session).memory(),
            }) == reconnect_step(
                old(self).phase,
                event,
                old(session).slot(),
                old(session).memory(),
            ),
            event matches ReconnectEvent::RunEnded(Err(error)) ==> action
                == ReconnectAction::FinalizeQueries && final(self).phase
                == ReconnectPhase::Finalizing(error),
            event is QueriesFinalized && !old(session).slot().stopped ==> action
                == (ReconnectAction::Connect { lost: Some(old(self).phase->Finalizing_0) }),
            event is Connected && !old(session).slot().stopped ==> action
                == ReconnectAction::Replay,
            event matches ReconnectEvent::Replayed(result) ==> action == if result is Ok {
                ReconnectAction::Run { reconnected: true }
            } else {
                ReconnectAction::Connect { lost: None }
            },
    {
        match event {
            ReconnectEvent::RunEnded(Ok(_)) => {
                self.phase = ReconnectPhase::Finished;
                ReconnectAction::Finish
            },
            ReconnectEvent::RunEnded(Err(error)) => {
                session.driver.discard_transport();
                session.prepare_reconnect();
                self.phase = ReconnectPhase::Finalizing(error);
                ReconnectAction::FinalizeQueries
            },
            ReconnectEvent::QueriesFinalized => {
                if session.driver.should_stop() {
                    self.phase = ReconnectPhase::Finished;
                    return ReconnectAction::Finish;
                }
                let lost: Option<SessionError> = match self.phase {
                    ReconnectPhase::Finalizing(error) => Some(error),
                    _ => None,
                };
                self.phase = ReconnectPhase::Connecting;
                ReconnectAction::Connect { lost }
            },
            ReconnectEvent::StopRequested => {
                self.phase = ReconnectPhase::Finished;
                ReconnectAction::Finish
            },
            ReconnectEvent::Connected(transport) => {
                session.driver.install(transport);
                if session.driver.should_stop() {
                    self.phase = ReconnectPhase::Finished;
                    return ReconnectAction::Finish;
                }
                self.phase = ReconnectPhase::Replaying;
                ReconnectAction::Replay
            },
            ReconnectEvent::Replayed(Ok(_)) => {
                self.phase = ReconnectPhase::Running;
                ReconnectAction::Run { reconnected: true }
            },
            ReconnectEvent::Replayed(Err(_)) => {
                session.driver.discard_transport();
                self.phase = ReconnectPhase::Connecting;
                ReconnectAction::Connect { lost: None }
            },
        }
    }
}

impl<'res, Config: ZSessionConfig, T> Session<'res, Config, T> {
    /// Forgets what the peer of the lost transport has declared. What this session has declared
    /// stays.
    pub fn prepare_reconnect(&mut self)
        requires
            old(self).wf(),
        ensures
            final(self).wf(),
            final(self).slot() == old(self).slot(),
            final(self).namespace() == old(self).namespace(),
            final(self).has_room() == old(self).has_room(),
            final(self).memory() == old(self).memory().without_peer(),
    {
        self.state.keyexprs = KeyExprTable::new();
        self.state.tokens = TokenTable::new();
    }

    /// What is to be announced on a replacement transport.
    pub fn replay_declarations(&self) -> (replay: Replay)
        requires
            self.wf(),
        ensures
            replay.at == 0,
            crate::session::declarations::lists(replay.list@, self.memory().declared),
    {
        Replay { list: self.state.declarations.iter(), at: 0 }
    }
}

/// The declarations of a session on their way to a replacement transport.
pub struct Replay {
    pub list: Vec<Declaration>,
    pub at: usize,
}

impl Replay {
    /// The next message to send, until there is none. It fails where the key of the declaration does
    /// not fit the session's buffer.
    pub fn next<'a, 'res, Config: ZSessionConfig, T>(
        &mut self,
        session: &Session<'res, Config, T>,
        storage: &'a mut heapless::String<512>,
    ) -> (message: Option<Result<NetworkMessage<'a>, SessionError>>)
        requires
            old(self).at <= old(self).list@.len(),
        ensures
            final(self).list@ == old(self).list@,
            final(self).at <= final(self).list@.len(),
            message is None <==> old(self).at == old(self).list@.len(),
            message is None ==> final(self).at == old(self).at,
            message matches Some(message) ==> {
                let declaration = old(self).list@[old(self).at as int];
                &&& final(self).at == old(self).at + 1
                &&& message is Ok <==> crate::session::namespace::projects(
                    session.namespace(),
                    declaration.subject()@,
                )
                &&& message matches Ok(message) ==> crate::session::declaring::announced(
                    session.namespace(),
                    declaration,
                    message,
                )
                &&& message matches Err(error) ==> error == SessionError::Collection(
                    CollectionError::CollectionTooSmall,
                )
            },
    {
        if self.at == self.list.len() {
            return None;
        }
        let declaration: Declaration = self.list[self.at];
        self.at = self.at + 1;
        match session.wire_expr(declaration.key(), storage) {
            Ok(wire_expr) => Some(Ok(declaration.message_under(wire_expr))),
            Err(error) => Some(Err(error)),
        }
    }
}

/// What the session has declared survives every change of transport, with its ids.
pub proof fn law_declarations_survive_reconnects<T>(
    phase: ReconnectPhase,
    event: ReconnectEvent<T>,
    slot: Slot<T>,
    memory: StateView,
)
    ensures
        reconnect_step(phase, event, slot, memory).memory.declared == memory.declared,
        reconnect_step(phase, event, slot, memory).memory.next == memory.next,
{
}

/// Nothing that the peer of a lost transport declared is remembered on its replacement.
pub proof fn law_a_lost_peer_is_forgotten<T>(
    error: SessionError,
    slot: Slot<T>,
    memory: StateView,
)
    ensures
        ({
            let after = reconnect_step(
                ReconnectPhase::Running,
                ReconnectEvent::RunEnded(Err(error)),
                slot,
                memory,
            );
            &&& after.memory.keyexprs == Map::<u32, Seq<char>>::empty()
            &&& after.memory.tokens == Map::<u32, Seq<char>>::empty()
            &&& !after.slot.usable()
        }),
{
}

/// Once its owner has closed it, a session neither connects nor announces anything any more, and the
/// transport that it may still be handed is not taken into use.
pub proof fn law_a_stopped_session_does_not_reconnect<T>(
    phase: ReconnectPhase,
    event: ReconnectEvent<T>,
    slot: Slot<T>,
    memory: StateView,
)
    requires
        slot.stopped,
        expects(phase, event),
        phase is Finalizing || phase is Connecting,
    ensures
        reconnect_step(phase, event, slot, memory).action == ReconnectAction::Finish,
        reconnect_step(phase, event, slot, memory).slot == slot,
{
}

/// Messages are received again only over a transport on which every declaration has been announced,
/// and only then is the application told that the session is back.
pub proof fn law_reconnected_follows_a_complete_replay<T>(
    phase: ReconnectPhase,
    event: ReconnectEvent<T>,
    slot: Slot<T>,
    memory: StateView,
)
    requires
        expects(phase, event),
        reconnect_step(phase, event, slot, memory).action is Run,
    ensures
        phase is Replaying,
        event matches ReconnectEvent::Replayed(Ok(_)),
        reconnect_step(phase, event, slot, memory).action == (ReconnectAction::Run {
            reconnected: true,
        }),
{
}

/// A replay that runs to its end announces every declaration once: each under its own number, at the
/// place it has in the list.
pub proof fn law_replay_covers_every_declaration(list: Seq<Declaration>, memory: StateView, id: u32)
    requires
        crate::session::declarations::lists(list, memory.declared),
        memory.declared.contains_key(id),
    ensures
        exists|i: int|
            0 <= i < list.len() && #[trigger] list[i] == memory.declared[id] && list[i].number()
                == id,
        forall|i: int, j: int|
            0 <= i < list.len() && 0 <= j < list.len() && #[trigger] list[i].number() == id
                && #[trigger] list[j].number() == id ==> i == j,
{
    let i = choose|i: int| 0 <= i < list.len() && #[trigger] list[i].number() == id;
    assert(list[i] == memory.declared[id]);
    assert forall|i: int, j: int|
        0 <= i < list.len() && 0 <= j < list.len() && #[trigger] list[i].number() == id
            && #[trigger] list[j].number() == id implies i == j by {
        if i < j {
            assert(list[i].number() != list[j].number());
        }
        if j < i {
            assert(list[j].number() != list[i].number());
        }
    }
}

/// A lost transport is replaced, whatever the error it was lost with, as long as the owner of the
/// session has not closed it. The queries in flight are finalized, then a replacement is connected
/// with that very error reported, then the declarations are announced on it, then the session
/// receives again. An announcement that fails loses the replacement, and another one is connected
/// without a second report. The owner may close the session between any two steps: each step goes by
/// the slot it finds.
pub proof fn law_a_lost_transport_is_replaced<T>(
    lost: SessionError,
    failed: SessionError,
    transport: T,
    slot: Slot<T>,
    memory: StateView,
)
    ensures
        ({
            let finalizing = reconnect_step(
                ReconnectPhase::Running,
                ReconnectEvent::RunEnded(Err(lost)),
                slot,
                memory,
            );
            let connecting = reconnect_step(
                finalizing.phase,
                ReconnectEvent::<T>::QueriesFinalized,
                slot,
                memory,
            );
            let replaying = reconnect_step(
                ReconnectPhase::Connecting,
                ReconnectEvent::Connected(transport),
                slot,
                memory,
            );
            let running = reconnect_step(
                ReconnectPhase::Replaying,
                ReconnectEvent::<T>::Replayed(Ok(())),
                slot,
                memory,
            );
            let again = reconnect_step(
                ReconnectPhase::Replaying,
                ReconnectEvent::<T>::Replayed(Err(failed)),
                slot,
                memory,
            );
            &&& finalizing.action == ReconnectAction::FinalizeQueries
            &&& !slot.stopped ==> connecting.action == (ReconnectAction::Connect {
                lost: Some(lost),
            })
            &&& !slot.stopped ==> connecting.phase == ReconnectPhase::Connecting
            &&& !slot.stopped ==> replaying.action == ReconnectAction::Replay
            &&& !slot.stopped ==> replaying.phase == ReconnectPhase::Replaying
            &&& running.action == (ReconnectAction::Run { reconnected: true })
            &&& running.phase == ReconnectPhase::Running
            &&& again.action == (ReconnectAction::Connect { lost: None })
            &&& again.phase == ReconnectPhase::Connecting
        }),
{
}

/// A session ends for three reasons only: receiving ended without an error, waiting for a replacement
/// was given up because the session was closed, or its owner has closed it by the time that it would
/// connect or announce. Of a session that is not closed no error makes an end.
pub proof fn law_nothing_but_its_owner_ends_a_session<T>(
    phase: ReconnectPhase,
    event: ReconnectEvent<T>,
    slot: Slot<T>,
    memory: StateView,
)
    requires
        expects(phase, event),
    ensures
        ({
            let after = reconnect_step(phase, event, slot, memory);
            &&& after.action == ReconnectAction::Finish <==> match event {
                ReconnectEvent::RunEnded(result) => result is Ok,
                ReconnectEvent::StopRequested => true,
                ReconnectEvent::QueriesFinalized => slot.stopped,
                ReconnectEvent::Connected(_) => slot.stopped,
                ReconnectEvent::Replayed(_) => false,
            }
            &&& after.action == ReconnectAction::Finish <==> after.phase
                == ReconnectPhase::Finished
        }),
{
}

/// What becomes of the transport and of the memory on the way: a lost transport and one that could
/// not be announced on are dropped and operations refused, a replacement is taken into use unless the
/// owner has closed the session, and nothing else touches the transport. What the peer declared goes
/// with the lost transport, and at no other step is anything forgotten. No step makes or undoes the
/// owner's decision to close.
pub proof fn law_the_transport_follows_the_steps<T>(
    phase: ReconnectPhase,
    event: ReconnectEvent<T>,
    slot: Slot<T>,
    memory: StateView,
)
    requires
        expects(phase, event),
    ensures
        ({
            let after = reconnect_step(phase, event, slot, memory);
            let dropped = match event {
                ReconnectEvent::RunEnded(result) => result is Err,
                ReconnectEvent::Replayed(result) => result is Err,
                _ => false,
            };
            let installed = event is Connected && !slot.stopped;
            let forgets_peer = event matches ReconnectEvent::RunEnded(Err(_));
            &&& dropped ==> after.slot.current is None && after.slot.closed
            &&& installed ==> after.slot.current == Some(event->Connected_0) && !after.slot.closed
            &&& !dropped && !installed ==> after.slot.current == slot.current && after.slot.closed
                == slot.closed
            &&& after.slot.stopped == slot.stopped
            &&& after.slot.stop == slot.stop
            &&& after.memory.next == memory.next
            &&& after.memory.declared == memory.declared
            &&& !forgets_peer ==> after.memory.keyexprs == memory.keyexprs && after.memory.tokens
                == memory.tokens
            &&& forgets_peer ==> after.memory.keyexprs.dom() == Set::<u32>::empty()
                && after.memory.tokens.dom() == Set::<u32>::empty()
        }),
{
}

/// Whatever comes of an action, the session is ready to be told of it.
pub proof fn law_every_outcome_of_an_action_is_expected<T>(
    phase: ReconnectPhase,
    event: ReconnectEvent<T>,
    slot: Slot<T>,
    memory: StateView,
    result: Result<(), SessionError>,
    transport: T,
)
    requires
        expects(phase, event),
    ensures
        ({
            let after = reconnect_step(phase, event, slot, memory);
            match after.action {
                ReconnectAction::Run { .. } => expects(
                    after.phase,
                    ReconnectEvent::<T>::RunEnded(result),
                ),
                ReconnectAction::FinalizeQueries => expects(
                    after.phase,
                    ReconnectEvent::<T>::QueriesFinalized,
                ),
                ReconnectAction::Connect { .. } => expects(
                    after.phase,
                    ReconnectEvent::Connected(transport),
                ) && expects(after.phase, ReconnectEvent::<T>::StopRequested),
                ReconnectAction::Replay => expects(
                    after.phase,
                    ReconnectEvent::<T>::Replayed(result),
                ),
                ReconnectAction::Finish => true,
            }
        }),
        expects(ReconnectPhase::Running, ReconnectEvent::<T>::RunEnded(result)),
{
}

} // verus!
