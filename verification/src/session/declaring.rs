//! How a declaration is made and withdrawn.
//!
//! Making a declaration alternates between the session and what stands outside it: the storage of
//! callbacks and the transport. [`Declaring`] takes the decisions. It is told what came of the last
//! action and names the next one.
use vstd::prelude::*;

use crate::config::ZSessionConfig;
use crate::error::{CollectionError, SessionError, TransportLinkError};
use crate::fields::WireExpr;
use crate::keyexpr::KeyExpr;
use crate::msgs::interest::{InterestMode, InterestOptions};
use crate::msgs::network::NetworkMessage;
use crate::session::declarations::{Declaration, ZDeclarations};
use crate::session::{Session, StateView};

verus! {

/// A declaration that has no id yet.
#[derive(Clone, Copy, Debug)]
pub enum Draft {
    Subscriber { key: KeyExpr<'static> },
    Queryable { key: KeyExpr<'static> },
    Interest { key: KeyExpr<'static>, mode: InterestMode, options: InterestOptions },
}

impl Draft {
    /// What the declaration is about.
    pub open spec fn subject(self) -> KeyExpr<'static> {
        match self {
            Draft::Subscriber { key } => key,
            Draft::Queryable { key } => key,
            Draft::Interest { key, .. } => key,
        }
    }

    /// The declaration under the id `id`.
    pub open spec fn under(self, id: u32) -> Declaration {
        match self {
            Draft::Subscriber { key } => Declaration::Subscriber { id, key },
            Draft::Queryable { key } => Declaration::Queryable { id, key },
            Draft::Interest { key, mode, options } => Declaration::Interest {
                id,
                key,
                mode,
                options,
            },
        }
    }

    pub fn key(self) -> (key: KeyExpr<'static>)
        ensures
            key == self.subject(),
    {
        match self {
            Draft::Subscriber { key } => key,
            Draft::Queryable { key } => key,
            Draft::Interest { key, .. } => key,
        }
    }

    /// The declaration under the id `id`.
    pub fn with_id(self, id: u32) -> (declaration: Declaration)
        ensures
            declaration == self.under(id),
    {
        match self {
            Draft::Subscriber { key } => Declaration::Subscriber { id, key },
            Draft::Queryable { key } => Declaration::Queryable { id, key },
            Draft::Interest { key, mode, options } => Declaration::Interest {
                id,
                key,
                mode,
                options,
            },
        }
    }
}

/// How far a declaration has come.
#[derive(Clone, Copy, Debug, PartialEq, Eq, Structural)]
pub enum Phase {
    /// Its callback is being stored.
    Registering,
    /// The session has no place for it, and its callback is being removed.
    Unregistering(CollectionError),
    /// It is being announced.
    Sending,
    /// It could not be announced, and its callback is being removed.
    Withdrawing(TransportLinkError),
    /// It is made, or has failed.
    Finished,
}

/// What came of an action.
#[derive(Clone, Copy, Debug, PartialEq, Eq)]
pub enum Event {
    Registered(Result<(), CollectionError>),
    Unregistered(Result<(), CollectionError>),
    Sent(Result<(), TransportLinkError>),
}

/// What to do next.
#[derive(Clone, Copy, Debug, PartialEq, Eq)]
pub enum Action {
    /// Store the callback under the id of the declaration. The storage of queryables first drops the
    /// queries that nobody waits for any more.
    Register,
    /// Remove the callback under the id of the declaration.
    Unregister,
    /// Send the message of the declaration.
    Send,
    /// Nothing: this is the id of the declaration, or the reason why there is none.
    Done(Result<u32, SessionError>),
}

/// A phase waits for an event of this kind.
pub open spec fn expects(phase: Phase, event: Event) -> bool {
    match event {
        Event::Registered(_) => phase is Registering,
        Event::Unregistered(_) => phase is Unregistering || phase is Withdrawing,
        Event::Sent(_) => phase is Sending,
    }
}

/// What comes of holding `declaration` in a table.
pub open spec fn holding(
    declared: Map<u32, Declaration>,
    has_room: bool,
    declaration: Declaration,
) -> Result<(), CollectionError> {
    if declared.contains_key(declaration.number()) {
        Err(CollectionError::KeyAlreadyExists)
    } else if !has_room {
        Err(CollectionError::CollectionIsFull)
    } else {
        Ok(())
    }
}

/// The memory with `declaration` held.
pub open spec fn with_declaration(memory: StateView, declaration: Declaration) -> StateView {
    StateView { declared: memory.declared.insert(declaration.number(), declaration), ..memory }
}

/// The memory with the declaration `id` forgotten.
pub open spec fn without_declaration(memory: StateView, id: u32) -> StateView {
    StateView { declared: memory.declared.remove(id), ..memory }
}

/// The memory with the next id given out.
pub open spec fn with_next_id_used(memory: StateView) -> StateView {
    StateView { next: (memory.next + 1) as u32, ..memory }
}

/// The phase, the action and the memory that follow.
pub struct Step {
    pub phase: Phase,
    pub action: Action,
    pub memory: StateView,
}

/// What `event` makes of a declaration in the phase `phase`.
pub open spec fn step(
    declaration: Declaration,
    phase: Phase,
    event: Event,
    memory: StateView,
    has_room: bool,
) -> Step {
    let failed = |error: SessionError, memory: StateView|
        Step { phase: Phase::Finished, action: Action::Done(Err(error)), memory };
    match (phase, event) {
        (Phase::Registering, Event::Registered(Err(error))) => failed(
            SessionError::Collection(error),
            memory,
        ),
        (Phase::Registering, Event::Registered(Ok(_))) => match holding(
            memory.declared,
            has_room,
            declaration,
        ) {
            Ok(_) => Step {
                phase: Phase::Sending,
                action: Action::Send,
                memory: with_declaration(memory, declaration),
            },
            Err(error) => Step {
                phase: Phase::Unregistering(error),
                action: Action::Unregister,
                memory,
            },
        },
        (Phase::Unregistering(error), Event::Unregistered(Ok(_))) => failed(
            SessionError::Collection(error),
            memory,
        ),
        (Phase::Unregistering(_), Event::Unregistered(Err(error))) => failed(
            SessionError::Collection(error),
            memory,
        ),
        (Phase::Sending, Event::Sent(Ok(_))) => Step {
            phase: Phase::Finished,
            action: Action::Done(Ok(declaration.number())),
            memory,
        },
        (Phase::Sending, Event::Sent(Err(error))) => if declaration is Interest {
            failed(
                SessionError::TransportLink(error),
                without_declaration(memory, declaration.number()),
            )
        } else {
            Step { phase: Phase::Withdrawing(error), action: Action::Unregister, memory }
        },
        (Phase::Withdrawing(error), Event::Unregistered(Ok(_))) => failed(
            SessionError::TransportLink(error),
            without_declaration(memory, declaration.number()),
        ),
        (Phase::Withdrawing(_), Event::Unregistered(Err(error))) => failed(
            SessionError::Collection(error),
            without_declaration(memory, declaration.number()),
        ),
        _ => Step { phase, action: Action::Done(Ok(declaration.number())), memory },
    }
}

/// What comes of starting `draft`: the declaration in its first phase, with its first action, or the
/// reason why it is not started, and the memory that follows.
///
/// A closed session refuses subscribers and queryables whatever their key. The key of an interest is
/// looked at first.
pub open spec fn started(
    draft: Draft,
    namespace: Option<Seq<char>>,
    closed: bool,
    memory: StateView,
    has_room: bool,
) -> (Result<(Declaring, Action), SessionError>, StateView) {
    let declaration = draft.under(memory.next);
    let used = with_next_id_used(memory);
    let projects = crate::session::namespace::projects(namespace, draft.subject()@);
    if closed && (projects || !(draft is Interest)) {
        (Err(SessionError::TransportLink(TransportLinkError::TransportClosed)), memory)
    } else if !projects {
        (Err(SessionError::Collection(CollectionError::CollectionTooSmall)), memory)
    } else if !(draft is Interest) {
        (Ok((Declaring { declaration, phase: Phase::Registering }, Action::Register)), used)
    } else {
        match holding(memory.declared, has_room, declaration) {
            Ok(_) => (
                Ok((Declaring { declaration, phase: Phase::Sending }, Action::Send)),
                with_declaration(used, declaration),
            ),
            Err(error) => (Err(SessionError::Collection(error)), used),
        }
    }
}

/// A declaration in the making.
#[derive(Clone, Copy, Debug)]
pub struct Declaring {
    pub declaration: Declaration,
    pub phase: Phase,
}

impl Declaring {
    /// Starts a declaration.
    ///
    /// The complete transport key is checked before anything is retained: a local resource must not
    /// survive a failed declaration.
    pub fn start<'res, Config: ZSessionConfig, T>(
        session: &mut Session<'res, Config, T>,
        draft: Draft,
    ) -> (start: Result<(Declaring, Action), SessionError>)
        requires
            old(session).wf(),
            old(session).memory().next < u32::MAX,
        ensures
            final(session).wf(),
            final(session).slot() == old(session).slot(),
            final(session).namespace() == old(session).namespace(),
            (start, final(session).memory()) == started(
                draft,
                old(session).namespace(),
                old(session).slot().closed,
                old(session).memory(),
                old(session).has_room(),
            ),
    {
        let interest = match draft {
            Draft::Interest { .. } => true,
            _ => false,
        };
        if !interest {
            if let Err(error) = session.open_state() {
                return Err(SessionError::TransportLink(error));
            }
        }
        let mut scoped: heapless::String<512> = heapless::String::new();
        if let Err(error) = session.wire_expr(draft.key(), &mut scoped) {
            return Err(error);
        }
        if let Err(error) = session.open_state() {
            return Err(SessionError::TransportLink(error));
        }
        let id: u32 = session.state.next();
        let declaration = draft.with_id(id);
        match draft {
            Draft::Interest { .. } => match session.state.declarations.insert(declaration) {
                Ok(_) => Ok((Declaring { declaration, phase: Phase::Sending }, Action::Send)),
                Err(error) => Err(SessionError::Collection(error)),
            },
            _ => Ok((Declaring { declaration, phase: Phase::Registering }, Action::Register)),
        }
    }

    /// Takes what came of the last action and names the next one.
    pub fn step<'res, Config: ZSessionConfig, T>(
        &mut self,
        session: &mut Session<'res, Config, T>,
        event: Event,
    ) -> (action: Action)
        requires
            old(session).wf(),
            expects(old(self).phase, event),
        ensures
            final(session).wf(),
            final(session).slot() == old(session).slot(),
            final(session).namespace() == old(session).namespace(),
            final(self).declaration == old(self).declaration,
            (Step {
                phase: final(self).phase,
                action,
                memory: final(session).memory(),
            }) == step(
                old(self).declaration,
                old(self).phase,
                event,
                old(session).memory(),
                old(session).has_room(),
            ),
    {
        let declaration = self.declaration;
        match event {
            Event::Registered(Err(error)) => {
                self.phase = Phase::Finished;
                Action::Done(Err(SessionError::Collection(error)))
            },
            Event::Registered(Ok(_)) => match session.state.declarations.insert(declaration) {
                Ok(_) => {
                    self.phase = Phase::Sending;
                    Action::Send
                },
                Err(error) => {
                    self.phase = Phase::Unregistering(error);
                    Action::Unregister
                },
            },
            Event::Sent(Ok(_)) => {
                self.phase = Phase::Finished;
                Action::Done(Ok(declaration.id()))
            },
            Event::Sent(Err(error)) => {
                if let Declaration::Interest { .. } = declaration {
                    session.state.declarations.remove(declaration.id());
                    self.phase = Phase::Finished;
                    Action::Done(Err(SessionError::TransportLink(error)))
                } else {
                    self.phase = Phase::Withdrawing(error);
                    Action::Unregister
                }
            },
            Event::Unregistered(Err(error)) => {
                if let Phase::Withdrawing(_) = self.phase {
                    session.state.declarations.remove(declaration.id());
                }
                self.phase = Phase::Finished;
                Action::Done(Err(SessionError::Collection(error)))
            },
            Event::Unregistered(Ok(_)) => {
                let failure = match self.phase {
                    Phase::Withdrawing(error) => {
                        session.state.declarations.remove(declaration.id());
                        SessionError::TransportLink(error)
                    },
                    Phase::Unregistering(error) => SessionError::Collection(error),
                    _ => SessionError::Collection(CollectionError::KeyNotFound),
                };
                self.phase = Phase::Finished;
                Action::Done(Err(failure))
            },
        }
    }

    /// The message that announces the declaration.
    pub fn message<'a, 'res, Config: ZSessionConfig, T>(
        &self,
        session: &Session<'res, Config, T>,
        storage: &'a mut heapless::String<512>,
    ) -> (message: Result<NetworkMessage<'a>, SessionError>)
        ensures
            message is Ok <==> crate::session::namespace::projects(
                session.namespace(),
                self.declaration.subject()@,
            ),
            message matches Ok(message) ==> announced(
                session.namespace(),
                self.declaration,
                message,
            ),
            message matches Err(error) ==> error == SessionError::Collection(
                CollectionError::CollectionTooSmall,
            ),
    {
        match session.wire_expr(self.declaration.key(), storage) {
            Ok(wire_expr) => Ok(self.declaration.message_under(wire_expr)),
            Err(error) => Err(error),
        }
    }
}

/// `message` announces `declaration` under its key in the namespace.
pub open spec fn announced<'a>(
    namespace: Option<Seq<char>>,
    declaration: Declaration,
    message: NetworkMessage<'a>,
) -> bool {
    exists|expr: WireExpr<'a>|
        expr.spells(crate::session::namespace::projected(namespace, declaration.subject()@))
            && message == #[trigger] declaration.announcement(expr)
}

/// A new session accepts a declaration whose key fits, unless its table has no place at all.
pub proof fn law_a_new_session_accepts_a_declaration(
    draft: Draft,
    namespace: Option<Seq<char>>,
    capacity: Option<nat>,
)
    requires
        crate::session::namespace::projects(namespace, draft.subject()@),
        capacity != Some(0nat),
    ensures
        ({
            let blank = StateView::blank();
            let has_room = crate::session::declarations::room(capacity, blank.declared);
            let (start, memory) = started(draft, namespace, false, blank, has_room);
            &&& start matches Ok((declaring, action))
            &&& if draft is Interest {
                action is Send && memory.declared == map![0u32 => draft.under(0)]
            } else {
                let next = step(
                    declaring.declaration,
                    declaring.phase,
                    Event::Registered(Ok(())),
                    memory,
                    crate::session::declarations::room(capacity, memory.declared),
                );
                action is Register && next.action is Send && next.memory.declared
                    == map![0u32 => draft.under(0)]
            }
        }),
{
    crate::session::declarations::law_an_empty_table_has_room(capacity);
}

/// Every declaration that is held has an id that was given out.
pub open spec fn fresh(memory: StateView) -> bool {
    forall|id: u32| #[trigger] memory.declared.contains_key(id) ==> id < memory.next
}

/// Ids are given out once: a new declaration never finds its id in use.
pub proof fn law_ids_are_given_out_once(
    draft: Draft,
    namespace: Option<Seq<char>>,
    closed: bool,
    memory: StateView,
    has_room: bool,
)
    requires
        fresh(memory),
        memory.next < u32::MAX,
    ensures
        fresh(started(draft, namespace, closed, memory, has_room).1),
        started(draft, namespace, closed, memory, has_room).0 matches Ok((declaring, _)) ==> {
            &&& !memory.declared.contains_key(declaring.declaration.number())
            &&& declaring.declaration.number() < started(
                draft,
                namespace,
                closed,
                memory,
                has_room,
            ).1.next
            &&& started(draft, namespace, closed, memory, has_room).1.declared.contains_key(
                declaring.declaration.number(),
            ) <==> retained(declaring.phase)
        },
        started(draft, namespace, closed, memory, has_room).0 != Err::<
            (Declaring, Action),
            SessionError,
        >(SessionError::Collection(CollectionError::KeyAlreadyExists)),
{
}

/// A declaration that was started has a key that fits, so that its announcement can be written.
pub proof fn law_a_started_declaration_can_be_announced(
    draft: Draft,
    namespace: Option<Seq<char>>,
    closed: bool,
    memory: StateView,
    has_room: bool,
)
    ensures
        started(draft, namespace, closed, memory, has_room).0 matches Ok((declaring, _)) ==> {
            &&& declaring.declaration == draft.under(memory.next)
            &&& crate::session::namespace::projects(
                namespace,
                declaring.declaration.subject()@,
            )
        },
{
}

/// The steps of a declaration keep ids fresh too.
pub proof fn law_steps_keep_ids_fresh(
    declaration: Declaration,
    phase: Phase,
    event: Event,
    memory: StateView,
    has_room: bool,
)
    requires
        fresh(memory),
        declaration.number() < memory.next,
    ensures
        fresh(step(declaration, phase, event, memory, has_room).memory),
        step(declaration, phase, event, memory, has_room).memory.next == memory.next,
{
}

/// A declaration that is held is held exactly while it is being announced or withdrawn, or once it is
/// made.
pub open spec fn retained(phase: Phase) -> bool {
    phase is Sending || phase is Withdrawing
}

/// A declaration that fails leaves no declaration behind, and one that succeeds is held: whether the
/// table holds it follows its phase through every step.
pub proof fn law_a_failed_declaration_leaves_nothing_behind(
    declaration: Declaration,
    phase: Phase,
    event: Event,
    memory: StateView,
    has_room: bool,
)
    requires
        expects(phase, event),
        memory.declared.contains_key(declaration.number()) <==> retained(phase),
        retained(phase) ==> memory.declared[declaration.number()] == declaration,
    ensures
        ({
            let next = step(declaration, phase, event, memory, has_room);
            let held = next.memory.declared.contains_key(declaration.number());
            &&& held <==> (retained(next.phase) || (next.action matches Action::Done(Ok(_))))
            &&& held ==> next.memory.declared[declaration.number()] == declaration
            &&& next.action is Done <==> next.phase is Finished
            &&& next.action matches Action::Done(Ok(id)) ==> id == declaration.number()
        }),
{
}

/// Making a declaration touches no other declaration, and nothing the peer has declared.
pub proof fn law_a_declaration_disturbs_no_other(
    declaration: Declaration,
    phase: Phase,
    event: Event,
    memory: StateView,
    has_room: bool,
    other: u32,
)
    requires
        other != declaration.number(),
    ensures
        ({
            let after = step(declaration, phase, event, memory, has_room).memory;
            &&& after.declared.contains_key(other) == memory.declared.contains_key(other)
            &&& memory.declared.contains_key(other) ==> after.declared[other]
                == memory.declared[other]
            &&& after.keyexprs == memory.keyexprs
            &&& after.tokens == memory.tokens
        }),
{
}

/// When a declaration is started, and what it is: it has the next id, the kind and the key that were
/// asked for, and an interest asks for what was asked. An open session starts it if its key fits, and
/// an interest, which has no callback to store first, if there is room for it. A closed session
/// starts nothing. A refusal before an id is given out changes nothing.
pub proof fn law_an_open_session_starts_declarations(
    draft: Draft,
    namespace: Option<Seq<char>>,
    closed: bool,
    memory: StateView,
    has_room: bool,
)
    ensures
        ({
            let (start, after) = started(draft, namespace, closed, memory, has_room);
            let short = match namespace {
                Some(namespace) => vstd::utf8::encode_utf8(
                    namespace + seq!['/'] + draft.subject()@,
                ).len() <= 512,
                None => true,
            };
            let known = memory.declared.contains_key(memory.next);
            let closed_error = SessionError::TransportLink(TransportLinkError::TransportClosed);
            &&& start is Ok <==> !closed && short && (draft is Interest ==> has_room && !known)
            &&& start == Err::<(Declaring, Action), SessionError>(closed_error) <==> closed && (
            short || !(draft is Interest))
            &&& start == Err::<(Declaring, Action), SessionError>(
                SessionError::Collection(CollectionError::CollectionTooSmall),
            ) <==> !short && (!closed || draft is Interest)
            &&& start == Err::<(Declaring, Action), SessionError>(
                SessionError::Collection(CollectionError::KeyAlreadyExists),
            ) <==> draft is Interest && !closed && short && known
            &&& start == Err::<(Declaring, Action), SessionError>(
                SessionError::Collection(CollectionError::CollectionIsFull),
            ) <==> draft is Interest && !closed && short && !known && !has_room
            &&& closed || !short ==> after == memory
            &&& !closed && short ==> after.next == (memory.next + 1) as u32
            &&& after.keyexprs == memory.keyexprs
            &&& after.tokens == memory.tokens
            &&& start matches Ok((declaring, action)) ==> {
                &&& match draft {
                    Draft::Subscriber { key } => declaring.declaration
                        == (Declaration::Subscriber { id: memory.next, key }),
                    Draft::Queryable { key } => declaring.declaration
                        == (Declaration::Queryable { id: memory.next, key }),
                    Draft::Interest { key, mode, options } => declaring.declaration
                        == (Declaration::Interest { id: memory.next, key, mode, options }),
                }
                &&& draft is Interest ==> action == Action::Send && declaring.phase
                    == Phase::Sending && after.declared == memory.declared.insert(
                    memory.next,
                    declaring.declaration,
                )
                &&& !(draft is Interest) ==> action == Action::Register && declaring.phase
                    == Phase::Registering && after.declared == memory.declared
            }
            &&& start is Err ==> after.declared == memory.declared
        }),
{
}

/// A declaration whose callback is stored and which is announced is made: it is held before it is
/// announced, and the caller is told its id. Where the callback is not stored, the caller is told
/// that error, and nothing was held.
pub proof fn law_a_stored_and_announced_declaration_is_made(
    declaration: Declaration,
    memory: StateView,
    has_room: bool,
    error: CollectionError,
)
    requires
        has_room,
        !memory.declared.contains_key(declaration.number()),
    ensures
        ({
            let held = step(
                declaration,
                Phase::Registering,
                Event::Registered(Ok(())),
                memory,
                has_room,
            );
            let made = step(declaration, held.phase, Event::Sent(Ok(())), held.memory, has_room);
            let refused = step(
                declaration,
                Phase::Registering,
                Event::Registered(Err(error)),
                memory,
                has_room,
            );
            &&& held.action == Action::Send
            &&& held.phase == Phase::Sending
            &&& held.memory == (StateView {
                declared: memory.declared.insert(declaration.number(), declaration),
                ..memory
            })
            &&& made.action == Action::Done(Ok(declaration.number()))
            &&& made.memory == held.memory
            &&& refused.action == Action::Done(Err(SessionError::Collection(error)))
            &&& refused.memory == memory
        }),
{
}

/// A declaration that the session has no place for gets its callback removed again, and the caller is
/// told why there was no place: its id is in use, or else the table is full. If the callback cannot
/// be removed either, the caller is told that.
pub proof fn law_a_declaration_without_a_place_is_undone(
    declaration: Declaration,
    memory: StateView,
    has_room: bool,
    error: CollectionError,
)
    requires
        !has_room || memory.declared.contains_key(declaration.number()),
    ensures
        ({
            let first = step(
                declaration,
                Phase::Registering,
                Event::Registered(Ok(())),
                memory,
                has_room,
            );
            let undone = step(
                declaration,
                first.phase,
                Event::Unregistered(Ok(())),
                first.memory,
                has_room,
            );
            let stuck = step(
                declaration,
                first.phase,
                Event::Unregistered(Err(error)),
                first.memory,
                has_room,
            );
            let reason = if memory.declared.contains_key(declaration.number()) {
                CollectionError::KeyAlreadyExists
            } else {
                CollectionError::CollectionIsFull
            };
            &&& first.action == Action::Unregister
            &&& first.memory == memory
            &&& undone.action == Action::Done(Err(SessionError::Collection(reason)))
            &&& undone.memory == memory
            &&& stuck.action == Action::Done(Err(SessionError::Collection(error)))
            &&& stuck.memory == memory
        }),
{
}

/// A declaration that cannot be announced is forgotten, and the caller is told why. An interest is
/// forgotten at once; a subscriber or queryable once its callback is removed, or could not be, which
/// is then what the caller is told.
pub proof fn law_an_unannounced_declaration_is_forgotten(
    declaration: Declaration,
    memory: StateView,
    has_room: bool,
    lost: TransportLinkError,
    error: CollectionError,
)
    ensures
        ({
            let without = StateView {
                declared: memory.declared.remove(declaration.number()),
                ..memory
            };
            let failed = step(
                declaration,
                Phase::Sending,
                Event::Sent(Err(lost)),
                memory,
                has_room,
            );
            let removed = step(
                declaration,
                failed.phase,
                Event::Unregistered(Ok(())),
                failed.memory,
                has_room,
            );
            let stuck = step(
                declaration,
                failed.phase,
                Event::Unregistered(Err(error)),
                failed.memory,
                has_room,
            );
            if declaration is Interest {
                &&& failed.action == Action::Done(Err(SessionError::TransportLink(lost)))
                &&& failed.memory == without
            } else {
                &&& failed.action == Action::Unregister
                &&& failed.memory == memory
                &&& removed.action == Action::Done(Err(SessionError::TransportLink(lost)))
                &&& removed.memory == without
                &&& stuck.action == Action::Done(Err(SessionError::Collection(error)))
                &&& stuck.memory == without
            }
        }),
{
}

/// Whatever comes of an action, the declaration is ready to be told of it.
pub proof fn law_every_outcome_of_an_action_is_expected(
    declaration: Declaration,
    phase: Phase,
    event: Event,
    memory: StateView,
    has_room: bool,
    changed: Result<(), CollectionError>,
    sent: Result<(), TransportLinkError>,
)
    requires
        expects(phase, event),
    ensures
        ({
            let next = step(declaration, phase, event, memory, has_room);
            match next.action {
                Action::Register => expects(next.phase, Event::Registered(changed)),
                Action::Unregister => expects(next.phase, Event::Unregistered(changed)),
                Action::Send => expects(next.phase, Event::Sent(sent)),
                Action::Done(_) => next.phase == Phase::Finished,
            }
        }),
        expects(Phase::Registering, Event::Registered(changed)),
        expects(Phase::Sending, Event::Sent(sent)),
{
}

/// An announcement of a session carries its declaration under the key that the namespace makes of
/// the declaration's own: the number, the kind and what an interest asks for are the declaration's.
pub proof fn law_an_announcement_carries_the_namespace<'a>(
    namespace: Option<Seq<char>>,
    declaration: Declaration,
    message: NetworkMessage<'a>,
)
    requires
        announced(namespace, declaration, message),
    ensures
        ({
            let spelled = match namespace {
                Some(namespace) => namespace + seq!['/'] + declaration.subject()@,
                None => declaration.subject()@,
            };
            match declaration {
                Declaration::Subscriber { id, .. } => {
                    &&& message.body matches crate::msgs::network::NetworkBody::Declare(declare)
                    &&& declare.body matches crate::msgs::declare::DeclareBody::DeclareSubscriber(
                        subscriber,
                    )
                    &&& subscriber.id == id
                    &&& subscriber.wire_expr.scope == 0
                    &&& subscriber.wire_expr.suffix@ == spelled
                },
                Declaration::Queryable { id, .. } => {
                    &&& message.body matches crate::msgs::network::NetworkBody::Declare(declare)
                    &&& declare.body matches crate::msgs::declare::DeclareBody::DeclareQueryable(
                        queryable,
                    )
                    &&& queryable.id == id
                    &&& queryable.wire_expr.scope == 0
                    &&& queryable.wire_expr.suffix@ == spelled
                },
                Declaration::Interest { id, mode, options, .. } => {
                    &&& message.body matches crate::msgs::network::NetworkBody::Interest(interest)
                    &&& interest.id == id
                    &&& interest.mode == mode
                    &&& interest.inner.options == options.options
                    &&& interest.inner.wire_expr matches Some(expr)
                    &&& expr.scope == 0
                    &&& expr.suffix@ == spelled
                },
            }
        }),
{
    let expr = choose|expr: WireExpr<'a>|
        expr.spells(crate::session::namespace::projected(namespace, declaration.subject()@))
            && message == #[trigger] declaration.announcement(expr);
    crate::session::declarations::law_an_announcement_says_what_is_declared(declaration, expr);
}

/// Forgetting a declaration forgets that one and nothing else.
pub proof fn law_withdrawing_forgets_one_declaration(memory: StateView, id: u32, other: u32)
    requires
        other != id,
    ensures
        ({
            let after = without_declaration(memory, id);
            &&& !after.declared.contains_key(id)
            &&& after.declared.contains_key(other) == memory.declared.contains_key(other)
            &&& memory.declared.contains_key(other) ==> after.declared[other]
                == memory.declared[other]
            &&& after.next == memory.next
            &&& after.keyexprs == memory.keyexprs
            &&& after.tokens == memory.tokens
        }),
{
}

} // verus!
