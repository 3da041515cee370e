use vstd::prelude::*;

use crate::config::ZSessionConfig;
use crate::error::{SessionError, TransportLinkError};
use crate::fields::WireExpr;
use crate::keyexpr::{KeyExpr, NonWildKeyExpr};

use self::declarations::{Declaration, ZDeclarations};
use self::keyexprs::{KeyExprTable, TokenTable};
use self::managed::{ManagedDriver, Slot};
use self::namespace::{project_namespace, remove_namespace};

pub mod declarations;
pub mod declaring;
pub mod exchange;
pub mod interest;
pub mod keyexprs;
pub mod lifecycle;
pub mod managed;
pub mod namespace;
pub mod publisher;
pub mod put;
pub mod queryable;
pub mod reconnect;
pub mod run;
pub mod soundness;
pub mod sub;

verus! {

/// What a session remembers.
#[verifier::ext_equal]
pub struct StateView {
    /// The id of the next declaration.
    pub next: u32,
    pub declared: Map<u32, Declaration>,
    pub keyexprs: Map<u32, Seq<char>>,
    pub tokens: Map<u32, Seq<char>>,
}

impl StateView {
    /// The memory of a new session.
    pub open spec fn blank() -> StateView {
        StateView {
            next: 0,
            declared: Map::empty(),
            keyexprs: Map::empty(),
            tokens: Map::empty(),
        }
    }

    /// The memory without what the peer has declared.
    pub open spec fn without_peer(self) -> StateView {
        StateView { keyexprs: Map::empty(), tokens: Map::empty(), ..self }
    }
}

/// The part of a session that its operations share.
pub struct SessionState<Config: ZSessionConfig> {
    next: u32,
    declarations: Config::Declarations,
    /// Numeric key-expression ids to the expressions they stand for.
    keyexprs: KeyExprTable,
    /// Liveliness token ids to the expressions they keep alive.
    tokens: TokenTable,
}

impl<Config: ZSessionConfig> View for SessionState<Config> {
    type V = StateView;

    closed spec fn view(&self) -> StateView {
        StateView {
            next: self.next,
            declared: self.declarations.declared(),
            keyexprs: self.keyexprs@,
            tokens: self.tokens@,
        }
    }
}

impl<Config: ZSessionConfig> SessionState<Config> {
    /// The declarations are in order, and the tables sound.
    pub closed spec fn wf(&self) -> bool {
        self.declarations.wf() && soundness::tables_are_sound(self@)
    }

    /// Another declaration can be held.
    pub open spec fn has_room(&self) -> bool {
        declarations::room(Config::Declarations::capacity(), self@.declared)
    }

    pub fn new() -> (state: Self)
        ensures
            state.wf(),
            state@ == StateView::blank(),
    {
        SessionState {
            next: 0,
            declarations: Config::Declarations::empty(),
            keyexprs: KeyExprTable::new(),
            tokens: TokenTable::new(),
        }
    }

    /// An id that this state has not given out before.
    pub fn next(&mut self) -> (id: u32)
        requires
            old(self)@.next < u32::MAX,
        ensures
            id == old(self)@.next,
            final(self)@ == (StateView { next: (id + 1) as u32, ..old(self)@ }),
            final(self).wf() == old(self).wf(),
    {
        let next: u32 = self.next;
        self.next = next + 1;
        next
    }
}

/// A zenoh session over transports that `T` stands for.
pub struct Session<'res, Config: ZSessionConfig, T> {
    driver: ManagedDriver<T>,
    namespace: Option<NonWildKeyExpr<'res>>,
    state: SessionState<Config>,
}

impl<'res, Config: ZSessionConfig, T> Session<'res, Config, T> {
    /// The transport slot of the session.
    pub closed spec fn slot(&self) -> Slot<T> {
        self.driver@
    }

    /// What the session remembers.
    pub closed spec fn memory(&self) -> StateView {
        self.state@
    }

    /// Another declaration can be held.
    pub open spec fn has_room(&self) -> bool {
        declarations::room(Config::Declarations::capacity(), self.memory().declared)
    }

    /// The namespace of the session.
    pub closed spec fn namespace(&self) -> Option<Seq<char>> {
        namespace::text_of(self.namespace)
    }

    /// The declarations are in order, and the tables sound.
    pub closed spec fn wf(&self) -> bool {
        self.state.wf()
    }

    /// A session in order holds no more declarations than its table has places for.
    pub proof fn law_capacity_is_kept(&self)
        requires
            self.wf(),
        ensures
            declarations::fits(Config::Declarations::capacity(), self.memory().declared),
    {
        self.state.declarations.law_capacity_is_kept();
    }

    pub fn new(config: &'res Config, transport: T) -> (session: Self)
        ensures
            session.wf(),
            session.slot() == Slot::opened(transport),
            session.memory() == StateView::blank(),
            exists|namespace: Option<NonWildKeyExpr<'res>>| #[trigger]
                call_ensures(Config::namespace, (config,), namespace) && session.namespace()
                    == namespace::text_of(namespace),
    {
        let namespace = config.namespace();
        assert(call_ensures(Config::namespace, (config,), namespace));
        Session {
            driver: ManagedDriver::new(transport),
            namespace,
            state: SessionState::new(),
        }
    }

    pub fn is_closed(&self) -> (closed: bool)
        ensures
            closed == self.slot().closed,
            self.slot().stopped ==> closed,
    {
        self.driver.is_closed()
    }

    /// Whether there is an id left for another declaration.
    pub fn has_free_id(&self) -> (free: bool)
        ensures
            free <==> self.memory().next < u32::MAX,
    {
        self.state.next < u32::MAX
    }

    /// Refuses an operation on a closed session.
    pub fn open_state(&self) -> (open: Result<(), TransportLinkError>)
        ensures
            open is Ok <==> !self.slot().closed,
            open is Ok ==> !self.slot().stopped,
            open matches Err(error) ==> error == TransportLinkError::TransportClosed,
    {
        if self.is_closed() {
            return Err(TransportLinkError::TransportClosed);
        }
        Ok(())
    }

    /// The transport to send and receive on.
    pub fn driver(&self) -> (driver: Result<&T, TransportLinkError>)
        ensures
            driver is Ok <==> self.slot().usable(),
            driver matches Ok(driver) ==> Some(*driver) == self.slot().current,
            driver matches Err(error) ==> error == TransportLinkError::TransportClosed,
    {
        self.driver.driver()
    }

    /// Takes the wake-up of a session that is being closed, if it is there to take.
    pub fn take_stop(&mut self) -> (woken: bool)
        ensures
            woken == old(self).slot().stop,
            final(self).slot() == (Slot { stop: false, ..old(self).slot() }),
            final(self).memory() == old(self).memory(),
            final(self).namespace() == old(self).namespace(),
            final(self).wf() == old(self).wf(),
    {
        self.driver.take_stop()
    }

    /// Opens a closed session again over `transport`.
    ///
    /// Closing has released every declaration. A session that is not closed keeps its transport.
    pub fn reopen(&mut self, transport: T) -> (reopened: Result<(), TransportLinkError>)
        ensures
            reopened is Ok <==> old(self).slot().stopped,
            reopened matches Err(error) ==> error == TransportLinkError::TransportClosed,
            final(self).slot() == if reopened is Ok {
                Slot::opened(transport)
            } else {
                old(self).slot()
            },
            final(self).memory() == old(self).memory(),
            final(self).namespace() == old(self).namespace(),
            final(self).wf() == old(self).wf(),
    {
        self.driver.reopen(transport)
    }

    /// Forgets everything the session remembers.
    pub fn discard_state(&mut self)
        ensures
            final(self).wf(),
            final(self).slot() == old(self).slot(),
            final(self).namespace() == old(self).namespace(),
            final(self).memory() == StateView::blank(),
    {
        self.state = SessionState::new();
    }

    /// Closes the session: refuses new operations, then forgets everything, then gives up the
    /// transport, which is returned so that it can be closed. Only the first call does so, and is
    /// told that it was the first.
    pub fn close(&mut self) -> (closed: (bool, Option<T>))
        requires
            old(self).wf(),
        ensures
            final(self).wf(),
            final(self).namespace() == old(self).namespace(),
            closed.0 == !old(self).slot().stopped,
            old(self).slot().stopped ==> {
                &&& closed.1 is None
                &&& final(self).slot() == old(self).slot().stopping()
                &&& final(self).memory() == old(self).memory()
            },
            !old(self).slot().stopped ==> {
                &&& closed.1 == old(self).slot().current
                &&& final(self).slot() == old(self).slot().stopping().emptied()
                &&& final(self).memory() == StateView::blank()
            },
    {
        if !self.driver.begin_close() {
            return (false, None);
        }
        self.discard_state();
        (true, self.driver.finish_close())
    }

    /// Closes the session after it has failed, whatever state it is in.
    pub fn abandon(&mut self) -> (transport: Option<T>)
        ensures
            final(self).wf(),
            final(self).namespace() == old(self).namespace(),
            transport == old(self).slot().current,
            final(self).slot() == old(self).slot().stopping().emptied(),
            final(self).memory() == StateView::blank(),
    {
        self.driver.begin_close();
        self.discard_state();
        self.driver.finish_close()
    }

    /// Builds the transport expression for one key of the application.
    pub fn wire_expr<'a>(
        &self,
        logical: KeyExpr<'a>,
        storage: &'a mut heapless::String<512>,
    ) -> (expr: Result<WireExpr<'a>, SessionError>)
        ensures
            expr is Ok <==> namespace::projects(self.namespace(), logical@),
            expr matches Ok(expr) ==> expr.spells(
                namespace::projected(self.namespace(), logical@),
            ),
            expr matches Err(error) ==> error == SessionError::Collection(
                crate::error::CollectionError::CollectionTooSmall,
            ),
            self.namespace() is None ==> *final(storage) == *old(storage),
            expr is Ok && self.namespace() is Some ==> crate::storage::text(*final(storage))
                == namespace::projected(self.namespace(), logical@),
            expr is Err ==> crate::storage::text(*final(storage)).is_prefix_of(
                namespace::projected(self.namespace(), logical@),
            ),
    {
        project_namespace(self.namespace, logical, storage)
    }

    /// Takes the session's namespace off one resolved inbound key.
    ///
    /// A namespaced session rejects rather than exposes traffic outside its prefix.
    pub fn logical_key<'a>(&self, wire_key: &'a str) -> (logical: Option<&'a str>)
        ensures
            match namespace::relative(self.namespace(), wire_key@) {
                Some(expected) => logical matches Some(logical) && logical@ == expected,
                None => logical is None,
            },
    {
        remove_namespace(self.namespace, wire_key)
    }

    /// Resolves a possibly mapped wire expression and enforces the namespace.
    pub fn resolve_wire_key<'a>(
        &self,
        wire_expr: &WireExpr<'_>,
        storage: &'a mut heapless::String<512>,
    ) -> (key: Result<Option<KeyExpr<'a>>, SessionError>)
        ensures
            match named_key(self.namespace(), self.memory().keyexprs, *wire_expr) {
                Ok(Some(expected)) => key matches Ok(Some(key)) && key@ == expected,
                Ok(None) => key matches Ok(None),
                Err(expected) => key matches Err(error) && error == expected,
            },
            crate::storage::text(*final(storage)) == keyexprs::written(
                self.memory().keyexprs,
                wire_expr.scope,
                wire_expr.suffix@,
            ),
    {
        match self.state.keyexprs.resolve(wire_expr, storage) {
            Some(resolved) => match self.logical_key(resolved) {
                Some(logical) => match KeyExpr::new(logical) {
                    Ok(ke) => Ok(Some(ke)),
                    Err(error) => Err(SessionError::Keyexpr(error)),
                },
                None => Ok(None),
            },
            None => Ok(None),
        }
    }
}

/// Why a message under the key `logical` cannot be sent: the key does not fit, or else the transport
/// is closed.
pub open spec fn refusal(namespace: Option<Seq<char>>, logical: Seq<char>) -> SessionError {
    if namespace::projects(namespace, logical) {
        SessionError::TransportLink(TransportLinkError::TransportClosed)
    } else {
        SessionError::Collection(crate::error::CollectionError::CollectionTooSmall)
    }
}

/// Why a query cannot be answered: the transport is closed, or else the key does not fit.
pub open spec fn unanswered(usable: bool) -> SessionError {
    if usable {
        SessionError::Collection(crate::error::CollectionError::CollectionTooSmall)
    } else {
        SessionError::TransportLink(TransportLinkError::TransportClosed)
    }
}

/// The key of the application that a wire expression names: none if it refers to an unknown mapping,
/// does not fit, or lies outside the namespace, and an error if what is left is no key expression.
pub open spec fn named_key(
    namespace: Option<Seq<char>>,
    mappings: Map<u32, Seq<char>>,
    wire_expr: WireExpr,
) -> Result<Option<Seq<char>>, SessionError> {
    match keyexprs::resolved(mappings, wire_expr.scope, wire_expr.suffix@) {
        Some(key) => match namespace::relative(namespace, key) {
            Some(logical) => if crate::keyexpr::is_keyexpr(logical) {
                Ok(Some(logical))
            } else {
                Err(SessionError::Keyexpr(crate::error::KeyexprError::NotCanonical))
            },
            None => Ok(None),
        },
        None => Ok(None),
    }
}

/// Why an operation is refused. A publication whose key does not fit is refused for that, and
/// otherwise because the transport is closed. A query cannot be answered because the transport is
/// closed, and otherwise because the key does not fit.
pub proof fn law_refusals_name_their_reason(namespace: Seq<char>, logical: Seq<char>)
    ensures
        refusal(Some(namespace), logical) == if vstd::utf8::encode_utf8(
            namespace + seq!['/'] + logical,
        ).len() <= 512 {
            SessionError::TransportLink(TransportLinkError::TransportClosed)
        } else {
            SessionError::Collection(crate::error::CollectionError::CollectionTooSmall)
        },
        refusal(None, logical) == SessionError::TransportLink(TransportLinkError::TransportClosed),
        unanswered(false) == SessionError::TransportLink(TransportLinkError::TransportClosed),
        unanswered(true) == SessionError::Collection(
            crate::error::CollectionError::CollectionTooSmall,
        ),
{
}

/// A new session remembers nothing and gives out ids from zero. Losing the peer keeps what the
/// session itself has declared, and forgets the rest.
pub proof fn law_what_a_session_remembers(memory: StateView, id: u32)
    ensures
        StateView::blank().next == 0,
        !StateView::blank().declared.contains_key(id),
        !StateView::blank().keyexprs.contains_key(id),
        !StateView::blank().tokens.contains_key(id),
        memory.without_peer().next == memory.next,
        memory.without_peer().declared == memory.declared,
        !memory.without_peer().keyexprs.contains_key(id),
        !memory.without_peer().tokens.contains_key(id),
{
}

} // verus!
