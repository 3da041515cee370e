//! Asking a peer which subscribers, queryables, key expressions or liveliness tokens exist.
//!
//! Declarations are not sent unsolicited. A node sends an interest that names what it cares about,
//! and the peer answers with the matching declarations. A liveliness subscriber is an interest in
//! tokens.
use vstd::prelude::*;

use crate::config::ZSessionConfig;
use crate::error::SessionError;
use crate::exts::QoS;
use crate::fields::Reliability;
use crate::keyexpr::KeyExpr;
use crate::msgs::interest::{InterestFinal, InterestMode, InterestOptions};
use crate::msgs::network::{NetworkBody, NetworkMessage};
use crate::session::declarations::{Declaration, ZDeclarations};
use crate::session::declaring::{Action, Declaring, Draft};
use crate::session::Session;

verus! {

/// The message that cancels the interest `id`.
pub open spec fn cancellation(id: u32) -> NetworkMessage<'static> {
    NetworkMessage {
        reliability: Reliability::Reliable,
        qos: QoS::Declare,
        body: NetworkBody::InterestFinal(InterestFinal { id, qos: QoS::Declare }),
    }
}

/// The mode of an interest in liveliness tokens, with or without those that exist already.
pub open spec fn liveliness_mode(history: bool) -> InterestMode {
    if history {
        InterestMode::CurrentFuture
    } else {
        InterestMode::Future
    }
}

/// The options of an interest in liveliness tokens: the tokens, and the key expressions they refer
/// to.
pub open spec fn liveliness_options() -> InterestOptions {
    InterestOptions { options: (InterestOptions::KEYEXPRS + InterestOptions::TOKENS) as u8 }
}

/// An outstanding interest.
///
/// Dropping it does not cancel it: cancelling is a message on the wire.
#[derive(Clone, Copy, Debug)]
pub struct InterestGuard {
    id: u32,
}

impl InterestGuard {
    /// The id of the interest.
    pub closed spec fn number(self) -> u32 {
        self.id
    }

    /// The interest that was declared under `id`.
    pub fn new(id: u32) -> (guard: Self)
        ensures
            guard.number() == id,
    {
        InterestGuard { id }
    }

    /// The interest id, which the peer echoes at the end of this interest's snapshot.
    pub fn id(&self) -> (id: u32)
        ensures
            id == self.number(),
    {
        self.id
    }

    /// Cancels this interest. Returns the message that tells the peer, unless the session is closed.
    pub fn undeclare<'res, Config: ZSessionConfig, T>(
        self,
        session: &mut Session<'res, Config, T>,
    ) -> (message: Option<NetworkMessage<'static>>)
        requires
            old(session).wf(),
        ensures
            final(session).wf(),
            final(session).slot() == old(session).slot(),
            final(session).namespace() == old(session).namespace(),
            final(session).memory() == crate::session::declaring::without_declaration(
                old(session).memory(),
                self.number(),
            ),
            old(session).memory().declared.contains_key(self.number())
                ==> final(session).has_room(),
            message == if old(session).slot().closed {
                None
            } else {
                Some(cancellation(self.number()))
            },
    {
        proof {
            session.state.declarations.law_capacity_is_kept();
        }
        session.state.declarations.remove(self.id);
        if session.is_closed() {
            return None;
        }
        Some(
            NetworkMessage {
                reliability: Reliability::default(),
                qos: QoS::declare(),
                body: NetworkBody::InterestFinal(
                    InterestFinal { id: self.id, qos: QoS::declare() },
                ),
            },
        )
    }
}

impl<'res, Config: ZSessionConfig, T> Session<'res, Config, T> {
    /// Starts declaring an interest in the declarations under `ke` that `options` names.
    ///
    /// The key expression is always there: a caller that wants everything passes `**`.
    pub fn declare_interest(
        &mut self,
        ke: KeyExpr<'static>,
        mode: InterestMode,
        options: InterestOptions,
    ) -> (start: Result<(Declaring, Action), SessionError>)
        requires
            old(self).wf(),
            old(self).memory().next < u32::MAX,
        ensures
            final(self).wf(),
            final(self).slot() == old(self).slot(),
            final(self).namespace() == old(self).namespace(),
            (start, final(self).memory()) == crate::session::declaring::started(
                Draft::Interest { key: ke, mode, options },
                old(self).namespace(),
                old(self).slot().closed,
                old(self).memory(),
                old(self).has_room(),
            ),
            start matches Ok((declaring, _)) ==> declaring.declaration == (Declaration::Interest {
                id: old(self).memory().next,
                key: ke,
                mode,
                options,
            }),
    {
        Declaring::start(self, Draft::Interest { key: ke, mode, options })
    }

    /// Starts asking for the liveliness tokens under `ke`.
    ///
    /// With `history` that is the tokens that exist already and those to come, without it only those
    /// to come.
    pub fn declare_liveliness_interest(
        &mut self,
        ke: KeyExpr<'static>,
        history: bool,
    ) -> (start: Result<(Declaring, Action), SessionError>)
        requires
            old(self).wf(),
            old(self).memory().next < u32::MAX,
        ensures
            final(self).wf(),
            final(self).slot() == old(self).slot(),
            final(self).namespace() == old(self).namespace(),
            (start, final(self).memory()) == crate::session::declaring::started(
                Draft::Interest {
                    key: ke,
                    mode: liveliness_mode(history),
                    options: liveliness_options(),
                },
                old(self).namespace(),
                old(self).slot().closed,
                old(self).memory(),
                old(self).has_room(),
            ),
            start matches Ok((declaring, _)) ==> {
                &&& declaring.declaration matches Declaration::Interest { id, key, mode, options }
                &&& id == old(self).memory().next
                &&& key == ke
                &&& history ==> mode == InterestMode::CurrentFuture
                &&& !history ==> mode == InterestMode::Future
                &&& options.options == 0x09
            },
    {
        let mode = if history {
            InterestMode::CurrentFuture
        } else {
            InterestMode::Future
        };
        let options = InterestOptions::new(InterestOptions::KEYEXPRS + InterestOptions::TOKENS);
        self.declare_interest(ke, mode, options)
    }
}

/// A liveliness subscription hears of every token that appears or disappears from now on, with or
/// without a history, and of the tokens that exist already exactly when it asks for the history. It
/// asks for tokens and for the key expressions they refer to, and for nothing else.
pub proof fn law_a_liveliness_subscription_covers_tokens_to_come(history: bool)
    ensures
        liveliness_mode(history) == InterestMode::Future || liveliness_mode(history)
            == InterestMode::CurrentFuture,
        (liveliness_mode(history) == InterestMode::Current || liveliness_mode(history)
            == InterestMode::CurrentFuture) <==> history,
        liveliness_mode(true) != liveliness_mode(false),
        liveliness_options().options & 0x08 == 0x08,
        liveliness_options().options & 0x01 == 0x01,
        liveliness_options().options & 0xf6 == 0,
{
    let options: u8 = liveliness_options().options;
    assert(options == 9);
    assert(9u8 & 0x08 == 0x08 && 9u8 & 0x01 == 0x01 && 9u8 & 0xf6 == 0) by (bit_vector);
}

/// The message that a liveliness subscription sends asks the peer for the tokens under its key in the
/// namespace: those to come, and those that exist already if it asks for the history.
pub proof fn law_a_liveliness_subscription_asks_for_tokens<'a>(
    namespace: Option<Seq<char>>,
    memory: crate::session::StateView,
    ke: KeyExpr<'static>,
    history: bool,
    message: NetworkMessage<'a>,
)
    requires
        ({
            let draft = Draft::Interest {
                key: ke,
                mode: liveliness_mode(history),
                options: liveliness_options(),
            };
            crate::session::declaring::announced(namespace, draft.under(memory.next), message)
        }),
    ensures
        message.body matches NetworkBody::Interest(interest) && {
            &&& interest.id == memory.next
            &&& interest.mode == if history {
                InterestMode::CurrentFuture
            } else {
                InterestMode::Future
            }
            &&& interest.inner.options == 0x09
            &&& interest.inner.wire_expr matches Some(expr)
            &&& expr.scope == 0
            &&& expr.suffix@ == match namespace {
                Some(namespace) => namespace + seq!['/'] + ke@,
                None => ke@,
            }
        },
{
    let declaration = Draft::Interest {
        key: ke,
        mode: liveliness_mode(history),
        options: liveliness_options(),
    }.under(memory.next);
    crate::session::declaring::law_an_announcement_carries_the_namespace(
        namespace,
        declaration,
        message,
    );
}

/// The message that cancels an interest names its id, reliably and with the priority of declarations.
pub proof fn law_a_cancellation_names_its_interest(id: u32)
    ensures
        cancellation(id).reliability == Reliability::Reliable,
        cancellation(id).qos == QoS::Declare,
        cancellation(id).body matches NetworkBody::InterestFinal(last) && last.id == id && last.qos
            == QoS::Declare,
{
}

} // verus!
