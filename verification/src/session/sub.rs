use vstd::prelude::*;

use crate::config::ZSessionConfig;
use crate::error::{CollectionError, SessionError};
use crate::exts::{NodeId, QoS};
use crate::fields::Reliability;
use crate::keyexpr::KeyExpr;
use crate::msgs::declare::{Declare, DeclareBody, UndeclareSubscriber};
use crate::msgs::network::{NetworkBody, NetworkMessage};
use crate::session::declarations::ZDeclarations;
use crate::session::declaring::{Action, Declaring, Draft};
use crate::session::Session;

verus! {

/// The message that withdraws the subscriber `id`.
pub open spec fn withdrawal(id: u32) -> NetworkMessage<'static> {
    NetworkMessage {
        reliability: Reliability::Reliable,
        qos: QoS::Declare,
        body: NetworkBody::Declare(
            Declare {
                id: None,
                qos: QoS::Declare,
                timestamp: None,
                nodeid: NodeId { node_id: 0 },
                body: DeclareBody::UndeclareSubscriber(UndeclareSubscriber { id, wire_expr: None }),
            },
        ),
    }
}

/// A subscription that has been declared.
#[derive(Clone, Copy, Debug)]
pub struct Subscriber {
    id: u32,
    ke: KeyExpr<'static>,
}

impl Subscriber {
    /// The id of the subscription.
    pub closed spec fn number(self) -> u32 {
        self.id
    }

    /// What the subscription is about.
    pub closed spec fn subject(self) -> KeyExpr<'static> {
        self.ke
    }

    /// The subscription to `ke` that was declared under `id`.
    pub fn new(id: u32, ke: KeyExpr<'static>) -> (subscriber: Self)
        ensures
            subscriber.number() == id,
            subscriber.subject() == ke,
    {
        Subscriber { id, ke }
    }

    /// The id of the subscription, under which its callback is stored.
    pub fn id(&self) -> (id: u32)
        ensures
            id == self.number(),
    {
        self.id
    }

    pub fn keyexpr(&self) -> (ke: KeyExpr<'static>)
        ensures
            ke == self.subject(),
    {
        self.ke
    }

    /// Stops this subscription, given what came of removing its callback. Returns the message that
    /// tells the peer, unless the session is closed.
    pub fn undeclare<'res, Config: ZSessionConfig, T>(
        self,
        session: &mut Session<'res, Config, T>,
        removed: Result<(), CollectionError>,
    ) -> (message: Result<Option<NetworkMessage<'static>>, SessionError>)
        requires
            old(session).wf(),
        ensures
            final(session).wf(),
            final(session).slot() == old(session).slot(),
            final(session).namespace() == old(session).namespace(),
            final(session).memory() == if removed is Ok {
                crate::session::declaring::without_declaration(
                    old(session).memory(),
                    self.number(),
                )
            } else {
                old(session).memory()
            },
            removed is Ok && old(session).memory().declared.contains_key(self.number())
                ==> final(session).has_room(),
            message == (match removed {
                Err(error) => Err::<Option<NetworkMessage<'static>>, SessionError>(
                    SessionError::Collection(error),
                ),
                Ok(_) => if old(session).slot().closed {
                    Ok::<Option<NetworkMessage<'static>>, SessionError>(None)
                } else {
                    Ok::<Option<NetworkMessage<'static>>, SessionError>(
                        Some(withdrawal(self.number())),
                    )
                },
            }),
    {
        if let Err(error) = removed {
            return Err(SessionError::Collection(error));
        }
        proof {
            session.state.declarations.law_capacity_is_kept();
        }
        session.state.declarations.remove(self.id);
        if session.is_closed() {
            return Ok(None);
        }
        Ok(
            Some(
                NetworkMessage {
                    reliability: Reliability::default(),
                    qos: QoS::declare(),
                    body: NetworkBody::Declare(
                        Declare {
                            id: None,
                            qos: QoS::declare(),
                            timestamp: None,
                            nodeid: NodeId::default(),
                            body: DeclareBody::UndeclareSubscriber(
                                UndeclareSubscriber { id: self.id, wire_expr: None },
                            ),
                        },
                    ),
                },
            ),
        )
    }
}

/// A subscription in the making.
#[derive(Clone, Copy, Debug)]
pub struct SubscriberBuilder {
    pub ke: KeyExpr<'static>,
}

impl SubscriberBuilder {
    pub fn new(ke: KeyExpr<'static>) -> (builder: Self)
        ensures
            builder.ke == ke,
    {
        SubscriberBuilder { ke }
    }

    /// Starts declaring the subscription.
    pub fn finish<'res, Config: ZSessionConfig, T>(
        self,
        session: &mut Session<'res, Config, T>,
    ) -> (start: Result<(Declaring, Action), SessionError>)
        requires
            old(session).wf(),
            old(session).memory().next < u32::MAX,
        ensures
            final(session).wf(),
            final(session).slot() == old(session).slot(),
            final(session).namespace() == old(session).namespace(),
            (start, final(session).memory()) == crate::session::declaring::started(
                Draft::Subscriber { key: self.ke },
                old(session).namespace(),
                old(session).slot().closed,
                old(session).memory(),
                old(session).has_room(),
            ),
    {
        Declaring::start(session, Draft::Subscriber { key: self.ke })
    }
}

impl<'res, Config: ZSessionConfig, T> Session<'res, Config, T> {
    pub fn declare_subscriber(&self, ke: KeyExpr<'static>) -> (builder: SubscriberBuilder)
        ensures
            builder.ke == ke,
    {
        SubscriberBuilder::new(ke)
    }
}

/// The message that withdraws a subscriber names its id, reliably and with the priority of
/// declarations.
pub proof fn law_a_withdrawal_names_its_subscriber(id: u32)
    ensures
        ({
            let message = withdrawal(id);
            &&& message.reliability == Reliability::Reliable
            &&& message.qos == QoS::Declare
            &&& message.body matches NetworkBody::Declare(declare)
            &&& declare.id is None
            &&& declare.body matches DeclareBody::UndeclareSubscriber(subscriber)
            &&& subscriber.id == id
            &&& subscriber.wire_expr is None
        }),
{
}

} // verus!
