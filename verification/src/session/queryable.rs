use vstd::prelude::*;

use crate::config::ZSessionConfig;
use crate::error::{CollectionError, SessionError};
use crate::exts::{Attachment, NodeId, QoS};
use crate::fields::{ConsolidationMode, Encoding, Reliability, WireExpr};
use crate::keyexpr::KeyExpr;
use crate::msgs::declare::{Declare, DeclareBody, UndeclareQueryable};
use crate::msgs::network::{
    NetworkBody, NetworkMessage, PushBody, Put, Reply, ReplyErr, Response, ResponseBody,
    ResponseFinal,
};
use crate::session::declarations::ZDeclarations;
use crate::session::declaring::{Action, Declaring, Draft};
use crate::session::Session;

verus! {

/// The message that withdraws the queryable `id`.
pub open spec fn withdrawal(id: u32) -> NetworkMessage<'static> {
    NetworkMessage {
        reliability: Reliability::Reliable,
        qos: QoS::Declare,
        body: NetworkBody::Declare(
            Declare {
                id: None,
                qos: QoS::Declare,
                timestamp: None,
                nodeid: NodeId { node_id: 0 },
                body: DeclareBody::UndeclareQueryable(UndeclareQueryable { id, wire_expr: None }),
            },
        ),
    }
}

/// The message that answers the query `rid` under `wire_expr` with `payload`.
pub open spec fn answer<'a>(
    rid: u32,
    wire_expr: WireExpr<'a>,
    payload: ResponseBody<'a>,
) -> NetworkMessage<'a> {
    NetworkMessage {
        reliability: Reliability::Reliable,
        qos: QoS::Blocking,
        body: NetworkBody::Response(
            Response { rid, wire_expr, qos: QoS::Blocking, respid: None, payload },
        ),
    }
}

/// A successful reply with the value `payload`.
pub open spec fn reply_body<'a>(payload: &'a [u8], attachment: Option<&'a [u8]>) -> ResponseBody<
    'a,
> {
    ResponseBody::Reply(
        Reply {
            consolidation: ConsolidationMode::Unconsolidated,
            payload: PushBody::Put(
                Put {
                    timestamp: None,
                    encoding: Encoding { id: 0, schema: None },
                    attachment: match attachment {
                        Some(buffer) => Some(Attachment { buffer }),
                        None => None,
                    },
                    payload,
                },
            ),
        },
    )
}

/// A failed reply with the reason `payload`.
pub open spec fn err_body<'a>(payload: &'a [u8]) -> ResponseBody<'a> {
    ResponseBody::ReplyErr(ReplyErr { encoding: Encoding { id: 0, schema: None }, payload })
}

/// The message that ends the query `rid`.
pub open spec fn last_answer(rid: u32) -> NetworkMessage<'static> {
    NetworkMessage {
        reliability: Reliability::Reliable,
        qos: QoS::Blocking,
        body: NetworkBody::ResponseFinal(ResponseFinal { rid, qos: QoS::Blocking }),
    }
}

/// A queryable that has been declared.
#[derive(Clone, Copy, Debug)]
pub struct Queryable {
    id: u32,
}

impl Queryable {
    /// The id of the queryable.
    pub closed spec fn number(self) -> u32 {
        self.id
    }

    /// The queryable that was declared under `id`.
    pub fn new(id: u32) -> (queryable: Self)
        ensures
            queryable.number() == id,
    {
        Queryable { id }
    }

    /// The id of the queryable, under which its callback is stored.
    pub fn id(&self) -> (id: u32)
        ensures
            id == self.number(),
    {
        self.id
    }

    /// Stops answering queries, given what came of removing the callback. Returns the message that
    /// tells the peer, unless the session is closed.
    pub fn undeclare<'res, Config: ZSessionConfig, T>(
        self,
        session: &mut Session<'res, Config, T>,
        removed: Result<(), CollectionError>,
    ) -> (message: Result<Option<NetworkMessage<'static>>, SessionError>)
        requires
            old(session).wf(),
        ensures
            final(session).wf(),
            final(session).slot() == old(session).slot(),
            final(session).namespace() == old(session).namespace(),
            final(session).memory() == if removed is Ok {
                crate::session::declaring::without_declaration(
                    old(session).memory(),
                    self.number(),
                )
            } else {
                old(session).memory()
            },
            removed is Ok && old(session).memory().declared.contains_key(self.number())
                ==> final(session).has_room(),
            message == (match removed {
                Err(error) => Err::<Option<NetworkMessage<'static>>, SessionError>(
                    SessionError::Collection(error),
                ),
                Ok(_) => if old(session).slot().closed {
                    Ok::<Option<NetworkMessage<'static>>, SessionError>(None)
                } else {
                    Ok::<Option<NetworkMessage<'static>>, SessionError>(
                        Some(withdrawal(self.number())),
                    )
                },
            }),
    {
        if let Err(error) = removed {
            return Err(SessionError::Collection(error));
        }
        proof {
            session.state.declarations.law_capacity_is_kept();
        }
        session.state.declarations.remove(self.id);
        if session.is_closed() {
            return Ok(None);
        }
        Ok(
            Some(
                NetworkMessage {
                    reliability: Reliability::default(),
                    qos: QoS::declare(),
                    body: NetworkBody::Declare(
                        Declare {
                            id: None,
                            qos: QoS::declare(),
                            timestamp: None,
                            nodeid: NodeId::default(),
                            body: DeclareBody::UndeclareQueryable(
                                UndeclareQueryable { id: self.id, wire_expr: None },
                            ),
                        },
                    ),
                },
            ),
        )
    }
}

/// A queryable in the making.
#[derive(Clone, Copy, Debug)]
pub struct QueryableBuilder {
    pub ke: KeyExpr<'static>,
}

impl QueryableBuilder {
    pub fn new(ke: KeyExpr<'static>) -> (builder: Self)
        ensures
            builder.ke == ke,
    {
        QueryableBuilder { ke }
    }

    /// Starts declaring the queryable.
    pub fn finish<'res, Config: ZSessionConfig, T>(
        self,
        session: &mut Session<'res, Config, T>,
    ) -> (start: Result<(Declaring, Action), SessionError>)
        requires
            old(session).wf(),
            old(session).memory().next < u32::MAX,
        ensures
            final(session).wf(),
            final(session).slot() == old(session).slot(),
            final(session).namespace() == old(session).namespace(),
            (start, final(session).memory()) == crate::session::declaring::started(
                Draft::Queryable { key: self.ke },
                old(session).namespace(),
                old(session).slot().closed,
                old(session).memory(),
                old(session).has_room(),
            ),
    {
        Declaring::start(session, Draft::Queryable { key: self.ke })
    }
}

impl<'res, Config: ZSessionConfig, T> Session<'res, Config, T> {
    pub fn declare_queryable(&self, ke: KeyExpr<'static>) -> (builder: QueryableBuilder)
        ensures
            builder.ke == ke,
    {
        QueryableBuilder::new(ke)
    }

    /// The message that answers the query `rid` with a value.
    pub fn reply<'a>(
        &self,
        rid: u32,
        ke: KeyExpr<'a>,
        payload: &'a [u8],
        attachment: Option<&'a [u8]>,
        storage: &'a mut heapless::String<512>,
    ) -> (message: Result<NetworkMessage<'a>, SessionError>)
        ensures
            message is Ok <==> crate::session::namespace::projects(self.namespace(), ke@)
                && self.slot().usable(),
            message matches Ok(message) ==> exists|expr: WireExpr<'a>|
                expr.spells(crate::session::namespace::projected(self.namespace(), ke@)) && message
                    == #[trigger] answer(rid, expr, reply_body(payload, attachment)),
            message matches Err(error) ==> error == crate::session::unanswered(self.slot().usable()),
    {
        let attachment: Option<Attachment<'a>> = match attachment {
            Some(buffer) => Some(Attachment { buffer }),
            None => None,
        };
        let body = ResponseBody::Reply(
            Reply {
                consolidation: ConsolidationMode::Unconsolidated,
                payload: PushBody::Put(
                    Put { timestamp: None, encoding: Encoding::default(), attachment, payload },
                ),
            },
        );
        self.respond(rid, ke, body, storage)
    }

    /// The message that answers the query `rid` with a failure.
    pub fn err<'a>(
        &self,
        rid: u32,
        ke: KeyExpr<'a>,
        payload: &'a [u8],
        storage: &'a mut heapless::String<512>,
    ) -> (message: Result<NetworkMessage<'a>, SessionError>)
        ensures
            message is Ok <==> crate::session::namespace::projects(self.namespace(), ke@)
                && self.slot().usable(),
            message matches Ok(message) ==> exists|expr: WireExpr<'a>|
                expr.spells(crate::session::namespace::projected(self.namespace(), ke@)) && message
                    == #[trigger] answer(rid, expr, err_body(payload)),
            message matches Err(error) ==> error == crate::session::unanswered(self.slot().usable()),
    {
        let body = ResponseBody::ReplyErr(ReplyErr { encoding: Encoding::default(), payload });
        self.respond(rid, ke, body, storage)
    }

    fn respond<'a>(
        &self,
        rid: u32,
        ke: KeyExpr<'a>,
        payload: ResponseBody<'a>,
        storage: &'a mut heapless::String<512>,
    ) -> (message: Result<NetworkMessage<'a>, SessionError>)
        ensures
            message is Ok <==> crate::session::namespace::projects(self.namespace(), ke@)
                && self.slot().usable(),
            message matches Ok(message) ==> exists|expr: WireExpr<'a>|
                expr.spells(crate::session::namespace::projected(self.namespace(), ke@)) && message
                    == #[trigger] answer(rid, expr, payload),
            message matches Err(error) ==> error == crate::session::unanswered(self.slot().usable()),
    {
        if let Err(error) = self.driver() {
            return Err(SessionError::TransportLink(error));
        }
        let wire_expr = match self.wire_expr(ke, storage) {
            Ok(wire_expr) => wire_expr,
            Err(error) => return Err(error),
        };
        let message = NetworkMessage {
            reliability: Reliability::default(),
            qos: QoS::blocking(),
            body: NetworkBody::Response(
                Response { rid, wire_expr, qos: QoS::blocking(), respid: None, payload },
            ),
        };
        assert(message == answer(rid, wire_expr, payload));
        Ok(message)
    }

    /// The message that ends the query `rid`, once the last queryable has answered it. A closed
    /// session ends nothing.
    pub fn finalize(&self, rid: u32, last: bool) -> (message: Option<NetworkMessage<'static>>)
        ensures
            message == if last && !self.slot().closed {
                Some(last_answer(rid))
            } else {
                None
            },
    {
        if self.is_closed() || !last {
            return None;
        }
        Some(
            NetworkMessage {
                reliability: Reliability::default(),
                qos: QoS::blocking(),
                body: NetworkBody::ResponseFinal(ResponseFinal { rid, qos: QoS::blocking() }),
            },
        )
    }
}

/// The messages of a queryable name the query or the queryable they are about, and carry what they
/// were given: a reply its bytes and attachment, a failure its reason, the end of a query its number,
/// and a withdrawal the id of the queryable. They are sent reliably; answers wait for room.
pub proof fn law_the_messages_of_a_queryable<'a>(
    rid: u32,
    expr: WireExpr<'a>,
    payload: &'a [u8],
    attachment: Option<&'a [u8]>,
    body: ResponseBody<'a>,
)
    ensures
        ({
            let message = answer(rid, expr, body);
            &&& message.reliability == Reliability::Reliable
            &&& message.qos == QoS::Blocking
            &&& message.body matches NetworkBody::Response(response)
            &&& response.rid == rid
            &&& response.wire_expr == expr
            &&& response.qos == QoS::Blocking
            &&& response.respid is None
            &&& response.payload == body
        }),
        reply_body(payload, attachment) matches ResponseBody::Reply(reply) && {
            &&& reply.consolidation == ConsolidationMode::Unconsolidated
            &&& reply.payload matches PushBody::Put(put)
            &&& put.payload == payload
            &&& put.timestamp is None
            &&& put.encoding == (Encoding { id: 0, schema: None })
            &&& put.attachment is Some <==> attachment is Some
            &&& attachment matches Some(buffer) ==> put.attachment->0.buffer == buffer
        },
        err_body(payload) matches ResponseBody::ReplyErr(error) && error.payload == payload
            && error.encoding == (Encoding { id: 0, schema: None }),
        ({
            let message = last_answer(rid);
            &&& message.reliability == Reliability::Reliable
            &&& message.qos == QoS::Blocking
            &&& message.body matches NetworkBody::ResponseFinal(last)
            &&& last.rid == rid
            &&& last.qos == QoS::Blocking
        }),
        ({
            let message = withdrawal(rid);
            &&& message.reliability == Reliability::Reliable
            &&& message.qos == QoS::Declare
            &&& message.body matches NetworkBody::Declare(declare)
            &&& declare.id is None
            &&& declare.body matches DeclareBody::UndeclareQueryable(queryable)
            &&& queryable.id == rid
            &&& queryable.wire_expr is None
        }),
{
}

} // verus!
