use vstd::prelude::*;

use crate::exts::{Attachment, EntityGlobalId, QoS, Value};
use crate::fields::{ConsolidationMode, Encoding, Reliability, Timestamp, WireExpr};
use crate::msgs::declare::Declare;
use crate::msgs::del::Del;
use crate::msgs::interest::{Interest, InterestFinal};

verus! {

/// A value.
#[derive(Clone, Copy, Debug, PartialEq)]
pub struct Put<'a> {
    pub timestamp: Option<Timestamp>,
    pub encoding: Encoding<'a>,
    pub attachment: Option<Attachment<'a>>,
    pub payload: &'a [u8],
}

impl<'a> Default for Put<'a> {
    fn default() -> (put: Self)
        ensures
            put.timestamp is None,
            put.encoding == (Encoding { id: 0, schema: None }),
            put.attachment is None,
            put.payload@ == Seq::<u8>::empty(),
    {
        Put { timestamp: None, encoding: Encoding::default(), attachment: None, payload: &[] }
    }
}

/// What is published, or replied to a query.
#[derive(Clone, Copy, Debug, PartialEq)]
pub enum PushBody<'a> {
    Put(Put<'a>),
    Del(Del<'a>),
}

/// A publication.
#[derive(Clone, Copy, Debug, PartialEq)]
pub struct Push<'a> {
    pub wire_expr: WireExpr<'a>,
    pub timestamp: Option<Timestamp>,
    pub payload: PushBody<'a>,
}

/// A successful reply to a query.
#[derive(Clone, Copy, Debug, PartialEq)]
pub struct Reply<'a> {
    pub consolidation: ConsolidationMode,
    pub payload: PushBody<'a>,
}

/// A failed reply to a query.
#[derive(Clone, Copy, Debug, PartialEq)]
pub struct ReplyErr<'a> {
    pub encoding: Encoding<'a>,
    pub payload: &'a [u8],
}

#[derive(Clone, Copy, Debug, PartialEq)]
pub enum ResponseBody<'a> {
    Reply(Reply<'a>),
    ReplyErr(ReplyErr<'a>),
}

/// One answer to the query `rid`.
#[derive(Clone, Copy, Debug, PartialEq)]
pub struct Response<'a> {
    pub rid: u32,
    pub wire_expr: WireExpr<'a>,
    pub qos: QoS,
    pub respid: Option<EntityGlobalId>,
    pub payload: ResponseBody<'a>,
}

/// No more answers to the query `rid` will come.
#[derive(Clone, Copy, Debug, PartialEq, Eq, Structural)]
pub struct ResponseFinal {
    pub rid: u32,
    pub qos: QoS,
}

/// A query.
#[derive(Clone, Copy, Debug, PartialEq)]
pub struct Query<'a> {
    pub consolidation: ConsolidationMode,
    pub parameters: &'a str,
    pub body: Option<Value<'a>>,
}

#[derive(Clone, Copy, Debug, PartialEq)]
pub enum RequestBody<'a> {
    Query(Query<'a>),
}

/// Asks the queryables that match the expression.
#[derive(Clone, Copy, Debug, PartialEq)]
pub struct Request<'a> {
    pub id: u32,
    pub wire_expr: WireExpr<'a>,
    pub payload: RequestBody<'a>,
}

#[derive(Clone, Copy, Debug, PartialEq)]
pub enum NetworkBody<'a> {
    Push(Push<'a>),
    Request(Request<'a>),
    Response(Response<'a>),
    ResponseFinal(ResponseFinal),
    Interest(Interest<'a>),
    InterestFinal(InterestFinal),
    Declare(Declare<'a>),
}

/// A message between two sessions.
#[derive(Clone, Copy, Debug, PartialEq)]
pub struct NetworkMessage<'a> {
    pub reliability: Reliability,
    pub qos: QoS,
    pub body: NetworkBody<'a>,
}

} // verus!
