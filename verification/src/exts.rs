use vstd::prelude::*;

use crate::fields::{Encoding, ZenohIdProto};

verus! {

/// Priority and congestion control of a message.
#[derive(Clone, Copy, Debug, PartialEq, Eq, Structural)]
pub enum QoS {
    /// Ordinary data.
    Data,
    /// Declarations and interests.
    Declare,
    /// Data that waits for room rather than being dropped.
    Blocking,
}

impl QoS {
    pub fn declare() -> (qos: QoS)
        ensures
            qos == QoS::Declare,
    {
        QoS::Declare
    }

    pub fn blocking() -> (qos: QoS)
        ensures
            qos == QoS::Blocking,
    {
        QoS::Blocking
    }
}

impl Default for QoS {
    fn default() -> (qos: Self)
        ensures
            qos == QoS::Data,
    {
        QoS::Data
    }
}

/// The node that a message was routed for.
#[derive(Clone, Copy, Debug, PartialEq, Eq, Structural)]
pub struct NodeId {
    pub node_id: u16,
}

impl Default for NodeId {
    fn default() -> (id: Self)
        ensures
            id.node_id == 0,
    {
        NodeId { node_id: 0 }
    }
}

/// One entity of one node.
#[derive(Clone, Copy, Debug, PartialEq, Eq, Structural)]
pub struct EntityGlobalId {
    pub zid: ZenohIdProto,
    pub eid: u32,
}

/// Who produced a value, and at which point of its sequence.
#[derive(Clone, Copy, Debug, PartialEq, Eq, Structural)]
pub struct SourceInfo {
    pub id: EntityGlobalId,
    pub sn: u32,
}

/// Opaque application metadata beside a value.
#[derive(Clone, Copy, Debug, PartialEq)]
pub struct Attachment<'a> {
    pub buffer: &'a [u8],
}

/// A value inside a query.
#[derive(Clone, Copy, Debug, PartialEq)]
pub struct Value<'a> {
    pub encoding: Encoding<'a>,
    pub payload: &'a [u8],
}

/// How well a queryable answers.
#[derive(Clone, Copy, Debug, PartialEq, Eq, Structural)]
pub struct QueryableInfo {
    pub complete: bool,
    pub distance: u16,
}

impl Default for QueryableInfo {
    fn default() -> (info: Self)
        ensures
            info == (QueryableInfo { complete: false, distance: 0 }),
    {
        QueryableInfo { complete: false, distance: 0 }
    }
}

} // verus!
