use vstd::prelude::*;

use crate::exts::{NodeId, QoS, QueryableInfo};
use crate::fields::{Mapping, Timestamp, WireExpr};

verus! {

/// Announces or withdraws one declaration, in answer to the interest `id` where there is one.
#[derive(Clone, Copy, Debug, PartialEq)]
pub struct Declare<'a> {
    pub id: Option<u32>,
    pub qos: QoS,
    pub timestamp: Option<Timestamp>,
    pub nodeid: NodeId,
    pub body: DeclareBody<'a>,
}

#[derive(Clone, Copy, Debug, PartialEq)]
pub enum DeclareBody<'a> {
    DeclareKeyExpr(DeclareKeyExpr<'a>),
    UndeclareKeyExpr(UndeclareKeyExpr),
    DeclareSubscriber(DeclareSubscriber<'a>),
    UndeclareSubscriber(UndeclareSubscriber<'a>),
    DeclareQueryable(DeclareQueryable<'a>),
    UndeclareQueryable(UndeclareQueryable<'a>),
    DeclareToken(DeclareToken<'a>),
    UndeclareToken(UndeclareToken<'a>),
    DeclareFinal(DeclareFinal),
}

impl<'a> Default for DeclareBody<'a> {
    fn default() -> (body: Self)
        ensures
            body is DeclareFinal,
    {
        DeclareBody::DeclareFinal(DeclareFinal {  })
    }
}

impl<'a> Default for Declare<'a> {
    fn default() -> (declare: Self)
        ensures
            declare.id is None,
            declare.qos == QoS::Data,
            declare.timestamp is None,
            declare.nodeid.node_id == 0,
            declare.body is DeclareFinal,
    {
        Declare {
            id: None,
            qos: QoS::default(),
            timestamp: None,
            nodeid: NodeId::default(),
            body: DeclareBody::default(),
        }
    }
}

/// The key expression that an undeclaration names.
///
/// Unlike a [`WireExpr`], whose flags stand in the header of the message that carries it, this shape
/// carries its own flags in its first byte, and its suffix runs to its end.
#[derive(Clone, Copy, Debug, PartialEq)]
pub struct UndeclaredKeyExpr<'a> {
    pub scope: u16,
    pub mapping: Mapping,
    pub suffix: &'a str,
}

impl<'a> UndeclaredKeyExpr<'a> {
    /// The same expression in the shape the rest of the library speaks.
    pub fn as_wire_expr(&self) -> (expr: WireExpr<'a>)
        ensures
            expr == (WireExpr { scope: self.scope, mapping: self.mapping, suffix: self.suffix }),
    {
        WireExpr { scope: self.scope, mapping: self.mapping, suffix: self.suffix }
    }
}

impl<'a> Default for UndeclaredKeyExpr<'a> {
    fn default() -> (expr: Self)
        ensures
            expr.scope == 0,
            expr.mapping == Mapping::Receiver,
            expr.suffix@ == Seq::<char>::empty(),
    {
        proof {
            reveal_strlit("");
        }
        UndeclaredKeyExpr { scope: 0, mapping: Mapping::default(), suffix: "" }
    }
}

#[derive(Clone, Copy, Debug, PartialEq)]
pub struct DeclareKeyExpr<'a> {
    pub id: u16,
    pub wire_expr: WireExpr<'a>,
}

#[derive(Clone, Copy, Debug, PartialEq, Eq, Structural)]
pub struct UndeclareKeyExpr {
    pub id: u16,
}

#[derive(Clone, Copy, Debug, PartialEq)]
pub struct DeclareSubscriber<'a> {
    pub id: u32,
    pub wire_expr: WireExpr<'a>,
}

#[derive(Clone, Copy, Debug, PartialEq)]
pub struct UndeclareSubscriber<'a> {
    pub id: u32,
    pub wire_expr: Option<UndeclaredKeyExpr<'a>>,
}

#[derive(Clone, Copy, Debug, PartialEq)]
pub struct DeclareQueryable<'a> {
    pub id: u32,
    pub wire_expr: WireExpr<'a>,
    pub qinfo: QueryableInfo,
}

#[derive(Clone, Copy, Debug, PartialEq)]
pub struct UndeclareQueryable<'a> {
    pub id: u32,
    pub wire_expr: Option<UndeclaredKeyExpr<'a>>,
}

#[derive(Clone, Copy, Debug, PartialEq)]
pub struct DeclareToken<'a> {
    pub id: u32,
    pub wire_expr: WireExpr<'a>,
}

#[derive(Clone, Copy, Debug, PartialEq)]
pub struct UndeclareToken<'a> {
    pub id: u32,
    pub wire_expr: Option<UndeclaredKeyExpr<'a>>,
}

/// Marks the end of the declarations that existed when an interest arrived.
#[derive(Clone, Copy, Debug, PartialEq, Eq, Structural)]
pub struct DeclareFinal {}

impl<'a> Default for DeclareKeyExpr<'a> {
    fn default() -> (declare: Self)
        ensures
            declare.id == 0,
            declare.wire_expr.spells(Seq::empty()),
    {
        DeclareKeyExpr { id: 0, wire_expr: WireExpr::default() }
    }
}

impl Default for UndeclareKeyExpr {
    fn default() -> (undeclare: Self)
        ensures
            undeclare.id == 0,
    {
        UndeclareKeyExpr { id: 0 }
    }
}

impl<'a> Default for DeclareSubscriber<'a> {
    fn default() -> (declare: Self)
        ensures
            declare.id == 0,
            declare.wire_expr.spells(Seq::empty()),
    {
        DeclareSubscriber { id: 0, wire_expr: WireExpr::default() }
    }
}

impl<'a> Default for UndeclareSubscriber<'a> {
    fn default() -> (undeclare: Self)
        ensures
            undeclare == (UndeclareSubscriber { id: 0, wire_expr: None }),
    {
        UndeclareSubscriber { id: 0, wire_expr: None }
    }
}

impl<'a> Default for DeclareQueryable<'a> {
    fn default() -> (declare: Self)
        ensures
            declare.id == 0,
            declare.wire_expr.spells(Seq::empty()),
            declare.qinfo == (QueryableInfo { complete: false, distance: 0 }),
    {
        DeclareQueryable { id: 0, wire_expr: WireExpr::default(), qinfo: QueryableInfo::default() }
    }
}

impl<'a> Default for UndeclareQueryable<'a> {
    fn default() -> (undeclare: Self)
        ensures
            undeclare == (UndeclareQueryable { id: 0, wire_expr: None }),
    {
        UndeclareQueryable { id: 0, wire_expr: None }
    }
}

impl<'a> Default for DeclareToken<'a> {
    fn default() -> (declare: Self)
        ensures
            declare.id == 0,
            declare.wire_expr.spells(Seq::empty()),
    {
        DeclareToken { id: 0, wire_expr: WireExpr::default() }
    }
}

impl<'a> Default for UndeclareToken<'a> {
    fn default() -> (undeclare: Self)
        ensures
            undeclare == (UndeclareToken { id: 0, wire_expr: None }),
    {
        UndeclareToken { id: 0, wire_expr: None }
    }
}

impl Default for DeclareFinal {
    fn default() -> (last: Self)
        ensures
            last == (DeclareFinal {  }),
    {
        DeclareFinal {  }
    }
}

} // verus!
