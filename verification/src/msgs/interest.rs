use vstd::prelude::*;

use crate::exts::QoS;
use crate::fields::WireExpr;

verus! {

/// Which declarations an interest asks for.
#[derive(Clone, Copy, Debug, PartialEq, Eq, Structural)]
pub enum InterestMode {
    /// Cancels an outstanding interest.
    Final,
    /// Those that exist now.
    Current,
    /// Those to come.
    Future,
    /// Those that exist now and those to come.
    CurrentFuture,
}

/// The kinds of declarations an interest asks for, one bit each.
#[derive(Clone, Copy, Debug, PartialEq, Eq, Structural)]
pub struct InterestOptions {
    pub options: u8,
}

impl InterestOptions {
    pub const KEYEXPRS: u8 = 0x01;

    pub const SUBSCRIBERS: u8 = 0x02;

    pub const QUERYABLES: u8 = 0x04;

    pub const TOKENS: u8 = 0x08;

    /// The kinds whose bits are set in `options`.
    pub fn new(options: u8) -> (kinds: Self)
        ensures
            kinds.options == options,
    {
        InterestOptions { options }
    }
}

/// What an interest is about.
#[derive(Clone, Copy, Debug, PartialEq)]
pub struct InterestInner<'a> {
    pub options: u8,
    pub wire_expr: Option<WireExpr<'a>>,
}

/// Asks a peer for its declarations.
#[derive(Clone, Copy, Debug, PartialEq)]
pub struct Interest<'a> {
    pub id: u32,
    pub mode: InterestMode,
    pub qos: QoS,
    pub inner: InterestInner<'a>,
}

/// Cancels an interest. It names nothing but its id.
#[derive(Clone, Copy, Debug, PartialEq, Eq, Structural)]
pub struct InterestFinal {
    pub id: u32,
    pub qos: QoS,
}

/// Every kind of declaration has a bit of its own.
pub proof fn law_every_kind_has_its_own_bit()
    ensures
        InterestOptions::KEYEXPRS == 1,
        InterestOptions::SUBSCRIBERS == 2,
        InterestOptions::QUERYABLES == 4,
        InterestOptions::TOKENS == 8,
{
}

} // verus!
