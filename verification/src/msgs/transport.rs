use vstd::prelude::*;

use crate::fields::{BatchSize, Resolution, ZenohIdProto};
use crate::time::Duration;

verus! {

/// Who sends an `InitSyn` or an `InitAck`.
#[derive(Clone, Copy, Debug, PartialEq, Eq, Structural)]
pub struct InitIdentifier {
    pub zid: ZenohIdProto,
}

impl Default for InitIdentifier {
    fn default() -> (identifier: Self)
        ensures
            identifier.zid@ == 1,
    {
        InitIdentifier { zid: ZenohIdProto::default() }
    }
}

/// What an `InitSyn` offers and an `InitAck` selects.
#[derive(Clone, Copy, Debug, PartialEq, Eq, Structural)]
pub struct InitResolution {
    pub resolution: Resolution,
    pub batch_size: BatchSize,
}

impl Default for InitResolution {
    fn default() -> (resolution: Self)
        ensures
            resolution.resolution == (Resolution {
                frame_sn: crate::fields::Bits::U32,
                request_id: crate::fields::Bits::U32,
            }),
            resolution.batch_size == BatchSize(u16::MAX),
    {
        InitResolution { resolution: Resolution::default(), batch_size: BatchSize(u16::MAX) }
    }
}

/// First message of the handshake, from the end that connects.
#[derive(Clone, Copy, Debug)]
pub struct InitSyn {
    pub identifier: InitIdentifier,
    pub resolution: InitResolution,
}

/// Answer to an [`InitSyn`], with the cookie to echo.
#[derive(Clone, Copy, Debug)]
pub struct InitAck<'a> {
    pub identifier: InitIdentifier,
    pub resolution: InitResolution,
    pub cookie: &'a [u8],
}

/// Answer to an [`InitAck`], with its cookie.
#[derive(Clone, Copy, Debug)]
pub struct OpenSyn<'a> {
    pub lease: Duration,
    pub sn: u32,
    pub cookie: &'a [u8],
}

/// Last message of the handshake, from the end that listens.
#[derive(Clone, Copy, Debug)]
pub struct OpenAck {
    pub lease: Duration,
    pub sn: u32,
}

impl Default for InitSyn {
    fn default() -> (syn: Self)
        ensures
            syn.identifier.zid@ == 1,
            syn.resolution.batch_size == BatchSize(u16::MAX),
    {
        InitSyn { identifier: InitIdentifier::default(), resolution: InitResolution::default() }
    }
}

impl<'a> Default for InitAck<'a> {
    fn default() -> (ack: Self)
        ensures
            ack.identifier.zid@ == 1,
            ack.resolution.batch_size == BatchSize(u16::MAX),
            ack.cookie@ == Seq::<u8>::empty(),
    {
        InitAck {
            identifier: InitIdentifier::default(),
            resolution: InitResolution::default(),
            cookie: &[],
        }
    }
}

impl<'a> Default for OpenSyn<'a> {
    fn default() -> (syn: Self)
        ensures
            syn.lease.nanoseconds() == 0,
            syn.sn == 0,
            syn.cookie@ == Seq::<u8>::empty(),
    {
        OpenSyn { lease: Duration::default(), sn: 0, cookie: &[] }
    }
}

impl Default for OpenAck {
    fn default() -> (ack: Self)
        ensures
            ack.lease.nanoseconds() == 0,
            ack.sn == 0,
    {
        OpenAck { lease: Duration::default(), sn: 0 }
    }
}

/// A message between the two ends of one transport.
#[derive(Clone, Copy, Debug)]
pub enum TransportMessage<'a> {
    InitSyn(InitSyn),
    InitAck(InitAck<'a>),
    OpenSyn(OpenSyn<'a>),
    OpenAck(OpenAck),
    Close,
    KeepAlive,
}

} // verus!
