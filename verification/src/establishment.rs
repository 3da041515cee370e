use vstd::prelude::*;

use crate::digest::squeeze;
use crate::fields::{BatchSize, Field, Resolution, ZenohIdProto};
use crate::msgs::transport::{
    InitAck, InitIdentifier, InitResolution, OpenAck, OpenSyn, TransportMessage,
};
use crate::time::Duration;

verus! {

/// Everything that describes an opened transport between two peers.
#[derive(Clone, Copy, Debug, PartialEq, Eq, Structural)]
pub struct Description {
    pub mine_zid: ZenohIdProto,
    pub batch_size: u16,
    pub resolution: Resolution,
    pub mine_lease: Duration,
    pub other_lease: Duration,
    pub mine_sn: u32,
    pub other_sn: u32,
    pub other_zid: ZenohIdProto,
}

/// How far one end of a transport has come in the handshake.
#[derive(Clone, Copy, Debug)]
pub enum State {
    WaitingInitSyn {
        mine_zid: ZenohIdProto,
        /// Largest batch this end accepts.
        mine_batch_size: u16,
        /// Widest fields this end accepts.
        mine_resolution: Resolution,
        mine_lease: Duration,
    },
    WaitingOpenSyn {
        mine_zid: ZenohIdProto,
        /// Negotiated batch size.
        batch_size: u16,
        /// Negotiated resolution.
        resolution: Resolution,
        mine_lease: Duration,
        /// Peer that sent the `InitSyn`.
        other_zid: ZenohIdProto,
        /// Integrity check for the opaque cookie echoed in the `OpenSyn`.
        cookie_digest: [u8; 32],
    },
    WaitingInitAck {
        mine_zid: ZenohIdProto,
        /// Largest batch this end accepts.
        mine_batch_size: u16,
        /// Widest fields this end accepts.
        mine_resolution: Resolution,
        mine_lease: Duration,
    },
    WaitingOpenAck {
        mine_zid: ZenohIdProto,
        /// Negotiated batch size.
        batch_size: u16,
        /// Negotiated resolution.
        resolution: Resolution,
        /// First sequence number this end sends.
        sn: u32,
        mine_lease: Duration,
        other_zid: ZenohIdProto,
    },
    Opened(Description),
}

/// First sequence number that the end `mine` of a transport to `other` sends.
pub open spec fn initial_sn(
    mine: ZenohIdProto,
    other: ZenohIdProto,
    resolution: Resolution,
) -> u32 {
    vstd::bytes::spec_u32_from_le_bytes(
        crate::digest::shake128(mine.wire_bytes() + other.wire_bytes(), 4),
    ) & resolution.frame_sn.sn_mask()
}

/// The smaller of two batch sizes.
pub open spec fn smaller(a: u16, b: u16) -> u16 {
    if a <= b {
        a
    } else {
        b
    }
}

pub fn compute_sn(zid1: ZenohIdProto, zid2: ZenohIdProto, resolution: Resolution) -> (sn: u32)
    ensures
        sn == initial_sn(zid1, zid2, resolution),
        sn <= resolution.frame_sn.sn_mask(),
{
    let first: Vec<u8> = zid1.as_le_bytes();
    let second: Vec<u8> = zid2.as_le_bytes();
    let mut input: Vec<u8> = Vec::new();
    input.extend_from_slice(vstd::slice::slice_subrange(first.as_slice(), 0, zid1.size()));
    input.extend_from_slice(vstd::slice::slice_subrange(second.as_slice(), 0, zid2.size()));
    assert(input@ == zid1.wire_bytes() + zid2.wire_bytes());
    let bytes: Vec<u8> = squeeze(input.as_slice(), 4);
    let number: u32 = vstd::bytes::u32_from_le_bytes(bytes.as_slice());
    let mask: u32 = resolution.get(Field::FrameSN).transport_sn_mask();
    assert(number & mask <= mask) by (bit_vector);
    number & mask
}

pub fn select_resolution(mine: Resolution, offered: Resolution) -> (selected: Resolution)
    ensures
        selected == mine.meet(offered),
{
    let mut selected: Resolution = Resolution::default();
    selected.set(Field::FrameSN, mine.get(Field::FrameSN).min(offered.get(Field::FrameSN)));
    selected.set(Field::RequestID, mine.get(Field::RequestID).min(offered.get(Field::RequestID)));
    assert(selected.width(Field::FrameSN) == mine.meet(offered).frame_sn);
    assert(selected.width(Field::RequestID) == mine.meet(offered).request_id);
    selected
}

pub fn selected_resolution_is_valid(mine: Resolution, selected: Resolution) -> (valid: bool)
    ensures
        valid <==> selected.within(mine),
{
    selected.get(Field::FrameSN).fits_in(mine.get(Field::FrameSN)) && selected.get(
        Field::RequestID,
    ).fits_in(mine.get(Field::RequestID))
}

pub fn cookie_digest(cookie: &[u8]) -> (digest: [u8; 32])
    ensures
        digest@ == crate::digest::shake128(cookie@, 32),
{
    let bytes: Vec<u8> = squeeze(cookie, 32);
    let mut digest: [u8; 32] = [0; 32];
    let mut at: usize = 0;
    while at < 32
        invariant
            at <= 32,
            bytes@.len() == 32,
            forall|i: int| 0 <= i < at ==> digest@[i] == bytes@[i],
        decreases 32 - at,
    {
        digest[at] = bytes[at];
        at = at + 1;
    }
    assert(digest@ == bytes@);
    digest
}

fn same_digest(a: &[u8; 32], b: &[u8; 32]) -> (same: bool)
    ensures
        same <==> a@ == b@,
{
    let mut at: usize = 0;
    while at < 32
        invariant
            at <= 32,
            forall|i: int| 0 <= i < at ==> a@[i] == b@[i],
        decreases 32 - at,
    {
        if a[at] != b[at] {
            assert(a@[at as int] != b@[at as int]);
            return false;
        }
        at = at + 1;
    }
    assert(a@ == b@);
    true
}

impl State {
    /// What a state does with the message `msg`, whose encoding is `buff`: the state that follows,
    /// the message to answer and the description of the transport once it is open.
    ///
    /// A message that the state does not wait for, a selected resolution wider than the offered one
    /// and a cookie other than the one handed out change nothing and are not answered.
    pub open spec fn transition<'a>(
        pre: State,
        msg: TransportMessage<'a>,
        buff: &'a [u8],
        post: State,
        reply: Option<TransportMessage<'a>>,
        opened: Option<Description>,
    ) -> bool {
        match (pre, msg) {
            (State::Opened(description), _) => {
                &&& post == pre
                &&& reply is None
                &&& opened == Some(description)
            },
            (
                State::WaitingInitSyn { mine_zid, mine_batch_size, mine_resolution, mine_lease },
                TransportMessage::InitSyn(syn),
            ) => {
                let negotiated = smaller(mine_batch_size, syn.resolution.batch_size.0);
                let selected = mine_resolution.meet(syn.resolution.resolution);
                &&& post matches State::WaitingOpenSyn {
                    mine_zid: zid,
                    batch_size,
                    resolution,
                    mine_lease: lease,
                    other_zid,
                    cookie_digest,
                }
                &&& zid == mine_zid
                &&& batch_size == negotiated
                &&& resolution == selected
                &&& lease == mine_lease
                &&& other_zid == syn.identifier.zid
                &&& cookie_digest@ == crate::digest::shake128(buff@, 32)
                &&& reply == Some(
                    TransportMessage::InitAck(
                        InitAck {
                            identifier: InitIdentifier { zid: mine_zid },
                            resolution: InitResolution {
                                resolution: selected,
                                batch_size: BatchSize(negotiated),
                            },
                            cookie: buff,
                        },
                    ),
                )
                &&& opened is None
            },
            (
                State::WaitingInitAck { mine_zid, mine_batch_size, mine_resolution, mine_lease },
                TransportMessage::InitAck(ack),
            ) => {
                let selected = ack.resolution.resolution;
                let other_zid = ack.identifier.zid;
                let sn = initial_sn(mine_zid, other_zid, selected);
                if selected.within(mine_resolution) {
                    &&& post == (State::WaitingOpenAck {
                        mine_zid,
                        batch_size: smaller(mine_batch_size, ack.resolution.batch_size.0),
                        resolution: selected,
                        sn,
                        mine_lease,
                        other_zid,
                    })
                    &&& reply == Some(
                        TransportMessage::OpenSyn(
                            OpenSyn { lease: mine_lease, sn, cookie: ack.cookie },
                        ),
                    )
                    &&& opened is None
                } else {
                    State::refused(pre, post, reply, opened)
                }
            },
            (
                State::WaitingOpenSyn {
                    mine_zid,
                    batch_size,
                    resolution,
                    mine_lease,
                    other_zid,
                    cookie_digest,
                },
                TransportMessage::OpenSyn(open),
            ) => {
                let sn = initial_sn(mine_zid, other_zid, resolution);
                let description = Description {
                    mine_zid,
                    batch_size,
                    resolution,
                    mine_lease,
                    other_lease: open.lease,
                    mine_sn: sn,
                    other_sn: open.sn,
                    other_zid,
                };
                if crate::digest::shake128(open.cookie@, 32) == cookie_digest@ {
                    &&& post == State::Opened(description)
                    &&& reply == Some(
                        TransportMessage::OpenAck(OpenAck { lease: mine_lease, sn }),
                    )
                    &&& opened == Some(description)
                } else {
                    State::refused(pre, post, reply, opened)
                }
            },
            (
                State::WaitingOpenAck {
                    mine_zid,
                    batch_size,
                    resolution,
                    sn,
                    mine_lease,
                    other_zid,
                },
                TransportMessage::OpenAck(ack),
            ) => {
                let description = Description {
                    mine_zid,
                    batch_size,
                    resolution,
                    mine_lease,
                    other_lease: ack.lease,
                    mine_sn: sn,
                    other_sn: ack.sn,
                    other_zid,
                };
                &&& post == State::Opened(description)
                &&& reply is None
                &&& opened == Some(description)
            },
            _ => State::refused(pre, post, reply, opened),
        }
    }

    /// Nothing changes and nothing is answered.
    pub open spec fn refused<'a>(
        pre: State,
        post: State,
        reply: Option<TransportMessage<'a>>,
        opened: Option<Description>,
    ) -> bool {
        &&& post == pre
        &&& reply is None
        &&& opened is None
    }

    /// Takes the message `input.0`, whose encoding is `input.1`, one step through the handshake.
    pub fn poll<'a>(&mut self, input: (TransportMessage<'a>, &'a [u8])) -> (outcome: (
        Option<TransportMessage<'a>>,
        Option<Description>,
    ))
        ensures
            State::transition(
                *old(self),
                input.0,
                input.1,
                *final(self),
                outcome.0,
                outcome.1,
            ),
    {
        if let State::Opened(description) = *self {
            return (None, Some(description));
        }
        let (msg, buff) = input;
        match msg {
            // The state outlives the exchange between InitSyn and OpenSyn, so the negotiated values
            // stay in it and the echoed cookie is only an opaque integrity token.
            TransportMessage::InitSyn(syn) => match *self {
                State::WaitingInitSyn {
                    mine_zid,
                    mine_batch_size,
                    mine_resolution,
                    mine_lease,
                } => {
                    let offered: u16 = syn.resolution.batch_size.0;
                    let batch_size: u16 = if mine_batch_size <= offered {
                        mine_batch_size
                    } else {
                        offered
                    };
                    let resolution = select_resolution(mine_resolution, syn.resolution.resolution);
                    *self = State::WaitingOpenSyn {
                        mine_zid,
                        batch_size,
                        resolution,
                        mine_lease,
                        other_zid: syn.identifier.zid,
                        cookie_digest: cookie_digest(buff),
                    };
                    (
                        Some(
                            TransportMessage::InitAck(
                                InitAck {
                                    identifier: InitIdentifier { zid: mine_zid },
                                    resolution: InitResolution {
                                        resolution,
                                        batch_size: BatchSize(batch_size),
                                    },
                                    cookie: buff,
                                },
                            ),
                        ),
                        None,
                    )
                },
                _ => (None, None),
            },
            // Negotiate the values and hand the cookie back.
            TransportMessage::InitAck(ack) => match *self {
                State::WaitingInitAck {
                    mine_zid,
                    mine_batch_size,
                    mine_resolution,
                    mine_lease,
                } => {
                    let selected: u16 = ack.resolution.batch_size.0;
                    let batch_size: u16 = if mine_batch_size <= selected {
                        mine_batch_size
                    } else {
                        selected
                    };
                    let resolution = ack.resolution.resolution;
                    if !selected_resolution_is_valid(mine_resolution, resolution) {
                        return (None, None);
                    }
                    let sn: u32 = compute_sn(mine_zid, ack.identifier.zid, resolution);
                    *self = State::WaitingOpenAck {
                        mine_zid,
                        batch_size,
                        resolution,
                        sn,
                        mine_lease,
                        other_zid: ack.identifier.zid,
                    };
                    (
                        Some(
                            TransportMessage::OpenSyn(
                                OpenSyn { lease: mine_lease, sn, cookie: ack.cookie },
                            ),
                        ),
                        None,
                    )
                },
                _ => (None, None),
            },
            // Check the cookie, open the transport and acknowledge it.
            TransportMessage::OpenSyn(open) => match *self {
                State::WaitingOpenSyn {
                    mine_zid,
                    batch_size,
                    resolution,
                    mine_lease,
                    other_zid,
                    cookie_digest: expected,
                } => {
                    if !same_digest(&cookie_digest(open.cookie), &expected) {
                        return (None, None);
                    }
                    let sn: u32 = compute_sn(mine_zid, other_zid, resolution);
                    let description = Description {
                        mine_zid,
                        batch_size,
                        resolution,
                        mine_lease,
                        other_lease: open.lease,
                        mine_sn: sn,
                        other_sn: open.sn,
                        other_zid,
                    };
                    *self = State::Opened(description);
                    (
                        Some(TransportMessage::OpenAck(OpenAck { lease: mine_lease, sn })),
                        Some(description),
                    )
                },
                _ => (None, None),
            },
            // Open the transport.
            TransportMessage::OpenAck(ack) => match *self {
                State::WaitingOpenAck {
                    mine_zid,
                    batch_size,
                    resolution,
                    sn,
                    mine_lease,
                    other_zid,
                } => {
                    let description = Description {
                        mine_zid,
                        batch_size,
                        resolution,
                        mine_lease,
                        other_lease: ack.lease,
                        mine_sn: sn,
                        other_sn: ack.sn,
                        other_zid,
                    };
                    *self = State::Opened(description);
                    (None, Some(description))
                },
                _ => (None, None),
            },
            _ => (None, None),
        }
    }

    /// What the transport is like, once it is open.
    pub fn description(&self) -> (description: Option<Description>)
        ensures
            description == (match *self {
                State::Opened(description) => Some(description),
                _ => None,
            }),
    {
        match *self {
            State::Opened(description) => Some(description),
            _ => None,
        }
    }
}

/// The two descriptions are those of the two ends of one transport.
pub open spec fn mirrored(a: Description, b: Description) -> bool {
    &&& a.mine_zid == b.other_zid
    &&& a.other_zid == b.mine_zid
    &&& a.batch_size == b.batch_size
    &&& a.resolution == b.resolution
    &&& a.mine_lease == b.other_lease
    &&& a.other_lease == b.mine_lease
    &&& a.mine_sn == b.other_sn
    &&& a.other_sn == b.mine_sn
}

/// A first sequence number fits the resolution it is made for.
pub proof fn lemma_initial_sn_fits(mine: ZenohIdProto, other: ZenohIdProto, resolution: Resolution)
    ensures
        initial_sn(mine, other, resolution) <= resolution.frame_sn.sn_mask(),
{
    let number = vstd::bytes::spec_u32_from_le_bytes(
        crate::digest::shake128(mine.wire_bytes() + other.wire_bytes(), 4),
    );
    let mask = resolution.frame_sn.sn_mask();
    assert(number & mask <= mask) by (bit_vector);
}

/// A listening end and a connecting end that hand each other their messages both open the transport
/// in four steps, whatever their limits. They agree on what it is like: the smaller batch size, the
/// narrower resolution, and first sequence numbers that fit it.
pub proof fn law_handshake_opens_both_ends<'a>(
    listener: [State; 3],
    connector: [State; 3],
    syn: crate::msgs::transport::InitSyn,
    buffs: [&'a [u8]; 4],
    replies: [Option<TransportMessage<'a>>; 4],
    opened: [Option<Description>; 4],
)
    requires
        listener[0] is WaitingInitSyn,
        connector[0] is WaitingInitAck,
        syn.identifier.zid == connector[0]->WaitingInitAck_mine_zid,
        syn.resolution.resolution == connector[0]->WaitingInitAck_mine_resolution,
        syn.resolution.batch_size.0 == connector[0]->WaitingInitAck_mine_batch_size,
        State::transition(
            listener[0],
            TransportMessage::InitSyn(syn),
            buffs[0],
            listener[1],
            replies[0],
            opened[0],
        ),
        State::transition(
            connector[0],
            replies[0]->0,
            buffs[1],
            connector[1],
            replies[1],
            opened[1],
        ),
        State::transition(
            listener[1],
            replies[1]->0,
            buffs[2],
            listener[2],
            replies[2],
            opened[2],
        ),
        State::transition(
            connector[1],
            replies[2]->0,
            buffs[3],
            connector[2],
            replies[3],
            opened[3],
        ),
    ensures
        replies[0] is Some && replies[1] is Some && replies[2] is Some && replies[3] is None,
        opened[0] is None && opened[1] is None,
        opened[2] matches Some(l) && listener[2] == State::Opened(l),
        opened[3] matches Some(c) && connector[2] == State::Opened(c),
        mirrored(opened[2]->0, opened[3]->0),
        opened[2]->0.mine_zid == listener[0]->WaitingInitSyn_mine_zid,
        opened[3]->0.mine_zid == connector[0]->WaitingInitAck_mine_zid,
        opened[2]->0.mine_lease == listener[0]->WaitingInitSyn_mine_lease,
        opened[3]->0.mine_lease == connector[0]->WaitingInitAck_mine_lease,
        opened[2]->0.batch_size == smaller(
            listener[0]->WaitingInitSyn_mine_batch_size,
            connector[0]->WaitingInitAck_mine_batch_size,
        ),
        opened[2]->0.resolution == listener[0]->WaitingInitSyn_mine_resolution.meet(
            connector[0]->WaitingInitAck_mine_resolution,
        ),
        opened[2]->0.mine_sn <= opened[2]->0.resolution.frame_sn.sn_mask(),
        opened[2]->0.other_sn <= opened[2]->0.resolution.frame_sn.sn_mask(),
{
    let resolution = listener[0]->WaitingInitSyn_mine_resolution.meet(
        connector[0]->WaitingInitAck_mine_resolution,
    );
    let l = listener[0]->WaitingInitSyn_mine_zid;
    let c = connector[0]->WaitingInitAck_mine_zid;
    lemma_initial_sn_fits(l, c, resolution);
    lemma_initial_sn_fits(c, l, resolution);
}

/// A listening end answers an `InitSyn` with no more than either end accepts.
pub proof fn law_selection_is_within_both_offers<'a>(
    pre: State,
    syn: crate::msgs::transport::InitSyn,
    buff: &'a [u8],
    post: State,
    reply: Option<TransportMessage<'a>>,
    opened: Option<Description>,
)
    requires
        pre is WaitingInitSyn,
        State::transition(pre, TransportMessage::InitSyn(syn), buff, post, reply, opened),
    ensures
        reply matches Some(TransportMessage::InitAck(ack)) && {
            &&& ack.resolution.batch_size.0 <= pre->WaitingInitSyn_mine_batch_size
            &&& ack.resolution.batch_size.0 <= syn.resolution.batch_size.0
            &&& ack.resolution.resolution.within(pre->WaitingInitSyn_mine_resolution)
            &&& ack.resolution.resolution.within(syn.resolution.resolution)
        },
{
}

/// A listening end opens on the `OpenSyn` that follows only if its cookie has the digest of the
/// cookie it handed out, and then it does open. Any other cookie leaves it waiting, unanswered.
pub proof fn law_only_the_handed_out_cookie_opens<'a>(
    pre: State,
    syn: crate::msgs::transport::InitSyn,
    handed_out: &'a [u8],
    waiting: State,
    ack: Option<TransportMessage<'a>>,
    none: Option<Description>,
    open: OpenSyn<'a>,
    buff: &'a [u8],
    post: State,
    reply: Option<TransportMessage<'a>>,
    opened: Option<Description>,
)
    requires
        pre is WaitingInitSyn,
        State::transition(pre, TransportMessage::InitSyn(syn), handed_out, waiting, ack, none),
        State::transition(waiting, TransportMessage::OpenSyn(open), buff, post, reply, opened),
    ensures
        ack matches Some(TransportMessage::InitAck(ack)) && ack.cookie@ == handed_out@,
        open.cookie@ == handed_out@ ==> opened is Some,
        opened is Some <==> crate::digest::shake128(open.cookie@, 32) == crate::digest::shake128(
            handed_out@,
            32,
        ),
        opened is None ==> post == waiting && reply is None,
{
}

/// An open transport stays as it is, whatever arrives.
pub proof fn law_opened_is_terminal<'a>(
    description: Description,
    msg: TransportMessage<'a>,
    buff: &'a [u8],
    post: State,
    reply: Option<TransportMessage<'a>>,
    opened: Option<Description>,
)
    requires
        State::transition(State::Opened(description), msg, buff, post, reply, opened),
    ensures
        post == State::Opened(description),
        reply is None,
        opened == Some(description),
{
}

/// What a listening end does with an offer: it selects the smaller batch size and, field by field,
/// the narrower width, tells the other end with its own identifier, and hands out the bytes of the
/// offer as a cookie. It remembers who asked, what was selected and the digest of that cookie.
pub proof fn law_a_listener_answers_an_offer<'a>(
    pre: State,
    syn: crate::msgs::transport::InitSyn,
    buff: &'a [u8],
    post: State,
    reply: Option<TransportMessage<'a>>,
    opened: Option<Description>,
)
    requires
        pre is WaitingInitSyn,
        State::transition(pre, TransportMessage::InitSyn(syn), buff, post, reply, opened),
    ensures
        opened is None,
        reply matches Some(TransportMessage::InitAck(ack)) && {
            let mine = pre->WaitingInitSyn_mine_resolution;
            let offered = syn.resolution.resolution;
            let selected = ack.resolution.resolution;
            let size = ack.resolution.batch_size.0;
            &&& ack.identifier.zid == pre->WaitingInitSyn_mine_zid
            &&& ack.cookie == buff
            &&& size <= pre->WaitingInitSyn_mine_batch_size && size <= syn.resolution.batch_size.0
            &&& size == pre->WaitingInitSyn_mine_batch_size || size == syn.resolution.batch_size.0
            &&& selected.frame_sn.rank() <= mine.frame_sn.rank() && selected.frame_sn.rank()
                <= offered.frame_sn.rank()
            &&& selected.frame_sn == mine.frame_sn || selected.frame_sn == offered.frame_sn
            &&& selected.request_id.rank() <= mine.request_id.rank() && selected.request_id.rank()
                <= offered.request_id.rank()
            &&& selected.request_id == mine.request_id || selected.request_id == offered.request_id
            &&& post matches State::WaitingOpenSyn {
                mine_zid,
                batch_size,
                resolution,
                mine_lease,
                other_zid,
                cookie_digest,
            }
            &&& mine_zid == pre->WaitingInitSyn_mine_zid
            &&& batch_size == size
            &&& resolution == selected
            &&& mine_lease == pre->WaitingInitSyn_mine_lease
            &&& other_zid == syn.identifier.zid
            &&& cookie_digest@ == crate::digest::shake128(buff@, 32)
        },
{
}

/// What a connecting end does with a selection: it goes on if and only if no field is wider than what
/// it offered. It then takes the smaller batch size, echoes the cookie, and tells the other end its
/// lease and its first sequence number, which fits the selected width. Otherwise nothing changes and
/// nothing is answered.
pub proof fn law_a_connector_takes_what_it_offered<'a>(
    pre: State,
    ack: InitAck<'a>,
    buff: &'a [u8],
    post: State,
    reply: Option<TransportMessage<'a>>,
    opened: Option<Description>,
)
    requires
        pre is WaitingInitAck,
        State::transition(pre, TransportMessage::InitAck(ack), buff, post, reply, opened),
    ensures
        opened is None,
        ({
            let mine = pre->WaitingInitAck_mine_resolution;
            let selected = ack.resolution.resolution;
            let within = selected.frame_sn.rank() <= mine.frame_sn.rank()
                && selected.request_id.rank() <= mine.request_id.rank();
            &&& reply is Some <==> within
            &&& !within ==> post == pre
            &&& within ==> {
                &&& reply matches Some(TransportMessage::OpenSyn(open))
                &&& open.lease == pre->WaitingInitAck_mine_lease
                &&& open.cookie == ack.cookie
                &&& open.sn <= selected.frame_sn.sn_mask()
                &&& post matches State::WaitingOpenAck {
                    mine_zid,
                    batch_size,
                    resolution,
                    sn,
                    mine_lease,
                    other_zid,
                }
                &&& mine_zid == pre->WaitingInitAck_mine_zid
                &&& other_zid == ack.identifier.zid
                &&& resolution == selected
                &&& mine_lease == pre->WaitingInitAck_mine_lease
                &&& sn == open.sn
                &&& sn == initial_sn(mine_zid, other_zid, selected)
                &&& batch_size <= pre->WaitingInitAck_mine_batch_size && batch_size
                    <= ack.resolution.batch_size.0
                &&& batch_size == pre->WaitingInitAck_mine_batch_size || batch_size
                    == ack.resolution.batch_size.0
            }
        }),
{
    lemma_initial_sn_fits(
        pre->WaitingInitAck_mine_zid,
        ack.identifier.zid,
        ack.resolution.resolution,
    );
}

/// What the last two messages open: a transport with what the end had remembered, and with the lease
/// and the first sequence number that the other end tells in that message. The listening end tells
/// its own in return.
pub proof fn law_the_last_messages_open_the_transport<'a>(
    listener: State,
    open: OpenSyn<'a>,
    connector: State,
    ack: OpenAck,
    buffs: [&'a [u8]; 2],
    posts: [State; 2],
    replies: [Option<TransportMessage<'a>>; 2],
    opened: [Option<Description>; 2],
)
    requires
        listener is WaitingOpenSyn,
        connector is WaitingOpenAck,
        State::transition(
            listener,
            TransportMessage::OpenSyn(open),
            buffs[0],
            posts[0],
            replies[0],
            opened[0],
        ),
        State::transition(
            connector,
            TransportMessage::OpenAck(ack),
            buffs[1],
            posts[1],
            replies[1],
            opened[1],
        ),
    ensures
        ({
            let accepted = crate::digest::shake128(open.cookie@, 32)
                == listener->WaitingOpenSyn_cookie_digest@;
            &&& opened[0] is Some <==> accepted
            &&& replies[0] is Some <==> accepted
            &&& !accepted ==> posts[0] == listener
            &&& accepted ==> {
                let d = opened[0]->0;
                &&& posts[0] == State::Opened(d)
                &&& d.mine_zid == listener->WaitingOpenSyn_mine_zid
                &&& d.other_zid == listener->WaitingOpenSyn_other_zid
                &&& d.batch_size == listener->WaitingOpenSyn_batch_size
                &&& d.resolution == listener->WaitingOpenSyn_resolution
                &&& d.mine_lease == listener->WaitingOpenSyn_mine_lease
                &&& d.other_lease == open.lease
                &&& d.other_sn == open.sn
                &&& d.mine_sn == initial_sn(d.mine_zid, d.other_zid, d.resolution)
                &&& replies[0] matches Some(TransportMessage::OpenAck(told))
                &&& told.lease == d.mine_lease
                &&& told.sn == d.mine_sn
            }
        }),
        replies[1] is None,
        opened[1] matches Some(d) && {
            &&& posts[1] == State::Opened(d)
            &&& d.mine_zid == connector->WaitingOpenAck_mine_zid
            &&& d.other_zid == connector->WaitingOpenAck_other_zid
            &&& d.batch_size == connector->WaitingOpenAck_batch_size
            &&& d.resolution == connector->WaitingOpenAck_resolution
            &&& d.mine_lease == connector->WaitingOpenAck_mine_lease
            &&& d.other_lease == ack.lease
            &&& d.mine_sn == connector->WaitingOpenAck_sn
            &&& d.other_sn == ack.sn
        },
{
}

/// A message that an end does not wait for changes nothing and is not answered.
pub proof fn law_an_unexpected_message_is_ignored<'a>(
    pre: State,
    msg: TransportMessage<'a>,
    buff: &'a [u8],
    post: State,
    reply: Option<TransportMessage<'a>>,
    opened: Option<Description>,
)
    requires
        State::transition(pre, msg, buff, post, reply, opened),
        !(pre is Opened),
        pre is WaitingInitSyn ==> !(msg is InitSyn),
        pre is WaitingInitAck ==> !(msg is InitAck),
        pre is WaitingOpenSyn ==> !(msg is OpenSyn),
        pre is WaitingOpenAck ==> !(msg is OpenAck),
    ensures
        post == pre,
        reply is None,
        opened is None,
{
}

/// The first sequence number of an end is the number that the four first bytes of the digest of the
/// two identifiers spell, its own first, cut to the width of sequence numbers. The other field of the
/// resolution has no part in it.
pub proof fn law_first_sequence_numbers_come_from_the_identifiers(
    mine: ZenohIdProto,
    other: ZenohIdProto,
    resolution: Resolution,
    wide: Resolution,
)
    requires
        wide.frame_sn == crate::fields::Bits::U64,
    ensures
        initial_sn(mine, other, wide) == vstd::bytes::spec_u32_from_le_bytes(
            crate::digest::shake128(mine.wire_bytes() + other.wire_bytes(), 4),
        ),
        initial_sn(mine, other, resolution) == initial_sn(mine, other, wide)
            & resolution.frame_sn.sn_mask(),
{
    let number = vstd::bytes::spec_u32_from_le_bytes(
        crate::digest::shake128(mine.wire_bytes() + other.wire_bytes(), 4),
    );
    assert(number & 0xffff_ffff == number) by (bit_vector);
}

} // verus!
