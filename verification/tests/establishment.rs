use zenoh_nostd::establishment::{
    compute_sn, cookie_digest, select_resolution, selected_resolution_is_valid, Description, State,
};
use zenoh_nostd::fields::{BatchSize, Bits, Field, Resolution, ZenohIdProto};
use zenoh_nostd::msgs::transport::{
    InitAck, InitIdentifier, InitResolution, InitSyn, OpenAck, OpenSyn, TransportMessage,
};
use zenoh_nostd::time::Duration;

#[test]
fn transport_state_handshake() {
    let a_zid = ZenohIdProto::default();
    let mut a = State::WaitingInitSyn {
        mine_zid: a_zid,
        mine_batch_size: 512,
        mine_resolution: Resolution::default(),
        mine_lease: Duration::from_secs(30),
    };

    let b_zid = ZenohIdProto::default();
    let mut b = State::WaitingInitAck {
        mine_zid: b_zid,
        mine_batch_size: 1025,
        mine_resolution: Resolution::default(),
        mine_lease: Duration::from_secs(37),
    };

    let init = InitSyn {
        identifier: InitIdentifier {
            zid: b_zid,
            ..Default::default()
        },
        resolution: InitResolution {
            resolution: Resolution::default(),
            batch_size: BatchSize(1025),
        },
        ..Default::default()
    };

    let mut buff: &[u8] = b"the bytes of the first message";
    let mut next = Some(TransportMessage::InitSyn(init));
    let mut desc = None;
    let mut current = &mut a;
    let mut other = &mut b;

    for _ in 0..4 {
        if let Some(response) = next {
            (next, desc) = current.poll((response, buff));
            core::mem::swap(&mut current, &mut other);

            buff = &[];
        }
    }

    assert!(desc.is_some());
    assert!(a.description().is_some() && b.description().is_some());
    assert_eq!(desc.unwrap().batch_size, 512);
    assert_eq!(desc.unwrap().resolution, Resolution::default());
}

#[test]
fn initial_sequence_number_uses_the_negotiated_resolution() {
    let mut offered = Resolution::default();
    offered.set(Field::FrameSN, Bits::U8);
    let mut initiator = State::WaitingInitAck {
        mine_zid: ZenohIdProto::default(),
        mine_batch_size: 512,
        mine_resolution: Resolution::default(),
        mine_lease: Duration::from_secs(30),
    };
    let peer = ZenohIdProto::default();
    let ack = InitAck {
        identifier: InitIdentifier {
            zid: peer,
            ..Default::default()
        },
        resolution: InitResolution {
            resolution: offered,
            batch_size: BatchSize(512),
        },
        ..Default::default()
    };

    let (reply, _) = initiator.poll((TransportMessage::InitAck(ack), &[]));
    let Some(TransportMessage::OpenSyn(open)) = reply else {
        panic!("InitAck must produce OpenSyn");
    };
    assert!(open.sn <= Bits::U8.transport_sn_mask());
}

#[test]
fn acceptor_selects_the_smaller_offered_resolution() {
    let mut offered = Resolution::default();
    offered.set(Field::FrameSN, Bits::U8);
    offered.set(Field::RequestID, Bits::U16);

    let mut acceptor = State::WaitingInitSyn {
        mine_zid: ZenohIdProto::default(),
        mine_batch_size: 512,
        mine_resolution: Resolution::default(),
        mine_lease: Duration::from_secs(30),
    };
    let syn = InitSyn {
        identifier: InitIdentifier::default(),
        resolution: InitResolution {
            resolution: offered,
            batch_size: BatchSize(1024),
        },
        ..Default::default()
    };

    let (reply, _) = acceptor.poll((TransportMessage::InitSyn(syn), b"encoded-init-syn"));
    let Some(TransportMessage::InitAck(ack)) = reply else {
        panic!("InitSyn must produce InitAck");
    };
    assert_eq!(ack.resolution.batch_size, BatchSize(512));
    assert_eq!(ack.resolution.resolution.get(Field::FrameSN), Bits::U8);
    assert_eq!(ack.resolution.resolution.get(Field::RequestID), Bits::U16);
}

#[test]
fn acceptor_rejects_a_tampered_cookie() {
    let mut acceptor = State::WaitingInitSyn {
        mine_zid: ZenohIdProto::default(),
        mine_batch_size: 512,
        mine_resolution: Resolution::default(),
        mine_lease: Duration::from_secs(30),
    };
    let syn = InitSyn {
        identifier: InitIdentifier::default(),
        resolution: InitResolution {
            resolution: Resolution::default(),
            batch_size: BatchSize(512),
        },
        ..Default::default()
    };
    let (reply, _) = acceptor.poll((TransportMessage::InitSyn(syn), b"encoded-init-syn"));
    assert!(matches!(reply, Some(TransportMessage::InitAck(_))));

    let open = OpenSyn {
        lease: Duration::from_secs(30),
        sn: 0,
        cookie: b"tampered-init-syn",
        ..Default::default()
    };
    let (reply, description) = acceptor.poll((TransportMessage::OpenSyn(open), &[]));

    assert!(reply.is_none());
    assert!(description.is_none());
    assert!(acceptor.description().is_none());
}

fn acceptor() -> State {
    State::WaitingInitSyn {
        mine_zid: ZenohIdProto::new(0x0a0b).unwrap(),
        mine_batch_size: 512,
        mine_resolution: Resolution::default(),
        mine_lease: Duration::from_secs(30),
    }
}

fn initiator() -> State {
    State::WaitingInitAck {
        mine_zid: ZenohIdProto::new(0x0c).unwrap(),
        mine_batch_size: 1025,
        mine_resolution: Resolution {
            frame_sn: Bits::U16,
            request_id: Bits::U64,
        },
        mine_lease: Duration::from_secs(37),
    }
}

fn init_syn() -> InitSyn {
    InitSyn {
        identifier: InitIdentifier {
            zid: ZenohIdProto::new(0x0c).unwrap(),
        },
        resolution: InitResolution {
            resolution: Resolution {
                frame_sn: Bits::U16,
                request_id: Bits::U64,
            },
            batch_size: BatchSize(1025),
        },
    }
}

#[test]
fn both_ends_describe_the_same_transport() {
    let mut a = acceptor();
    let mut b = initiator();
    let (ack, none) = a.poll((TransportMessage::InitSyn(init_syn()), b"cookie"));
    assert!(none.is_none());
    let (open, none) = b.poll((ack.unwrap(), &[]));
    assert!(none.is_none());
    let (last, a_desc) = a.poll((open.unwrap(), &[]));
    let (silence, b_desc) = b.poll((last.unwrap(), &[]));
    assert!(silence.is_none());
    let (a_desc, b_desc): (Description, Description) = (a_desc.unwrap(), b_desc.unwrap());

    assert_eq!(a_desc.batch_size, 512);
    assert_eq!(b_desc.batch_size, 512);
    assert_eq!(a_desc.resolution, b_desc.resolution);
    assert_eq!(a_desc.resolution.get(Field::FrameSN), Bits::U16);
    assert_eq!(a_desc.resolution.get(Field::RequestID), Bits::U32);
    assert_eq!(a_desc.mine_zid, b_desc.other_zid);
    assert_eq!(a_desc.other_zid, b_desc.mine_zid);
    assert_eq!(a_desc.mine_sn, b_desc.other_sn);
    assert_eq!(a_desc.other_sn, b_desc.mine_sn);
    assert_eq!(a_desc.other_lease, Duration::from_secs(37));
    assert_eq!(b_desc.other_lease, Duration::from_secs(30));
    assert!(a_desc.mine_sn <= 0x3fff && b_desc.mine_sn <= 0x3fff);

    // An open transport stays as it is.
    let (reply, again) = a.poll((TransportMessage::InitSyn(init_syn()), b"other"));
    assert!(reply.is_none());
    assert_eq!(again, Some(a_desc));
    assert_eq!(a.description(), Some(a_desc));
}

#[test]
fn the_digest_is_the_one_of_shake128() {
    // SHAKE128 of the empty message.
    assert_eq!(
        cookie_digest(b"")[..8],
        [0x7f, 0x9c, 0x2b, 0xa4, 0xe8, 0x8f, 0x82, 0x7d]
    );
    assert_ne!(cookie_digest(b"a"), cookie_digest(b"b"));
}

#[test]
fn sequence_numbers_depend_on_the_order_of_the_peers() {
    let a = ZenohIdProto::new(0x0a0b).unwrap();
    let b = ZenohIdProto::new(0x0c).unwrap();
    let wide = Resolution {
        frame_sn: Bits::U64,
        request_id: Bits::U32,
    };
    let narrow = Resolution {
        frame_sn: Bits::U8,
        request_id: Bits::U32,
    };
    let full = compute_sn(a, b, wide);
    assert_ne!(full, compute_sn(b, a, wide));
    assert_eq!(compute_sn(a, b, narrow), full & 0x7f);
    assert_eq!(compute_sn(a, b, Resolution::default()), full & 0x0fff_ffff);
    let digest = cookie_digest(&[0x0b, 0x0a, 0x0c]);
    let bytes = [digest[0], digest[1], digest[2], digest[3]];
    assert_eq!(full, u32::from_le_bytes(bytes));
}

#[test]
fn a_selection_wider_than_the_offer_is_refused() {
    let mut b = initiator();
    let ack = InitAck {
        resolution: InitResolution {
            resolution: Resolution::default(),
            batch_size: BatchSize(100),
        },
        ..Default::default()
    };
    let (reply, opened) = b.poll((TransportMessage::InitAck(ack), &[]));
    assert!(reply.is_none() && opened.is_none());
    assert!(matches!(b, State::WaitingInitAck { .. }));
}

#[test]
fn unexpected_messages_change_nothing() {
    let mut a = acceptor();
    for msg in [
        TransportMessage::InitAck(InitAck::default()),
        TransportMessage::OpenSyn(OpenSyn::default()),
        TransportMessage::OpenAck(OpenAck::default()),
        TransportMessage::Close,
        TransportMessage::KeepAlive,
    ] {
        let (reply, opened) = a.poll((msg, &[]));
        assert!(reply.is_none() && opened.is_none());
    }
    assert!(matches!(
        a,
        State::WaitingInitSyn {
            mine_batch_size: 512,
            ..
        }
    ));
}

#[test]
fn the_smaller_width_is_selected() {
    let a = Resolution {
        frame_sn: Bits::U8,
        request_id: Bits::U64,
    };
    let b = Resolution {
        frame_sn: Bits::U16,
        request_id: Bits::U16,
    };
    let both = select_resolution(a, b);
    assert_eq!(both.get(Field::FrameSN), Bits::U8);
    assert_eq!(both.get(Field::RequestID), Bits::U16);
    assert!(selected_resolution_is_valid(a, both));
    assert!(selected_resolution_is_valid(b, both));
    assert!(!selected_resolution_is_valid(b, a));
}

#[test]
fn identifiers_are_spelled_from_the_least_significant_byte() {
    let zid = ZenohIdProto::from_le_bytes(&[0x0b, 0x0a, 0, 0]).unwrap();
    assert_eq!(zid.as_u128(), 0x0a0b);
    assert_eq!(zid.size(), 2);
    assert_eq!(zid.as_le_bytes()[..3], [0x0b, 0x0a, 0]);
    assert_eq!(ZenohIdProto::from_le_bytes(&zid.as_le_bytes()), Some(zid));
    let widest = ZenohIdProto::from_le_bytes(&[0xff; 16]).unwrap();
    assert_eq!((widest.as_u128(), widest.size()), (u128::MAX, 16));
    assert!(ZenohIdProto::from_le_bytes(&[1; 17]).is_none());
    assert!(ZenohIdProto::from_le_bytes(&[0, 0]).is_none());
    assert!(ZenohIdProto::from_le_bytes(&[]).is_none());
    assert!(ZenohIdProto::try_from(&[0_u8][..]).is_err());
}

#[test]
fn masks_leave_seven_bits_a_byte() {
    assert_eq!(Bits::U8.transport_sn_mask(), 0x7f);
    assert_eq!(Bits::U16.transport_sn_mask(), 0x3fff);
    assert_eq!(Bits::U32.transport_sn_mask(), 0x0fff_ffff);
    assert_eq!(Bits::U64.transport_sn_mask(), u32::MAX);
}
