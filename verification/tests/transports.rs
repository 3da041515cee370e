use zenoh_nostd::error::{LinkError, SessionError, TransportError, TransportLinkError};
use zenoh_nostd::establishment::State;
use zenoh_nostd::fields::{Resolution, ZenohIdProto};
use zenoh_nostd::io::driver::{
    Driver, EitherError, Run, RunAction, RunControl, RunEvent, RunPhase,
};
use zenoh_nostd::io::transport::{
    ConnectionRetryPolicy, HandshakeError, OpenAction, OpenEvent, Retrying, Transport,
    TransportLink, TransportLinkManager, TransportRx, TransportTx,
};
use zenoh_nostd::msgs::transport::TransportMessage;
use zenoh_nostd::time::{Duration, TickDuration};

type Event = RunEvent<SessionError>;
type Action = RunAction<SessionError>;

#[test]
fn reconnect_backoff_is_bounded() {
    let policy = ConnectionRetryPolicy::default();
    let mut delay = policy.initial_delay;
    for _ in 0..32 {
        delay = policy.next_delay(delay);
    }
    assert_eq!(delay, policy.maximum_delay);
}

#[test]
fn backoff_multiplies_up_to_its_maximum() {
    let policy = ConnectionRetryPolicy {
        initial_delay: TickDuration::from_millis(5),
        maximum_delay: TickDuration::from_millis(18),
        increase_factor: 2,
    };
    let mut delays = Vec::new();
    let mut delay = policy.initial_delay;
    for _ in 0..4 {
        delays.push(delay.as_ticks());
        delay = policy.next_delay(delay);
    }
    assert_eq!(delays, [5_000, 10_000, 18_000, 18_000]);

    let still = ConnectionRetryPolicy {
        increase_factor: 0,
        ..policy
    };
    assert_eq!(
        still.next_delay(still.initial_delay),
        TickDuration::from_millis(5)
    );
    let widest = ConnectionRetryPolicy {
        initial_delay: policy.initial_delay,
        maximum_delay: TickDuration::from_ticks(u64::MAX),
        increase_factor: u32::MAX,
    };
    assert_eq!(
        widest.next_delay(widest.maximum_delay).as_ticks(),
        u64::MAX
    );
}

#[test]
fn backoff_keeps_what_exceeds_a_whole_millisecond() {
    let policy = ConnectionRetryPolicy {
        initial_delay: TickDuration::from_ticks(500),
        maximum_delay: TickDuration::from_ticks(2_500),
        increase_factor: 2,
    };
    let mut retrying = Retrying::start(policy);
    let mut delays = Vec::new();
    for _ in 0..5 {
        match retrying.attempted::<()>(Err(TransportLinkError::TransportClosed)) {
            Ok(()) => unreachable!(),
            Err(delay) => delays.push(delay.as_ticks()),
        }
    }
    assert_eq!(delays, [500, 1_000, 2_000, 2_500, 2_500]);

    let over = TickDuration::from_ticks(9_999);
    assert_eq!(policy.next_delay(over), policy.maximum_delay);
}

#[test]
fn ticks_are_microseconds() {
    assert_eq!(TickDuration::from_millis(250).as_ticks(), 250_000);
    assert_eq!(TickDuration::from_secs(60).as_ticks(), 60_000_000);
}

#[test]
fn durations_keep_their_parts() {
    let duration = Duration::from_nanos(2_500_000_000);
    assert_eq!(
        (duration.as_secs(), duration.subsec_nanos()),
        (2, 500_000_000)
    );
    assert!(Duration::default().is_zero());
    assert!(!Duration::from_nanos(1).is_zero());
}

#[test]
fn attempts_wait_longer_and_longer() {
    let policy = ConnectionRetryPolicy {
        initial_delay: TickDuration::from_millis(5),
        maximum_delay: TickDuration::from_millis(10),
        increase_factor: 2,
    };
    let mut retrying = Retrying::start(policy);
    let failed = TransportLinkError::OpenTimeout;
    assert_eq!(
        retrying.attempted::<u8>(Err(failed)),
        Err(TickDuration::from_millis(5))
    );
    assert_eq!(
        retrying.attempted::<u8>(Err(failed)),
        Err(TickDuration::from_millis(10))
    );
    assert_eq!(
        retrying.attempted::<u8>(Err(failed)),
        Err(TickDuration::from_millis(10))
    );
    assert_eq!(retrying.attempted(Ok(1u8)), Ok(1));
}

#[test]
fn a_manager_plans_what_it_was_made_with() {
    let manager = TransportLinkManager::from("links").with_lease(Duration::from_secs(3));
    assert_eq!(*manager.link_manager(), "links");
    assert_eq!(manager.open_timeout(), Duration::from_secs(10));
    let OpenAction::Handshake(plan) = manager.open(OpenEvent::LinkAcquired { streamed: true })
    else {
        panic!("a link is followed by the handshake");
    };
    assert_eq!(plan.lease, Duration::from_secs(3));
    assert_eq!(plan.resolution, Resolution::default());
    assert!(plan.prefixed);

    // The two ends of the plan open a transport.
    let (mut connector, syn) = plan.initiate(100);
    let mut listener = plan.accept(200);
    let (ack, _) = listener.poll((TransportMessage::InitSyn(syn), b"cookie"));
    let (open, _) = connector.poll((ack.unwrap(), &[]));
    let (last, opened) = listener.poll((open.unwrap(), &[]));
    assert_eq!(opened.unwrap().batch_size, 100);
    let (_, opened) = connector.poll((last.unwrap(), &[]));
    let description = opened.unwrap();
    assert!(matches!(connector, State::Opened(d) if d == description));
    assert_eq!(
        manager.open(OpenEvent::HandshakeDone(description)),
        OpenAction::Done(Ok(description))
    );
}

#[test]
fn every_failure_to_open_has_its_reason() {
    let manager = TransportLinkManager::from(());
    for (event, error) in [
        (
            OpenEvent::LinkFailed(LinkError::CouldNotConnect),
            TransportLinkError::Link(LinkError::CouldNotConnect),
        ),
        (
            OpenEvent::HandshakeFailed(HandshakeError::Link(LinkError::LinkRxFailed)),
            TransportLinkError::Link(LinkError::LinkRxFailed),
        ),
        (
            OpenEvent::HandshakeFailed(HandshakeError::Transport(TransportError::InvalidState)),
            TransportLinkError::Transport(TransportError::InvalidState),
        ),
        (OpenEvent::TimedOut, TransportLinkError::OpenTimeout),
    ] {
        assert_eq!(manager.open(event), OpenAction::Done(Err(error)));
    }
}

#[test]
fn a_split_link_can_be_written_through() {
    let transport = Transport {
        other_zid: ZenohIdProto::default(),
        tx: TransportTx { buff: 1 },
        rx: TransportRx {
            buff: 2,
            ignores_invalid_sn: false,
        },
    };
    let mut link = TransportLink::new(("tx", "rx"), transport);
    assert_eq!(link.transport().other_zid, ZenohIdProto::default());
    {
        let (tx, rx) = link.split();
        assert_eq!((*tx.link, *rx.link), ("tx", "rx"));
        tx.transport.buff = 3;
        rx.transport.ignore_invalid_sn();
    }
    assert_eq!(link.transport().tx.buff, 3);
    assert_eq!(link.transport().rx.buff, 2);
    assert!(link.transport().rx.ignores_invalid_sn);
    link.transport_mut().rx.buff = 5;
    assert_eq!(link.transport().rx.buff, 5);
}

#[test]
fn a_driver_closes_once() {
    let mut driver = Driver::new(ZenohIdProto::default());
    assert_eq!(driver.zid(), ZenohIdProto::default());
    assert_eq!(driver.tx(), Ok(()));
    assert!(driver.begin_close());
    assert!(!driver.begin_close());
    assert!(driver.is_closed());
    assert_eq!(driver.tx(), Err(TransportLinkError::TransportClosed));
    assert!(!driver.take_shutdown());
    assert_eq!(driver.finish_close(Ok(())), Ok(()));
    assert!(driver.take_shutdown());
    assert!(matches!(
        Run::start(&driver),
        Err(TransportLinkError::TransportClosed)
    ));
    assert!(!().should_stop());
    assert!(true.should_stop());
}

#[test]
fn the_loop_waits_keeps_alive_and_hands_messages_over() {
    let mut driver = Driver::new(ZenohIdProto::default());
    let mut run = Run::start(&driver).unwrap();
    for (event, action) in [
        (
            Event::Polled {
                closed: false,
                expired: false,
            },
            Action::Sync,
        ),
        (Event::Synced, Action::Wait),
        (
            Event::WriteLease {
                expired: false,
                keepalive: true,
            },
            Action::SendKeepalive,
        ),
        (Event::KeepaliveSent(Ok(())), Action::Poll),
        (
            Event::Polled {
                closed: false,
                expired: false,
            },
            Action::Sync,
        ),
        (Event::Synced, Action::Wait),
        (Event::ReadLease { expired: false }, Action::Poll),
        (
            Event::Polled {
                closed: false,
                expired: false,
            },
            Action::Sync,
        ),
        (Event::Synced, Action::Wait),
        (Event::Received(Ok(())), Action::Update),
        (Event::Updated(Ok(false)), Action::Update),
        (Event::Drained, Action::Poll),
        (
            Event::Polled {
                closed: false,
                expired: false,
            },
            Action::Sync,
        ),
        (Event::Synced, Action::Wait),
        (Event::Received(Ok(())), Action::Update),
        (Event::Updated(Ok(true)), Action::Finish(Ok(()))),
    ] {
        assert_eq!(run.step(&mut driver, event), action);
    }
    assert_eq!(run.phase, RunPhase::Finished);
    assert!(!driver.is_closed());
}

#[test]
fn a_failing_loop_closes_its_driver() {
    let waiting = |event: Event| {
        let mut driver = Driver::new(ZenohIdProto::default());
        let mut run = Run {
            phase: RunPhase::Waiting,
        };
        let action = run.step(&mut driver, event);
        (action, run, driver)
    };
    let lost = TransportLinkError::Link(LinkError::LinkRxFailed);
    let (action, _, mut driver) = waiting(Event::Received(Err(lost)));
    assert_eq!(action, Action::Finish(Err(EitherError::A(lost))));
    assert!(driver.is_closed() && driver.take_shutdown());

    let (action, mut run, mut driver) = waiting(Event::ReadLease { expired: true });
    assert_eq!(action, Action::Close);
    assert!(!driver.is_closed());
    assert_eq!(
        run.step(&mut driver, Event::Closed),
        Action::Finish(Err(EitherError::A(TransportLinkError::RxLeaseExpired)))
    );
    assert!(driver.is_closed());

    let (_, mut run, mut driver) = waiting(Event::WriteLease {
        expired: true,
        keepalive: true,
    });
    assert_eq!(
        run.step(&mut driver, Event::Closed),
        Action::Finish(Err(EitherError::A(TransportLinkError::TxLeaseExpired)))
    );

    let (action, _, driver) = waiting(Event::Shutdown);
    assert_eq!(action, Action::Finish(Ok(())));
    assert!(!driver.is_closed());

    let (_, mut run, mut driver) = waiting(Event::Received(Ok(())));
    let error = SessionError::RequestTimedout;
    assert_eq!(
        run.step(&mut driver, Event::Updated(Err(error))),
        Action::Finish(Err(EitherError::B(error)))
    );
    assert!(driver.is_closed());

    let mut driver = Driver::new(ZenohIdProto::default());
    let mut run = Run::start(&driver).unwrap();
    let polled = Event::Polled {
        closed: true,
        expired: true,
    };
    assert_eq!(
        run.step(&mut driver, polled),
        Action::Finish(Err(EitherError::A(TransportLinkError::TransportClosed)))
    );

    let mut driver = Driver::new(ZenohIdProto::default());
    let mut run = Run::start(&driver).unwrap();
    run.step(
        &mut driver,
        Event::Polled {
            closed: false,
            expired: false,
        },
    );
    driver.begin_close();
    assert_eq!(run.step(&mut driver, Event::Synced), Action::Finish(Ok(())));
}
