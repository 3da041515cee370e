use zenoh_nostd::config::ZSessionConfig;
use zenoh_nostd::error::{
    CollectionError, KeyexprError, LinkError, SessionError, TransportLinkError,
};
use zenoh_nostd::exts::{Attachment, EntityGlobalId, NodeId, QoS, Value};
use zenoh_nostd::fields::{
    ConsolidationMode, Encoding, Mapping, Reliability, Timestamp, WireExpr, ZenohIdProto,
};
use zenoh_nostd::io::transport::TransportLinkManager;
use zenoh_nostd::keyexpr::{KeyExpr, NonWildKeyExpr};
use zenoh_nostd::msgs::declare::{
    Declare, DeclareBody, DeclareFinal, DeclareKeyExpr, DeclareToken, UndeclareKeyExpr,
    UndeclareToken, UndeclaredKeyExpr,
};
use zenoh_nostd::msgs::del::Del;
use zenoh_nostd::msgs::interest::{InterestMode, InterestOptions};
use zenoh_nostd::msgs::network::{
    NetworkBody, NetworkMessage, Push, PushBody, Put, Query, Reply, Request, RequestBody, Response,
    ResponseBody, ResponseFinal,
};
use zenoh_nostd::response::GetResponse;
use zenoh_nostd::sample::SampleKind;
use zenoh_nostd::session::declarations::{AllocDeclarations, FixedCapacityDeclarations};
use zenoh_nostd::session::declaring::{Action, Declaring, Draft, Event};
use zenoh_nostd::session::interest::InterestGuard;
use zenoh_nostd::session::keyexprs::TokenTable;
use zenoh_nostd::session::queryable::Queryable;
use zenoh_nostd::session::reconnect::{ReconnectAction, ReconnectEvent, Reconnecting};
use zenoh_nostd::session::run::{
    completes_requested_query, record_token_declaration, Reaction, Refusal, Waited,
};
use zenoh_nostd::session::sub::Subscriber;
use zenoh_nostd::session::Session;

struct Config {
    namespace: Option<NonWildKeyExpr<'static>>,
    transports: TransportLinkManager<()>,
}

impl ZSessionConfig for Config {
    type Buff = [u8; 64];
    type LinkManager = ();
    type Declarations = AllocDeclarations;

    fn transports(&self) -> &TransportLinkManager<()> {
        &self.transports
    }

    fn buff(&self) -> [u8; 64] {
        [0; 64]
    }

    fn namespace(&self) -> Option<NonWildKeyExpr<'_>> {
        self.namespace
    }
}

struct Tight {
    transports: TransportLinkManager<()>,
}

impl ZSessionConfig for Tight {
    type Buff = ();
    type LinkManager = ();
    type Declarations = FixedCapacityDeclarations<1>;

    fn transports(&self) -> &TransportLinkManager<()> {
        &self.transports
    }

    fn buff(&self) {}
}

fn key(text: &'static str) -> KeyExpr<'static> {
    KeyExpr::new(text).unwrap()
}

fn plain() -> Config {
    Config {
        namespace: None,
        transports: TransportLinkManager::from(()),
    }
}

fn scoped() -> Config {
    Config {
        namespace: Some(NonWildKeyExpr::new(key("ns/a")).unwrap()),
        transports: TransportLinkManager::from(()),
    }
}

fn message(body: NetworkBody<'_>) -> NetworkMessage<'_> {
    NetworkMessage {
        reliability: Reliability::default(),
        qos: QoS::default(),
        body,
    }
}

fn literal(suffix: &str) -> WireExpr<'_> {
    WireExpr {
        scope: 0,
        mapping: Mapping::default(),
        suffix,
    }
}

fn declare<'a>(id: Option<u32>, body: DeclareBody<'a>) -> NetworkMessage<'a> {
    message(NetworkBody::Declare(Declare {
        id,
        body,
        ..Default::default()
    }))
}

#[test]
fn only_the_requested_final_stops_an_executorless_run() {
    assert!(completes_requested_query(Some(7), 7));
    assert!(!completes_requested_query(Some(7), 6));
    assert!(!completes_requested_query(None, 7));
}

#[test]
fn current_snapshot_token_is_deliverable_but_not_remembered() {
    let mut tokens = TokenTable::new();
    assert!(record_token_declaration(
        &mut tokens,
        0,
        Some(7),
        "demo/token/current"
    ));
    assert!(tokens.undeclare(0).is_none());
}

#[test]
fn zero_token_without_an_interest_is_rejected() {
    let mut tokens = TokenTable::new();
    assert!(!record_token_declaration(
        &mut tokens,
        0,
        None,
        "demo/token/malformed"
    ));
    assert!(tokens.undeclare(0).is_none());
}

#[test]
fn each_history_interest_can_replay_the_same_live_token() {
    let mut tokens = TokenTable::new();
    assert!(record_token_declaration(
        &mut tokens,
        12,
        Some(7),
        "demo/token/current"
    ));
    assert!(record_token_declaration(
        &mut tokens,
        12,
        Some(8),
        "demo/token/current"
    ));
    assert_eq!(tokens.undeclare(12).as_deref(), Some("demo/token/current"));
}

#[test]
fn an_uncorrelated_duplicate_token_is_rejected() {
    let mut tokens = TokenTable::new();
    assert!(record_token_declaration(
        &mut tokens,
        12,
        None,
        "demo/token/current"
    ));
    assert!(!record_token_declaration(
        &mut tokens,
        12,
        None,
        "demo/token/current"
    ));
    assert!(!record_token_declaration(
        &mut tokens,
        12,
        Some(8),
        "demo/token/different"
    ));
}

#[test]
fn put_metadata_survives_the_way_to_a_subscriber() {
    let config = scoped();
    let sender = Session::new(&config, ());
    let mut receiver = Session::new(&config, ());
    let stamp = Timestamp {
        time: 9,
        id: ZenohIdProto::default(),
    };
    let encoding = Encoding {
        id: 3,
        schema: None,
    };
    let mut storage = heapless::String::new();
    let sent = sender
        .put(key("test/live"), b"wrong")
        .payload(b"live-value")
        .attachment(b"live-causal-stamp")
        .encoding(encoding)
        .timestamp(stamp)
        .finish(&mut storage)
        .unwrap();
    let NetworkBody::Push(push) = sent.body else {
        panic!("a put is a push");
    };
    assert_eq!(push.wire_expr, literal("ns/a/test/live"));
    assert_eq!(push.timestamp, Some(stamp));
    let PushBody::Put(put) = push.payload else {
        panic!("a put is a put");
    };
    assert_eq!((put.encoding, put.timestamp), (encoding, Some(stamp)));

    let mut storage = heapless::String::new();
    let Ok(Reaction::Deliver(sample)) = receiver.receive(sent, &mut storage) else {
        panic!("a put is delivered");
    };
    assert_eq!(sample.keyexpr().as_str(), "test/live");
    assert_eq!(sample.payload(), b"live-value");
    assert_eq!(
        sample.attachment(),
        Some(b"live-causal-stamp".as_slice())
    );
    assert_eq!(sample.responder(), None);
    assert_eq!(sample.kind(), SampleKind::Put);
}

#[test]
fn reply_metadata_survives_the_way_to_a_query() {
    let config = scoped();
    let server = Session::new(&config, ());
    let mut client = Session::new(&config, ());
    let mut storage = heapless::String::new();
    let reply = server
        .reply(
            5,
            key("test/query"),
            b"query-value",
            Some(b"reply-causal-stamp"),
            &mut storage,
        )
        .unwrap();
    assert_eq!(reply.qos, QoS::blocking());
    let mut resolved = heapless::String::new();
    let Ok(Reaction::Respond {
        rid: 5,
        response: GetResponse::Reply(sample),
    }) = client.receive(reply, &mut resolved)
    else {
        panic!("a reply is handed to its query");
    };
    assert_eq!(sample.keyexpr().as_str(), "test/query");
    assert_eq!(sample.payload(), b"query-value");
    assert_eq!(
        sample.attachment(),
        Some(b"reply-causal-stamp".as_slice())
    );

    let mut storage = heapless::String::new();
    let failure = server
        .err(6, key("test/query"), b"why", &mut storage)
        .unwrap();
    let mut resolved = heapless::String::new();
    assert!(matches!(
        client.receive(failure, &mut resolved),
        Ok(Reaction::Respond { rid: 6, response: GetResponse::ReplyErr(s) }) if s.payload() == b"why"
    ));

    assert!(server.finalize(5, false).is_none());
    let last = server.finalize(5, true).unwrap();
    let mut resolved = heapless::String::new();
    assert!(matches!(
        client.receive(last, &mut resolved),
        Ok(Reaction::Finish { rid: 5 })
    ));
}

#[test]
fn a_responder_is_exposed_with_its_reply() {
    let config = plain();
    let mut session = Session::new(&config, ());
    let respid = EntityGlobalId {
        zid: ZenohIdProto::default(),
        eid: 4,
    };
    let response = Response {
        rid: 1,
        wire_expr: literal("a/b"),
        qos: QoS::default(),
        respid: Some(respid),
        payload: ResponseBody::Reply(Reply {
            consolidation: ConsolidationMode::Auto,
            payload: PushBody::Del(Del {
                attachment: Some(Attachment { buffer: b"gone" }),
                ..Default::default()
            }),
        }),
    };
    let mut storage = heapless::String::new();
    let Ok(Reaction::Respond {
        response: GetResponse::Reply(sample),
        ..
    }) = session.receive(message(NetworkBody::Response(response)), &mut storage)
    else {
        panic!("a reply is handed to its query");
    };
    assert_eq!(sample.responder(), Some(respid));
    assert_eq!(sample.kind(), SampleKind::Delete);
    assert_eq!(sample.attachment(), Some(b"gone".as_slice()));
    assert!(sample.payload().is_empty());
}

#[test]
fn a_deletion_is_delivered_as_one() {
    let config = plain();
    let mut session = Session::new(&config, ());
    let push = Push {
        wire_expr: literal("a/b"),
        timestamp: None,
        payload: PushBody::Del(Del::default()),
    };
    let mut storage = heapless::String::new();
    let Ok(Reaction::Deliver(sample)) =
        session.receive(message(NetworkBody::Push(push)), &mut storage)
    else {
        panic!("a deletion is delivered");
    };
    assert_eq!(sample.kind(), SampleKind::Delete);
}

#[test]
fn keys_outside_the_namespace_are_dropped() {
    let config = scoped();
    let mut session = Session::new(&config, ());
    for (suffix, dropped) in [("ns/a/x", false), ("ns/b/x", true), ("x", true)] {
        let push = Push {
            wire_expr: literal(suffix),
            timestamp: None,
            payload: PushBody::Put(Put::default()),
        };
        let mut storage = heapless::String::new();
        let reaction = session
            .receive(message(NetworkBody::Push(push)), &mut storage)
            .unwrap();
        assert_eq!(
            matches!(reaction, Reaction::Dropped(Refusal::UnknownMapping)),
            dropped
        );
    }
    let bare = Push {
        wire_expr: literal("ns/a"),
        timestamp: None,
        payload: PushBody::Put(Put::default()),
    };
    let mut storage = heapless::String::new();
    assert!(matches!(
        session.receive(message(NetworkBody::Push(bare)), &mut storage),
        Err(SessionError::Keyexpr(KeyexprError::NotCanonical))
    ));
}

#[test]
fn queries_carry_their_parameters_and_body() {
    let config = plain();
    let mut session = Session::new(&config, ());
    let request = |parameters: &'static str, body| {
        message(NetworkBody::Request(Request {
            id: 8,
            wire_expr: literal("a/b"),
            payload: RequestBody::Query(Query {
                consolidation: ConsolidationMode::Latest,
                parameters,
                body,
            }),
        }))
    };
    let body = Some(Value {
        encoding: Encoding::default(),
        payload: b"body",
    });
    let mut storage = heapless::String::new();
    let Ok(Reaction::Answer(query)) = session.receive(request("p=1", body), &mut storage) else {
        panic!("a query is answered");
    };
    assert_eq!(query.id(), 8);
    assert_eq!(query.keyexpr().as_str(), "a/b");
    assert_eq!(query.parameters(), Some("p=1"));
    assert_eq!(query.payload(), Some(b"body".as_slice()));
    let mut storage = heapless::String::new();
    let Ok(Reaction::Answer(query)) = session.receive(request("", None), &mut storage) else {
        panic!("a query is answered");
    };
    assert_eq!(query.parameters(), None);
    assert_eq!(query.payload(), None);
}

#[test]
fn mappings_are_learned_and_forgotten() {
    let config = scoped();
    let mut session = Session::new(&config, ());
    let mapping = |id, wire_expr| {
        declare(
            None,
            DeclareBody::DeclareKeyExpr(DeclareKeyExpr { id, wire_expr }),
        )
    };
    let mut storage = heapless::String::new();
    assert!(matches!(
        session.receive(mapping(3, literal("ns")), &mut storage),
        Ok(Reaction::Settled)
    ));
    let mut storage = heapless::String::new();
    let reference = WireExpr {
        scope: 3,
        ..literal("a/x")
    };
    assert!(matches!(
        session.receive(mapping(4, reference), &mut storage),
        Ok(Reaction::Settled)
    ));
    let mut storage = heapless::String::new();
    assert!(matches!(
        session.receive(mapping(0, literal("ns")), &mut storage),
        Ok(Reaction::Dropped(Refusal::MappingRefused))
    ));
    let unknown = WireExpr {
        scope: 9,
        ..literal("")
    };
    let mut storage = heapless::String::new();
    assert!(matches!(
        session.receive(mapping(5, unknown), &mut storage),
        Ok(Reaction::Dropped(Refusal::UnknownMapping))
    ));
    let push = message(NetworkBody::Push(Push {
        wire_expr: WireExpr {
            scope: 4,
            ..literal("")
        },
        timestamp: None,
        payload: PushBody::Put(Put::default()),
    }));
    let mut storage = heapless::String::new();
    assert!(matches!(
        session.receive(push, &mut storage),
        Ok(Reaction::Deliver(sample)) if sample.keyexpr().as_str() == "x"
    ));
    let mut storage = heapless::String::new();
    let forget = declare(
        None,
        DeclareBody::UndeclareKeyExpr(UndeclareKeyExpr { id: 4 }),
    );
    assert!(matches!(
        session.receive(forget, &mut storage),
        Ok(Reaction::Settled)
    ));
    let mut storage = heapless::String::new();
    assert!(matches!(
        session.receive(push, &mut storage),
        Ok(Reaction::Dropped(Refusal::UnknownMapping))
    ));
    let mut storage = heapless::String::new();
    assert!(matches!(
        session.receive(
            declare(Some(1), DeclareBody::DeclareFinal(DeclareFinal {})),
            &mut storage
        ),
        Ok(Reaction::Settled)
    ));
}

#[test]
fn tokens_live_until_they_are_undeclared() {
    let config = scoped();
    let mut session = Session::new(&config, ());
    let token = |interest, id, suffix| {
        declare(
            interest,
            DeclareBody::DeclareToken(DeclareToken {
                id,
                wire_expr: literal(suffix),
            }),
        )
    };
    let gone = |id, wire_expr| {
        declare(
            None,
            DeclareBody::UndeclareToken(UndeclareToken { id, wire_expr }),
        )
    };
    let named = |suffix| {
        Some(UndeclaredKeyExpr {
            suffix,
            ..Default::default()
        })
    };
    let mut storage = heapless::String::new();
    assert!(matches!(
        session.receive(token(None, 2, "ns/a/p"), &mut storage),
        Ok(Reaction::Deliver(s)) if s.keyexpr().as_str() == "p" && s.kind() == SampleKind::Put
    ));
    let mut storage = heapless::String::new();
    assert!(matches!(
        session.receive(token(None, 2, "ns/a/p"), &mut storage),
        Ok(Reaction::Dropped(Refusal::TokenRefused))
    ));
    let mut storage = heapless::String::new();
    assert!(matches!(
        session.receive(token(Some(4), 2, "ns/a/p"), &mut storage),
        Ok(Reaction::Deliver(_))
    ));
    let mut storage = heapless::String::new();
    assert!(matches!(
        session.receive(token(None, 0, "ns/a/p"), &mut storage),
        Ok(Reaction::Dropped(Refusal::OrphanToken))
    ));
    let mut storage = heapless::String::new();
    assert!(matches!(
        session.receive(token(None, 3, "other/p"), &mut storage),
        Ok(Reaction::Dropped(Refusal::UnknownMapping))
    ));
    // The remembered key wins over the one that is named.
    let mut storage = heapless::String::new();
    assert!(matches!(
        session.receive(gone(2, named("ns/a/other")), &mut storage),
        Ok(Reaction::Deliver(s)) if s.keyexpr().as_str() == "p" && s.kind() == SampleKind::Delete
    ));
    let mut storage = heapless::String::new();
    assert!(matches!(
        session.receive(gone(2, None), &mut storage),
        Ok(Reaction::Dropped(Refusal::UnknownToken))
    ));
    let mut storage = heapless::String::new();
    assert!(matches!(
        session.receive(gone(2, named("ns/a/other")), &mut storage),
        Ok(Reaction::Deliver(s)) if s.keyexpr().as_str() == "other"
    ));
    let mut storage = heapless::String::new();
    assert!(matches!(
        session.receive(gone(2, named("elsewhere")), &mut storage),
        Ok(Reaction::Dropped(Refusal::UnknownMapping))
    ));
}

#[test]
fn only_a_requested_end_stops_receiving() {
    let finish = Reaction::Finish { rid: 7 };
    assert_eq!(finish.control(Some(7), Ok(())), Ok(true));
    assert_eq!(finish.control(Some(8), Ok(())), Ok(false));
    assert_eq!(finish.control(None, Ok(())), Ok(false));
    assert_eq!(
        finish.control(Some(7), Err(CollectionError::KeyNotFound)),
        Err(SessionError::Collection(CollectionError::KeyNotFound))
    );
    assert_eq!(
        Reaction::Settled.control(Some(7), Err(CollectionError::KeyNotFound)),
        Ok(false)
    );
}

#[test]
fn a_declaration_is_announced_and_held() {
    let config = scoped();
    let mut session = Session::new(&config, ());
    let (mut declaring, action) = session
        .declare_subscriber(key("test/reconnect"))
        .finish(&mut session)
        .unwrap();
    assert_eq!(action, Action::Register);
    assert_eq!(
        declaring.step(&mut session, Event::Registered(Ok(()))),
        Action::Send
    );
    let mut storage = heapless::String::new();
    let NetworkBody::Declare(announced) = declaring.message(&session, &mut storage).unwrap().body
    else {
        panic!("a subscriber is declared");
    };
    assert!(matches!(
        announced.body,
        DeclareBody::DeclareSubscriber(s) if s.id == 0 && s.wire_expr.suffix == "ns/a/test/reconnect"
    ));
    assert_eq!(
        declaring.step(&mut session, Event::Sent(Ok(()))),
        Action::Done(Ok(0))
    );

    let mut replay = session.replay_declarations();
    let mut storage = heapless::String::new();
    let repeated = replay.next(&session, &mut storage).unwrap().unwrap();
    assert_eq!(repeated.body, NetworkBody::Declare(announced));
    let mut storage = heapless::String::new();
    assert!(replay.next(&session, &mut storage).is_none());

    let subscriber = Subscriber::new(0, key("test/reconnect"));
    assert_eq!(subscriber.keyexpr().as_str(), "test/reconnect");
    assert_eq!(
        subscriber.undeclare(&mut session, Err(CollectionError::KeyNotFound)),
        Err(SessionError::Collection(CollectionError::KeyNotFound))
    );
    assert_eq!(session.replay_declarations().list.len(), 1);
    let withdrawn = subscriber.undeclare(&mut session, Ok(())).unwrap().unwrap();
    assert!(matches!(
        withdrawn.body,
        NetworkBody::Declare(Declare { body: DeclareBody::UndeclareSubscriber(u), .. }) if u.id == 0
    ));
    assert!(session.replay_declarations().list.is_empty());
}

#[test]
fn a_failed_announcement_leaves_no_declaration() {
    let config = plain();
    let mut session = Session::new(&config, ());
    let lost = TransportLinkError::Link(LinkError::LinkTxFailed);
    let (mut declaring, _) = session
        .declare_queryable(key("a"))
        .finish(&mut session)
        .unwrap();
    assert_eq!(
        declaring.step(&mut session, Event::Registered(Ok(()))),
        Action::Send
    );
    assert_eq!(session.replay_declarations().list.len(), 1);
    assert_eq!(
        declaring.step(&mut session, Event::Sent(Err(lost))),
        Action::Unregister
    );
    assert_eq!(
        declaring.step(&mut session, Event::Unregistered(Ok(()))),
        Action::Done(Err(SessionError::TransportLink(lost)))
    );
    assert!(session.replay_declarations().list.is_empty());

    let (mut declaring, action) = session
        .declare_liveliness_interest(key("a/**"), true)
        .unwrap();
    assert_eq!(action, Action::Send);
    let mut storage = heapless::String::new();
    let NetworkBody::Interest(interest) = declaring.message(&session, &mut storage).unwrap().body
    else {
        panic!("an interest is sent");
    };
    assert_eq!(interest.id, 1);
    assert_eq!(interest.mode, InterestMode::CurrentFuture);
    assert_eq!(interest.inner.options, 0x09);
    assert_eq!(
        declaring.step(&mut session, Event::Sent(Err(lost))),
        Action::Done(Err(SessionError::TransportLink(lost)))
    );
    assert!(session.replay_declarations().list.is_empty());
}

#[test]
fn a_full_table_withdraws_the_callback() {
    let config = Tight {
        transports: TransportLinkManager::from(()),
    };
    let mut session = Session::new(&config, ());
    let options = InterestOptions::new(InterestOptions::QUERYABLES);
    let (mut first, action) = session
        .declare_interest(key("a"), InterestMode::Current, options)
        .unwrap();
    assert_eq!(action, Action::Send);
    assert_eq!(
        first.step(&mut session, Event::Sent(Ok(()))),
        Action::Done(Ok(0))
    );
    let refused = session.declare_interest(key("a"), InterestMode::Current, options);
    assert!(matches!(
        refused,
        Err(SessionError::Collection(CollectionError::CollectionIsFull))
    ));
    let (mut second, action) =
        Declaring::start(&mut session, Draft::Subscriber { key: key("b") }).unwrap();
    assert_eq!(action, Action::Register);
    assert_eq!(
        second.step(&mut session, Event::Registered(Ok(()))),
        Action::Unregister
    );
    assert_eq!(
        second.step(&mut session, Event::Unregistered(Ok(()))),
        Action::Done(Err(SessionError::Collection(
            CollectionError::CollectionIsFull
        )))
    );

    let guard = InterestGuard::new(0);
    assert_eq!(guard.id(), 0);
    let cancelled = guard.undeclare(&mut session).unwrap();
    assert!(matches!(cancelled.body, NetworkBody::InterestFinal(f) if f.id == 0));
    assert!(session.replay_declarations().list.is_empty());
}

#[test]
fn a_callback_that_is_not_stored_ends_the_declaration() {
    let config = plain();
    let mut session = Session::new(&config, ());
    let (mut declaring, _) = session
        .declare_queryable(key("a"))
        .finish(&mut session)
        .unwrap();
    assert_eq!(
        declaring.step(
            &mut session,
            Event::Registered(Err(CollectionError::CollectionIsFull))
        ),
        Action::Done(Err(SessionError::Collection(
            CollectionError::CollectionIsFull
        )))
    );
    assert!(session.replay_declarations().list.is_empty());
}

#[test]
fn a_closed_session_refuses_operations() {
    let closed = SessionError::TransportLink(TransportLinkError::TransportClosed);
    let config = plain();
    let mut session = Session::new(&config, 7u8);
    assert_eq!(session.driver(), Ok(&7));
    assert_eq!(session.close(), (true, Some(7)));
    assert!(session.is_closed());
    assert_eq!(session.close(), (false, None));
    assert_eq!(
        session.driver(),
        Err(TransportLinkError::TransportClosed)
    );
    let mut storage = heapless::String::new();
    assert_eq!(
        session.put(key("a"), b"").finish(&mut storage),
        Err(closed)
    );
    assert!(matches!(
        session.declare_publisher(key("a")).finish(),
        Err(e) if e == closed
    ));
    let mut storage = heapless::String::new();
    assert_eq!(
        session.reply(1, key("a"), b"", None, &mut storage),
        Err(closed)
    );
    assert!(session.finalize(1, true).is_none());
    assert!(matches!(
        session.declare_subscriber(key("a")).finish(&mut session),
        Err(e) if e == closed
    ));
    assert_eq!(
        Queryable::new(3).undeclare(&mut session, Ok(())),
        Ok(None)
    );
    assert!(InterestGuard::new(3).undeclare(&mut session).is_none());

    assert_eq!(session.reopen(8), Ok(()));
    assert_eq!(session.driver(), Ok(&8));
    assert_eq!(
        session.reopen(9),
        Err(TransportLinkError::TransportClosed)
    );
    assert_eq!(session.driver(), Ok(&8));
}

#[test]
fn publishers_publish_what_they_were_made_with() {
    let config = plain();
    let session = Session::new(&config, ());
    let publisher = session
        .declare_publisher(key("wrong"))
        .keyexpr(key("a/b"))
        .attachment(b"meta")
        .encoding(Encoding {
            id: 5,
            schema: None,
        })
        .finish()
        .unwrap();
    assert_eq!(publisher.keyexpr().as_str(), "a/b");
    let mut storage = heapless::String::new();
    let sent = publisher.put(b"v").finish(&mut storage).unwrap();
    let NetworkBody::Push(Push {
        wire_expr,
        timestamp: None,
        payload: PushBody::Put(put),
    }) = sent.body
    else {
        panic!("a publication is a put");
    };
    assert_eq!(wire_expr.suffix, "a/b");
    assert_eq!(put.payload, b"v");
    assert_eq!(put.encoding.id, 5);
    assert_eq!(put.attachment, Some(Attachment { buffer: b"meta" }));
}

#[test]
fn a_key_that_outgrows_the_namespace_buffer_is_refused() {
    let config = scoped();
    let mut session = Session::new(&config, ());
    let text: &'static str = Box::leak("k".repeat(508).into_boxed_str());
    let mut storage = heapless::String::new();
    let too_small = SessionError::Collection(CollectionError::CollectionTooSmall);
    assert_eq!(
        session.put(key(text), b"").finish(&mut storage),
        Err(too_small)
    );
    assert!(matches!(
        session.declare_subscriber(key(text)).finish(&mut session),
        Err(e) if e == too_small
    ));
    let text: &'static str = Box::leak("k".repeat(507).into_boxed_str());
    let mut storage = heapless::String::new();
    assert!(session.put(key(text), b"").finish(&mut storage).is_ok());
}

#[test]
fn a_closed_session_looks_at_the_key_last() {
    let closed = SessionError::TransportLink(TransportLinkError::TransportClosed);
    let too_small = SessionError::Collection(CollectionError::CollectionTooSmall);
    let config = scoped();
    let mut session = Session::new(&config, ());
    let text: &'static str = Box::leak("k".repeat(508).into_boxed_str());
    let mut storage = heapless::String::new();
    assert_eq!(
        session.reply(1, key(text), b"", None, &mut storage),
        Err(too_small)
    );
    let mut storage = heapless::String::new();
    assert_eq!(session.err(1, key(text), b"", &mut storage), Err(too_small));
    assert!(matches!(
        session.declare_queryable(key(text)).finish(&mut session),
        Err(e) if e == too_small
    ));

    session.close();
    assert!(matches!(
        session.declare_subscriber(key(text)).finish(&mut session),
        Err(e) if e == closed
    ));
    assert!(matches!(
        session.declare_queryable(key(text)).finish(&mut session),
        Err(e) if e == closed
    ));
    let mut storage = heapless::String::new();
    assert_eq!(
        session.reply(1, key(text), b"", None, &mut storage),
        Err(closed)
    );
    let mut storage = heapless::String::new();
    assert_eq!(session.err(1, key(text), b"", &mut storage), Err(closed));
}

#[test]
fn a_closed_session_looks_at_the_key_of_a_publication_or_an_interest_first() {
    let closed = SessionError::TransportLink(TransportLinkError::TransportClosed);
    let too_small = SessionError::Collection(CollectionError::CollectionTooSmall);
    let config = scoped();
    let mut session = Session::new(&config, ());
    session.close();
    let text: &'static str = Box::leak("k".repeat(508).into_boxed_str());
    let mut storage = heapless::String::new();
    assert_eq!(
        session.put(key(text), b"").finish(&mut storage),
        Err(too_small)
    );
    let options = InterestOptions::new(InterestOptions::TOKENS);
    assert!(matches!(
        session.declare_interest(key(text), InterestMode::Future, options),
        Err(e) if e == too_small
    ));
    assert!(matches!(
        session.declare_interest(key("k"), InterestMode::Future, options),
        Err(e) if e == closed
    ));
}

#[test]
fn undeclaring_gives_the_room_back() {
    let config = Tight {
        transports: TransportLinkManager::from(()),
    };
    let mut session = Session::new(&config, ());
    for id in 0..3 {
        let (mut declaring, action) = session
            .declare_subscriber(key("a"))
            .finish(&mut session)
            .unwrap();
        assert_eq!(action, Action::Register);
        assert_eq!(
            declaring.step(&mut session, Event::Registered(Ok(()))),
            Action::Send
        );
        assert_eq!(
            declaring.step(&mut session, Event::Sent(Ok(()))),
            Action::Done(Ok(id))
        );
        assert!(Subscriber::new(id, key("a"))
            .undeclare(&mut session, Ok(()))
            .is_ok());
    }
    session.close();
    assert_eq!(session.reopen(()), Ok(()));
    let (mut declaring, _) = session
        .declare_subscriber(key("a"))
        .finish(&mut session)
        .unwrap();
    assert_eq!(
        declaring.step(&mut session, Event::Registered(Ok(()))),
        Action::Send
    );
}

#[test]
fn a_failed_run_closes_the_session() {
    let config = plain();
    let mut session = Session::new(&config, 7u8);
    assert_eq!(session.run(Ok(())), (Ok(()), None));
    assert!(!session.is_closed());
    assert_eq!(
        session.run_until_response_final(Waited::TimedOut(Ok(()))),
        (Err(SessionError::RequestTimedout), None)
    );
    let missing = CollectionError::KeyNotFound;
    assert_eq!(
        session.run_until_response_final(Waited::TimedOut(Err(missing))),
        (Err(SessionError::Collection(missing)), None)
    );
    assert!(!session.is_closed());
    let error = SessionError::Keyexpr(KeyexprError::NotCanonical);
    assert_eq!(
        session.run_until_response_final(Waited::Ended(Err(error))),
        (Err(error), Some(7))
    );
    assert!(session.is_closed());
}

#[test]
fn a_replacement_transport_replays_the_existing_subscriber() {
    let config = plain();
    let mut session = Session::new(&config, 1u8);
    let (mut declaring, _) = session
        .declare_subscriber(key("test/reconnect"))
        .finish(&mut session)
        .unwrap();
    declaring.step(&mut session, Event::Registered(Ok(())));
    declaring.step(&mut session, Event::Sent(Ok(())));
    let mut storage = heapless::String::new();
    let token = DeclareToken {
        id: 5,
        wire_expr: literal("t"),
    };
    session
        .receive(
            declare(None, DeclareBody::DeclareToken(token)),
            &mut storage,
        )
        .unwrap();

    let lost = SessionError::TransportLink(TransportLinkError::RxLeaseExpired);
    let (mut reconnecting, action) = Reconnecting::start();
    assert_eq!(action, ReconnectAction::Run { reconnected: false });
    let action = reconnecting.step(&mut session, ReconnectEvent::RunEnded(Err(lost)));
    assert_eq!(action, ReconnectAction::FinalizeQueries);
    assert!(session.is_closed());
    let action = reconnecting.step(&mut session, ReconnectEvent::QueriesFinalized);
    assert_eq!(action, ReconnectAction::Connect { lost: Some(lost) });
    let action = reconnecting.step(&mut session, ReconnectEvent::Connected(2));
    assert_eq!(action, ReconnectAction::Replay);
    assert_eq!(session.driver(), Ok(&2));
    let action = reconnecting.step(&mut session, ReconnectEvent::Replayed(Err(lost)));
    assert_eq!(action, ReconnectAction::Connect { lost: None });
    assert!(session.is_closed());
    reconnecting.step(&mut session, ReconnectEvent::Connected(3));
    let mut replay = session.replay_declarations();
    let mut storage = heapless::String::new();
    let replayed = replay.next(&session, &mut storage).unwrap().unwrap();
    assert!(matches!(
        replayed.body,
        NetworkBody::Declare(Declare { body: DeclareBody::DeclareSubscriber(s), .. }) if s.id == 0
    ));
    let action = reconnecting.step(&mut session, ReconnectEvent::Replayed(Ok(())));
    assert_eq!(action, ReconnectAction::Run { reconnected: true });

    // The token of the lost peer is forgotten.
    let mut storage = heapless::String::new();
    let gone = UndeclareToken {
        id: 5,
        wire_expr: None,
    };
    assert!(matches!(
        session.receive(
            declare(None, DeclareBody::UndeclareToken(gone)),
            &mut storage
        ),
        Ok(Reaction::Dropped(Refusal::UnknownToken))
    ));

    session.close();
    assert!(session.take_stop());
    assert!(!session.take_stop());
    let action = reconnecting.step(&mut session, ReconnectEvent::RunEnded(Ok(())));
    assert_eq!(action, ReconnectAction::Finish);
}

#[test]
fn a_session_closed_while_connecting_takes_no_transport() {
    let config = plain();
    let mut session = Session::new(&config, 1u8);
    let lost = SessionError::TransportLink(TransportLinkError::TransportClosed);
    let (mut reconnecting, _) = Reconnecting::start();
    reconnecting.step(&mut session, ReconnectEvent::RunEnded(Err(lost)));
    reconnecting.step(&mut session, ReconnectEvent::QueriesFinalized);
    assert_eq!(session.close(), (true, None));
    let action = reconnecting.step(&mut session, ReconnectEvent::Connected(2));
    assert_eq!(action, ReconnectAction::Finish);
    assert!(session.driver().is_err());

    let mut session = Session::new(&config, 1u8);
    let (mut reconnecting, _) = Reconnecting::start();
    reconnecting.step(&mut session, ReconnectEvent::RunEnded(Err(lost)));
    session.close();
    let action = reconnecting.step(&mut session, ReconnectEvent::QueriesFinalized);
    assert_eq!(action, ReconnectAction::Finish);
}

#[test]
fn an_interrupted_end_of_a_query_is_not_lost() {
    let config = plain();
    let mut session = Session::new(&config, ());
    let last = ResponseFinal {
        rid: 9,
        qos: QoS::default(),
    };
    let mut storage = heapless::String::new();
    let reaction = session
        .receive(message(NetworkBody::ResponseFinal(last)), &mut storage)
        .unwrap();
    assert_eq!(reaction.control(Some(9), Ok(())), Ok(true));
    assert_eq!(NodeId::default().node_id, 0);
}

#[test]
fn a_failing_declaration_does_not_disturb_the_others() {
    let config = plain();
    let mut session = Session::new(&config, ());
    let mut made = Vec::new();
    for (text, sent) in [
        ("a", Ok(())),
        ("b", Err(TransportLinkError::OpenTimeout)),
        ("c", Ok(())),
    ] {
        let (mut declaring, _) = session
            .declare_subscriber(key(text))
            .finish(&mut session)
            .unwrap();
        declaring.step(&mut session, Event::Registered(Ok(())));
        if declaring.step(&mut session, Event::Sent(sent)) == Action::Unregister {
            declaring.step(&mut session, Event::Unregistered(Ok(())));
        } else {
            made.push(declaring.declaration.id());
        }
    }
    assert_eq!(made, [0, 2]);
    let held: Vec<u32> = session
        .replay_declarations()
        .list
        .iter()
        .map(|declaration| declaration.id())
        .collect();
    assert_eq!(held, made);
}

#[test]
fn a_callback_that_cannot_be_removed_is_reported() {
    let config = plain();
    let mut session = Session::new(&config, ());
    let (mut declaring, _) = session
        .declare_subscriber(key("a"))
        .finish(&mut session)
        .unwrap();
    declaring.step(&mut session, Event::Registered(Ok(())));
    declaring.step(
        &mut session,
        Event::Sent(Err(TransportLinkError::OpenTimeout)),
    );
    assert_eq!(
        declaring.step(
            &mut session,
            Event::Unregistered(Err(CollectionError::KeyNotFound))
        ),
        Action::Done(Err(SessionError::Collection(CollectionError::KeyNotFound)))
    );
    assert!(session.replay_declarations().list.is_empty());
}
