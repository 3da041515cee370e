use zenoh_nostd::broker::{Broker, BrokerState, Peer};
use zenoh_nostd::config::ZBrokerConfig;
use zenoh_nostd::endpoint::Endpoint;
use zenoh_nostd::error::LinkError;
use zenoh_nostd::fields::ZenohIdProto;
use zenoh_nostd::io::transport::TransportLinkManager;
use zenoh_nostd::wasm::WasmLinkManager;

struct Config(TransportLinkManager<()>);

impl ZBrokerConfig for Config {
    type Buff = ();
    type LinkManager = ();

    fn transports(&self) -> &TransportLinkManager<()> {
        &self.0
    }

    fn buff(&self) {}
}

fn zid(id: u128) -> ZenohIdProto {
    ZenohIdProto::new(id).unwrap()
}

fn state() -> BrokerState<&'static str> {
    let mut state = BrokerState::new();
    state.attach_south(zid(9), "nine");
    state.attach_south(zid(2), "two");
    state.attach_south(zid(5), "five");
    state
}

#[test]
fn a_message_from_upstream_goes_to_every_downstream_peer() {
    let mut state = state();
    state.attach_north(zid(5), "north");
    assert_eq!(
        state.update(true, zid(5)),
        [Peer::South(2), Peer::South(5), Peer::South(9)]
    );
}

#[test]
fn a_message_from_downstream_is_not_echoed() {
    let mut state = state();
    assert_eq!(
        state.update(false, zid(5)),
        [Peer::South(2), Peer::South(9)]
    );
    state.attach_north(zid(1), "north");
    assert_eq!(
        state.update(false, zid(5)),
        [Peer::North, Peer::South(2), Peer::South(9)]
    );
    state.detach_south(zid(9));
    state.detach_north();
    assert_eq!(state.update(false, zid(5)), [Peer::South(2)]);
    assert!(state.update(false, zid(2)) == [Peer::South(5)]);
}

#[test]
fn peers_are_found_by_their_identifier() {
    let config = Config(TransportLinkManager::from(()));
    let mut broker = Broker::new(&config);
    assert!(broker.state.driver(Peer::North).is_none());
    broker.state.attach_north(zid(1), "north");
    broker.state.attach_south(zid(2), "old");
    broker.state.attach_south(zid(2), "new");
    assert_eq!(broker.state.driver(Peer::North), Some(&"north"));
    assert_eq!(broker.state.driver(Peer::South(2)), Some(&"new"));
    assert_eq!(broker.state.driver(Peer::South(3)), None);
}

#[test]
fn sockets_of_a_browser_keep_their_host_name() {
    let manager = WasmLinkManager;
    let endpoint = Endpoint::new("ws", "bridge.example.com:10000");
    assert_eq!(
        manager.socket_url(endpoint).unwrap(),
        "ws://bridge.example.com:10000"
    );
    assert_eq!(
        manager.connect(endpoint).unwrap(),
        "ws://bridge.example.com:10000/"
    );
    let secure = Endpoint::new("wss", "bridge.example.com/path");
    assert_eq!(
        manager.connect(secure).unwrap(),
        "wss://bridge.example.com/path"
    );
}

#[test]
fn a_browser_opens_sockets_only() {
    let manager = WasmLinkManager;
    for protocol in ["tcp", "", "w", "wsss", "WS"] {
        assert_eq!(
            manager.connect(Endpoint::new(protocol, "127.0.0.1:80")),
            Err(LinkError::CouldNotParseProtocol)
        );
    }
    assert_eq!(
        manager.connect(Endpoint::new("ws", "")),
        Err(LinkError::CouldNotConnect)
    );
    assert_eq!(
        manager.target(None),
        Err(LinkError::CouldNotConnect)
    );
    let endpoint = Endpoint::new("ws", "127.0.0.1:80");
    assert_eq!(endpoint.address(), "127.0.0.1:80");
    assert_eq!(manager.listen(endpoint), LinkError::CouldNotListen);
}
