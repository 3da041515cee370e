use zenoh_nostd::error::{CollectionError, SessionError};
use zenoh_nostd::fields::WireExpr;
use zenoh_nostd::keyexpr::{KeyExpr, NonWildKeyExpr};
use zenoh_nostd::session::keyexprs::{KeyExprTable, MAX_MAPPED_KEYEXPR};
use zenoh_nostd::session::namespace::{project_namespace, remove_namespace};

fn namespace() -> NonWildKeyExpr<'static> {
    NonWildKeyExpr::new(KeyExpr::new("example/local/node-a").unwrap()).unwrap()
}

#[test]
fn egress_prefixes_every_application_expression() {
    let namespace = namespace();
    let logical = KeyExpr::new("tenant/a/log/append").unwrap();
    let mut storage = heapless::String::new();

    let wire = project_namespace(Some(namespace), logical, &mut storage).unwrap();

    assert_eq!(wire.suffix, "example/local/node-a/tenant/a/log/append");
}

#[test]
fn ingress_exposes_only_the_relative_tail() {
    let namespace = namespace();

    assert_eq!(
        remove_namespace(Some(namespace), "example/local/node-a/tenant/a/log"),
        Some("tenant/a/log")
    );
    assert_eq!(
        remove_namespace(Some(namespace), "example/local/node-b/tenant/a/log"),
        None,
        "another machine's namespace must be rejected rather than exposed"
    );
    assert_eq!(remove_namespace(Some(namespace), "tenant/a/log"), None);
}

#[test]
fn an_unnamespaced_session_preserves_the_original_key() {
    let logical = KeyExpr::new("public/tenant/a/runtime").unwrap();
    let mut storage = heapless::String::new();

    let wire = project_namespace(None, logical, &mut storage).unwrap();

    assert_eq!(wire.suffix, logical.as_str());
    assert_eq!(
        remove_namespace(None, logical.as_str()),
        Some(logical.as_str())
    );
}

#[test]
fn a_mapped_namespace_prefix_resolves_before_ingress_filtering() {
    let namespace = namespace();
    let mut mappings = KeyExprTable::new();
    assert!(mappings.declare(7, "example"));

    let wire = WireExpr {
        scope: 7,
        mapping: Default::default(),
        suffix: "/local/node-a/tenant/a/log",
    };
    let mut resolved = heapless::String::new();
    let transport_key = mappings.resolve(&wire, &mut resolved).unwrap();

    assert_eq!(
        remove_namespace(Some(namespace), transport_key),
        Some("tenant/a/log")
    );
}

#[test]
fn ingress_accepts_every_key_that_egress_can_emit() {
    let namespace = namespace();
    let mut logical_text = heapless::String::<300>::new();
    logical_text.push_str("tenant/").unwrap();
    for _ in 0..260 {
        logical_text.push('a').unwrap();
    }
    let logical = KeyExpr::new(logical_text.as_str()).unwrap();
    let mut projected = heapless::String::new();
    let wire = project_namespace(Some(namespace), logical, &mut projected).unwrap();
    assert!(wire.suffix.len() > MAX_MAPPED_KEYEXPR);

    let mappings = KeyExprTable::new();
    let mut resolved = heapless::String::new();
    let transport_key = mappings.resolve(&wire, &mut resolved).unwrap();

    assert_eq!(
        remove_namespace(Some(namespace), transport_key),
        Some(logical.as_str())
    );
}

#[test]
fn a_key_that_outgrows_the_buffer_is_not_sent() {
    let mut storage = heapless::String::new();
    let fits = "a".repeat(512 - "example/local/node-a/".len());
    let wire = project_namespace(
        Some(namespace()),
        KeyExpr::new(&fits).unwrap(),
        &mut storage,
    )
    .unwrap();
    assert_eq!(wire.suffix.len(), 512);

    let mut storage = heapless::String::new();
    let outgrows = "a".repeat(513 - "example/local/node-a/".len());
    let wire = project_namespace(
        Some(namespace()),
        KeyExpr::new(&outgrows).unwrap(),
        &mut storage,
    );
    assert_eq!(
        wire,
        Err(SessionError::Collection(
            CollectionError::CollectionTooSmall
        ))
    );
}

#[test]
fn a_name_that_only_starts_like_the_namespace_is_outside_it() {
    assert_eq!(
        remove_namespace(Some(namespace()), "example/local/node-ab/x"),
        None
    );
    assert_eq!(
        remove_namespace(Some(namespace()), "example/local/node-a"),
        Some("")
    );
    assert_eq!(
        remove_namespace(Some(namespace()), "example/local/node-a/"),
        Some("")
    );
}
