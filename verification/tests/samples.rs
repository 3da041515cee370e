use zenoh_nostd::error::CollectionError;
use zenoh_nostd::exts::EntityGlobalId;
use zenoh_nostd::fields::ZenohIdProto;
use zenoh_nostd::keyexpr::KeyExpr;
use zenoh_nostd::response::{AllocGetResponse, FixedCapacityGetResponse, GetResponse};
use zenoh_nostd::sample::{AllocSample, FixedCapacitySample, Sample, SampleKind};

fn responder() -> EntityGlobalId {
    EntityGlobalId {
        zid: ZenohIdProto::try_from(&[7_u8][..]).unwrap(),
        eid: 42,
    }
}

#[test]
fn fixed_capacity_samples_preserve_opaque_attachments() {
    let key = KeyExpr::new("test/current/value").unwrap();
    let borrowed = Sample::from_wire(
        key,
        b"value",
        Some(b"causal-stamp"),
        Some(responder()),
        SampleKind::Put,
    );
    let owned = FixedCapacitySample::<64, 16, 32>::try_from(&borrowed).unwrap();

    assert_eq!(owned.keyexpr(), key);
    assert_eq!(owned.payload(), b"value");
    assert_eq!(owned.attachment(), Some(b"causal-stamp".as_slice()));
    assert_eq!(owned.responder(), Some(responder()));
    assert_eq!(owned.kind(), SampleKind::Put);
    assert_eq!(owned.as_ref().attachment(), borrowed.attachment());
}

#[test]
fn fixed_capacity_samples_reject_oversized_attachments() {
    let key = KeyExpr::new("test/current/value").unwrap();
    let borrowed = Sample::from_wire(key, b"value", Some(b"too-large"), None, SampleKind::Put);
    assert!(matches!(
        FixedCapacitySample::<64, 16, 4>::try_from(&borrowed),
        Err(CollectionError::CollectionTooSmall)
    ));
}

#[test]
fn allocated_samples_preserve_opaque_attachments() {
    let key = KeyExpr::new("test/current/value").unwrap();
    let borrowed = Sample::from_wire(
        key,
        &[],
        Some(b"causal-stamp"),
        Some(responder()),
        SampleKind::Delete,
    );
    let owned = AllocSample::try_from(&borrowed).unwrap();

    assert_eq!(owned.keyexpr(), key);
    assert!(owned.payload().is_empty());
    assert_eq!(owned.attachment(), Some(b"causal-stamp".as_slice()));
    assert_eq!(owned.responder(), Some(responder()));
    assert_eq!(owned.kind(), SampleKind::Delete);
    assert_eq!(owned.as_ref().attachment(), borrowed.attachment());
}

#[test]
fn fixed_capacity_samples_take_exactly_what_fits() {
    let key = KeyExpr::new("k/v").unwrap();
    let sample = Sample::new(key, b"four");
    assert!(FixedCapacitySample::<3, 4, 0>::try_from(&sample).is_ok());
    assert!(matches!(
        FixedCapacitySample::<2, 4, 0>::try_from(&sample),
        Err(CollectionError::CollectionTooSmall)
    ));
    assert!(matches!(
        FixedCapacitySample::<3, 3, 0>::try_from(&sample),
        Err(CollectionError::CollectionTooSmall)
    ));
}

#[test]
fn samples_say_what_they_were_made_with() {
    let key = KeyExpr::new("k/v").unwrap();
    let put = Sample::new(key, b"x");
    assert_eq!(put.keyexpr().as_str(), "k/v");
    assert_eq!(put.payload(), b"x");
    assert_eq!(put.attachment(), None);
    assert_eq!(put.responder(), None);
    assert_eq!(put.kind(), SampleKind::Put);

    let delete = Sample::delete(key);
    assert!(delete.payload().is_empty());
    assert_eq!(delete.kind(), SampleKind::Delete);

    let answered = Sample::with_metadata(key, b"y", Some(b"z"), Some(responder()));
    assert_eq!(answered.attachment(), Some(b"z".as_slice()));
    assert_eq!(answered.responder(), Some(responder()));
    assert_eq!(answered.kind(), SampleKind::default());
}

#[test]
fn owned_responses_keep_their_kind() {
    let key = KeyExpr::new("k/v").unwrap();
    let ok = GetResponse::ok(key, b"x");
    let err = GetResponse::err(key, b"why");

    let owned = FixedCapacityGetResponse::<8, 8, 0>::try_from(&ok).unwrap();
    assert!(matches!(owned.as_ref(), GetResponse::Reply(s) if s.payload() == b"x"));
    let owned = FixedCapacityGetResponse::<8, 8, 0>::try_from(&err).unwrap();
    assert!(matches!(owned.as_ref(), GetResponse::ReplyErr(s) if s.payload() == b"why"));
    let owned = FixedCapacityGetResponse::<0, 0, 0>::try_from(&GetResponse::Final).unwrap();
    assert!(matches!(owned.as_ref(), GetResponse::Final));
    assert!(matches!(
        FixedCapacityGetResponse::<8, 2, 0>::try_from(&err),
        Err(CollectionError::CollectionTooSmall)
    ));

    let owned = AllocGetResponse::try_from(&ok).unwrap();
    assert!(matches!(owned.as_ref(), GetResponse::Reply(s) if s.keyexpr() == key));
    let owned = AllocGetResponse::try_from(&err).unwrap();
    assert!(matches!(owned.as_ref(), GetResponse::ReplyErr(s) if s.payload() == b"why"));
    let owned = AllocGetResponse::try_from(&GetResponse::Final).unwrap();
    assert!(matches!(owned.as_ref(), GetResponse::Final));
}
