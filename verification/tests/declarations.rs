use zenoh_nostd::error::CollectionError;
use zenoh_nostd::keyexpr::KeyExpr;
use zenoh_nostd::msgs::declare::{Declare, DeclareBody};
use zenoh_nostd::msgs::interest::{InterestMode, InterestOptions};
use zenoh_nostd::msgs::network::NetworkBody;
use zenoh_nostd::session::declarations::{
    AllocDeclarations, Declaration, FixedCapacityDeclarations, ZDeclarations,
};

fn subscriber(id: u32, key: &'static str) -> Declaration {
    Declaration::Subscriber {
        id,
        key: KeyExpr::new(key).unwrap(),
    }
}

#[test]
fn bounded_declarations_retain_exact_ids_until_undeclared() {
    let mut declarations = FixedCapacityDeclarations::<2>::empty();
    declarations.insert(subscriber(7, "demo/a")).unwrap();
    declarations.insert(subscriber(8, "demo/b")).unwrap();
    assert_eq!(
        declarations
            .iter()
            .into_iter()
            .map(Declaration::id)
            .collect::<heapless::Vec<_, 2>>(),
        heapless::Vec::<u32, 2>::from_slice(&[7, 8]).unwrap()
    );

    declarations.remove(7);
    assert_eq!(
        declarations.iter().into_iter().next().map(Declaration::id),
        Some(8)
    );
}

#[test]
fn duplicate_alloc_id_is_refused_without_replacing_the_declaration() {
    let mut declarations = AllocDeclarations::empty();
    declarations.insert(subscriber(7, "demo/original")).unwrap();
    assert!(declarations
        .insert(subscriber(7, "demo/replacement"))
        .is_err());

    let Declaration::Subscriber { key, .. } = declarations.iter().into_iter().next().unwrap()
    else {
        panic!("expected subscriber declaration");
    };
    assert_eq!(key.as_str(), "demo/original");
}

#[test]
fn replay_message_preserves_declaration_kind_and_id() {
    let message = subscriber(19, "demo/replay").message();
    let NetworkBody::Declare(Declare {
        body: DeclareBody::DeclareSubscriber(declaration),
        ..
    }) = message.body
    else {
        panic!("expected subscriber declaration message");
    };
    assert_eq!(declaration.id, 19);
    assert_eq!(declaration.wire_expr.suffix, "demo/replay");
}

#[test]
fn every_kind_of_declaration_has_its_own_message() {
    let key = KeyExpr::new("demo/q").unwrap();
    let NetworkBody::Declare(Declare {
        id: None,
        body: DeclareBody::DeclareQueryable(queryable),
        ..
    }) = (Declaration::Queryable { id: 3, key }).message().body
    else {
        panic!("expected queryable declaration message");
    };
    assert_eq!((queryable.id, queryable.wire_expr.suffix), (3, "demo/q"));

    let interest = Declaration::Interest {
        id: 4,
        key,
        mode: InterestMode::Future,
        options: InterestOptions::new(InterestOptions::SUBSCRIBERS),
    };
    assert_eq!(interest.key().as_str(), "demo/q");
    let NetworkBody::Interest(message) = interest.message().body else {
        panic!("expected interest message");
    };
    assert_eq!(message.id, 4);
    assert_eq!(message.mode, InterestMode::Future);
    assert_eq!(message.inner.options, 2);
    assert_eq!(message.inner.wire_expr.unwrap().suffix, "demo/q");
}

#[test]
fn a_full_bounded_table_refuses_and_keeps_its_declarations() {
    let mut declarations = FixedCapacityDeclarations::<2>::empty();
    declarations.insert(subscriber(1, "a")).unwrap();
    declarations.insert(subscriber(2, "b")).unwrap();
    assert_eq!(
        declarations.insert(subscriber(3, "c")),
        Err(CollectionError::CollectionIsFull)
    );
    assert_eq!(
        declarations.insert(subscriber(2, "c")),
        Err(CollectionError::KeyAlreadyExists)
    );
    let ids: Vec<u32> = declarations.iter().into_iter().map(|d| d.id()).collect();
    assert_eq!(ids, [1, 2]);
}

#[test]
fn the_last_bounded_declaration_takes_the_place_of_a_removed_one() {
    let mut declarations = FixedCapacityDeclarations::<4>::empty();
    for id in [1, 2, 3] {
        declarations.insert(subscriber(id, "a")).unwrap();
    }
    declarations.remove(1);
    declarations.remove(9);
    let ids: Vec<u32> = declarations.iter().into_iter().map(|d| d.id()).collect();
    assert_eq!(ids, [3, 2]);
}

#[test]
fn allocated_declarations_are_listed_by_id() {
    let mut declarations = AllocDeclarations::empty();
    for id in [5, 1, 9] {
        declarations.insert(subscriber(id, "a")).unwrap();
    }
    declarations.remove(5);
    declarations.insert(subscriber(7, "a")).unwrap();
    let ids: Vec<u32> = declarations.iter().into_iter().map(|d| d.id()).collect();
    assert_eq!(ids, [1, 7, 9]);
}
