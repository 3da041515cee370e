use heapless::String;
use zenoh_nostd::error::KeyexprError;
use zenoh_nostd::fields::{Mapping, WireExpr};
use zenoh_nostd::keyexpr::{KeyExpr, NonWildKeyExpr};
use zenoh_nostd::session::keyexprs::{
    KeyExprTable, TokenTable, MAX_KEYEXPR_MAPPINGS, MAX_LIVELINESS_TOKENS, MAX_MAPPED_KEYEXPR,
};

fn wire(scope: u16, suffix: &str) -> WireExpr<'_> {
    WireExpr {
        scope,
        mapping: Mapping::default(),
        suffix,
    }
}

#[test]
fn an_unmapped_expression_is_its_own_suffix() {
    let table = KeyExprTable::new();
    let mut buf = String::new();
    assert_eq!(
        table.resolve(&wire(0, "fieldblox/org/a/block/b"), &mut buf),
        Some("fieldblox/org/a/block/b")
    );
}

#[test]
fn a_bare_scope_resolves_to_the_whole_mapping() {
    let mut table = KeyExprTable::new();
    assert!(table.declare(17, "fieldblox/liveness-probe/alpha"));
    let mut buf = String::new();
    assert_eq!(
        table.resolve(&wire(17, ""), &mut buf),
        Some("fieldblox/liveness-probe/alpha")
    );
}

#[test]
fn a_scope_with_a_suffix_joins_them() {
    let mut table = KeyExprTable::new();
    table.declare(3, "fieldblox/org/a");
    let mut buf = String::new();
    assert_eq!(
        table.resolve(&wire(3, "block/b"), &mut buf),
        Some("fieldblox/org/a/block/b")
    );
}

#[test]
fn joining_never_doubles_the_separator() {
    let mut table = KeyExprTable::new();
    table.declare(4, "fieldblox/org/a/");
    let mut buf = String::new();
    assert_eq!(
        table.resolve(&wire(4, "block/b"), &mut buf),
        Some("fieldblox/org/a/block/b")
    );

    table.declare(5, "fieldblox/org/a");
    let mut buf2 = String::new();
    assert_eq!(
        table.resolve(&wire(5, "/block/b"), &mut buf2),
        Some("fieldblox/org/a/block/b")
    );
}

#[test]
fn a_separator_on_both_sides_is_written_once() {
    let mut table = KeyExprTable::new();
    table.declare(4, "fieldblox/org/a/");
    let mut buf = String::new();
    assert_eq!(
        table.resolve(&wire(4, "/block/b"), &mut buf),
        Some("fieldblox/org/a/block/b")
    );
    let mut buf = String::new();
    assert_eq!(
        table.resolve(&wire(4, "/"), &mut buf),
        Some("fieldblox/org/a/")
    );
    let mut buf = String::new();
    let key = table.resolve_keyexpr(&wire(4, "/block/b"), &mut buf);
    assert_eq!(
        key.unwrap().map(|key| key.as_str().len()),
        Some("fieldblox/org/a/block/b".len())
    );

    let longest = "k".repeat(496);
    let suffix = format!("/{longest}");
    let mut buf = String::new();
    assert_eq!(
        table.resolve(&wire(4, &suffix), &mut buf),
        Some(format!("fieldblox/org/a/{longest}").as_str())
    );
    let suffix = format!("/{longest}k");
    let mut buf = String::new();
    assert_eq!(table.resolve(&wire(4, &suffix), &mut buf), None);
}

#[test]
fn an_unknown_scope_resolves_to_nothing() {
    let table = KeyExprTable::new();
    let mut buf = String::new();
    assert_eq!(table.resolve(&wire(99, "block/b"), &mut buf), None);
}

#[test]
fn undeclaring_forgets_the_mapping() {
    let mut table = KeyExprTable::new();
    table.declare(7, "fieldblox/org/a");
    assert_eq!(table.len(), 1);
    table.undeclare(7);
    assert!(table.is_empty());

    let mut buf = String::new();
    assert_eq!(table.resolve(&wire(7, ""), &mut buf), None);
}

#[test]
fn a_full_table_refuses_rather_than_evicting() {
    let mut table = KeyExprTable::new();
    // Ids are 1-based: zero means "not a reference".
    for i in 1..=MAX_KEYEXPR_MAPPINGS {
        assert!(table.declare(i as u16, "fieldblox/org/a"), "{i} should fit");
    }
    assert!(!table.declare(999, "fieldblox/org/overflow"));

    // The first mapping is still there.
    let mut buf = String::new();
    assert_eq!(
        table.resolve(&wire(1, ""), &mut buf),
        Some("fieldblox/org/a")
    );
}

#[test]
fn zero_is_not_a_usable_mapping_id() {
    let mut table = KeyExprTable::new();
    assert!(!table.declare(0, "fieldblox/org/a"));
    assert!(table.is_empty());
}

#[test]
fn an_oversized_expression_is_refused_whole() {
    let mut table = KeyExprTable::new();
    let huge = "x".repeat(MAX_MAPPED_KEYEXPR + 1);
    assert!(!table.declare(1, &huge));
    assert!(table.is_empty());
}

#[test]
fn token_ids_round_trip_the_resolved_expression() {
    let mut tokens = TokenTable::new();
    assert!(tokens.declare(12, "fieldblox/org/a/block/b/runtime/owner/p"));
    assert_eq!(
        tokens.undeclare(12).as_deref(),
        Some("fieldblox/org/a/block/b/runtime/owner/p")
    );
    assert!(tokens.undeclare(12).is_none());
}

#[test]
fn token_ids_are_unique_and_nonzero() {
    let mut tokens = TokenTable::new();
    assert!(!tokens.declare(0, "fieldblox/token/zero"));
    assert!(tokens.declare(4, "fieldblox/token/first"));
    assert!(!tokens.declare(4, "fieldblox/token/replacement"));
    assert_eq!(
        tokens.undeclare(4).as_deref(),
        Some("fieldblox/token/first")
    );
}

#[test]
fn a_known_mapping_can_be_replaced_in_a_full_table() {
    let mut table = KeyExprTable::new();
    for i in 1..=MAX_KEYEXPR_MAPPINGS {
        assert!(table.declare(i as u16, "a"));
    }
    assert!(table.declare(16, "b"));
    assert_eq!(table.len(), MAX_KEYEXPR_MAPPINGS);
    let mut buf = String::new();
    assert_eq!(table.resolve(&wire(16, "c"), &mut buf), Some("b/c"));
    table.undeclare(3);
    assert!(table.declare(999, "d"));
}

#[test]
fn an_expression_longer_than_the_buffer_resolves_to_nothing() {
    let table = KeyExprTable::new();
    let mut buf = String::new();
    let longest = "x".repeat(512);
    assert_eq!(
        table.resolve(&wire(0, &longest), &mut buf),
        Some(longest.as_str())
    );
    let longer = "x".repeat(513);
    let mut buf = String::new();
    assert_eq!(table.resolve(&wire(0, &longer), &mut buf), None);
    assert_eq!(buf.as_str(), "");

    let mut table = KeyExprTable::new();
    assert!(table.declare(1, "ab"));
    let tail = "y".repeat(510);
    let mut buf = String::new();
    assert_eq!(table.resolve(&wire(1, &tail), &mut buf), None);
    assert_eq!(buf.as_str(), "ab/");
    let tail = "y".repeat(509);
    let mut buf = String::new();
    assert_eq!(
        table.resolve(&wire(1, &tail), &mut buf).map(str::len),
        Some(512)
    );
}

#[test]
fn capacity_counts_bytes_rather_than_characters() {
    let mut table = KeyExprTable::new();
    assert!(table.declare(1, &"\u{e9}".repeat(128)));
    assert!(!table.declare(2, &"\u{e9}".repeat(129)));
    assert_eq!(table.len(), 1);
}

#[test]
fn resolving_checks_the_expression() {
    let mut table = KeyExprTable::new();
    assert!(table.declare(1, "a//b"));
    assert!(table.declare(2, "a/**"));
    let mut buf = String::new();
    assert!(matches!(
        table.resolve_keyexpr(&wire(1, ""), &mut buf),
        Err(KeyexprError::NotCanonical)
    ));
    let mut buf = String::new();
    let key = table.resolve_keyexpr(&wire(2, ""), &mut buf).unwrap();
    assert_eq!(key.map(|key| key.as_str()), Some("a/**"));
    let mut buf = String::new();
    assert!(matches!(
        table.resolve_keyexpr(&wire(3, ""), &mut buf),
        Ok(None)
    ));
}

#[test]
fn a_token_matches_its_own_key_only() {
    let mut tokens = TokenTable::new();
    assert!(tokens.declare(4, "demo/token"));
    assert!(tokens.matches(4, "demo/token"));
    assert!(!tokens.matches(4, "demo/tokens"));
    assert!(!tokens.matches(4, "demo/tokem"));
    assert!(!tokens.matches(5, "demo/token"));
}

#[test]
fn a_full_token_table_refuses_rather_than_evicting() {
    let mut tokens = TokenTable::new();
    for i in 1..=MAX_LIVELINESS_TOKENS {
        assert!(tokens.declare(i as u32, "demo/token"));
    }
    assert!(!tokens.declare(99, "demo/token"));
    assert!(tokens.matches(1, "demo/token"));
    assert!(!tokens.declare(100, &"x".repeat(257)));
}

#[test]
fn key_expressions_are_canonical() {
    for good in [
        "a", "a/b", "a/*/b", "**", "*/**", "a/**/b", "a$*", "$*a", "a$*b/c", "@a/b", "*", "a b",
        "\u{e9}/x",
    ] {
        assert_eq!(KeyExpr::new(good).unwrap().as_str(), good);
    }
    for bad in [
        "", "/", "/a", "a/", "a//b", "a#b", "a?b", "**/**", "**/*", "a*", "*a", "***", "a/b*/c",
        "$*", "a/$*", "$*/a", "$*$*", "a$*$*b", "a$b", "a$", "$**", "**a", "a/**/*/b", "*$*",
    ] {
        assert_eq!(KeyExpr::new(bad), Err(KeyexprError::NotCanonical), "{bad}");
    }
}

#[test]
fn namespaces_hold_no_wildcard() {
    let plain = KeyExpr::new("a/b").unwrap();
    assert_eq!(NonWildKeyExpr::new(plain).unwrap().as_str(), "a/b");
    for wild in ["*", "a/**", "a$*"] {
        let wild = KeyExpr::new(wild).unwrap();
        assert_eq!(NonWildKeyExpr::new(wild), Err(KeyexprError::Wild));
    }
}

#[test]
fn one_mapping_does_not_disturb_another() {
    let mut table = KeyExprTable::new();
    assert!(table.declare(1, "a"));
    assert!(table.declare(2, "b"));
    table.undeclare(2);
    assert!(table.declare(3, "c"));
    let mut buf = String::new();
    assert_eq!(table.resolve(&wire(1, "x"), &mut buf), Some("a/x"));
    let mut buf = String::new();
    assert_eq!(table.resolve(&wire(3, "/x"), &mut buf), Some("c/x"));
}
