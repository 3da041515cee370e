//! The boundary between the keys of the application and those of the transport.
use vstd::prelude::*;

use crate::error::{CollectionError, SessionError};
use crate::fields::WireExpr;
use crate::keyexpr::{KeyExpr, NonWildKeyExpr};
use crate::storage::{string_as_str, string_clear, string_push_str};
use crate::text::strip_prefix;

verus! {

/// The key of the transport for the key `logical` of the application.
pub open spec fn projected(namespace: Option<Seq<char>>, logical: Seq<char>) -> Seq<char> {
    match namespace {
        Some(namespace) => crate::keyexpr::joined(namespace, logical),
        None => logical,
    }
}

/// The key of the transport for `logical` fits the session's buffer.
pub open spec fn projects(namespace: Option<Seq<char>>, logical: Seq<char>) -> bool {
    namespace is Some ==> crate::text::utf8_len(projected(namespace, logical))
        <= crate::session::keyexprs::MAX_SESSION_KEYEXPR
}

/// The key of the application for the key `wire_key` of the transport, if it lies within the
/// namespace.
pub open spec fn relative(namespace: Option<Seq<char>>, wire_key: Seq<char>) -> Option<Seq<char>> {
    match namespace {
        Some(namespace) => if wire_key == namespace {
            Some(Seq::empty())
        } else if (namespace + seq!['/']).is_prefix_of(wire_key) {
            Some(wire_key.skip(namespace.len() as int + 1))
        } else {
            None
        },
        None => Some(wire_key),
    }
}

/// The text of an optional namespace.
pub open spec fn text_of(namespace: Option<NonWildKeyExpr>) -> Option<Seq<char>> {
    match namespace {
        Some(namespace) => Some(namespace@),
        None => None,
    }
}

/// Puts the namespace in front of a key that leaves the session.
pub fn project_namespace<'a>(
    namespace: Option<NonWildKeyExpr<'_>>,
    logical: KeyExpr<'a>,
    storage: &'a mut heapless::String<512>,
) -> (expr: Result<WireExpr<'a>, SessionError>)
    ensures
        expr is Ok <==> projects(text_of(namespace), logical@),
        expr matches Ok(expr) ==> expr.spells(projected(text_of(namespace), logical@)),
        expr matches Err(error) ==> error == SessionError::Collection(
            CollectionError::CollectionTooSmall,
        ),
        namespace is None ==> *final(storage) == *old(storage),
        expr is Ok && namespace is Some ==> crate::storage::text(*final(storage)) == projected(
            text_of(namespace),
            logical@,
        ),
        expr is Err ==> crate::storage::text(*final(storage)).is_prefix_of(
            projected(text_of(namespace), logical@),
        ),
{
    let namespace = match namespace {
        Some(namespace) => namespace,
        None => return Ok(WireExpr::literal(logical)),
    };
    let prefix: &str = namespace.as_str();
    let suffix: &str = logical.as_str();
    proof {
        reveal_strlit("/");
        assert("/"@ == seq!['/']);
        assert(Seq::<char>::empty() + prefix@ == prefix@);
        crate::text::lemma_utf8_len_ascii(Seq::<char>::empty());
        crate::text::lemma_utf8_len_ascii(seq!['/']);
        crate::text::lemma_utf8_len_concat(prefix@, seq!['/']);
        crate::text::lemma_utf8_len_concat(prefix@ + seq!['/'], suffix@);
        crate::keyexpr::lemma_joined_is_keyexpr(prefix@, suffix@);
        let whole = crate::keyexpr::joined(prefix@, suffix@);
        assert(Seq::<char>::empty().is_prefix_of(whole));
        assert(prefix@.is_prefix_of(whole));
        assert((prefix@ + seq!['/']).is_prefix_of(whole));
    }
    string_clear(storage);
    if string_push_str(storage, prefix).is_err() || string_push_str(storage, "/").is_err()
        || string_push_str(storage, suffix).is_err() {
        return Err(SessionError::Collection(CollectionError::CollectionTooSmall));
    }
    Ok(WireExpr::literal(KeyExpr::from_str_unchecked(string_as_str(storage))))
}

/// Takes the namespace off a key that enters the session. A key outside it is not exposed.
pub fn remove_namespace<'a>(
    namespace: Option<NonWildKeyExpr<'_>>,
    wire_key: &'a str,
) -> (logical: Option<&'a str>)
    ensures
        match relative(text_of(namespace), wire_key@) {
            Some(expected) => logical matches Some(logical) && logical@ == expected,
            None => logical is None,
        },
{
    let namespace = match namespace {
        Some(namespace) => namespace,
        None => return Some(wire_key),
    };
    let ghost ns = namespace@;
    let tail: &str = match strip_prefix(wire_key, namespace.as_str()) {
        Some(tail) => tail,
        None => {
            proof {
                if (ns + seq!['/']).is_prefix_of(wire_key@) {
                    assert(wire_key@.take(ns.len() as int) == (ns + seq!['/']).take(
                        ns.len() as int,
                    ));
                    assert(ns.is_prefix_of(wire_key@));
                }
            }
            return None;
        },
    };
    proof {
        reveal_strlit("/");
        assert("/"@ == seq!['/']);
        assert(wire_key@ == ns + tail@);
        if "/"@.is_prefix_of(tail@) {
            assert((ns + seq!['/']).is_prefix_of(wire_key@));
            assert(tail@.skip(1) == wire_key@.skip(ns.len() as int + 1));
        } else if (ns + seq!['/']).is_prefix_of(wire_key@) {
            assert(wire_key@[ns.len() as int] == (ns + seq!['/'])[ns.len() as int]);
            assert(seq!['/'] == tail@.take(1));
        }
    }
    if tail.is_empty() {
        assert(wire_key@ == ns);
        Some(tail)
    } else {
        strip_prefix(tail, "/")
    }
}

/// The session exposes every key that it can send, as the application named it.
pub proof fn law_ingress_accepts_what_egress_emits(
    namespace: Option<Seq<char>>,
    logical: Seq<char>,
)
    ensures
        relative(namespace, projected(namespace, logical)) == Some(logical),
{
    if let Some(ns) = namespace {
        let key = projected(namespace, logical);
        assert(key.len() > ns.len());
        assert((ns + seq!['/']).is_prefix_of(key)) by {
            assert(key.take(ns.len() as int + 1) == ns + seq!['/']);
        }
        assert(key.skip(ns.len() as int + 1) == logical);
    }
}

/// A namespaced session exposes nothing but the keys of its namespace: one that it exposes is the
/// namespace itself, with an empty tail, or the namespace followed by a separator and the tail.
pub proof fn law_ingress_stays_inside_the_namespace(namespace: Seq<char>, wire_key: Seq<char>)
    ensures
        relative(Some(namespace), wire_key) matches Some(tail) ==> (wire_key == namespace
            && tail.len() == 0) || wire_key == projected(Some(namespace), tail),
        relative(Some(namespace), wire_key) is None <==> wire_key != namespace && !(namespace
            + seq!['/']).is_prefix_of(wire_key),
{
    if wire_key != namespace && (namespace + seq!['/']).is_prefix_of(wire_key) {
        assert(wire_key == projected(Some(namespace), wire_key.skip(namespace.len() as int + 1)));
    }
}

/// Different keys of the application stay different on the transport.
pub proof fn law_projection_is_injective(
    namespace: Option<Seq<char>>,
    first: Seq<char>,
    second: Seq<char>,
)
    requires
        projected(namespace, first) == projected(namespace, second),
    ensures
        first == second,
{
    law_ingress_accepts_what_egress_emits(namespace, first);
    law_ingress_accepts_what_egress_emits(namespace, second);
}

/// What a session sends is a key expression again.
pub proof fn law_projection_is_a_keyexpr(namespace: Option<Seq<char>>, logical: Seq<char>)
    requires
        namespace matches Some(namespace) ==> crate::keyexpr::is_nonwild(namespace),
        crate::keyexpr::is_keyexpr(logical),
    ensures
        crate::keyexpr::is_keyexpr(projected(namespace, logical)),
{
    if let Some(ns) = namespace {
        crate::keyexpr::lemma_joined_is_keyexpr(ns, logical);
    }
}

/// The key of the transport is the namespace, one separator and the key of the application, and it
/// can be sent if it takes no more than 512 bytes. Without a namespace it is the key itself, of any
/// length.
pub proof fn law_a_namespace_stands_in_front(namespace: Seq<char>, logical: Seq<char>)
    ensures
        projected(Some(namespace), logical).len() == namespace.len() + 1 + logical.len(),
        projected(Some(namespace), logical).take(namespace.len() as int) == namespace,
        projected(Some(namespace), logical)[namespace.len() as int] == '/',
        projected(Some(namespace), logical).skip(namespace.len() as int + 1) == logical,
        projected(None, logical) == logical,
        projects(Some(namespace), logical) <==> vstd::utf8::encode_utf8(
            namespace + seq!['/'] + logical,
        ).len() <= 512,
        projects(None, logical),
{
    let key = projected(Some(namespace), logical);
    assert(key.take(namespace.len() as int) == namespace);
    assert(key.skip(namespace.len() as int + 1) == logical);
}

/// A session without a namespace exposes every key as it is.
pub proof fn law_without_a_namespace_nothing_is_taken_off(wire_key: Seq<char>)
    ensures
        relative(None, wire_key) == Some(wire_key),
{
}

/// A namespace that is configured is that of the session.
pub proof fn law_the_configured_namespace_is_used<'a>(namespace: NonWildKeyExpr<'a>)
    ensures
        text_of(Some(namespace)) == Some(namespace@),
        text_of(None) is None,
{
}

} // verus!
