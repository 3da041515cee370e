//! What holds of the messages that two sessions exchange.
use vstd::prelude::*;

use crate::exts::{NodeId, QoS};
use crate::fields::WireExpr;
use crate::msgs::declare::{
    Declare, DeclareBody, DeclareKeyExpr, DeclareToken, UndeclareToken,
};
use crate::msgs::network::{NetworkBody, Put};
use crate::response::ResponseView;
use crate::sample::{SampleKind, SampleView};
use crate::session::run::{ReactionView, Received, Refusal};
use crate::session::StateView;

verus! {

/// Receiving leaves what the session itself has declared as it is.
pub proof fn law_receiving_keeps_declarations(
    namespace: Option<Seq<char>>,
    memory: StateView,
    body: NetworkBody,
)
    ensures
        crate::session::run::received(namespace, memory, body).memory.declared == memory.declared,
        crate::session::run::received(namespace, memory, body).memory.next == memory.next,
{
}

/// A namespaced session exposes a key only where the wire names that key inside the namespace, and
/// then it is a key expression.
pub proof fn law_exposed_keys_lie_inside_the_namespace(
    namespace: Seq<char>,
    mappings: Map<u32, Seq<char>>,
    wire_expr: WireExpr,
)
    ensures
        crate::session::named_key(Some(namespace), mappings, wire_expr) matches Ok(Some(key)) ==> {
            &&& crate::keyexpr::is_keyexpr(key)
            &&& crate::session::keyexprs::resolved(mappings, wire_expr.scope, wire_expr.suffix@)
                == Some(crate::keyexpr::joined(namespace, key))
        },
{
    if let Some(key) = crate::session::keyexprs::resolved(
        mappings,
        wire_expr.scope,
        wire_expr.suffix@,
    ) {
        crate::session::namespace::law_ingress_stays_inside_the_namespace(namespace, key);
    }
}

proof fn lemma_sent_keys_are_named(
    namespace: Option<Seq<char>>,
    mappings: Map<u32, Seq<char>>,
    key: Seq<char>,
    expr: WireExpr,
)
    requires
        crate::keyexpr::is_keyexpr(key),
        expr.spells(crate::session::namespace::projected(namespace, key)),
        crate::text::utf8_len(crate::session::namespace::projected(namespace, key))
            <= crate::session::keyexprs::MAX_SESSION_KEYEXPR,
    ensures
        crate::session::named_key(namespace, mappings, expr)
            == Ok::<Option<Seq<char>>, crate::error::SessionError>(Some(key)),
{
    crate::session::namespace::law_ingress_accepts_what_egress_emits(namespace, key);
}

/// What one session publishes, a session in the same namespace delivers: the key as the application
/// named it, the bytes and the attachment. Only a key that is longer than the receiving buffer is
/// left out, which a session without a namespace can send.
pub proof fn law_a_publication_is_delivered_as_sent<'a>(
    namespace: Option<Seq<char>>,
    memory: StateView,
    key: Seq<char>,
    expr: WireExpr<'a>,
    put: Put<'a>,
)
    requires
        crate::keyexpr::is_keyexpr(key),
        expr.spells(crate::session::namespace::projected(namespace, key)),
        crate::text::utf8_len(crate::session::namespace::projected(namespace, key))
            <= crate::session::keyexprs::MAX_SESSION_KEYEXPR,
    ensures
        crate::session::run::received(
            namespace,
            memory,
            crate::session::put::publication(expr, put).body,
        ) == (Received {
            memory,
            outcome: Ok(
                ReactionView::Deliver(
                    SampleView {
                        key,
                        payload: put.payload@,
                        attachment: crate::session::run::attached(put.attachment),
                        responder: None,
                        kind: SampleKind::Put,
                    },
                ),
            ),
        }),
{
    lemma_sent_keys_are_named(namespace, memory.keyexprs, key, expr);
}

/// What one session replies to a query, a session in the same namespace hands to that query: the key
/// as the application named it, the bytes and the attachment, or the failure. The end of the query
/// reaches it too. Only a key that is longer than the receiving buffer is left out.
pub proof fn law_an_answer_reaches_its_query<'a>(
    namespace: Option<Seq<char>>,
    memory: StateView,
    rid: u32,
    key: Seq<char>,
    expr: WireExpr<'a>,
    payload: &'a [u8],
    attachment: Option<&'a [u8]>,
)
    requires
        crate::keyexpr::is_keyexpr(key),
        expr.spells(crate::session::namespace::projected(namespace, key)),
        crate::text::utf8_len(crate::session::namespace::projected(namespace, key))
            <= crate::session::keyexprs::MAX_SESSION_KEYEXPR,
    ensures
        crate::session::run::received(
            namespace,
            memory,
            crate::session::queryable::answer(
                rid,
                expr,
                crate::session::queryable::reply_body(payload, attachment),
            ).body,
        ) == (Received {
            memory,
            outcome: Ok(
                ReactionView::Respond {
                    rid,
                    response: ResponseView::Reply(
                        SampleView {
                            key,
                            payload: payload@,
                            attachment: crate::sample::optional_bytes(attachment),
                            responder: None,
                            kind: SampleKind::Put,
                        },
                    ),
                },
            ),
        }),
        crate::session::run::received(
            namespace,
            memory,
            crate::session::queryable::answer(
                rid,
                expr,
                crate::session::queryable::err_body(payload),
            ).body,
        ) == (Received {
            memory,
            outcome: Ok(
                ReactionView::Respond {
                    rid,
                    response: ResponseView::ReplyErr(
                        SampleView {
                            key,
                            payload: payload@,
                            attachment: None,
                            responder: None,
                            kind: SampleKind::Put,
                        },
                    ),
                },
            ),
        }),
        crate::session::run::received(
            namespace,
            memory,
            crate::session::queryable::last_answer(rid).body,
        ) == (Received { memory, outcome: Ok(ReactionView::Finish { rid }) }),
{
    lemma_sent_keys_are_named(namespace, memory.keyexprs, key, expr);
}

/// A declaration of the peer with the body `body`, in answer to `interest`.
pub open spec fn declared_by_peer<'a>(interest: Option<u32>, body: DeclareBody<'a>) -> NetworkBody<
    'a,
> {
    NetworkBody::Declare(
        Declare {
            id: interest,
            qos: QoS::Declare,
            timestamp: None,
            nodeid: NodeId { node_id: 0 },
            body,
        },
    )
}

/// A liveliness token that was taken in is remembered under its id, so that undeclaring it by that id
/// alone delivers the deletion of its key. The token is then forgotten.
pub proof fn law_a_token_can_be_undeclared_by_its_id<'a>(
    namespace: Option<Seq<char>>,
    memory: StateView,
    interest: Option<u32>,
    token: DeclareToken<'a>,
)
    requires
        token.id != 0,
        crate::session::run::received(
            namespace,
            memory,
            declared_by_peer(interest, DeclareBody::DeclareToken(token)),
        ).outcome matches Ok(ReactionView::Deliver(_)),
    ensures
        ({
            let appeared = crate::session::run::received(
                namespace,
                memory,
                declared_by_peer(interest, DeclareBody::DeclareToken(token)),
            );
            let sample = appeared.outcome->Ok_0->Deliver_0;
            let gone = crate::session::run::received(
                namespace,
                appeared.memory,
                declared_by_peer(
                    None,
                    DeclareBody::UndeclareToken(UndeclareToken { id: token.id, wire_expr: None }),
                ),
            );
            &&& sample == crate::session::run::token_sample(sample.key, SampleKind::Put)
            &&& appeared.memory.tokens.contains_key(token.id)
            &&& appeared.memory.tokens[token.id] == sample.key
            &&& gone.outcome == Ok::<ReactionView, crate::error::SessionError>(
                ReactionView::Deliver(
                    crate::session::run::token_sample(sample.key, SampleKind::Delete),
                ),
            )
            &&& !gone.memory.tokens.contains_key(token.id)
        }),
{
}

/// Every remembered token keeps a key expression alive.
pub open spec fn tokens_are_keyexprs(tokens: Map<u32, Seq<char>>) -> bool {
    forall|id: u32| #[trigger] tokens.contains_key(id) ==> crate::keyexpr::is_keyexpr(tokens[id])
}

/// Whatever is received, only key expressions are remembered for tokens, so that undeclaring a known
/// token never fails.
pub proof fn law_remembered_tokens_are_key_expressions<'a>(
    namespace: Option<Seq<char>>,
    memory: StateView,
    body: NetworkBody<'a>,
    token: UndeclareToken<'a>,
)
    requires
        tokens_are_keyexprs(memory.tokens),
    ensures
        tokens_are_keyexprs(crate::session::run::received(namespace, memory, body).memory.tokens),
        memory.tokens.contains_key(token.id) ==> crate::session::run::received(
            namespace,
            memory,
            declared_by_peer(None, DeclareBody::UndeclareToken(token)),
        ).outcome == Ok::<ReactionView, crate::error::SessionError>(
            ReactionView::Deliver(
                crate::session::run::token_sample(memory.tokens[token.id], SampleKind::Delete),
            ),
        ),
{
}

/// A token that is known already is delivered again in answer to a further interest, and refused
/// without one. Either way what is remembered stays as it is.
pub proof fn law_a_known_token_is_repeated_only_for_an_interest<'a>(
    namespace: Option<Seq<char>>,
    memory: StateView,
    interest: u32,
    token: DeclareToken<'a>,
    key: Seq<char>,
)
    requires
        token.id != 0,
        memory.tokens.contains_key(token.id),
        memory.tokens[token.id] == key,
        crate::session::named_key(namespace, memory.keyexprs, token.wire_expr) == Ok::<
            Option<Seq<char>>,
            crate::error::SessionError,
        >(Some(key)),
    ensures
        crate::session::run::received(
            namespace,
            memory,
            declared_by_peer(Some(interest), DeclareBody::DeclareToken(token)),
        ) == (Received {
            memory,
            outcome: Ok(
                ReactionView::Deliver(crate::session::run::token_sample(key, SampleKind::Put)),
            ),
        }),
        crate::session::run::received(
            namespace,
            memory,
            declared_by_peer(None, DeclareBody::DeclareToken(token)),
        ) == (Received { memory, outcome: Ok(ReactionView::Dropped(Refusal::TokenRefused)) }),
{
}

/// A mapping that was taken in stands for its key: a later expression that refers to it names what
/// the key itself names, in this namespace or outside it.
pub proof fn law_a_mapping_stands_for_its_key<'a>(
    namespace: Option<Seq<char>>,
    memory: StateView,
    interest: Option<u32>,
    id: u16,
    full: WireExpr<'a>,
    reference: WireExpr<'a>,
)
    requires
        full.scope == 0,
        reference.scope == id,
        reference.suffix@.len() == 0,
        crate::session::keyexprs::accepts_mapping(memory.keyexprs, id, full.suffix@),
    ensures
        ({
            let after = crate::session::run::received(
                namespace,
                memory,
                declared_by_peer(
                    interest,
                    DeclareBody::DeclareKeyExpr(DeclareKeyExpr { id, wire_expr: full }),
                ),
            );
            &&& after.outcome == Ok::<ReactionView, crate::error::SessionError>(
                ReactionView::Settled,
            )
            &&& crate::session::named_key(namespace, after.memory.keyexprs, reference)
                == crate::session::named_key(namespace, after.memory.keyexprs, full)
        }),
{
    let key = full.suffix@;
    crate::session::keyexprs::law_references_resolve_to_their_mapping(
        memory.keyexprs,
        id,
        key,
        seq![],
    );
    assert(reference.suffix@ == Seq::<char>::empty());
    assert(crate::session::keyexprs::completed(key, reference.suffix@) == key);
}

/// A received message is taken in under the key `k` of the application if and only if what its
/// expression spells is `k` with the namespace in front, or `k` itself without a namespace, and `k`
/// is a key expression. It is refused as an unknown mapping if and only if its mapping is unknown,
/// the whole takes more than 512 bytes, or the whole lies outside the namespace.
///
/// What an expression spells is its suffix if it refers to nothing, and otherwise the mapping
/// followed by the suffix, with one separator between them.
pub proof fn law_a_message_is_taken_in_under_its_key<'a>(
    namespace: Option<Seq<char>>,
    mappings: Map<u32, Seq<char>>,
    expr: WireExpr<'a>,
    key: Seq<char>,
)
    ensures
        ({
            let prefix = mappings[expr.scope as u32];
            let suffix = expr.suffix@;
            let ends = prefix.len() > 0 && prefix.last() == '/';
            let starts = suffix.len() > 0 && suffix[0] == '/';
            let whole = if expr.scope == 0 {
                suffix
            } else if suffix.len() == 0 {
                prefix
            } else if ends && starts {
                prefix + suffix.skip(1)
            } else if ends || starts {
                prefix + suffix
            } else {
                prefix + seq!['/'] + suffix
            };
            let readable = (expr.scope == 0 || mappings.contains_key(expr.scope as u32))
                && vstd::utf8::encode_utf8(whole).len() <= 512;
            let inside = match namespace {
                Some(namespace) => whole == namespace || (namespace + seq!['/']).is_prefix_of(
                    whole,
                ),
                None => true,
            };
            let spelled = match namespace {
                Some(namespace) => namespace + seq!['/'] + key,
                None => key,
            };
            let named = crate::session::named_key(namespace, mappings, expr);
            &&& named == Ok::<Option<Seq<char>>, crate::error::SessionError>(Some(key))
                <==> readable && whole == spelled && crate::keyexpr::is_keyexpr(key)
            &&& named == Ok::<Option<Seq<char>>, crate::error::SessionError>(None) <==> !(readable
                && inside)
            &&& named matches Err(error) ==> error == crate::error::SessionError::Keyexpr(
                crate::error::KeyexprError::NotCanonical,
            )
        }),
{
    let suffix = expr.suffix@;
    crate::session::keyexprs::law_an_expression_names_its_mapping_and_suffix(
        mappings,
        expr.scope,
        suffix,
    );
    crate::session::namespace::law_ingress_accepts_what_egress_emits(namespace, key);
    if let Some(whole) = crate::session::keyexprs::resolved(mappings, expr.scope, suffix) {
        if let Some(ns) = namespace {
            crate::session::namespace::law_ingress_stays_inside_the_namespace(ns, whole);
            crate::session::namespace::law_a_namespace_stands_in_front(ns, key);
            crate::keyexpr::law_wildcards_are_stars(key);
            if whole == ns && whole == crate::session::namespace::projected(namespace, key) {
                assert(whole.len() == ns.len());
            }
            if let Some(logical) = crate::session::namespace::relative(namespace, whole) {
                crate::keyexpr::law_wildcards_are_stars(logical);
                if logical.len() == 0 {
                    assert(logical == Seq::<char>::empty());
                }
            }
        }
    }
}

/// What every message that is taken in under a key makes of it: a publication and a deletion are
/// delivered as such, with their bytes and attachment; a reply goes to its query, with whoever
/// answered; a query is handed on with its number, its parameters unless they are empty, and its
/// value. None of them changes what the session remembers.
pub proof fn law_messages_are_handed_on_as_received<'a>(
    namespace: Option<Seq<char>>,
    memory: StateView,
    key: Seq<char>,
    push: crate::msgs::network::Push<'a>,
    response: crate::msgs::network::Response<'a>,
    request: crate::msgs::network::Request<'a>,
)
    requires
        crate::session::named_key(namespace, memory.keyexprs, push.wire_expr) == Ok::<
            Option<Seq<char>>,
            crate::error::SessionError,
        >(Some(key)),
        response.wire_expr == push.wire_expr,
        request.wire_expr == push.wire_expr,
    ensures
        ({
            let pushed = crate::session::run::received(namespace, memory, NetworkBody::Push(push));
            let answered = crate::session::run::received(
                namespace,
                memory,
                NetworkBody::Response(response),
            );
            let asked = crate::session::run::received(
                namespace,
                memory,
                NetworkBody::Request(request),
            );
            let crate::msgs::network::RequestBody::Query(query) = request.payload;
            &&& pushed.memory == memory
            &&& answered.memory == memory
            &&& asked.memory == memory
            &&& pushed.outcome matches Ok(ReactionView::Deliver(sample)) && carries(
                sample,
                key,
                push.payload,
            ) && sample.responder is None
            &&& answered.outcome matches Ok(ReactionView::Respond { rid, response: got }) && rid
                == response.rid && match response.payload {
                crate::msgs::network::ResponseBody::Reply(reply) => got matches ResponseView::Reply(
                    sample,
                ) && carries(sample, key, reply.payload) && sample.responder == response.respid,
                crate::msgs::network::ResponseBody::ReplyErr(error) => {
                    &&& got matches ResponseView::ReplyErr(sample)
                    &&& sample.key == key
                    &&& sample.payload == error.payload@
                    &&& sample.attachment is None
                    &&& sample.responder == response.respid
                    &&& sample.kind == SampleKind::Put
                },
            }
            &&& asked.outcome matches Ok(ReactionView::Answer(got))
            &&& got.id == request.id
            &&& got.key == key
            &&& got.parameters is Some <==> query.parameters@.len() > 0
            &&& got.parameters matches Some(parameters) ==> parameters == query.parameters@
            &&& got.payload is Some <==> query.body is Some
            &&& query.body matches Some(value) ==> got.payload == Some(value.payload@)
        }),
{
}

/// `sample` says what a publication or reply with the body `body` says under `key`.
pub open spec fn carries<'a>(
    sample: SampleView,
    key: Seq<char>,
    body: crate::msgs::network::PushBody<'a>,
) -> bool {
    &&& sample.key == key
    &&& match body {
        crate::msgs::network::PushBody::Put(put) => {
            &&& sample.kind == SampleKind::Put
            &&& sample.payload == put.payload@
            &&& sample.attachment is Some <==> put.attachment is Some
            &&& put.attachment matches Some(attachment) ==> sample.attachment == Some(
                attachment.buffer@,
            )
        },
        crate::msgs::network::PushBody::Del(del) => {
            &&& sample.kind == SampleKind::Delete
            &&& sample.payload.len() == 0
            &&& sample.attachment is Some <==> del.attachment is Some
            &&& del.attachment matches Some(attachment) ==> sample.attachment == Some(
                attachment.buffer@,
            )
        },
    }
}

/// A message whose key is not taken in has no effect: it is dropped as an unknown mapping, or fails
/// with the error of its key, and what the session remembers stays as it is.
pub proof fn law_a_message_without_a_key_has_no_effect<'a>(
    namespace: Option<Seq<char>>,
    memory: StateView,
    interest: Option<u32>,
    push: crate::msgs::network::Push<'a>,
    response: crate::msgs::network::Response<'a>,
    request: crate::msgs::network::Request<'a>,
    token: DeclareToken<'a>,
)
    requires
        response.wire_expr == push.wire_expr,
        request.wire_expr == push.wire_expr,
        token.wire_expr == push.wire_expr,
    ensures
        ({
            let named = crate::session::named_key(namespace, memory.keyexprs, push.wire_expr);
            let dropped = Received {
                memory,
                outcome: match named {
                    Ok(_) => Ok(ReactionView::Dropped(Refusal::UnknownMapping)),
                    Err(error) => Err(error),
                },
            };
            !(named matches Ok(Some(_))) ==> {
                &&& crate::session::run::received(namespace, memory, NetworkBody::Push(push))
                    == dropped
                &&& crate::session::run::received(namespace, memory, NetworkBody::Response(response))
                    == dropped
                &&& crate::session::run::received(namespace, memory, NetworkBody::Request(request))
                    == dropped
                &&& crate::session::run::received(
                    namespace,
                    memory,
                    declared_by_peer(interest, DeclareBody::DeclareToken(token)),
                ) == dropped
            }
        }),
{
}

/// The end of a query reaches that query, and messages that ask something of a router, announce or
/// withdraw subscribers and queryables, or end a snapshot concern nobody.
pub proof fn law_other_messages_are_settled<'a>(
    namespace: Option<Seq<char>>,
    memory: StateView,
    interest: Option<u32>,
    last: crate::msgs::network::ResponseFinal,
    body: NetworkBody<'a>,
    declared: DeclareBody<'a>,
)
    requires
        body is Interest || body is InterestFinal,
        declared is DeclareSubscriber || declared is UndeclareSubscriber
            || declared is DeclareQueryable || declared is UndeclareQueryable
            || declared is DeclareFinal,
    ensures
        crate::session::run::received(namespace, memory, NetworkBody::ResponseFinal(last))
            == (Received { memory, outcome: Ok(ReactionView::Finish { rid: last.rid }) }),
        crate::session::run::received(namespace, memory, body) == (Received {
            memory,
            outcome: Ok(ReactionView::Settled),
        }),
        crate::session::run::received(namespace, memory, declared_by_peer(interest, declared))
            == (Received { memory, outcome: Ok(ReactionView::Settled) }),
{
}

/// A mapping that the peer declares is recorded for what its expression spells, which may refer to
/// an earlier mapping, if its number is not zero, it takes no more than 256 bytes, and its number is
/// known or fewer than sixteen are held. Otherwise it is refused, and nothing is recorded. A mapping
/// that the peer withdraws is forgotten. Neither touches another mapping or any token.
pub proof fn law_mappings_are_recorded_and_forgotten<'a>(
    namespace: Option<Seq<char>>,
    memory: StateView,
    interest: Option<u32>,
    mapping: DeclareKeyExpr<'a>,
    other: u32,
)
    requires
        other != mapping.id,
    ensures
        ({
            let recorded = crate::session::run::received(
                namespace,
                memory,
                declared_by_peer(interest, DeclareBody::DeclareKeyExpr(mapping)),
            );
            let forgotten = crate::session::run::received(
                namespace,
                memory,
                declared_by_peer(
                    interest,
                    DeclareBody::UndeclareKeyExpr(
                        crate::msgs::declare::UndeclareKeyExpr { id: mapping.id },
                    ),
                ),
            );
            let id = mapping.id as u32;
            let whole = crate::session::keyexprs::resolved(
                memory.keyexprs,
                mapping.wire_expr.scope,
                mapping.wire_expr.suffix@,
            );
            let taken = whole matches Some(whole) && id != 0 && vstd::utf8::encode_utf8(whole).len()
                <= 256 && (memory.keyexprs.contains_key(id) || memory.keyexprs.dom().len() < 16);
            &&& taken ==> recorded.outcome == Ok::<ReactionView, crate::error::SessionError>(
                ReactionView::Settled,
            ) && recorded.memory.keyexprs.contains_key(id) && Some(recorded.memory.keyexprs[id])
                == whole
            &&& !taken ==> recorded.memory == memory && recorded.outcome == Ok::<
                ReactionView,
                crate::error::SessionError,
            >(
                ReactionView::Dropped(
                    if whole is None {
                        Refusal::UnknownMapping
                    } else {
                        Refusal::MappingRefused
                    },
                ),
            )
            &&& forgotten.outcome == Ok::<ReactionView, crate::error::SessionError>(
                ReactionView::Settled,
            )
            &&& !forgotten.memory.keyexprs.contains_key(id)
            &&& recorded.memory.keyexprs.contains_key(other) == memory.keyexprs.contains_key(other)
            &&& recorded.memory.keyexprs[other] == memory.keyexprs[other]
                || !memory.keyexprs.contains_key(other)
            &&& forgotten.memory.keyexprs.contains_key(other) == memory.keyexprs.contains_key(other)
            &&& forgotten.memory.keyexprs[other] == memory.keyexprs[other]
                || !memory.keyexprs.contains_key(other)
            &&& recorded.memory.tokens == memory.tokens
            &&& forgotten.memory.tokens == memory.tokens
        }),
{
}

/// A token that appears under a key that is taken in is delivered as a value without bytes, and
/// remembered under its number. One without a number is delivered in answer to an interest and not
/// remembered. Refused are one without a number and without an interest, one whose number is taken
/// (unless an interest repeats it under the same key), one of more than 256 bytes, and a seventeenth.
pub proof fn law_tokens_appear<'a>(
    namespace: Option<Seq<char>>,
    memory: StateView,
    interest: Option<u32>,
    token: DeclareToken<'a>,
    key: Seq<char>,
    other: u32,
)
    requires
        other != token.id,
        crate::session::named_key(namespace, memory.keyexprs, token.wire_expr) == Ok::<
            Option<Seq<char>>,
            crate::error::SessionError,
        >(Some(key)),
    ensures
        ({
            let after = crate::session::run::received(
                namespace,
                memory,
                declared_by_peer(interest, DeclareBody::DeclareToken(token)),
            );
            let repeated = token.id != 0 && interest is Some && memory.tokens.contains_key(token.id)
                && memory.tokens[token.id] == key;
            let snapshot = token.id == 0 && interest is Some;
            let new = token.id != 0 && !memory.tokens.contains_key(token.id)
                && vstd::utf8::encode_utf8(key).len() <= 256 && memory.tokens.dom().len() < 16;
            &&& repeated || snapshot || new ==> after.outcome == Ok::<
                ReactionView,
                crate::error::SessionError,
            >(
                ReactionView::Deliver(
                    SampleView {
                        key,
                        payload: Seq::empty(),
                        attachment: None,
                        responder: None,
                        kind: SampleKind::Put,
                    },
                ),
            )
            &&& !(repeated || snapshot || new) ==> after.outcome == Ok::<
                ReactionView,
                crate::error::SessionError,
            >(
                ReactionView::Dropped(
                    if token.id == 0 {
                        Refusal::OrphanToken
                    } else {
                        Refusal::TokenRefused
                    },
                ),
            )
            &&& new ==> after.memory.tokens.contains_key(token.id) && after.memory.tokens[token.id]
                == key
            &&& !new ==> after.memory.tokens == memory.tokens
            &&& after.memory.tokens.contains_key(other) == memory.tokens.contains_key(other)
            &&& memory.tokens.contains_key(other) ==> after.memory.tokens[other]
                == memory.tokens[other]
            &&& after.memory.keyexprs == memory.keyexprs
        }),
{
}

/// A token that disappears is delivered as the deletion of the key it was remembered under, whatever
/// the withdrawal spells; one that is not known, as that of the key that the withdrawal spells. A
/// withdrawal that names an unknown number alone is refused. Either way the number is forgotten, and
/// no other.
pub proof fn law_tokens_disappear<'a>(
    namespace: Option<Seq<char>>,
    memory: StateView,
    interest: Option<u32>,
    token: UndeclareToken<'a>,
    other: u32,
)
    requires
        other != token.id,
        tokens_are_keyexprs(memory.tokens),
    ensures
        ({
            let after = crate::session::run::received(
                namespace,
                memory,
                declared_by_peer(interest, DeclareBody::UndeclareToken(token)),
            );
            let gone = |key: Seq<char>|
                Ok::<ReactionView, crate::error::SessionError>(
                    ReactionView::Deliver(
                        SampleView {
                            key,
                            payload: Seq::empty(),
                            attachment: None,
                            responder: None,
                            kind: SampleKind::Delete,
                        },
                    ),
                );
            let known = memory.tokens.contains_key(token.id);
            &&& known ==> after.outcome == gone(memory.tokens[token.id])
            &&& !known && token.wire_expr is None ==> after.outcome == Ok::<
                ReactionView,
                crate::error::SessionError,
            >(ReactionView::Dropped(Refusal::UnknownToken))
            &&& !known && token.wire_expr is Some ==> {
                let expr = WireExpr {
                    scope: token.wire_expr->0.scope,
                    mapping: token.wire_expr->0.mapping,
                    suffix: token.wire_expr->0.suffix,
                };
                match crate::session::named_key(namespace, memory.keyexprs, expr) {
                    Ok(Some(key)) => after.outcome == gone(key),
                    Ok(None) => after.outcome == Ok::<ReactionView, crate::error::SessionError>(
                        ReactionView::Dropped(Refusal::UnknownMapping),
                    ),
                    Err(error) => after.outcome == Err::<ReactionView, crate::error::SessionError>(
                        error,
                    ),
                }
            }
            &&& !after.memory.tokens.contains_key(token.id)
            &&& after.memory.tokens.contains_key(other) == memory.tokens.contains_key(other)
            &&& memory.tokens.contains_key(other) ==> after.memory.tokens[other]
                == memory.tokens[other]
            &&& after.memory.keyexprs == memory.keyexprs
        }),
{
}

} // verus!
