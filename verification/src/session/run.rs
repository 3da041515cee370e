//! What a session does with the messages it receives.
use vstd::prelude::*;

use crate::config::ZSessionConfig;
use crate::error::{CollectionError, SessionError};
use crate::exts::{Attachment, EntityGlobalId};
use crate::fields::WireExpr;
use crate::keyexpr::KeyExpr;
use crate::msgs::declare::{Declare, DeclareBody};
use crate::msgs::network::{NetworkBody, NetworkMessage, PushBody, RequestBody, ResponseBody};
use crate::query::{QueryView, QueryableQuery};
use crate::response::{GetResponse, ResponseView};
use crate::sample::{Sample, SampleKind, SampleView};
use crate::session::keyexprs::TokenTable;
use crate::session::{Session, StateView};
use crate::storage::{string_as_str, string_clear, string_push_str};

verus! {

/// Why a message has no effect.
#[derive(Clone, Copy, Debug, PartialEq, Eq, Structural)]
pub enum Refusal {
    /// The expression refers to a mapping this session does not know, or lies outside its namespace.
    UnknownMapping,
    /// The mapping table is full, or the expression too long for it.
    MappingRefused,
    /// A token without an id came without an interest.
    OrphanToken,
    /// The token is known already, the token table full, or the expression too long for it.
    TokenRefused,
    /// A token is undeclared that this session does not know.
    UnknownToken,
}

/// What is left to do once a message has been taken in.
#[derive(Debug)]
pub enum Reaction<'a> {
    /// Nothing: the message was ignored, or concerned this session alone.
    Settled,
    /// Nothing: the message had to be refused.
    Dropped(Refusal),
    /// Hand the sample to every subscriber whose key intersects the sample's.
    Deliver(Sample<'a>),
    /// Hand the answer to the query `rid`, if it is outstanding.
    Respond { rid: u32, response: GetResponse<'a> },
    /// Tell the query `rid`, if it is outstanding, that no more answers will come, and forget it.
    Finish { rid: u32 },
    /// Record how many queryables intersect the query's key, and hand it to each of them.
    Answer(QueryableQuery<'a>),
}

/// What a [`Reaction`] says.
#[verifier::ext_equal]
pub enum ReactionView {
    Settled,
    Dropped(Refusal),
    Deliver(SampleView),
    Respond { rid: u32, response: ResponseView },
    Finish { rid: u32 },
    Answer(QueryView),
}

impl<'a> View for Reaction<'a> {
    type V = ReactionView;

    open spec fn view(&self) -> ReactionView {
        match *self {
            Reaction::Settled => ReactionView::Settled,
            Reaction::Dropped(refusal) => ReactionView::Dropped(refusal),
            Reaction::Deliver(sample) => ReactionView::Deliver(sample@),
            Reaction::Respond { rid, response } => ReactionView::Respond {
                rid,
                response: response@,
            },
            Reaction::Finish { rid } => ReactionView::Finish { rid },
            Reaction::Answer(query) => ReactionView::Answer(query@),
        }
    }
}

/// What a session remembers after a message, and what is left to do.
pub struct Received {
    pub memory: StateView,
    pub outcome: Result<ReactionView, SessionError>,
}

/// The bytes of an optional attachment.
pub open spec fn attached(attachment: Option<Attachment>) -> Option<Seq<u8>> {
    match attachment {
        Some(attachment) => Some(attachment.buffer@),
        None => None,
    }
}

/// The sample that a publication or a reply under `key` makes.
pub open spec fn sample_of(
    key: Seq<char>,
    body: PushBody,
    responder: Option<EntityGlobalId>,
) -> SampleView {
    match body {
        PushBody::Put(put) => SampleView {
            key,
            payload: put.payload@,
            attachment: attached(put.attachment),
            responder,
            kind: SampleKind::Put,
        },
        PushBody::Del(del) => SampleView {
            key,
            payload: Seq::empty(),
            attachment: attached(del.attachment),
            responder,
            kind: SampleKind::Delete,
        },
    }
}

/// The answer that a response under `key` makes.
pub open spec fn response_of(
    key: Seq<char>,
    body: ResponseBody,
    responder: Option<EntityGlobalId>,
) -> ResponseView {
    match body {
        ResponseBody::Reply(reply) => ResponseView::Reply(
            sample_of(key, reply.payload, responder),
        ),
        ResponseBody::ReplyErr(error) => ResponseView::ReplyErr(
            SampleView {
                key,
                payload: error.payload@,
                attachment: None,
                responder,
                kind: SampleKind::Put,
            },
        ),
    }
}

/// The sample for a token that appeared or disappeared.
pub open spec fn token_sample(key: Seq<char>, kind: SampleKind) -> SampleView {
    SampleView { key, payload: Seq::empty(), attachment: None, responder: None, kind }
}

/// A token declaration is delivered: one without an id in answer to an interest, one that a further
/// interest repeats, and one that the table takes.
pub open spec fn token_accepted(
    tokens: Map<u32, Seq<char>>,
    id: u32,
    interest: Option<u32>,
    key: Seq<char>,
) -> bool {
    if id == 0 {
        interest is Some
    } else {
        token_repeated(tokens, id, interest, key) || crate::session::keyexprs::accepts_token(
            tokens,
            id,
            key,
        )
    }
}

/// A further interest repeats a token that is known under the same key.
pub open spec fn token_repeated(
    tokens: Map<u32, Seq<char>>,
    id: u32,
    interest: Option<u32>,
    key: Seq<char>,
) -> bool {
    interest is Some && tokens.contains_key(id) && tokens[id] == key
}

/// The tokens known after a token declaration.
pub open spec fn tokens_after(
    tokens: Map<u32, Seq<char>>,
    id: u32,
    interest: Option<u32>,
    key: Seq<char>,
) -> Map<u32, Seq<char>> {
    if id != 0 && !token_repeated(tokens, id, interest, key)
        && crate::session::keyexprs::accepts_token(tokens, id, key) {
        tokens.insert(id, key)
    } else {
        tokens
    }
}

/// What a message with the body `body` does to a session that remembers `memory`.
pub open spec fn received(
    namespace: Option<Seq<char>>,
    memory: StateView,
    body: NetworkBody,
) -> Received {
    match body {
        NetworkBody::Push(push) => Received {
            memory,
            outcome: match crate::session::named_key(namespace, memory.keyexprs, push.wire_expr) {
                Ok(Some(key)) => Ok(ReactionView::Deliver(sample_of(key, push.payload, None))),
                Ok(None) => Ok(ReactionView::Dropped(Refusal::UnknownMapping)),
                Err(error) => Err(error),
            },
        },
        NetworkBody::Response(response) => Received {
            memory,
            outcome: match crate::session::named_key(
                namespace,
                memory.keyexprs,
                response.wire_expr,
            ) {
                Ok(Some(key)) => Ok(
                    ReactionView::Respond {
                        rid: response.rid,
                        response: response_of(key, response.payload, response.respid),
                    },
                ),
                Ok(None) => Ok(ReactionView::Dropped(Refusal::UnknownMapping)),
                Err(error) => Err(error),
            },
        },
        NetworkBody::ResponseFinal(last) => Received {
            memory,
            outcome: Ok(ReactionView::Finish { rid: last.rid }),
        },
        NetworkBody::Request(request) => {
            let RequestBody::Query(query) = request.payload;
            Received {
                memory,
                outcome: match crate::session::named_key(
                    namespace,
                    memory.keyexprs,
                    request.wire_expr,
                ) {
                    Ok(Some(key)) => Ok(
                        ReactionView::Answer(
                            QueryView {
                                id: request.id,
                                key,
                                parameters: if query.parameters@.len() == 0 {
                                    None
                                } else {
                                    Some(query.parameters@)
                                },
                                payload: match query.body {
                                    Some(value) => Some(value.payload@),
                                    None => None,
                                },
                            },
                        ),
                    ),
                    Ok(None) => Ok(ReactionView::Dropped(Refusal::UnknownMapping)),
                    Err(error) => Err(error),
                },
            }
        },
        NetworkBody::Declare(declare) => declare_received(namespace, memory, declare),
        _ => Received { memory, outcome: Ok(ReactionView::Settled) },
    }
}

/// What a declaration of the peer does to a session that remembers `memory`.
pub open spec fn declare_received(
    namespace: Option<Seq<char>>,
    memory: StateView,
    declare: Declare,
) -> Received {
    match declare.body {
        DeclareBody::DeclareKeyExpr(mapping) => match crate::session::keyexprs::resolved(
            memory.keyexprs,
            mapping.wire_expr.scope,
            mapping.wire_expr.suffix@,
        ) {
            // A mapping may name only a part of the namespace: what is enforced is the complete key
            // of a later message.
            Some(key) => if crate::session::keyexprs::accepts_mapping(
                memory.keyexprs,
                mapping.id,
                key,
            ) {
                Received {
                    memory: StateView {
                        keyexprs: memory.keyexprs.insert(mapping.id as u32, key),
                        ..memory
                    },
                    outcome: Ok(ReactionView::Settled),
                }
            } else {
                Received { memory, outcome: Ok(ReactionView::Dropped(Refusal::MappingRefused)) }
            },
            None => Received {
                memory,
                outcome: Ok(ReactionView::Dropped(Refusal::UnknownMapping)),
            },
        },
        DeclareBody::UndeclareKeyExpr(mapping) => Received {
            memory: StateView {
                keyexprs: memory.keyexprs.remove(mapping.id as u32),
                ..memory
            },
            outcome: Ok(ReactionView::Settled),
        },
        DeclareBody::DeclareToken(token) => match crate::session::named_key(
            namespace,
            memory.keyexprs,
            token.wire_expr,
        ) {
            Ok(Some(key)) => Received {
                memory: StateView {
                    tokens: tokens_after(memory.tokens, token.id, declare.id, key),
                    ..memory
                },
                outcome: if token_accepted(memory.tokens, token.id, declare.id, key) {
                    Ok(ReactionView::Deliver(token_sample(key, SampleKind::Put)))
                } else if token.id == 0 {
                    Ok(ReactionView::Dropped(Refusal::OrphanToken))
                } else {
                    Ok(ReactionView::Dropped(Refusal::TokenRefused))
                },
            },
            Ok(None) => Received {
                memory,
                outcome: Ok(ReactionView::Dropped(Refusal::UnknownMapping)),
            },
            Err(error) => Received { memory, outcome: Err(error) },
        },
        DeclareBody::UndeclareToken(token) => Received {
            memory: StateView { tokens: memory.tokens.remove(token.id), ..memory },
            outcome: if memory.tokens.contains_key(token.id) {
                if crate::keyexpr::is_keyexpr(memory.tokens[token.id]) {
                    Ok(
                        ReactionView::Deliver(
                            token_sample(memory.tokens[token.id], SampleKind::Delete),
                        ),
                    )
                } else {
                    Err(SessionError::Keyexpr(crate::error::KeyexprError::NotCanonical))
                }
            } else {
                match token.wire_expr {
                    Some(expr) => match crate::session::named_key(
                        namespace,
                        memory.keyexprs,
                        WireExpr {
                            scope: expr.scope,
                            mapping: expr.mapping,
                            suffix: expr.suffix,
                        },
                    ) {
                        Ok(Some(key)) => Ok(
                            ReactionView::Deliver(token_sample(key, SampleKind::Delete)),
                        ),
                        Ok(None) => Ok(ReactionView::Dropped(Refusal::UnknownMapping)),
                        Err(error) => Err(error),
                    },
                    None => Ok(ReactionView::Dropped(Refusal::UnknownToken)),
                }
            },
        },
        _ => Received { memory, outcome: Ok(ReactionView::Settled) },
    }
}

/// Applies the part of a received token declaration that outlives the message, and returns whether
/// the token is to be delivered.
///
/// A current snapshot is correlated by its interest. A second interest can repeat a token that is
/// held already: the second subscriber still has to learn of it. Without an interest a repetition is
/// malformed.
pub fn record_token_declaration(
    tokens: &mut TokenTable,
    token_id: u32,
    interest_id: Option<u32>,
    key: &str,
) -> (accepted: bool)
    ensures
        accepted <==> token_accepted(old(tokens)@, token_id, interest_id, key@),
        final(tokens)@ == tokens_after(old(tokens)@, token_id, interest_id, key@),
{
    if token_id == 0 {
        return interest_id.is_some();
    }
    if interest_id.is_some() && tokens.matches(token_id, key) {
        return true;
    }
    tokens.declare(token_id, key)
}

/// Whether the end of the query `response_id` is what the caller waits for.
pub fn completes_requested_query(stop_after: Option<u32>, response_id: u32) -> (completes: bool)
    ensures
        completes <==> stop_after == Some(response_id),
{
    match stop_after {
        Some(id) => id == response_id,
        None => false,
    }
}

/// How waiting for the end of a query came to an end.
pub enum Waited {
    /// Receiving ended first, with this result.
    Ended(Result<(), SessionError>),
    /// The deadline passed first, and the query was forgotten with this result.
    TimedOut(Result<(), CollectionError>),
}

impl<'a> Reaction<'a> {
    /// Whether receiving stops once the reaction has been carried out.
    ///
    /// `stored` is what came of the change it asks of the callback storage: forgetting a finished
    /// query, or recording how many queryables answer.
    pub fn control(
        &self,
        stop_after: Option<u32>,
        stored: Result<(), CollectionError>,
    ) -> (stop: Result<bool, SessionError>)
        ensures
            stop == (match (self@, stored) {
                (ReactionView::Finish { .. }, Err(error)) => Err::<bool, SessionError>(
                    SessionError::Collection(error),
                ),
                (ReactionView::Answer(_), Err(error)) => Err::<bool, SessionError>(
                    SessionError::Collection(error),
                ),
                (ReactionView::Finish { rid }, Ok(_)) => Ok::<bool, SessionError>(
                    stop_after == Some(rid),
                ),
                _ => Ok::<bool, SessionError>(false),
            }),
    {
        match self {
            Reaction::Finish { rid } => match stored {
                Ok(_) => Ok(completes_requested_query(stop_after, *rid)),
                Err(error) => Err(SessionError::Collection(error)),
            },
            Reaction::Answer(_) => match stored {
                Ok(_) => Ok(false),
                Err(error) => Err(SessionError::Collection(error)),
            },
            _ => Ok(false),
        }
    }
}

fn buffer_of<'a>(attachment: Option<Attachment<'a>>) -> (buffer: Option<&'a [u8]>)
    ensures
        crate::sample::optional_bytes(buffer) == attached(attachment),
{
    match attachment {
        Some(attachment) => Some(attachment.buffer),
        None => None,
    }
}

fn sample_from<'a>(
    ke: KeyExpr<'a>,
    body: PushBody<'a>,
    responder: Option<EntityGlobalId>,
) -> (sample: Sample<'a>)
    ensures
        sample@ == sample_of(ke@, body, responder),
{
    match body {
        PushBody::Put(put) => Sample::from_wire(
            ke,
            put.payload,
            buffer_of(put.attachment),
            responder,
            SampleKind::Put,
        ),
        PushBody::Del(del) => Sample::from_wire(
            ke,
            &[],
            buffer_of(del.attachment),
            responder,
            SampleKind::Delete,
        ),
    }
}

impl<'res, Config: ZSessionConfig, T> Session<'res, Config, T> {
    /// Ends receiving with `result`. A failure closes the session and gives up its transport, which
    /// is returned so that it can be closed.
    pub fn run(&mut self, result: Result<(), SessionError>) -> (ended: (
        Result<(), SessionError>,
        Option<T>,
    ))
        requires
            old(self).wf(),
        ensures
            final(self).wf(),
            final(self).namespace() == old(self).namespace(),
            ended.0 == result,
            result is Ok ==> {
                &&& ended.1 is None
                &&& final(self).slot() == old(self).slot()
                &&& final(self).memory() == old(self).memory()
            },
            result is Err ==> {
                &&& ended.1 == old(self).slot().current
                &&& final(self).slot() == old(self).slot().stopping().emptied()
                &&& final(self).memory() == StateView::blank()
            },
    {
        if result.is_ok() {
            return (result, None);
        }
        (result, self.abandon())
    }

    /// Ends receiving until one query is complete. A deadline that passes first leaves the session as
    /// it is.
    pub fn run_until_response_final(&mut self, waited: Waited) -> (ended: (
        Result<(), SessionError>,
        Option<T>,
    ))
        requires
            old(self).wf(),
        ensures
            final(self).wf(),
            final(self).namespace() == old(self).namespace(),
            ended.0 == (match waited {
                Waited::Ended(result) => result,
                Waited::TimedOut(Ok(_)) => Err::<(), SessionError>(SessionError::RequestTimedout),
                Waited::TimedOut(Err(error)) => Err::<(), SessionError>(
                    SessionError::Collection(error),
                ),
            }),
            if waited matches Waited::Ended(Err(_)) {
                &&& ended.1 == old(self).slot().current
                &&& final(self).slot() == old(self).slot().stopping().emptied()
                &&& final(self).memory() == StateView::blank()
            } else {
                &&& ended.1 is None
                &&& final(self).slot() == old(self).slot()
                &&& final(self).memory() == old(self).memory()
            },
    {
        match waited {
            Waited::Ended(result) => self.run(result),
            Waited::TimedOut(Ok(_)) => (Err(SessionError::RequestTimedout), None),
            Waited::TimedOut(Err(error)) => (Err(SessionError::Collection(error)), None),
        }
    }

    /// Takes one message in: updates what the session remembers and says what is left to do.
    ///
    /// `storage` is scratch space, from which the reaction borrows the key it speaks of.
    pub fn receive<'a>(
        &mut self,
        msg: NetworkMessage<'a>,
        storage: &'a mut heapless::String<512>,
    ) -> (reaction: Result<Reaction<'a>, SessionError>)
        requires
            old(self).wf(),
        ensures
            final(self).wf(),
            crate::session::soundness::tables_are_sound(final(self).memory()),
            final(self).slot() == old(self).slot(),
            final(self).namespace() == old(self).namespace(),
            final(self).has_room() == old(self).has_room(),
            final(self).memory() == received(
                old(self).namespace(),
                old(self).memory(),
                msg.body,
            ).memory,
            match received(old(self).namespace(), old(self).memory(), msg.body).outcome {
                Ok(expected) => reaction matches Ok(reaction) && reaction@ == expected,
                Err(expected) => reaction matches Err(error) && error == expected,
            },
    {
        proof {
            crate::session::soundness::lemma_receiving_keeps_tables_sound(
                self.namespace(),
                self.memory(),
                msg.body,
            );
        }
        match msg.body {
            NetworkBody::Push(push) => match self.resolve_wire_key(&push.wire_expr, storage) {
                Ok(Some(ke)) => Ok(Reaction::Deliver(sample_from(ke, push.payload, None))),
                Ok(None) => Ok(Reaction::Dropped(Refusal::UnknownMapping)),
                Err(error) => Err(error),
            },
            NetworkBody::Response(response) => match self.resolve_wire_key(
                &response.wire_expr,
                storage,
            ) {
                Ok(Some(ke)) => {
                    let answer = match response.payload {
                        ResponseBody::Reply(reply) => GetResponse::Reply(
                            sample_from(ke, reply.payload, response.respid),
                        ),
                        ResponseBody::ReplyErr(error) => GetResponse::ReplyErr(
                            Sample::with_metadata(ke, error.payload, None, response.respid),
                        ),
                    };
                    Ok(Reaction::Respond { rid: response.rid, response: answer })
                },
                Ok(None) => Ok(Reaction::Dropped(Refusal::UnknownMapping)),
                Err(error) => Err(error),
            },
            NetworkBody::ResponseFinal(last) => Ok(Reaction::Finish { rid: last.rid }),
            NetworkBody::Request(request) => match self.resolve_wire_key(
                &request.wire_expr,
                storage,
            ) {
                Ok(Some(ke)) => {
                    let RequestBody::Query(query) = request.payload;
                    let parameters: Option<&'a str> = if query.parameters.is_empty() {
                        None
                    } else {
                        Some(query.parameters)
                    };
                    let payload: Option<&'a [u8]> = match query.body {
                        Some(value) => Some(value.payload),
                        None => None,
                    };
                    Ok(Reaction::Answer(QueryableQuery::new(request.id, ke, parameters, payload)))
                },
                Ok(None) => Ok(Reaction::Dropped(Refusal::UnknownMapping)),
                Err(error) => Err(error),
            },
            NetworkBody::Declare(declare) => self.receive_declare(declare, storage),
            _ => Ok(Reaction::Settled),
        }
    }

    fn receive_declare<'a>(
        &mut self,
        declare: Declare<'a>,
        storage: &'a mut heapless::String<512>,
    ) -> (reaction: Result<Reaction<'a>, SessionError>)
        requires
            old(self).wf(),
        ensures
            final(self).wf(),
            final(self).slot() == old(self).slot(),
            final(self).namespace() == old(self).namespace(),
            final(self).has_room() == old(self).has_room(),
            final(self).memory() == declare_received(
                old(self).namespace(),
                old(self).memory(),
                declare,
            ).memory,
            match declare_received(old(self).namespace(), old(self).memory(), declare).outcome {
                Ok(expected) => reaction matches Ok(reaction) && reaction@ == expected,
                Err(expected) => reaction matches Err(error) && error == expected,
            },
    {
        proof {
            crate::session::soundness::lemma_receiving_keeps_tables_sound(
                self.namespace(),
                self.memory(),
                NetworkBody::Declare(declare),
            );
        }
        match declare.body {
            // A peer declares a long key once and refers to it by number afterwards: no such
            // reference can be read until the mapping is recorded.
            DeclareBody::DeclareKeyExpr(mapping) => {
                let key: &str = match self.state.keyexprs.resolve(&mapping.wire_expr, storage) {
                    Some(key) => key,
                    None => return Ok(Reaction::Dropped(Refusal::UnknownMapping)),
                };
                if self.state.keyexprs.declare(mapping.id, key) {
                    Ok(Reaction::Settled)
                } else {
                    Ok(Reaction::Dropped(Refusal::MappingRefused))
                }
            },
            DeclareBody::UndeclareKeyExpr(mapping) => {
                self.state.keyexprs.undeclare(mapping.id);
                Ok(Reaction::Settled)
            },
            // A token is delivered like a sample: something is alive at this key.
            DeclareBody::DeclareToken(token) => {
                let ke = match self.resolve_wire_key(&token.wire_expr, storage) {
                    Ok(Some(ke)) => ke,
                    Ok(None) => return Ok(Reaction::Dropped(Refusal::UnknownMapping)),
                    Err(error) => return Err(error),
                };
                if !record_token_declaration(
                    &mut self.state.tokens,
                    token.id,
                    declare.id,
                    ke.as_str(),
                ) {
                    if token.id == 0 {
                        return Ok(Reaction::Dropped(Refusal::OrphanToken));
                    }
                    return Ok(Reaction::Dropped(Refusal::TokenRefused));
                }
                Ok(Reaction::Deliver(Sample::new(ke, &[])))
            },
            // Losing a token is how a peer's failure is observed. The token may be named by its id
            // alone.
            DeclareBody::UndeclareToken(token) => {
                if let Some(remembered) = self.state.tokens.undeclare(token.id) {
                    let known: &str = string_as_str(&remembered);
                    string_clear(storage);
                    proof {
                        crate::text::lemma_utf8_len_ascii(Seq::<char>::empty());
                        assert(Seq::<char>::empty() + known@ == known@);
                    }
                    let _ = string_push_str(storage, known);
                    return match KeyExpr::new(string_as_str(storage)) {
                        Ok(ke) => Ok(Reaction::Deliver(Sample::delete(ke))),
                        Err(error) => Err(SessionError::Keyexpr(error)),
                    };
                }
                match token.wire_expr {
                    Some(expr) => match self.resolve_wire_key(&expr.as_wire_expr(), storage) {
                        Ok(Some(ke)) => Ok(Reaction::Deliver(Sample::delete(ke))),
                        Ok(None) => Ok(Reaction::Dropped(Refusal::UnknownMapping)),
                        Err(error) => Err(error),
                    },
                    None => Ok(Reaction::Dropped(Refusal::UnknownToken)),
                }
            },
            _ => Ok(Reaction::Settled),
        }
    }
}

/// Receiving stops for a caller that waits for the end of one query exactly when that query ends and
/// could be forgotten. It fails where a change of the callback storage failed that the reaction asked
/// for. No other reaction stops it.
pub proof fn law_receiving_stops_at_the_awaited_end<'a>(
    reaction: Reaction<'a>,
    stop_after: Option<u32>,
    stored: Result<(), CollectionError>,
    stop: Result<bool, SessionError>,
)
    requires
        call_ensures(Reaction::<'a>::control, (&reaction, stop_after, stored), stop),
    ensures
        stop == Ok::<bool, SessionError>(true) <==> stored is Ok && reaction is Finish
            && stop_after == Some(reaction->Finish_rid),
        stop matches Err(error) ==> stored matches Err(cause) && error == SessionError::Collection(
            cause,
        ),
        stop is Err <==> stored is Err && (reaction is Finish || reaction is Answer),
{
}

/// A reaction says what is left to do, and about what.
pub proof fn law_a_reaction_says_what_is_left_to_do<'a>(reaction: Reaction<'a>)
    ensures
        match reaction {
            Reaction::Settled => reaction@ is Settled,
            Reaction::Dropped(refusal) => reaction@ matches ReactionView::Dropped(said) && said
                == refusal,
            Reaction::Deliver(sample) => reaction@ matches ReactionView::Deliver(said) && said
                == sample@,
            Reaction::Respond { rid, response } => reaction@ matches ReactionView::Respond {
                rid: said,
                response: got,
            } && said == rid && got == response@,
            Reaction::Finish { rid } => reaction@ matches ReactionView::Finish { rid: said } && said
                == rid,
            Reaction::Answer(query) => reaction@ matches ReactionView::Answer(said) && said
                == query@,
        },
{
}

} // verus!
