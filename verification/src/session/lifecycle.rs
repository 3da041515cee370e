//! What holds of the operations of a session, whatever session they are called on.
use vstd::prelude::*;

use crate::config::ZSessionConfig;
use crate::error::{CollectionError, SessionError, TransportLinkError};
use crate::keyexpr::KeyExpr;
use crate::msgs::declare::DeclareBody;
use crate::msgs::interest::InterestMode;
use crate::msgs::network::{NetworkBody, NetworkMessage, PushBody, ResponseBody};
use crate::session::declarations::Declaration;
use crate::session::declaring::{Action, Declaring};
use crate::session::interest::InterestGuard;
use crate::session::publisher::{Publisher, PublisherBuilder};
use crate::session::put::PutBuilder;
use crate::session::queryable::{Queryable, QueryableBuilder};
use crate::session::reconnect::{ReconnectAction, ReconnectEvent, Reconnecting, Replay};
use crate::session::run::{Reaction, Waited};
use crate::session::sub::{Subscriber, SubscriberBuilder};
use crate::session::Session;

verus! {

/// What goes over the wire for the key `logical`: the namespace, a separator and the key, or the key
/// alone.
pub open spec fn on_the_wire(namespace: Option<Seq<char>>, logical: Seq<char>) -> Seq<char> {
    match namespace {
        Some(namespace) => namespace + seq!['/'] + logical,
        None => logical,
    }
}

/// What goes over the wire for the key `logical` fits the buffer, which only a namespace needs.
pub open spec fn sendable(namespace: Option<Seq<char>>, logical: Seq<char>) -> bool {
    namespace is None || vstd::utf8::encode_utf8(on_the_wire(namespace, logical)).len() <= 512
}

/// Closing a session that is not closed by its owner yet hands its transport out, forgets everything,
/// and refuses operations from then on. Closing it again does nothing, and says so. Only a session
/// that its owner has closed can be opened again, and it then uses the new transport.
pub proof fn law_closing_and_reopening<'res, Config: ZSessionConfig, T>()
    ensures
        forall|session: &mut Session<'res, Config, T>, closed: (bool, Option<T>)| #[trigger]
            call_ensures(Session::<'res, Config, T>::close, (session,), closed) ==> {
                let before = *session;
                let after = *final(session);
                &&& closed.0 == !before.slot().stopped
                &&& after.slot().stopped && after.slot().closed && after.slot().stop
                &&& after.namespace() == before.namespace()
                &&& closed.0 ==> {
                    &&& closed.1 == before.slot().current
                    &&& after.slot().current is None
                    &&& after.memory().next == 0
                    &&& after.memory().declared.dom() == Set::<u32>::empty()
                    &&& after.memory().keyexprs.dom() == Set::<u32>::empty()
                    &&& after.memory().tokens.dom() == Set::<u32>::empty()
                }
                &&& !closed.0 ==> {
                    &&& closed.1 is None
                    &&& after.slot().current == before.slot().current
                    &&& after.memory() == before.memory()
                }
            },
        forall|
            session: &mut Session<'res, Config, T>,
            transport: T,
            reopened: Result<(), TransportLinkError>,
        | #[trigger]
            call_ensures(
                Session::<'res, Config, T>::reopen,
                (session, transport),
                reopened,
            ) ==> {
                let before = *session;
                let after = *final(session);
                &&& reopened is Ok <==> before.slot().stopped
                &&& reopened is Ok ==> {
                    &&& after.slot().current == Some(transport)
                    &&& !after.slot().closed && !after.slot().stopped && !after.slot().stop
                }
                &&& reopened is Err ==> {
                    &&& reopened == Err::<(), TransportLinkError>(
                        TransportLinkError::TransportClosed,
                    )
                    &&& after.slot() == before.slot()
                }
                &&& after.memory() == before.memory()
                &&& after.namespace() == before.namespace()
            },
{
}

/// Of a session that its owner closed, nothing is left but its namespace: once it is opened again it
/// is as good as new.
pub proof fn law_a_reopened_session_is_as_good_as_new<'res, Config: ZSessionConfig, T>()
    ensures
        forall|
            session: &mut Session<'res, Config, T>,
            closed: (bool, Option<T>),
            again: &mut Session<'res, Config, T>,
            transport: T,
            reopened: Result<(), TransportLinkError>,
        |
            #[trigger] call_ensures(Session::<'res, Config, T>::close, (session,), closed)
                && #[trigger] call_ensures(
                Session::<'res, Config, T>::reopen,
                (again, transport),
                reopened,
            ) && *again == *final(session) && !(*session).slot().stopped ==> {
                let after = *final(again);
                &&& reopened is Ok
                &&& after.slot().current == Some(transport)
                &&& after.slot().usable()
                &&& after.memory().next == 0
                &&& after.memory().declared.dom() == Set::<u32>::empty()
                &&& after.memory().keyexprs.dom() == Set::<u32>::empty()
                &&& after.memory().tokens.dom() == Set::<u32>::empty()
            },
{
}

/// Receiving that ends without an error leaves the session as it is. An error closes it, forgets
/// everything and hands its transport out. A caller that waits for one query is told when its
/// deadline passes, and that leaves the session as it is.
pub proof fn law_only_a_failure_of_receiving_closes_a_session<'res, Config: ZSessionConfig, T>()
    ensures
        forall|
            session: &mut Session<'res, Config, T>,
            result: Result<(), SessionError>,
            ended: (Result<(), SessionError>, Option<T>),
        | #[trigger]
            call_ensures(Session::<'res, Config, T>::run, (session, result), ended) ==> {
                let before = *session;
                let after = *final(session);
                &&& ended.0 == result
                &&& result is Ok ==> ended.1 is None && after.slot() == before.slot()
                    && after.memory() == before.memory()
                &&& result is Err ==> {
                    &&& ended.1 == before.slot().current
                    &&& after.slot().current is None
                    &&& after.slot().closed && after.slot().stopped && after.slot().stop
                    &&& after.memory().next == 0
                    &&& after.memory().declared.dom() == Set::<u32>::empty()
                    &&& after.memory().keyexprs.dom() == Set::<u32>::empty()
                    &&& after.memory().tokens.dom() == Set::<u32>::empty()
                }
            },
        forall|
            session: &mut Session<'res, Config, T>,
            waited: Waited,
            ended: (Result<(), SessionError>, Option<T>),
        | #[trigger]
            call_ensures(
                Session::<'res, Config, T>::run_until_response_final,
                (session, waited),
                ended,
            ) ==> {
                let before = *session;
                let after = *final(session);
                &&& match waited {
                    Waited::Ended(result) => ended.0 == result,
                    Waited::TimedOut(Ok(_)) => ended.0 == Err::<(), SessionError>(
                        SessionError::RequestTimedout,
                    ),
                    Waited::TimedOut(Err(error)) => ended.0 == Err::<(), SessionError>(
                        SessionError::Collection(error),
                    ),
                }
                &&& !(waited matches Waited::Ended(Err(_))) ==> ended.1 is None && after.slot()
                    == before.slot() && after.memory() == before.memory()
                &&& waited matches Waited::Ended(Err(_)) ==> ended.1 == before.slot().current
                    && after.slot().current is None && after.slot().stopped && after.slot().closed
            },
{
}

/// A publication is made by an open session for a key that can be sent, and then carries the key in
/// the namespace, the bytes, the encoding, the time stamp and the attachment that it was given. A key
/// that cannot be sent is the first thing refused.
pub proof fn law_a_publication_says_what_was_published<
    's,
    'a,
    'res,
    Config: ZSessionConfig,
    T,
>()
    ensures
        forall|
            builder: PutBuilder<'s, 'a, 'res, Config, T>,
            storage: &'a mut heapless::String<512>,
            message: Result<NetworkMessage<'a>, SessionError>,
        | #[trigger]
            call_ensures(
                PutBuilder::<'s, 'a, 'res, Config, T>::finish,
                (builder, storage),
                message,
            ) ==> {
                let namespace = builder.session.namespace();
                let slot = builder.session.slot();
                let short = sendable(namespace, builder.ke@);
                let open = !slot.closed && slot.current is Some;
                &&& message is Ok <==> short && open
                &&& !short ==> message == Err::<NetworkMessage<'a>, SessionError>(
                    SessionError::Collection(CollectionError::CollectionTooSmall),
                )
                &&& short && !open ==> message == Err::<NetworkMessage<'a>, SessionError>(
                    SessionError::TransportLink(TransportLinkError::TransportClosed),
                )
                &&& message matches Ok(message) ==> {
                    &&& message.body matches NetworkBody::Push(push)
                    &&& push.wire_expr.scope == 0
                    &&& push.wire_expr.suffix@ == on_the_wire(namespace, builder.ke@)
                    &&& push.timestamp == builder.timestamp
                    &&& push.payload matches PushBody::Put(put)
                    &&& put.payload == builder.payload
                    &&& put.encoding == builder.encoding
                    &&& put.timestamp == builder.timestamp
                    &&& put.attachment == builder.attachment
                }
            },
{
}

/// A publisher publishes every value under its key and with the encoding, the time stamp and the
/// attachment that it was made with, over the session that made it. A closed session makes none.
pub proof fn law_a_publisher_keeps_what_it_was_made_with<'s, 'a, 'res, Config: ZSessionConfig, T>()
    ensures
        forall|
            builder: PublisherBuilder<'s, 'a, 'res, Config, T>,
            made: Result<Publisher<'s, 'a, 'res, Config, T>, SessionError>,
            publisher: &Publisher<'s, 'a, 'res, Config, T>,
            payload: &'a [u8],
            put: PutBuilder<'s, 'a, 'res, Config, T>,
        |
            #[trigger] call_ensures(
                PublisherBuilder::<'s, 'a, 'res, Config, T>::finish,
                (builder,),
                made,
            ) && #[trigger] call_ensures(
                Publisher::<'s, 'a, 'res, Config, T>::put,
                (publisher, payload),
                put,
            ) ==> {
                &&& made is Ok <==> !builder.session.slot().closed
                &&& made matches Ok(made) ==> made == *publisher ==> {
                    &&& put.session == builder.session
                    &&& put.ke == builder.ke
                    &&& put.payload == payload
                    &&& put.encoding == builder.encoding
                    &&& put.timestamp == builder.timestamp
                    &&& put.attachment == builder.attachment
                }
            },
{
}

/// A new session is open over the transport it was given and remembers nothing.
pub proof fn law_a_new_session_is_open<'res, Config: ZSessionConfig, T>()
    ensures
        forall|
            config: &'res Config,
            transport: T,
            session: Session<'res, Config, T>,
            driver: Result<&T, TransportLinkError>,
            closed: bool,
            free: bool,
        |
            #[trigger] call_ensures(
                Session::<'res, Config, T>::new,
                (config, transport),
                session,
            ) && #[trigger] call_ensures(
                Session::<'res, Config, T>::driver,
                (&session,),
                driver,
            ) && #[trigger] call_ensures(
                Session::<'res, Config, T>::is_closed,
                (&session,),
                closed,
            ) && #[trigger] call_ensures(
                Session::<'res, Config, T>::has_free_id,
                (&session,),
                free,
            ) ==> {
                &&& driver is Ok && *driver->Ok_0 == transport
                &&& !closed
                &&& free
                &&& session.memory().declared.dom() == Set::<u32>::empty()
                &&& session.memory().keyexprs.dom() == Set::<u32>::empty()
                &&& session.memory().tokens.dom() == Set::<u32>::empty()
            },
{
}

/// A key that a session puts on the wire it reads back as the same key, and a key outside its
/// namespace it does not read at all.
pub proof fn law_keys_are_read_back_as_sent<'a, 'b, 'res, Config: ZSessionConfig, T>()
    ensures
        forall|
            session: &Session<'res, Config, T>,
            logical: KeyExpr<'a>,
            storage: &'a mut heapless::String<512>,
            expr: Result<crate::fields::WireExpr<'a>, SessionError>,
            wire_key: &'b str,
            read: Option<&'b str>,
        |
            #[trigger] call_ensures(
                Session::<'res, Config, T>::wire_expr,
                (session, logical, storage),
                expr,
            ) && #[trigger] call_ensures(
                Session::<'res, Config, T>::logical_key,
                (session, wire_key),
                read,
            ) ==> {
                &&& expr is Ok <==> sendable(session.namespace(), logical@)
                &&& expr matches Ok(expr) ==> expr.suffix@ == on_the_wire(
                    session.namespace(),
                    logical@,
                )
                &&& expr matches Ok(expr) ==> wire_key@ == expr.suffix@ ==> read is Some
                    && read->0@ == logical@
                &&& read is None ==> forall|key: Seq<char>|
                    wire_key@ != #[trigger] on_the_wire(session.namespace(), key)
            },
{
    assert forall|
        session: &Session<'res, Config, T>,
        logical: KeyExpr<'a>,
        storage: &'a mut heapless::String<512>,
        expr: Result<crate::fields::WireExpr<'a>, SessionError>,
        wire_key: &'b str,
        read: Option<&'b str>,
    |
        #[trigger] call_ensures(
            Session::<'res, Config, T>::wire_expr,
            (session, logical, storage),
            expr,
        ) && #[trigger] call_ensures(
            Session::<'res, Config, T>::logical_key,
            (session, wire_key),
            read,
        ) implies {
        &&& expr is Ok <==> sendable(session.namespace(), logical@)
        &&& expr matches Ok(expr) ==> expr.suffix@ == on_the_wire(session.namespace(), logical@)
        &&& expr matches Ok(expr) ==> wire_key@ == expr.suffix@ ==> read is Some && read->0@
            == logical@
        &&& read is None ==> forall|key: Seq<char>|
            wire_key@ != #[trigger] on_the_wire(session.namespace(), key)
    } by {
        crate::session::namespace::law_ingress_accepts_what_egress_emits(
            session.namespace(),
            logical@,
        );
        if read is None {
            assert forall|key: Seq<char>| wire_key@ != #[trigger] on_the_wire(
                session.namespace(),
                key,
            ) by {
                crate::session::namespace::law_ingress_accepts_what_egress_emits(
                    session.namespace(),
                    key,
                );
            }
        }
    }
}

/// A query is answered by an open session for a key that can be sent: a reply carries the number of
/// the query, the key in the namespace, the bytes and the attachment; a failure its reason. A closed
/// session refuses whatever the key. The end of a query is told once the last queryable has answered,
/// unless the session is closed.
pub proof fn law_an_answer_says_what_was_answered<'a, 'res, Config: ZSessionConfig, T>()
    ensures
        forall|
            session: &Session<'res, Config, T>,
            rid: u32,
            ke: KeyExpr<'a>,
            payload: &'a [u8],
            attachment: Option<&'a [u8]>,
            storage: &'a mut heapless::String<512>,
            message: Result<NetworkMessage<'a>, SessionError>,
        | #[trigger]
            call_ensures(
                Session::<'res, Config, T>::reply,
                (session, rid, ke, payload, attachment, storage),
                message,
            ) ==> {
                &&& refused_as_owed(*session, ke@, message)
                &&& message matches Ok(message) ==> {
                    &&& message.body matches NetworkBody::Response(response)
                    &&& response.rid == rid
                    &&& response.wire_expr.scope == 0
                    &&& response.wire_expr.suffix@ == on_the_wire(session.namespace(), ke@)
                    &&& response.payload matches ResponseBody::Reply(reply)
                    &&& reply.payload matches PushBody::Put(put)
                    &&& put.payload == payload
                    &&& put.attachment is Some <==> attachment is Some
                    &&& attachment matches Some(buffer) ==> put.attachment->0.buffer == buffer
                }
            },
        forall|
            session: &Session<'res, Config, T>,
            rid: u32,
            ke: KeyExpr<'a>,
            payload: &'a [u8],
            storage: &'a mut heapless::String<512>,
            message: Result<NetworkMessage<'a>, SessionError>,
        | #[trigger]
            call_ensures(
                Session::<'res, Config, T>::err,
                (session, rid, ke, payload, storage),
                message,
            ) ==> {
                &&& refused_as_owed(*session, ke@, message)
                &&& message matches Ok(message) ==> {
                    &&& message.body matches NetworkBody::Response(response)
                    &&& response.rid == rid
                    &&& response.wire_expr.scope == 0
                    &&& response.wire_expr.suffix@ == on_the_wire(session.namespace(), ke@)
                    &&& response.payload matches ResponseBody::ReplyErr(error)
                    &&& error.payload == payload
                }
            },
        forall|
            session: &Session<'res, Config, T>,
            rid: u32,
            last: bool,
            message: Option<NetworkMessage<'static>>,
        | #[trigger]
            call_ensures(Session::<'res, Config, T>::finalize, (session, rid, last), message) ==> {
                &&& message is Some <==> last && !session.slot().closed
                &&& message matches Some(message) ==> {
                    &&& message.body matches NetworkBody::ResponseFinal(end)
                    &&& end.rid == rid
                }
            },
{
}

/// An answer is made exactly when it can be sent, and refused because the session is closed, or else
/// because its key does not fit.
pub open spec fn refused_as_owed<'a, 'res, Config: ZSessionConfig, T>(
    session: Session<'res, Config, T>,
    key: Seq<char>,
    message: Result<NetworkMessage<'a>, SessionError>,
) -> bool {
    let open = !session.slot().closed && session.slot().current is Some;
    let short = sendable(session.namespace(), key);
    &&& message is Ok <==> open && short
    &&& !open ==> message == Err::<NetworkMessage<'a>, SessionError>(
        SessionError::TransportLink(TransportLinkError::TransportClosed),
    )
    &&& open && !short ==> message == Err::<NetworkMessage<'a>, SessionError>(
        SessionError::Collection(CollectionError::CollectionTooSmall),
    )
}

/// Withdrawing a subscriber, a queryable or an interest forgets that declaration and no other, and
/// tells the peer its id unless the session is closed. Where the callback could not be removed, the
/// caller is told and nothing is forgotten.
pub proof fn law_withdrawing_tells_the_peer<'res, Config: ZSessionConfig, T>()
    ensures
        forall|
            subscriber: Subscriber,
            session: &mut Session<'res, Config, T>,
            removed: Result<(), CollectionError>,
            message: Result<Option<NetworkMessage<'static>>, SessionError>,
        | #[trigger]
            call_ensures(
                Subscriber::undeclare::<Config, T>,
                (subscriber, session, removed),
                message,
            ) ==> {
                &&& withdrawn(*session, *final(session), subscriber.number(), removed is Ok)
                &&& told_as_owed((*session).slot().closed, removed, message)
                &&& message matches Ok(Some(message)) ==> {
                    &&& message.body matches NetworkBody::Declare(declare)
                    &&& declare.body matches DeclareBody::UndeclareSubscriber(undeclared)
                    &&& undeclared.id == subscriber.number()
                }
            },
        forall|
            queryable: Queryable,
            session: &mut Session<'res, Config, T>,
            removed: Result<(), CollectionError>,
            message: Result<Option<NetworkMessage<'static>>, SessionError>,
        | #[trigger]
            call_ensures(
                Queryable::undeclare::<Config, T>,
                (queryable, session, removed),
                message,
            ) ==> {
                &&& withdrawn(*session, *final(session), queryable.number(), removed is Ok)
                &&& told_as_owed((*session).slot().closed, removed, message)
                &&& message matches Ok(Some(message)) ==> {
                    &&& message.body matches NetworkBody::Declare(declare)
                    &&& declare.body matches DeclareBody::UndeclareQueryable(undeclared)
                    &&& undeclared.id == queryable.number()
                }
            },
        forall|
            guard: InterestGuard,
            session: &mut Session<'res, Config, T>,
            message: Option<NetworkMessage<'static>>,
        | #[trigger]
            call_ensures(
                InterestGuard::undeclare::<Config, T>,
                (guard, session),
                message,
            ) ==> {
                &&& withdrawn(*session, *final(session), guard.number(), true)
                &&& message is Some <==> !(*session).slot().closed
                &&& message matches Some(message) ==> {
                    &&& message.body matches NetworkBody::InterestFinal(last)
                    &&& last.id == guard.number()
                }
            },
{
}

/// The declaration `id` is forgotten if `removed`, and nothing else changes.
pub open spec fn withdrawn<'res, Config: ZSessionConfig, T>(
    before: Session<'res, Config, T>,
    after: Session<'res, Config, T>,
    id: u32,
    removed: bool,
) -> bool {
    &&& after.slot() == before.slot()
    &&& after.namespace() == before.namespace()
    &&& after.memory().next == before.memory().next
    &&& after.memory().keyexprs == before.memory().keyexprs
    &&& after.memory().tokens == before.memory().tokens
    &&& removed ==> !after.memory().declared.contains_key(id)
    &&& forall|other: u32|
        other != id || !removed ==> #[trigger] after.memory().declared.contains_key(other)
            == before.memory().declared.contains_key(other)
    &&& forall|other: u32| #[trigger]
        after.memory().declared.contains_key(other) ==> after.memory().declared[other]
            == before.memory().declared[other]
}

/// The caller is told why a callback could not be removed, and otherwise gets the message for the
/// peer unless the session is closed.
pub open spec fn told_as_owed(
    closed: bool,
    removed: Result<(), CollectionError>,
    message: Result<Option<NetworkMessage<'static>>, SessionError>,
) -> bool {
    match removed {
        Err(error) => message == Err::<Option<NetworkMessage<'static>>, SessionError>(
            SessionError::Collection(error),
        ),
        Ok(_) => {
            &&& message is Ok
            &&& message->Ok_0 is Some <==> !closed
        },
    }
}

/// Asking for liveliness tokens declares an interest under the next id, in the tokens to come, and in
/// those that exist already exactly if the history is asked for.
pub proof fn law_liveliness_is_an_interest_in_tokens<'res, Config: ZSessionConfig, T>()
    ensures
        forall|
            session: &mut Session<'res, Config, T>,
            ke: KeyExpr<'static>,
            history: bool,
            start: Result<(Declaring, Action), SessionError>,
        | #[trigger]
            call_ensures(
                Session::<'res, Config, T>::declare_liveliness_interest,
                (session, ke, history),
                start,
            ) ==> {
                &&& start matches Ok((declaring, action)) ==> {
                    &&& action == Action::Send
                    &&& declaring.declaration matches Declaration::Interest {
                        id,
                        key,
                        mode,
                        options,
                    }
                    &&& id == (*session).memory().next
                    &&& key == ke
                    &&& mode == InterestMode::Future || mode == InterestMode::CurrentFuture
                    &&& mode == InterestMode::CurrentFuture <==> history
                    &&& options.options == 9
                }
                &&& start is Err ==> (*session).slot().closed || !sendable(
                    (*session).namespace(),
                    ke@,
                ) || !(*session).has_room() || (*session).memory().declared.contains_key(
                    (*session).memory().next,
                )
            },
{
}

/// A subscriber or queryable is declared under the next id and the key it was asked for, and its
/// callback is stored first. An open session with a key that fits never refuses to start.
pub proof fn law_subscribers_and_queryables_are_declared<'res, Config: ZSessionConfig, T>()
    ensures
        forall|
            builder: SubscriberBuilder,
            session: &mut Session<'res, Config, T>,
            start: Result<(Declaring, Action), SessionError>,
        | #[trigger]
            call_ensures(
                SubscriberBuilder::finish::<Config, T>,
                (builder, session),
                start,
            ) ==> {
                &&& start is Ok <==> !(*session).slot().closed && sendable(
                    (*session).namespace(),
                    builder.ke@,
                )
                &&& start matches Ok((declaring, action)) ==> action == Action::Register
                    && declaring.declaration == (Declaration::Subscriber {
                    id: (*session).memory().next,
                    key: builder.ke,
                })
                &&& (*session).slot().closed ==> start == Err::<(Declaring, Action), SessionError>(
                    SessionError::TransportLink(TransportLinkError::TransportClosed),
                )
            },
        forall|
            builder: QueryableBuilder,
            session: &mut Session<'res, Config, T>,
            start: Result<(Declaring, Action), SessionError>,
        | #[trigger]
            call_ensures(
                QueryableBuilder::finish::<Config, T>,
                (builder, session),
                start,
            ) ==> {
                &&& start is Ok <==> !(*session).slot().closed && sendable(
                    (*session).namespace(),
                    builder.ke@,
                )
                &&& start matches Ok((declaring, action)) ==> action == Action::Register
                    && declaring.declaration == (Declaration::Queryable {
                    id: (*session).memory().next,
                    key: builder.ke,
                })
                &&& (*session).slot().closed ==> start == Err::<(Declaring, Action), SessionError>(
                    SessionError::TransportLink(TransportLinkError::TransportClosed),
                )
            },
{
}

/// A replay announces the declarations of its list one after the other, each under its own number and
/// its key in the namespace, and is over after the last.
pub proof fn law_a_replay_announces_one_after_the_other<'a, 'res, Config: ZSessionConfig, T>()
    ensures
        forall|
            replay: &mut Replay,
            session: &Session<'res, Config, T>,
            storage: &'a mut heapless::String<512>,
            message: Option<Result<NetworkMessage<'a>, SessionError>>,
        | #[trigger]
            call_ensures(
                Replay::next::<Config, T>,
                (replay, session, storage),
                message,
            ) ==> {
                let list = (*replay).list@;
                let at = (*replay).at as int;
                &&& (*final(replay)).list@ == list
                &&& message is None <==> at == list.len()
                &&& message is Some ==> (*final(replay)).at == at + 1
                &&& message matches Some(sent) ==> {
                    &&& sent is Ok <==> sendable(session.namespace(), list[at].subject()@)
                    &&& sent matches Ok(sent) ==> {
                        &&& list[at] is Interest <==> sent.body is Interest
                        &&& list[at] matches Declaration::Interest { id, mode, options, .. } ==> {
                            &&& sent.body->Interest_0.id == id
                            &&& sent.body->Interest_0.mode == mode
                            &&& sent.body->Interest_0.inner.options == options.options
                            &&& sent.body->Interest_0.inner.wire_expr is Some
                            &&& sent.body->Interest_0.inner.wire_expr->0.suffix@ == on_the_wire(
                                session.namespace(),
                                list[at].subject()@,
                            )
                        }
                        &&& list[at] matches Declaration::Subscriber { id, .. } ==> {
                            &&& sent.body is Declare
                            &&& sent.body->Declare_0.body matches DeclareBody::DeclareSubscriber(
                                subscriber,
                            )
                            &&& subscriber.id == id
                            &&& subscriber.wire_expr.suffix@ == on_the_wire(
                                session.namespace(),
                                list[at].subject()@,
                            )
                        }
                        &&& list[at] matches Declaration::Queryable { id, .. } ==> {
                            &&& sent.body is Declare
                            &&& sent.body->Declare_0.body matches DeclareBody::DeclareQueryable(
                                queryable,
                            )
                            &&& queryable.id == id
                            &&& queryable.wire_expr.suffix@ == on_the_wire(
                                session.namespace(),
                                list[at].subject()@,
                            )
                        }
                    }
                }
            },
{
}

/// A session that reconnects answers a lost transport by finalizing its queries, and then, unless its
/// owner has closed it, by connecting a replacement with the error reported. It never answers with an
/// end but for its owner.
pub proof fn law_a_reconnecting_session_connects_again<'res, Config: ZSessionConfig, T>()
    ensures
        forall|
            reconnecting: &mut Reconnecting,
            session: &mut Session<'res, Config, T>,
            error: SessionError,
            action: ReconnectAction,
            after: &mut Reconnecting,
            later: &mut Session<'res, Config, T>,
            next: ReconnectAction,
        |
            #[trigger] call_ensures(
                Reconnecting::step::<Config, T>,
                (reconnecting, session, ReconnectEvent::<T>::RunEnded(Err(error))),
                action,
            ) && #[trigger] call_ensures(
                Reconnecting::step::<Config, T>,
                (after, later, ReconnectEvent::<T>::QueriesFinalized),
                next,
            ) && *after == *final(reconnecting) && !(*later).slot().stopped ==> {
                &&& action == ReconnectAction::FinalizeQueries
                &&& next == (ReconnectAction::Connect { lost: Some(error) })
            },
{
}

/// What is received under a key is handed on as it came: the sample of a publication with its bytes
/// and kind, under the key of the application that its expression spells with the namespace in front.
pub proof fn law_received_publications_are_delivered<'a, 'res, Config: ZSessionConfig, T>()
    ensures
        forall|
            session: &mut Session<'res, Config, T>,
            message: NetworkMessage<'a>,
            storage: &'a mut heapless::String<512>,
            reaction: Result<Reaction<'a>, SessionError>,
            key: Seq<char>,
        |
            #[trigger] call_ensures(
                Session::<'res, Config, T>::receive,
                (session, message, storage),
                reaction,
            ) && #[trigger] crate::keyexpr::is_keyexpr(key) && message.body is Push
                && vstd::utf8::encode_utf8(on_the_wire((*session).namespace(), key)).len() <= 512
                && spelled_by(
                message.body->Push_0.wire_expr,
                (*session).memory().keyexprs,
                on_the_wire((*session).namespace(), key),
            ) ==> {
                &&& reaction matches Ok(Reaction::Deliver(sample))
                &&& crate::session::exchange::carries(
                    sample@,
                    key,
                    message.body->Push_0.payload,
                )
            },
{
    assert forall|
        session: &mut Session<'res, Config, T>,
        message: NetworkMessage<'a>,
        storage: &'a mut heapless::String<512>,
        reaction: Result<Reaction<'a>, SessionError>,
        key: Seq<char>,
    |
        #[trigger] call_ensures(
            Session::<'res, Config, T>::receive,
            (session, message, storage),
            reaction,
        ) && #[trigger] crate::keyexpr::is_keyexpr(key) && message.body is Push
            && vstd::utf8::encode_utf8(on_the_wire((*session).namespace(), key)).len() <= 512
            && spelled_by(
            message.body->Push_0.wire_expr,
            (*session).memory().keyexprs,
            on_the_wire((*session).namespace(), key),
        ) implies {
        &&& reaction matches Ok(Reaction::Deliver(sample))
        &&& crate::session::exchange::carries(sample@, key, message.body->Push_0.payload)
    } by {
        crate::session::exchange::law_a_message_is_taken_in_under_its_key(
            (*session).namespace(),
            (*session).memory().keyexprs,
            message.body->Push_0.wire_expr,
            key,
        );
    }
}

/// The expression spells `whole`: as its suffix, or as a mapping followed by its suffix with one
/// separator between them.
pub open spec fn spelled_by<'a>(
    expr: crate::fields::WireExpr<'a>,
    mappings: Map<u32, Seq<char>>,
    whole: Seq<char>,
) -> bool {
    let prefix = mappings[expr.scope as u32];
    let suffix = expr.suffix@;
    if expr.scope == 0 {
        whole == suffix
    } else {
        &&& mappings.contains_key(expr.scope as u32)
        &&& {
            ||| suffix.len() == 0 && whole == prefix
            ||| suffix.len() > 0 && !(prefix.len() > 0 && prefix.last() == '/') && suffix[0] != '/'
                && whole == prefix + seq!['/'] + suffix
            ||| suffix.len() > 0 && !(prefix.len() > 0 && prefix.last() == '/') && suffix[0] == '/'
                && whole == prefix + suffix
            ||| suffix.len() > 0 && prefix.len() > 0 && prefix.last() == '/' && suffix[0] != '/'
                && whole == prefix + suffix
            ||| suffix.len() > 0 && prefix.len() > 0 && prefix.last() == '/' && suffix[0] == '/'
                && whole == prefix + suffix.skip(1)
        }
    }
}

} // verus!
