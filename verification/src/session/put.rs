use vstd::prelude::*;

use crate::config::ZSessionConfig;
use crate::error::SessionError;
use crate::exts::{Attachment, QoS};
use crate::fields::{Encoding, Reliability, Timestamp, WireExpr};
use crate::keyexpr::KeyExpr;
use crate::msgs::network::{NetworkBody, NetworkMessage, Push, PushBody, Put};
use crate::session::Session;

verus! {

/// A publication in the making.
pub struct PutBuilder<'s, 'a, 'res, Config: ZSessionConfig, T> {
    pub session: &'s Session<'res, Config, T>,
    pub ke: KeyExpr<'a>,
    pub payload: &'a [u8],
    pub encoding: Encoding<'a>,
    pub timestamp: Option<Timestamp>,
    pub attachment: Option<Attachment<'a>>,
}

/// The message that publishes `put` under `wire_expr`.
pub open spec fn publication<'a>(wire_expr: WireExpr<'a>, put: Put<'a>) -> NetworkMessage<'a> {
    NetworkMessage {
        reliability: Reliability::Reliable,
        qos: QoS::Data,
        body: NetworkBody::Push(
            Push { wire_expr, timestamp: put.timestamp, payload: PushBody::Put(put) },
        ),
    }
}

impl<'s, 'a, 'res, Config: ZSessionConfig, T> PutBuilder<'s, 'a, 'res, Config, T> {
    pub fn new(
        session: &'s Session<'res, Config, T>,
        ke: KeyExpr<'a>,
        payload: &'a [u8],
    ) -> (builder: Self)
        ensures
            builder == (PutBuilder {
                session,
                ke,
                payload,
                encoding: Encoding { id: 0, schema: None },
                timestamp: None,
                attachment: None,
            }),
    {
        PutBuilder {
            session,
            ke,
            payload,
            encoding: Encoding::default(),
            timestamp: None,
            attachment: None,
        }
    }

    pub fn payload(self, payload: &'a [u8]) -> (builder: Self)
        ensures
            builder == (PutBuilder { payload, ..self }),
    {
        PutBuilder { payload, ..self }
    }

    pub fn encoding(self, encoding: Encoding<'a>) -> (builder: Self)
        ensures
            builder == (PutBuilder { encoding, ..self }),
    {
        PutBuilder { encoding, ..self }
    }

    pub fn timestamp(self, timestamp: Timestamp) -> (builder: Self)
        ensures
            builder == (PutBuilder { timestamp: Some(timestamp), ..self }),
    {
        PutBuilder { timestamp: Some(timestamp), ..self }
    }

    pub fn attachment(self, attachment: &'a [u8]) -> (builder: Self)
        ensures
            builder == (PutBuilder {
                attachment: Some(Attachment { buffer: attachment }),
                ..self
            }),
    {
        PutBuilder { attachment: Some(Attachment { buffer: attachment }), ..self }
    }

    /// The value that the builder publishes.
    pub open spec fn value(self) -> Put<'a> {
        Put {
            timestamp: self.timestamp,
            encoding: self.encoding,
            attachment: self.attachment,
            payload: self.payload,
        }
    }

    /// The message to send on the session's transport.
    pub fn finish(self, storage: &'a mut heapless::String<512>) -> (message: Result<
        NetworkMessage<'a>,
        SessionError,
    >)
        ensures
            message is Ok <==> crate::session::namespace::projects(
                self.session.namespace(),
                self.ke@,
            ) && self.session.slot().usable(),
            message matches Ok(message) ==> exists|expr: WireExpr<'a>|
                expr.spells(
                    crate::session::namespace::projected(self.session.namespace(), self.ke@),
                ) && message == #[trigger] publication(expr, self.value()),
            message matches Err(error) ==> error == crate::session::refusal(
                self.session.namespace(),
                self.ke@,
            ),
    {
        let wire_expr = match self.session.wire_expr(self.ke, storage) {
            Ok(wire_expr) => wire_expr,
            Err(error) => return Err(error),
        };
        if let Err(error) = self.session.driver() {
            return Err(SessionError::TransportLink(error));
        }
        let put = Put {
            timestamp: self.timestamp,
            encoding: self.encoding,
            attachment: self.attachment,
            payload: self.payload,
        };
        let message = NetworkMessage {
            reliability: Reliability::default(),
            qos: QoS::default(),
            body: NetworkBody::Push(
                Push { wire_expr, timestamp: self.timestamp, payload: PushBody::Put(put) },
            ),
        };
        assert(message == publication(wire_expr, self.value()));
        Ok(message)
    }
}

impl<'res, Config: ZSessionConfig, T> Session<'res, Config, T> {
    pub fn put<'s, 'a>(&'s self, ke: KeyExpr<'a>, payload: &'a [u8]) -> (builder: PutBuilder<
        's,
        'a,
        'res,
        Config,
        T,
    >)
        ensures
            builder == (PutBuilder {
                session: self,
                ke,
                payload,
                encoding: Encoding { id: 0, schema: None },
                timestamp: None,
                attachment: None,
            }),
    {
        PutBuilder::new(self, ke, payload)
    }
}

/// A publication carries what the builder was given: the key it is sent under, the bytes, the
/// encoding, the time stamp and the attachment, reliably and as ordinary data. The time stamp stands
/// on the publication too.
pub proof fn law_a_publication_carries_what_was_given<'s, 'a, 'res, Config: ZSessionConfig, T>(
    builder: PutBuilder<'s, 'a, 'res, Config, T>,
    expr: WireExpr<'a>,
)
    ensures
        ({
            let message = publication(expr, builder.value());
            &&& message.reliability == Reliability::Reliable
            &&& message.qos == QoS::Data
            &&& message.body matches NetworkBody::Push(push)
            &&& push.wire_expr == expr
            &&& push.timestamp == builder.timestamp
            &&& push.payload matches PushBody::Put(put)
            &&& put.payload == builder.payload
            &&& put.encoding == builder.encoding
            &&& put.timestamp == builder.timestamp
            &&& put.attachment == builder.attachment
        }),
{
}

} // verus!
