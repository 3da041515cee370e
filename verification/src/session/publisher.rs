use vstd::prelude::*;

use crate::config::ZSessionConfig;
use crate::error::{SessionError, TransportLinkError};
use crate::exts::Attachment;
use crate::fields::{Encoding, Timestamp};
use crate::keyexpr::KeyExpr;
use crate::session::put::PutBuilder;
use crate::session::Session;

verus! {

/// Publishes values under one key.
pub struct Publisher<'s, 'a, 'res, Config: ZSessionConfig, T> {
    session: &'s Session<'res, Config, T>,
    ke: KeyExpr<'a>,
    encoding: Encoding<'a>,
    timestamp: Option<Timestamp>,
    attachment: Option<Attachment<'a>>,
}

impl<'s, 'a, 'res, Config: ZSessionConfig, T> Publisher<'s, 'a, 'res, Config, T> {
    /// The publication of `payload` that the publisher makes.
    pub closed spec fn publishes(self, payload: &'a [u8]) -> PutBuilder<'s, 'a, 'res, Config, T> {
        PutBuilder {
            session: self.session,
            ke: self.ke,
            payload,
            encoding: self.encoding,
            timestamp: self.timestamp,
            attachment: self.attachment,
        }
    }

    pub fn put(&self, payload: &'a [u8]) -> (builder: PutBuilder<'s, 'a, 'res, Config, T>)
        ensures
            builder == self.publishes(payload),
    {
        PutBuilder {
            session: self.session,
            ke: self.ke,
            payload,
            encoding: self.encoding,
            timestamp: self.timestamp,
            attachment: self.attachment,
        }
    }

    pub fn keyexpr(&self) -> (ke: KeyExpr<'a>)
        ensures
            forall|payload: &'a [u8]| (#[trigger] self.publishes(payload)).ke == ke,
    {
        self.ke
    }
}

/// A publisher in the making.
pub struct PublisherBuilder<'s, 'a, 'res, Config: ZSessionConfig, T> {
    pub session: &'s Session<'res, Config, T>,
    pub ke: KeyExpr<'a>,
    pub encoding: Encoding<'a>,
    pub timestamp: Option<Timestamp>,
    pub attachment: Option<Attachment<'a>>,
}

impl<'s, 'a, 'res, Config: ZSessionConfig, T> PublisherBuilder<'s, 'a, 'res, Config, T> {
    pub fn new(session: &'s Session<'res, Config, T>, ke: KeyExpr<'a>) -> (builder: Self)
        ensures
            builder == (PublisherBuilder {
                session,
                ke,
                encoding: Encoding { id: 0, schema: None },
                timestamp: None,
                attachment: None,
            }),
    {
        PublisherBuilder {
            session,
            ke,
            encoding: Encoding::default(),
            timestamp: None,
            attachment: None,
        }
    }

    pub fn keyexpr(self, ke: KeyExpr<'a>) -> (builder: Self)
        ensures
            builder == (PublisherBuilder { ke, ..self }),
    {
        PublisherBuilder { ke, ..self }
    }

    pub fn encoding(self, encoding: Encoding<'a>) -> (builder: Self)
        ensures
            builder == (PublisherBuilder { encoding, ..self }),
    {
        PublisherBuilder { encoding, ..self }
    }

    pub fn timestamp(self, timestamp: Timestamp) -> (builder: Self)
        ensures
            builder == (PublisherBuilder { timestamp: Some(timestamp), ..self }),
    {
        PublisherBuilder { timestamp: Some(timestamp), ..self }
    }

    pub fn attachment(self, attachment: &'a [u8]) -> (builder: Self)
        ensures
            builder == (PublisherBuilder {
                attachment: Some(Attachment { buffer: attachment }),
                ..self
            }),
    {
        PublisherBuilder { attachment: Some(Attachment { buffer: attachment }), ..self }
    }

    /// The publisher, unless the session is closed.
    pub fn finish(self) -> (publisher: Result<Publisher<'s, 'a, 'res, Config, T>, SessionError>)
        ensures
            publisher is Ok <==> !self.session.slot().closed,
            publisher matches Ok(publisher) ==> forall|payload: &'a [u8]|
                #[trigger] publisher.publishes(payload) == (PutBuilder {
                    session: self.session,
                    ke: self.ke,
                    payload,
                    encoding: self.encoding,
                    timestamp: self.timestamp,
                    attachment: self.attachment,
                }),
            publisher matches Err(error) ==> error == SessionError::TransportLink(
                TransportLinkError::TransportClosed,
            ),
    {
        if self.session.is_closed() {
            return Err(SessionError::TransportLink(TransportLinkError::TransportClosed));
        }
        Ok(
            Publisher {
                session: self.session,
                ke: self.ke,
                encoding: self.encoding,
                timestamp: self.timestamp,
                attachment: self.attachment,
            },
        )
    }
}

impl<'res, Config: ZSessionConfig, T> Session<'res, Config, T> {
    pub fn declare_publisher<'s, 'a>(&'s self, ke: KeyExpr<'a>) -> (builder: PublisherBuilder<
        's,
        'a,
        'res,
        Config,
        T,
    >)
        ensures
            builder == (PublisherBuilder {
                session: self,
                ke,
                encoding: Encoding { id: 0, schema: None },
                timestamp: None,
                attachment: None,
            }),
    {
        PublisherBuilder::new(self, ke)
    }
}

} // verus!
