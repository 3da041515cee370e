use vstd::prelude::*;

verus! {

/// Why a text is not the key expression that was asked for.
#[derive(Clone, Copy, Debug, PartialEq, Eq, Structural)]
pub enum KeyexprError {
    /// The text is no canonical key expression.
    NotCanonical,
    /// The key expression holds a wildcard where none is allowed.
    Wild,
}

/// Why a bounded collection did not take or give an element.
#[derive(Clone, Copy, Debug, PartialEq, Eq, Structural)]
pub enum CollectionError {
    KeyAlreadyExists,
    KeyNotFound,
    CollectionIsFull,
    CollectionTooSmall,
}

/// Why a link does not work.
#[derive(Clone, Copy, Debug, PartialEq, Eq, Structural)]
pub enum LinkError {
    CouldNotParseProtocol,
    CouldNotConnect,
    CouldNotListen,
    LinkRxFailed,
    LinkTxFailed,
}

/// Why a transport does not work.
#[derive(Clone, Copy, Debug, PartialEq, Eq, Structural)]
pub enum TransportError {
    InvalidState,
    InvalidAttribute,
    CouldNotDecode,
    CouldNotEncode,
}

/// Why a transport over a link does not work.
#[derive(Clone, Copy, Debug, PartialEq, Eq, Structural)]
pub enum TransportLinkError {
    Link(LinkError),
    Transport(TransportError),
    OpenTimeout,
    RxLeaseExpired,
    TxLeaseExpired,
    TransportClosed,
}

/// Why an operation of a session did not succeed.
#[derive(Clone, Copy, Debug, PartialEq, Eq, Structural)]
pub enum SessionError {
    TransportLink(TransportLinkError),
    Collection(CollectionError),
    Keyexpr(KeyexprError),
    RequestTimedout,
}

} // verus!
