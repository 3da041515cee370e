use vstd::prelude::*;

use crate::io::transport::TransportLinkManager;
use crate::keyexpr::NonWildKeyExpr;
use crate::session::declarations::ZDeclarations;

verus! {

/// What one session is made of.
pub trait ZSessionConfig: Sized {
    /// Storage for one batch.
    type Buff;

    /// What opens links.
    type LinkManager;

    /// Storage for the declarations of the session.
    type Declarations: ZDeclarations;

    fn transports(&self) -> &TransportLinkManager<Self::LinkManager>;

    fn buff(&self) -> Self::Buff;

    /// Optional wild-free key expression in front of every key of the session.
    ///
    /// The application sees relative keys, while every declaration, query, reply and publication on
    /// the transport carries the namespace. A session asks for it once. A configuration that does not
    /// say otherwise has none.
    fn namespace(&self) -> (namespace: Option<NonWildKeyExpr<'_>>)
        default_ensures
            namespace is None,
    {
        None
    }
}

/// What one broker is made of.
pub trait ZBrokerConfig: Sized {
    /// Storage for one batch.
    type Buff;

    /// What opens links.
    type LinkManager;

    fn transports(&self) -> &TransportLinkManager<Self::LinkManager>;

    fn buff(&self) -> Self::Buff;
}

} // verus!
