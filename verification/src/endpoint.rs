use vstd::prelude::*;

verus! {

/// Where a link leads to: a protocol, and an address that the protocol understands.
#[derive(Clone, Copy, Debug, PartialEq, Eq)]
pub struct Endpoint<'a> {
    protocol: &'a str,
    address: &'a str,
}

/// What an [`Endpoint`] names.
pub struct EndpointView {
    pub protocol: Seq<char>,
    pub address: Seq<char>,
}

impl<'a> View for Endpoint<'a> {
    type V = EndpointView;

    closed spec fn view(&self) -> EndpointView {
        EndpointView { protocol: self.protocol@, address: self.address@ }
    }
}

impl<'a> Endpoint<'a> {
    pub fn new(protocol: &'a str, address: &'a str) -> (endpoint: Self)
        ensures
            endpoint@ == (EndpointView { protocol: protocol@, address: address@ }),
    {
        Endpoint { protocol, address }
    }

    pub fn protocol(&self) -> (protocol: &'a str)
        ensures
            protocol@ == self@.protocol,
    {
        self.protocol
    }

    pub fn address(&self) -> (address: &'a str)
        ensures
            address@ == self@.address,
    {
        self.address
    }
}

} // verus!
