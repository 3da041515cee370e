use vstd::prelude::*;

use crate::keyexpr::KeyExpr;

verus! {

/// What a query asks, whatever holds it.
#[verifier::ext_equal]
pub struct QueryView {
    pub id: u32,
    pub key: Seq<char>,
    pub parameters: Option<Seq<char>>,
    pub payload: Option<Seq<u8>>,
}

/// The characters of an optional text.
pub open spec fn optional_text(text: Option<&str>) -> Option<Seq<char>> {
    match text {
        Some(text) => Some(text@),
        None => None,
    }
}

/// One query that is delivered to the queryables of the application.
#[derive(Clone, Copy, Debug)]
pub struct QueryableQuery<'a> {
    id: u32,
    ke: KeyExpr<'a>,
    parameters: Option<&'a str>,
    payload: Option<&'a [u8]>,
}

impl<'a> View for QueryableQuery<'a> {
    type V = QueryView;

    closed spec fn view(&self) -> QueryView {
        QueryView {
            id: self.id,
            key: self.ke@,
            parameters: optional_text(self.parameters),
            payload: crate::sample::optional_bytes(self.payload),
        }
    }
}

impl<'a> QueryableQuery<'a> {
    pub fn new(
        id: u32,
        ke: KeyExpr<'a>,
        parameters: Option<&'a str>,
        payload: Option<&'a [u8]>,
    ) -> (query: Self)
        ensures
            query@ == (QueryView {
                id,
                key: ke@,
                parameters: optional_text(parameters),
                payload: crate::sample::optional_bytes(payload),
            }),
    {
        QueryableQuery { id, ke, parameters, payload }
    }

    /// The id that replies to this query carry.
    pub fn id(&self) -> (id: u32)
        ensures
            id == self@.id,
    {
        self.id
    }

    pub fn keyexpr(&self) -> (ke: KeyExpr<'a>)
        ensures
            ke@ == self@.key,
    {
        self.ke
    }

    /// What the query adds to its key, unless that is nothing.
    pub fn parameters(&self) -> (parameters: Option<&'a str>)
        ensures
            optional_text(parameters) == self@.parameters,
    {
        self.parameters
    }

    pub fn payload(&self) -> (payload: Option<&'a [u8]>)
        ensures
            crate::sample::optional_bytes(payload) == self@.payload,
    {
        self.payload
    }
}

/// A text that is there stays there, even if it is empty.
pub proof fn law_optional_text_stays(text: &str)
    ensures
        optional_text(Some(text)) == Some(text@),
        optional_text(None) is None,
{
}

} // verus!
