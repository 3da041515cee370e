use std::marker::PhantomData;

use vstd::prelude::*;

use crate::query::QueryableQuery;
use crate::response::GetResponse;
use crate::sample::Sample;

verus! {

/// What a callback is called with.
pub trait ZArg {
    type Of<'a>;
}

/// Callbacks on answers to a query.
pub struct GetResponseRef;

/// Callbacks on samples.
pub struct SampleRef;

/// Callbacks on queries to a session of the configuration `Config`.
pub struct QueryableQueryRef<Config>(PhantomData<Config>);

impl ZArg for GetResponseRef {
    type Of<'a> = &'a GetResponse<'a>;
}

impl ZArg for SampleRef {
    type Of<'a> = &'a Sample<'a>;
}

impl<Config> ZArg for QueryableQueryRef<Config> {
    type Of<'a> = &'a QueryableQuery<'a>;
}

} // verus!
