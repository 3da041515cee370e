use vstd::prelude::*;

use crate::error::CollectionError;
use crate::keyexpr::KeyExpr;
use crate::sample::{AllocSample, FixedCapacitySample, Sample, SampleKind, SampleView};

verus! {

/// What one answer to a query says, whatever holds it.
#[verifier::ext_equal]
pub enum ResponseView {
    Reply(SampleView),
    ReplyErr(SampleView),
    Final,
}

/// One thing a query hears back.
///
/// [`GetResponse::Final`] is not a reply: it is the peer saying that there will be no more of them.
#[derive(Debug)]
pub enum GetResponse<'a> {
    Reply(Sample<'a>),
    ReplyErr(Sample<'a>),
    Final,
}

impl<'a> View for GetResponse<'a> {
    type V = ResponseView;

    open spec fn view(&self) -> ResponseView {
        match *self {
            GetResponse::Reply(sample) => ResponseView::Reply(sample@),
            GetResponse::ReplyErr(sample) => ResponseView::ReplyErr(sample@),
            GetResponse::Final => ResponseView::Final,
        }
    }
}

impl<'a> GetResponse<'a> {
    pub fn ok(ke: KeyExpr<'a>, payload: &'a [u8]) -> (response: Self)
        ensures
            response@ == ResponseView::Reply(
                SampleView {
                    key: ke@,
                    payload: payload@,
                    attachment: None,
                    responder: None,
                    kind: SampleKind::Put,
                },
            ),
    {
        GetResponse::Reply(Sample::new(ke, payload))
    }

    pub fn err(ke: KeyExpr<'a>, payload: &'a [u8]) -> (response: Self)
        ensures
            response@ == ResponseView::ReplyErr(
                SampleView {
                    key: ke@,
                    payload: payload@,
                    attachment: None,
                    responder: None,
                    kind: SampleKind::Put,
                },
            ),
    {
        GetResponse::ReplyErr(Sample::new(ke, payload))
    }
}

/// An answer of its own, in buffers of fixed capacity.
#[derive(Debug)]
pub enum FixedCapacityGetResponse<
    const MAX_KEYEXPR: usize,
    const MAX_PAYLOAD: usize,
    const MAX_ATTACHMENT: usize,
> {
    Reply(FixedCapacitySample<MAX_KEYEXPR, MAX_PAYLOAD, MAX_ATTACHMENT>),
    ReplyErr(FixedCapacitySample<MAX_KEYEXPR, MAX_PAYLOAD, MAX_ATTACHMENT>),
    Final,
}

/// An answer fits buffers of these capacities.
pub open spec fn fits(
    response: ResponseView,
    max_keyexpr: nat,
    max_payload: nat,
    max_attachment: nat,
) -> bool {
    match response {
        ResponseView::Reply(sample) => crate::sample::fits(
            sample,
            max_keyexpr,
            max_payload,
            max_attachment,
        ),
        ResponseView::ReplyErr(sample) => crate::sample::fits(
            sample,
            max_keyexpr,
            max_payload,
            max_attachment,
        ),
        ResponseView::Final => true,
    }
}

impl<
    const MAX_KEYEXPR: usize,
    const MAX_PAYLOAD: usize,
    const MAX_ATTACHMENT: usize,
> View for FixedCapacityGetResponse<MAX_KEYEXPR, MAX_PAYLOAD, MAX_ATTACHMENT> {
    type V = ResponseView;

    open spec fn view(&self) -> ResponseView {
        match *self {
            FixedCapacityGetResponse::Reply(sample) => ResponseView::Reply(sample@),
            FixedCapacityGetResponse::ReplyErr(sample) => ResponseView::ReplyErr(sample@),
            FixedCapacityGetResponse::Final => ResponseView::Final,
        }
    }
}

impl<
    const MAX_KEYEXPR: usize,
    const MAX_PAYLOAD: usize,
    const MAX_ATTACHMENT: usize,
> FixedCapacityGetResponse<MAX_KEYEXPR, MAX_PAYLOAD, MAX_ATTACHMENT> {
    pub fn as_ref(&self) -> (response: GetResponse<'_>)
        ensures
            response@ == self@,
    {
        match self {
            FixedCapacityGetResponse::Reply(sample) => GetResponse::Reply(sample.as_ref()),
            FixedCapacityGetResponse::ReplyErr(sample) => GetResponse::ReplyErr(sample.as_ref()),
            FixedCapacityGetResponse::Final => GetResponse::Final,
        }
    }
}

impl<
    's,
    'a,
    const MAX_KEYEXPR: usize,
    const MAX_PAYLOAD: usize,
    const MAX_ATTACHMENT: usize,
> TryFrom<&'s GetResponse<'a>>
    for FixedCapacityGetResponse<MAX_KEYEXPR, MAX_PAYLOAD, MAX_ATTACHMENT> {
    type Error = CollectionError;

    fn try_from(value: &'s GetResponse<'a>) -> (owned: Result<Self, CollectionError>)
        ensures
            owned is Ok <==> fits(
                value@,
                MAX_KEYEXPR as nat,
                MAX_PAYLOAD as nat,
                MAX_ATTACHMENT as nat,
            ),
            owned matches Ok(owned) ==> owned@ == value@,
            owned matches Err(error) ==> error == CollectionError::CollectionTooSmall,
    {
        match value {
            GetResponse::Reply(sample) => match FixedCapacitySample::try_from(sample) {
                Ok(sample) => Ok(FixedCapacityGetResponse::Reply(sample)),
                Err(error) => Err(error),
            },
            GetResponse::ReplyErr(sample) => match FixedCapacitySample::try_from(sample) {
                Ok(sample) => Ok(FixedCapacityGetResponse::ReplyErr(sample)),
                Err(error) => Err(error),
            },
            GetResponse::Final => Ok(FixedCapacityGetResponse::Final),
        }
    }
}

impl<
    's,
    'a,
    const MAX_KEYEXPR: usize,
    const MAX_PAYLOAD: usize,
    const MAX_ATTACHMENT: usize,
> vstd::std_specs::convert::TryFromSpecImpl<&'s GetResponse<'a>>
    for FixedCapacityGetResponse<MAX_KEYEXPR, MAX_PAYLOAD, MAX_ATTACHMENT> {
    open spec fn obeys_try_from_spec() -> bool {
        false
    }

    open spec fn try_from_spec(value: &'s GetResponse<'a>) -> Result<Self, CollectionError> {
        Err(CollectionError::CollectionTooSmall)
    }
}

/// An answer of its own, on the heap.
#[derive(Debug)]
pub enum AllocGetResponse {
    Reply(AllocSample),
    ReplyErr(AllocSample),
    Final,
}

impl View for AllocGetResponse {
    type V = ResponseView;

    open spec fn view(&self) -> ResponseView {
        match *self {
            AllocGetResponse::Reply(sample) => ResponseView::Reply(sample@),
            AllocGetResponse::ReplyErr(sample) => ResponseView::ReplyErr(sample@),
            AllocGetResponse::Final => ResponseView::Final,
        }
    }
}

impl AllocGetResponse {
    pub fn as_ref(&self) -> (response: GetResponse<'_>)
        ensures
            response@ == self@,
    {
        match self {
            AllocGetResponse::Reply(sample) => GetResponse::Reply(sample.as_ref()),
            AllocGetResponse::ReplyErr(sample) => GetResponse::ReplyErr(sample.as_ref()),
            AllocGetResponse::Final => GetResponse::Final,
        }
    }
}

impl<'s, 'a> TryFrom<&'s GetResponse<'a>> for AllocGetResponse {
    type Error = CollectionError;

    fn try_from(value: &'s GetResponse<'a>) -> (owned: Result<Self, CollectionError>)
        ensures
            owned matches Ok(owned) && owned@ == value@,
    {
        match value {
            GetResponse::Reply(sample) => match AllocSample::try_from(sample) {
                Ok(sample) => Ok(AllocGetResponse::Reply(sample)),
                Err(error) => Err(error),
            },
            GetResponse::ReplyErr(sample) => match AllocSample::try_from(sample) {
                Ok(sample) => Ok(AllocGetResponse::ReplyErr(sample)),
                Err(error) => Err(error),
            },
            GetResponse::Final => Ok(AllocGetResponse::Final),
        }
    }
}

impl<'s, 'a> vstd::std_specs::convert::TryFromSpecImpl<&'s GetResponse<'a>> for AllocGetResponse {
    open spec fn obeys_try_from_spec() -> bool {
        false
    }

    open spec fn try_from_spec(value: &'s GetResponse<'a>) -> Result<Self, CollectionError> {
        Err(CollectionError::CollectionTooSmall)
    }
}

/// An answer fits buffers exactly when its sample does, and the end of a query always.
pub proof fn law_an_answer_fits_as_its_sample(
    sample: SampleView,
    max_keyexpr: nat,
    max_payload: nat,
    max_attachment: nat,
)
    ensures
        fits(ResponseView::Reply(sample), max_keyexpr, max_payload, max_attachment)
            <==> crate::sample::fits(sample, max_keyexpr, max_payload, max_attachment),
        fits(ResponseView::ReplyErr(sample), max_keyexpr, max_payload, max_attachment)
            <==> crate::sample::fits(sample, max_keyexpr, max_payload, max_attachment),
        fits(ResponseView::Final, max_keyexpr, max_payload, max_attachment),
{
}

/// An answer that is copied into buffers of its own and lent out again is the same answer: a reply, a
/// failure or the end.
pub proof fn law_owned_answers_preserve_everything<
    's,
    'a,
    const MAX_KEYEXPR: usize,
    const MAX_PAYLOAD: usize,
    const MAX_ATTACHMENT: usize,
>(
    response: &'s GetResponse<'a>,
    fixed: FixedCapacityGetResponse<MAX_KEYEXPR, MAX_PAYLOAD, MAX_ATTACHMENT>,
    allocated: AllocGetResponse,
    lent: GetResponse<'s>,
)
    ensures
        call_ensures(
            <FixedCapacityGetResponse<
                MAX_KEYEXPR,
                MAX_PAYLOAD,
                MAX_ATTACHMENT,
            > as TryFrom<&'s GetResponse<'a>>>::try_from,
            (response,),
            Ok(fixed),
        ) && call_ensures(
            FixedCapacityGetResponse::<MAX_KEYEXPR, MAX_PAYLOAD, MAX_ATTACHMENT>::as_ref,
            (&fixed,),
            lent,
        ) ==> same_answer(lent, *response),
        call_ensures(
            <AllocGetResponse as TryFrom<&'s GetResponse<'a>>>::try_from,
            (response,),
            Ok(allocated),
        ) && call_ensures(AllocGetResponse::as_ref, (&allocated,), lent) ==> same_answer(
            lent,
            *response,
        ),
{
}

/// The two are replies, failures or ends alike, with the same sample.
pub open spec fn same_answer<'a, 'b>(first: GetResponse<'a>, second: GetResponse<'b>) -> bool {
    match first {
        GetResponse::Reply(sample) => second matches GetResponse::Reply(other) && sample@ == other@,
        GetResponse::ReplyErr(sample) => second matches GetResponse::ReplyErr(other) && sample@
            == other@,
        GetResponse::Final => second is Final,
    }
}

/// An answer says what it is: a reply, a failure or the end, whatever holds it.
pub proof fn law_answers_say_what_they_are<
    'a,
    const MAX_KEYEXPR: usize,
    const MAX_PAYLOAD: usize,
    const MAX_ATTACHMENT: usize,
>(
    response: GetResponse<'a>,
    fixed: FixedCapacityGetResponse<MAX_KEYEXPR, MAX_PAYLOAD, MAX_ATTACHMENT>,
    allocated: AllocGetResponse,
)
    ensures
        response is Reply <==> response@ is Reply,
        response is ReplyErr <==> response@ is ReplyErr,
        response is Final <==> response@ is Final,
        response is Reply ==> response@->Reply_0 == response->Reply_0@,
        response is ReplyErr ==> response@->ReplyErr_0 == response->ReplyErr_0@,
        fixed is Reply <==> fixed@ is Reply,
        fixed is ReplyErr <==> fixed@ is ReplyErr,
        fixed is Reply ==> fixed@->Reply_0 == fixed->Reply_0@,
        fixed is ReplyErr ==> fixed@->ReplyErr_0 == fixed->ReplyErr_0@,
        allocated is Reply <==> allocated@ is Reply,
        allocated is ReplyErr <==> allocated@ is ReplyErr,
        allocated is Reply ==> allocated@->Reply_0 == allocated->Reply_0@,
        allocated is ReplyErr ==> allocated@->ReplyErr_0 == allocated->ReplyErr_0@,
{
}

} // verus!
