use vstd::prelude::*;

use crate::error::CollectionError;
use crate::exts::EntityGlobalId;
use crate::keyexpr::KeyExpr;
use crate::storage::{string_as_str, string_from, vec_as_slice, vec_from};

verus! {

/// Whether a sample says that a value exists, or that it is gone.
///
/// A token declaration and a token undeclaration are delivered in the same way, and without this a
/// receiver cannot tell a peer that appeared from one that died.
#[derive(Clone, Copy, Debug, PartialEq, Eq, Structural)]
pub enum SampleKind {
    /// A value was published, or a token declared.
    Put,
    /// A value was deleted, or a token undeclared.
    Delete,
}

impl Default for SampleKind {
    fn default() -> (kind: Self)
        ensures
            kind == SampleKind::Put,
    {
        SampleKind::Put
    }
}

/// What a sample says, whatever holds it.
#[verifier::ext_equal]
pub struct SampleView {
    pub key: Seq<char>,
    pub payload: Seq<u8>,
    pub attachment: Option<Seq<u8>>,
    pub responder: Option<EntityGlobalId>,
    pub kind: SampleKind,
}

/// The bytes of an optional slice.
pub open spec fn optional_bytes(slice: Option<&[u8]>) -> Option<Seq<u8>> {
    match slice {
        Some(slice) => Some(slice@),
        None => None,
    }
}

/// One value, or the end of one, that is delivered to the application.
#[derive(Clone, Copy, Debug)]
pub struct Sample<'a> {
    ke: KeyExpr<'a>,
    payload: &'a [u8],
    attachment: Option<&'a [u8]>,
    responder: Option<EntityGlobalId>,
    kind: SampleKind,
}

impl<'a> View for Sample<'a> {
    type V = SampleView;

    closed spec fn view(&self) -> SampleView {
        SampleView {
            key: self.ke@,
            payload: self.payload@,
            attachment: optional_bytes(self.attachment),
            responder: self.responder,
            kind: self.kind,
        }
    }
}

impl<'a> Sample<'a> {
    /// A sample carrying a value.
    pub fn new(ke: KeyExpr<'a>, payload: &'a [u8]) -> (sample: Self)
        ensures
            sample@ == (SampleView {
                key: ke@,
                payload: payload@,
                attachment: None,
                responder: None,
                kind: SampleKind::Put,
            }),
    {
        Sample { ke, payload, attachment: None, responder: None, kind: SampleKind::Put }
    }

    /// A sample carrying a value and opaque attachment bytes.
    pub fn with_metadata(
        ke: KeyExpr<'a>,
        payload: &'a [u8],
        attachment: Option<&'a [u8]>,
        responder: Option<EntityGlobalId>,
    ) -> (sample: Self)
        ensures
            sample@ == (SampleView {
                key: ke@,
                payload: payload@,
                attachment: optional_bytes(attachment),
                responder,
                kind: SampleKind::Put,
            }),
    {
        Sample { ke, payload, attachment, responder, kind: SampleKind::Put }
    }

    /// A sample as a message carries it.
    pub fn from_wire(
        ke: KeyExpr<'a>,
        payload: &'a [u8],
        attachment: Option<&'a [u8]>,
        responder: Option<EntityGlobalId>,
        kind: SampleKind,
    ) -> (sample: Self)
        ensures
            sample@ == (SampleView {
                key: ke@,
                payload: payload@,
                attachment: optional_bytes(attachment),
                responder,
                kind,
            }),
    {
        Sample { ke, payload, attachment, responder, kind }
    }

    /// A sample saying the value at `ke` is gone. It carries no payload.
    pub fn delete(ke: KeyExpr<'a>) -> (sample: Self)
        ensures
            sample@ == (SampleView {
                key: ke@,
                payload: Seq::empty(),
                attachment: None,
                responder: None,
                kind: SampleKind::Delete,
            }),
    {
        Sample { ke, payload: &[], attachment: None, responder: None, kind: SampleKind::Delete }
    }

    pub fn keyexpr(&self) -> (ke: KeyExpr<'a>)
        ensures
            ke@ == self@.key,
    {
        self.ke
    }

    pub fn payload(&self) -> (payload: &'a [u8])
        ensures
            payload@ == self@.payload,
    {
        self.payload
    }

    /// Opaque metadata attached to this publication or successful reply.
    pub fn attachment(&self) -> (attachment: Option<&'a [u8]>)
        ensures
            optional_bytes(attachment) == self@.attachment,
    {
        self.attachment
    }

    /// Entity that answered a query. Publications have none.
    pub fn responder(&self) -> (responder: Option<EntityGlobalId>)
        ensures
            responder == self@.responder,
    {
        self.responder
    }

    pub fn kind(&self) -> (kind: SampleKind)
        ensures
            kind == self@.kind,
    {
        self.kind
    }
}

/// A sample of its own, in buffers of fixed capacity.
#[derive(Debug)]
pub struct FixedCapacitySample<
    const MAX_KEYEXPR: usize,
    const MAX_PAYLOAD: usize,
    const MAX_ATTACHMENT: usize,
> {
    ke: heapless::String<MAX_KEYEXPR>,
    payload: heapless::Vec<u8, MAX_PAYLOAD>,
    attachment: Option<heapless::Vec<u8, MAX_ATTACHMENT>>,
    responder: Option<EntityGlobalId>,
    kind: SampleKind,
}

/// A sample fits buffers of these capacities.
pub open spec fn fits(
    sample: SampleView,
    max_keyexpr: nat,
    max_payload: nat,
    max_attachment: nat,
) -> bool {
    &&& crate::text::utf8_len(sample.key) <= max_keyexpr
    &&& sample.payload.len() <= max_payload
    &&& sample.attachment matches Some(attachment) ==> attachment.len() <= max_attachment
}

impl<
    const MAX_KEYEXPR: usize,
    const MAX_PAYLOAD: usize,
    const MAX_ATTACHMENT: usize,
> View for FixedCapacitySample<MAX_KEYEXPR, MAX_PAYLOAD, MAX_ATTACHMENT> {
    type V = SampleView;

    closed spec fn view(&self) -> SampleView {
        SampleView {
            key: crate::storage::text(self.ke),
            payload: crate::storage::elements(self.payload),
            attachment: match self.attachment {
                Some(attachment) => Some(crate::storage::elements(attachment)),
                None => None,
            },
            responder: self.responder,
            kind: self.kind,
        }
    }
}

impl<
    const MAX_KEYEXPR: usize,
    const MAX_PAYLOAD: usize,
    const MAX_ATTACHMENT: usize,
> FixedCapacitySample<MAX_KEYEXPR, MAX_PAYLOAD, MAX_ATTACHMENT> {
    #[verifier::type_invariant]
    spec fn wf(self) -> bool {
        crate::keyexpr::is_keyexpr(crate::storage::text(self.ke))
    }

    pub fn keyexpr(&self) -> (ke: KeyExpr<'_>)
        ensures
            ke@ == self@.key,
    {
        proof {
            use_type_invariant(self);
        }
        KeyExpr::from_str_unchecked(string_as_str(&self.ke))
    }

    pub fn payload(&self) -> (payload: &[u8])
        ensures
            payload@ == self@.payload,
    {
        vec_as_slice(&self.payload)
    }

    pub fn attachment(&self) -> (attachment: Option<&[u8]>)
        ensures
            optional_bytes(attachment) == self@.attachment,
    {
        match &self.attachment {
            Some(attachment) => Some(vec_as_slice(attachment)),
            None => None,
        }
    }

    pub fn responder(&self) -> (responder: Option<EntityGlobalId>)
        ensures
            responder == self@.responder,
    {
        self.responder
    }

    pub fn kind(&self) -> (kind: SampleKind)
        ensures
            kind == self@.kind,
    {
        self.kind
    }

    pub fn as_ref(&self) -> (sample: Sample<'_>)
        ensures
            sample@ == self@,
    {
        Sample {
            ke: self.keyexpr(),
            payload: self.payload(),
            attachment: self.attachment(),
            responder: self.responder(),
            kind: self.kind,
        }
    }
}

impl<
    's,
    'a,
    const MAX_KEYEXPR: usize,
    const MAX_PAYLOAD: usize,
    const MAX_ATTACHMENT: usize,
> TryFrom<&'s Sample<'a>> for FixedCapacitySample<MAX_KEYEXPR, MAX_PAYLOAD, MAX_ATTACHMENT> {
    type Error = CollectionError;

    fn try_from(value: &'s Sample<'a>) -> (owned: Result<Self, CollectionError>)
        ensures
            owned is Ok <==> fits(
                value@,
                MAX_KEYEXPR as nat,
                MAX_PAYLOAD as nat,
                MAX_ATTACHMENT as nat,
            ),
            owned matches Ok(owned) ==> owned@ == value@,
            owned matches Err(error) ==> error == CollectionError::CollectionTooSmall,
    {
        let ke = match string_from::<MAX_KEYEXPR>(value.keyexpr().as_str()) {
            Ok(ke) => ke,
            Err(_) => return Err(CollectionError::CollectionTooSmall),
        };
        let payload = match vec_from::<MAX_PAYLOAD>(value.payload()) {
            Ok(payload) => payload,
            Err(_) => return Err(CollectionError::CollectionTooSmall),
        };
        let attachment = match value.attachment() {
            Some(attachment) => match vec_from::<MAX_ATTACHMENT>(attachment) {
                Ok(attachment) => Some(attachment),
                Err(_) => return Err(CollectionError::CollectionTooSmall),
            },
            None => None,
        };
        Ok(
            FixedCapacitySample {
                ke,
                payload,
                attachment,
                responder: value.responder(),
                kind: value.kind(),
            },
        )
    }
}

impl<
    's,
    'a,
    const MAX_KEYEXPR: usize,
    const MAX_PAYLOAD: usize,
    const MAX_ATTACHMENT: usize,
> vstd::std_specs::convert::TryFromSpecImpl<&'s Sample<'a>>
    for FixedCapacitySample<MAX_KEYEXPR, MAX_PAYLOAD, MAX_ATTACHMENT> {
    open spec fn obeys_try_from_spec() -> bool {
        false
    }

    open spec fn try_from_spec(value: &'s Sample<'a>) -> Result<Self, CollectionError> {
        Err(CollectionError::CollectionTooSmall)
    }
}

/// A sample of its own, on the heap.
#[derive(Debug)]
pub struct AllocSample {
    ke: String,
    payload: Vec<u8>,
    attachment: Option<Vec<u8>>,
    responder: Option<EntityGlobalId>,
    kind: SampleKind,
}

impl View for AllocSample {
    type V = SampleView;

    closed spec fn view(&self) -> SampleView {
        SampleView {
            key: self.ke@,
            payload: self.payload@,
            attachment: match self.attachment {
                Some(attachment) => Some(attachment@),
                None => None,
            },
            responder: self.responder,
            kind: self.kind,
        }
    }
}

impl AllocSample {
    #[verifier::type_invariant]
    spec fn wf(self) -> bool {
        crate::keyexpr::is_keyexpr(self.ke@)
    }

    pub fn keyexpr(&self) -> (ke: KeyExpr<'_>)
        ensures
            ke@ == self@.key,
    {
        proof {
            use_type_invariant(self);
        }
        KeyExpr::from_str_unchecked(self.ke.as_str())
    }

    pub fn payload(&self) -> (payload: &[u8])
        ensures
            payload@ == self@.payload,
    {
        self.payload.as_slice()
    }

    pub fn attachment(&self) -> (attachment: Option<&[u8]>)
        ensures
            optional_bytes(attachment) == self@.attachment,
    {
        match &self.attachment {
            Some(attachment) => Some(attachment.as_slice()),
            None => None,
        }
    }

    pub fn responder(&self) -> (responder: Option<EntityGlobalId>)
        ensures
            responder == self@.responder,
    {
        self.responder
    }

    pub fn kind(&self) -> (kind: SampleKind)
        ensures
            kind == self@.kind,
    {
        self.kind
    }

    pub fn as_ref(&self) -> (sample: Sample<'_>)
        ensures
            sample@ == self@,
    {
        Sample {
            ke: self.keyexpr(),
            payload: self.payload(),
            attachment: self.attachment(),
            responder: self.responder(),
            kind: self.kind,
        }
    }
}

fn owned_bytes(slice: &[u8]) -> (owned: Vec<u8>)
    ensures
        owned@ == slice@,
{
    let mut owned: Vec<u8> = Vec::new();
    owned.extend_from_slice(slice);
    owned
}

impl<'s, 'a> TryFrom<&'s Sample<'a>> for AllocSample {
    type Error = CollectionError;

    fn try_from(value: &'s Sample<'a>) -> (owned: Result<Self, CollectionError>)
        ensures
            owned matches Ok(owned) && owned@ == value@,
    {
        let ke: String = value.keyexpr().as_str().to_owned();
        Ok(
            AllocSample {
                ke,
                payload: owned_bytes(value.payload()),
                attachment: match value.attachment() {
                    Some(attachment) => Some(owned_bytes(attachment)),
                    None => None,
                },
                responder: value.responder(),
                kind: value.kind(),
            },
        )
    }
}

impl<'s, 'a> vstd::std_specs::convert::TryFromSpecImpl<&'s Sample<'a>> for AllocSample {
    open spec fn obeys_try_from_spec() -> bool {
        false
    }

    open spec fn try_from_spec(value: &'s Sample<'a>) -> Result<Self, CollectionError> {
        Err(CollectionError::CollectionTooSmall)
    }
}

/// A sample that is copied into buffers of its own, of fixed capacity or on the heap, and lent out
/// again is the same sample: key, bytes, attachment, responder and kind.
pub proof fn law_owned_samples_preserve_everything<
    's,
    'a,
    const MAX_KEYEXPR: usize,
    const MAX_PAYLOAD: usize,
    const MAX_ATTACHMENT: usize,
>(
    sample: &'s Sample<'a>,
    fixed: FixedCapacitySample<MAX_KEYEXPR, MAX_PAYLOAD, MAX_ATTACHMENT>,
    allocated: AllocSample,
    lent: Sample<'s>,
)
    ensures
        call_ensures(
            <FixedCapacitySample<
                MAX_KEYEXPR,
                MAX_PAYLOAD,
                MAX_ATTACHMENT,
            > as TryFrom<&'s Sample<'a>>>::try_from,
            (sample,),
            Ok(fixed),
        ) && call_ensures(
            FixedCapacitySample::<MAX_KEYEXPR, MAX_PAYLOAD, MAX_ATTACHMENT>::as_ref,
            (&fixed,),
            lent,
        ) ==> lent@ == sample@,
        call_ensures(
            <AllocSample as TryFrom<&'s Sample<'a>>>::try_from,
            (sample,),
            Ok(allocated),
        ) && call_ensures(AllocSample::as_ref, (&allocated,), lent) ==> lent@ == sample@,
{
}

/// A sample fits buffers exactly when each of its parts fits its own: the key by its bytes, the
/// value, and the attachment where there is one.
pub proof fn law_a_sample_fits_part_by_part(
    sample: SampleView,
    max_keyexpr: nat,
    max_payload: nat,
    max_attachment: nat,
)
    ensures
        fits(sample, max_keyexpr, max_payload, max_attachment) <==> {
            &&& vstd::utf8::encode_utf8(sample.key).len() <= max_keyexpr
            &&& sample.payload.len() <= max_payload
            &&& sample.attachment is None || sample.attachment->0.len() <= max_attachment
        },
{
}

/// Bytes that are there stay there, even if there are none of them.
pub proof fn law_optional_bytes_stay(slice: &[u8])
    ensures
        optional_bytes(Some(slice)) == Some(slice@),
        optional_bytes(None) is None,
{
}

} // verus!
