use vstd::prelude::*;

use crate::keyexpr::KeyExpr;

verus! {

/// Number of bytes a Zenoh identifier can hold.
pub const MAX_ZID_SIZE: usize = 16;

/// Width of an integer field of the protocol.
#[derive(Clone, Copy, Debug, PartialEq, Eq, Structural)]
pub enum Bits {
    U8,
    U16,
    U32,
    U64,
}

impl Bits {
    /// Position of the width in the order from the narrowest to the widest.
    pub open spec fn rank(self) -> nat {
        match self {
            Bits::U8 => 0,
            Bits::U16 => 1,
            Bits::U32 => 2,
            Bits::U64 => 3,
        }
    }

    /// Bits that a transport sequence number of this width can use: seven for each byte of its
    /// variable-length encoding, and never more than the thirty-two of the counter itself.
    pub open spec fn sn_mask(self) -> u32 {
        match self {
            Bits::U8 => 0x7f,
            Bits::U16 => 0x3fff,
            Bits::U32 => 0x0fff_ffff,
            Bits::U64 => 0xffff_ffff,
        }
    }

    /// The narrower of two widths.
    pub open spec fn narrower(self, other: Bits) -> Bits {
        if self.rank() <= other.rank() {
            self
        } else {
            other
        }
    }

    pub fn transport_sn_mask(self) -> (mask: u32)
        ensures
            mask == self.sn_mask(),
    {
        match self {
            Bits::U8 => 0x7f,
            Bits::U16 => 0x3fff,
            Bits::U32 => 0x0fff_ffff,
            Bits::U64 => 0xffff_ffff,
        }
    }

    /// Whether this width is no wider than `other`.
    pub fn fits_in(self, other: Bits) -> (fits: bool)
        ensures
            fits <==> self.rank() <= other.rank(),
    {
        match (self, other) {
            (Bits::U8, _) => true,
            (Bits::U16, Bits::U8) => false,
            (Bits::U16, _) => true,
            (Bits::U32, Bits::U8) | (Bits::U32, Bits::U16) => false,
            (Bits::U32, _) => true,
            (Bits::U64, Bits::U64) => true,
            (Bits::U64, _) => false,
        }
    }

    pub fn min(self, other: Bits) -> (least: Bits)
        ensures
            least == self.narrower(other),
    {
        if self.fits_in(other) {
            self
        } else {
            other
        }
    }
}

/// The integer fields whose width the two ends of a transport agree on.
#[derive(Clone, Copy, Debug, PartialEq, Eq, Structural)]
pub enum Field {
    FrameSN,
    RequestID,
}

/// Width of every negotiable integer field.
#[derive(Clone, Copy, Debug, PartialEq, Eq, Structural)]
pub struct Resolution {
    pub frame_sn: Bits,
    pub request_id: Bits,
}

impl Resolution {
    /// Width of `field`.
    pub open spec fn width(self, field: Field) -> Bits {
        match field {
            Field::FrameSN => self.frame_sn,
            Field::RequestID => self.request_id,
        }
    }

    /// The widest resolution that neither `self` nor `other` exceeds.
    pub open spec fn meet(self, other: Resolution) -> Resolution {
        Resolution {
            frame_sn: self.frame_sn.narrower(other.frame_sn),
            request_id: self.request_id.narrower(other.request_id),
        }
    }

    /// No field is wider than in `other`.
    pub open spec fn within(self, other: Resolution) -> bool {
        &&& self.frame_sn.rank() <= other.frame_sn.rank()
        &&& self.request_id.rank() <= other.request_id.rank()
    }

    pub fn get(&self, field: Field) -> (bits: Bits)
        ensures
            bits == self.width(field),
    {
        match field {
            Field::FrameSN => self.frame_sn,
            Field::RequestID => self.request_id,
        }
    }

    pub fn set(&mut self, field: Field, bits: Bits)
        ensures
            final(self).width(field) == bits,
            forall|other: Field| other != field ==> #[trigger] final(self).width(other) == old(
                self,
            ).width(other),
    {
        match field {
            Field::FrameSN => self.frame_sn = bits,
            Field::RequestID => self.request_id = bits,
        }
    }
}

impl Default for Resolution {
    fn default() -> (resolution: Self)
        ensures
            resolution == (Resolution { frame_sn: Bits::U32, request_id: Bits::U32 }),
    {
        Resolution { frame_sn: Bits::U32, request_id: Bits::U32 }
    }
}

/// The number that `bytes` spell, the least significant first.
pub open spec fn le_value(bytes: Seq<u8>) -> nat
    decreases bytes.len(),
{
    if bytes.len() == 0 {
        0
    } else {
        bytes[0] as nat + 256 * le_value(bytes.drop_first())
    }
}

/// The `length` least significant bytes of `value`, the least significant first.
pub open spec fn le_digits(value: nat, length: nat) -> Seq<u8>
    decreases length,
{
    if length == 0 {
        seq![]
    } else {
        seq![(value % 256) as u8] + le_digits(value / 256, (length - 1) as nat)
    }
}

/// How many numbers `length` bytes can spell.
pub open spec fn le_bound(length: nat) -> nat
    decreases length,
{
    if length == 0 {
        1
    } else {
        256 * le_bound((length - 1) as nat)
    }
}

/// Number of bytes up to and with the last one that is not zero.
pub open spec fn significant(bytes: Seq<u8>) -> nat
    decreases bytes.len(),
{
    if bytes.len() == 0 {
        0
    } else if bytes.last() != 0 {
        bytes.len()
    } else {
        significant(bytes.drop_last())
    }
}

proof fn lemma_le_value_bound(bytes: Seq<u8>)
    ensures
        le_value(bytes) < le_bound(bytes.len()),
    decreases bytes.len(),
{
    if bytes.len() > 0 {
        lemma_le_value_bound(bytes.drop_first());
    }
}

proof fn lemma_le_bound_of_widest()
    ensures
        le_bound(16) == u128::MAX + 1,
{
    reveal_with_fuel(le_bound, 17);
}

proof fn lemma_le_bound_grows(short: nat, long: nat)
    requires
        short <= long,
    ensures
        le_bound(short) <= le_bound(long),
        le_bound(short) > 0,
    decreases long,
{
    if short < long {
        lemma_le_bound_grows(short, (long - 1) as nat);
    } else if short > 0 {
        lemma_le_bound_grows((short - 1) as nat, (short - 1) as nat);
    }
}

/// The bytes of a number that they have room for spell that number.
pub proof fn lemma_le_value_of_digits(value: nat, length: nat)
    requires
        value < le_bound(length),
    ensures
        le_digits(value, length).len() == length,
        le_value(le_digits(value, length)) == value,
    decreases length,
{
    if length > 0 {
        lemma_le_value_of_digits(value / 256, (length - 1) as nat);
        assert(le_digits(value, length).drop_first() == le_digits(
            value / 256,
            (length - 1) as nat,
        ));
    }
}

/// Zeros at the end of the bytes add nothing to the number they spell.
pub proof fn lemma_le_value_of_significant(bytes: Seq<u8>)
    ensures
        significant(bytes) <= bytes.len(),
        le_value(bytes.take(significant(bytes) as int)) == le_value(bytes),
    decreases bytes.len(),
{
    if bytes.len() > 0 && bytes.last() == 0 {
        let shorter = bytes.drop_last();
        lemma_le_value_of_significant(shorter);
        lemma_le_value_of_trailing_zero(shorter);
        assert(shorter.push(0) == bytes);
        assert(shorter.take(significant(bytes) as int) == bytes.take(significant(bytes) as int));
    } else {
        assert(bytes.take(bytes.len() as int) == bytes);
    }
}

proof fn lemma_le_value_of_trailing_zero(bytes: Seq<u8>)
    ensures
        le_value(bytes.push(0)) == le_value(bytes),
    decreases bytes.len(),
{
    if bytes.len() > 0 {
        lemma_le_value_of_trailing_zero(bytes.drop_first());
        assert(bytes.push(0).drop_first() == bytes.drop_first().push(0));
    } else {
        assert(bytes.push(0).drop_first() == bytes);
    }
}

/// Identifier of a Zenoh node: a little-endian number of one to sixteen bytes, never zero.
#[derive(Clone, Copy, Debug, PartialEq, Eq, Structural)]
pub struct ZenohIdProto {
    id: u128,
}

impl View for ZenohIdProto {
    type V = u128;

    closed spec fn view(&self) -> u128 {
        self.id
    }
}

impl ZenohIdProto {
    #[verifier::type_invariant]
    spec fn nonzero(self) -> bool {
        self.id != 0
    }

    /// All sixteen bytes of the identifier, the least significant first.
    pub open spec fn le_bytes(self) -> Seq<u8> {
        le_digits(self@ as nat, MAX_ZID_SIZE as nat)
    }

    /// The bytes that identify the node: those of [`Self::le_bytes`] without the zeros at the end.
    pub open spec fn wire_bytes(self) -> Seq<u8> {
        self.le_bytes().take(significant(self.le_bytes()) as int)
    }

    /// The identifier with the number `id`, unless that is zero.
    pub fn new(id: u128) -> (zid: Option<Self>)
        ensures
            zid is Some <==> id != 0,
            zid matches Some(zid) ==> zid@ == id,
    {
        if id == 0 {
            None
        } else {
            Some(ZenohIdProto { id })
        }
    }

    /// The identifier spelled by `bytes`, the least significant first.
    ///
    /// There is none when `bytes` is longer than sixteen bytes or spells zero.
    pub fn from_le_bytes(bytes: &[u8]) -> (zid: Option<Self>)
        ensures
            zid is Some <==> bytes@.len() <= MAX_ZID_SIZE && le_value(bytes@) != 0,
            zid matches Some(zid) ==> zid@ == le_value(bytes@),
    {
        if bytes.len() > MAX_ZID_SIZE {
            return None;
        }
        let mut id: u128 = 0;
        let mut at: usize = bytes.len();
        assert(bytes@.skip(at as int) == Seq::<u8>::empty());
        while at > 0
            invariant
                at <= bytes@.len() <= MAX_ZID_SIZE,
                id == le_value(bytes@.skip(at as int)),
            decreases at,
        {
            let ghost rest = bytes@.skip(at - 1);
            proof {
                assert(rest.drop_first() == bytes@.skip(at as int));
                lemma_le_value_bound(rest);
                lemma_le_bound_grows(rest.len(), 16);
                lemma_le_bound_of_widest();
            }
            at = at - 1;
            id = bytes[at] as u128 + 256 * id;
        }
        assert(bytes@.skip(0) == bytes@);
        ZenohIdProto::new(id)
    }

    pub fn as_le_bytes(&self) -> (bytes: Vec<u8>)
        ensures
            bytes@ == self.le_bytes(),
            bytes@.len() == MAX_ZID_SIZE,
    {
        let mut bytes: Vec<u8> = Vec::new();
        let mut rest: u128 = self.id;
        while bytes.len() < MAX_ZID_SIZE
            invariant
                bytes@.len() <= MAX_ZID_SIZE,
                bytes@ + le_digits(rest as nat, (MAX_ZID_SIZE - bytes@.len()) as nat)
                    == self.le_bytes(),
            decreases MAX_ZID_SIZE - bytes.len(),
        {
            let ghost written = bytes@;
            let ghost left = (MAX_ZID_SIZE - bytes@.len()) as nat;
            bytes.push((rest % 256) as u8);
            assert(bytes@ + le_digits((rest / 256) as nat, (left - 1) as nat) == written
                + le_digits(rest as nat, left));
            rest = rest / 256;
        }
        assert(bytes@ == self.le_bytes());
        bytes
    }

    /// Number of bytes that identify the node.
    pub fn size(&self) -> (size: usize)
        ensures
            size == significant(self.le_bytes()),
            1 <= size <= MAX_ZID_SIZE,
    {
        let bytes: Vec<u8> = self.as_le_bytes();
        let mut size: usize = bytes.len();
        assert(bytes@.take(size as int) == bytes@);
        while size > 0 && bytes[size - 1] == 0
            invariant
                size <= bytes@.len(),
                bytes@.len() == MAX_ZID_SIZE,
                significant(bytes@.take(size as int)) == significant(bytes@),
            decreases size,
        {
            assert(bytes@.take(size as int).drop_last() == bytes@.take(size - 1));
            size = size - 1;
        }
        proof {
            assert(size > 0 ==> bytes@.take(size as int).last() == bytes@[size - 1]);
            use_type_invariant(self);
            lemma_le_bound_of_widest();
            lemma_le_value_of_digits(self@ as nat, 16);
            lemma_le_value_of_significant(bytes@);
        }
        size
    }

    /// The identifier as a number.
    pub fn as_u128(&self) -> (id: u128)
        ensures
            id == self@,
            id != 0,
    {
        proof {
            use_type_invariant(self);
        }
        self.id
    }
}

impl<'s> TryFrom<&'s [u8]> for ZenohIdProto {
    type Error = ();

    fn try_from(bytes: &'s [u8]) -> (zid: Result<Self, ()>)
        ensures
            zid is Ok <==> bytes@.len() <= MAX_ZID_SIZE && le_value(bytes@) != 0,
            zid matches Ok(zid) ==> zid@ == le_value(bytes@),
    {
        match ZenohIdProto::from_le_bytes(bytes) {
            Some(zid) => Ok(zid),
            None => Err(()),
        }
    }
}

impl<'s> vstd::std_specs::convert::TryFromSpecImpl<&'s [u8]> for ZenohIdProto {
    open spec fn obeys_try_from_spec() -> bool {
        false
    }

    open spec fn try_from_spec(bytes: &'s [u8]) -> Result<Self, ()> {
        Err(())
    }
}

/// The bytes that identify a node spell its identifier.
pub proof fn lemma_zid_round_trip(zid: ZenohIdProto)
    ensures
        zid.wire_bytes().len() <= MAX_ZID_SIZE,
        le_value(zid.wire_bytes()) == zid@,
{
    lemma_le_bound_of_widest();
    lemma_le_value_of_digits(zid@ as nat, 16);
    lemma_le_value_of_significant(zid.le_bytes());
}

impl Default for ZenohIdProto {
    fn default() -> (zid: Self)
        ensures
            zid@ == 1,
    {
        ZenohIdProto { id: 1 }
    }
}

/// Largest number of bytes in one batch of messages.
#[derive(Clone, Copy, Debug, PartialEq, Eq, Structural)]
pub struct BatchSize(pub u16);

/// Which end of the transport declared the mapping that a wire expression refers to.
#[derive(Clone, Copy, Debug, PartialEq, Eq, Structural)]
pub enum Mapping {
    Receiver,
    Sender,
}

impl Default for Mapping {
    fn default() -> (mapping: Self)
        ensures
            mapping == Mapping::Receiver,
    {
        Mapping::Receiver
    }
}

/// A key expression as it stands in a message: a declared mapping, unless `scope` is zero, and what
/// follows it.
#[derive(Clone, Copy, Debug, PartialEq)]
pub struct WireExpr<'a> {
    pub scope: u16,
    pub mapping: Mapping,
    pub suffix: &'a str,
}

impl<'a> WireExpr<'a> {
    /// The expression refers to no mapping and spells `key` in full.
    pub open spec fn spells(self, key: Seq<char>) -> bool {
        &&& self.scope == 0
        &&& self.mapping == Mapping::Receiver
        &&& self.suffix@ == key
    }

    /// The expression that spells `ke` in full.
    pub fn literal(ke: KeyExpr<'a>) -> (expr: WireExpr<'a>)
        ensures
            expr.spells(ke@),
    {
        WireExpr { scope: 0, mapping: Mapping::default(), suffix: ke.as_str() }
    }
}

impl<'a> Default for WireExpr<'a> {
    fn default() -> (expr: Self)
        ensures
            expr.spells(Seq::empty()),
    {
        proof {
            reveal_strlit("");
            assert(""@ == Seq::<char>::empty());
        }
        WireExpr { scope: 0, mapping: Mapping::default(), suffix: "" }
    }
}

/// Whether a message may be lost.
#[derive(Clone, Copy, Debug, PartialEq, Eq, Structural)]
pub enum Reliability {
    BestEffort,
    Reliable,
}

impl Default for Reliability {
    fn default() -> (reliability: Self)
        ensures
            reliability == Reliability::Reliable,
    {
        Reliability::Reliable
    }
}

/// What the bytes of a value mean.
#[derive(Clone, Copy, Debug, PartialEq)]
pub struct Encoding<'a> {
    pub id: u16,
    pub schema: Option<&'a [u8]>,
}

impl<'a> Default for Encoding<'a> {
    fn default() -> (encoding: Self)
        ensures
            encoding == (Encoding { id: 0, schema: None }),
    {
        Encoding { id: 0, schema: None }
    }
}

/// A time stamp of a hybrid logical clock.
#[derive(Clone, Copy, Debug, PartialEq, Eq, Structural)]
pub struct Timestamp {
    pub time: u64,
    pub id: ZenohIdProto,
}

/// How a querying end wants the replies for one key merged.
#[derive(Clone, Copy, Debug, PartialEq, Eq, Structural)]
pub enum ConsolidationMode {
    Auto,
    Unconsolidated,
    Monotonic,
    Latest,
}

/// The widths in their order, and the largest sequence number of each: seven bits for every byte,
/// and no more than thirty-two.
pub proof fn law_widths_and_their_sequence_numbers(a: Bits, b: Bits)
    ensures
        Bits::U8.rank() < Bits::U16.rank() < Bits::U32.rank() < Bits::U64.rank(),
        Bits::U8.sn_mask() == 127,
        Bits::U16.sn_mask() == 16_383,
        Bits::U32.sn_mask() == 268_435_455,
        Bits::U64.sn_mask() == 4_294_967_295,
        a.rank() <= b.rank() <==> a.sn_mask() <= b.sn_mask(),
        a.narrower(b) == a || a.narrower(b) == b,
        a.narrower(b).rank() <= a.rank() && a.narrower(b).rank() <= b.rank(),
{
}

/// What two resolutions have in common is the widest that neither exceeds, field by field.
pub proof fn law_the_meet_is_the_widest_within_both(a: Resolution, b: Resolution, c: Resolution)
    ensures
        a.meet(b) == b.meet(a),
        c.within(a.meet(b)) <==> c.within(a) && c.within(b),
        c.within(a) <==> c.frame_sn.rank() <= a.frame_sn.rank() && c.request_id.rank()
            <= a.request_id.rank(),
        a.width(Field::FrameSN) == a.frame_sn,
        a.width(Field::RequestID) == a.request_id,
{
}

proof fn lemma_last_significant(bytes: Seq<u8>)
    ensures
        significant(bytes) <= bytes.len(),
        significant(bytes) > 0 ==> bytes[significant(bytes) - 1] != 0,
    decreases bytes.len(),
{
    if bytes.len() > 0 && bytes.last() == 0 {
        lemma_last_significant(bytes.drop_last());
    }
}

/// The bytes of an identifier spell it, the least significant first, and there are no more of them
/// than it takes: the last one is not zero.
pub proof fn law_identifiers_take_as_few_bytes_as_possible(zid: ZenohIdProto)
    requires
        zid@ != 0,
    ensures
        le_value(zid.wire_bytes()) == zid@,
        1 <= zid.wire_bytes().len() <= 16,
        zid.wire_bytes().last() != 0,
        zid.wire_bytes().is_prefix_of(zid.le_bytes()),
        zid.le_bytes().len() == 16,
        le_value(zid.le_bytes()) == zid@,
{
    lemma_zid_round_trip(zid);
    lemma_le_bound_of_widest();
    lemma_le_value_of_digits(zid@ as nat, 16);
    lemma_le_value_of_significant(zid.le_bytes());
    lemma_last_significant(zid.le_bytes());
}

/// Bytes spell a number the least significant first: one byte spells itself, and what follows other
/// bytes counts 256 times as much for each of them.
pub proof fn law_later_bytes_count_more(first: Seq<u8>, rest: Seq<u8>, byte: u8)
    ensures
        le_value(seq![byte]) == byte,
        le_value(first + rest) == le_value(first) + vstd::arithmetic::power::pow(
            256,
            first.len(),
        ) * le_value(rest),
    decreases first.len(),
{
    reveal_with_fuel(le_value, 2);
    assert(seq![byte].drop_first() == Seq::<u8>::empty());
    reveal(vstd::arithmetic::power::pow);
    if first.len() == 0 {
        assert(first + rest == rest);
    } else {
        law_later_bytes_count_more(first.drop_first(), rest, byte);
        assert((first + rest).drop_first() == first.drop_first() + rest);
        let scale = vstd::arithmetic::power::pow(256, (first.len() - 1) as nat);
        let value = le_value(rest) as int;
        assert(256 * (scale * value) == (256 * scale) * value) by (nonlinear_arith);
    }
}

/// An expression spells a key in full exactly when it refers to no mapping and its suffix is the key.
pub proof fn law_a_spelled_key_refers_to_nothing<'a>(expr: WireExpr<'a>, key: Seq<char>)
    ensures
        expr.spells(key) <==> expr.scope == 0 && expr.mapping == Mapping::Receiver && expr.suffix@
            == key,
{
}

/// An identifier is never zero, and its bytes are read back as the same identifier.
pub proof fn law_identifiers_are_read_back()
    ensures
        forall|id: u128, zid: Option<ZenohIdProto>| #[trigger]
            call_ensures(ZenohIdProto::new, (id,), zid) ==> {
                &&& zid is Some <==> id != 0
                &&& zid matches Some(zid) ==> zid@ == id
            },
        forall|bytes: &[u8], read: Option<ZenohIdProto>| #[trigger]
            call_ensures(ZenohIdProto::from_le_bytes, (bytes,), read) && bytes@.len() > 16
                ==> read is None,
        forall|zid: &ZenohIdProto, written: Vec<u8>, bytes: &[u8], read: Option<ZenohIdProto>|
            #[trigger] call_ensures(ZenohIdProto::as_le_bytes, (zid,), written) && #[trigger]
                call_ensures(ZenohIdProto::from_le_bytes, (bytes,), read) && bytes@ == written@
                && zid@ != 0 ==> read is Some && read->0@ == zid@,
{
    assert forall|zid: &ZenohIdProto, written: Vec<u8>, bytes: &[u8], read: Option<ZenohIdProto>|
        #[trigger] call_ensures(ZenohIdProto::as_le_bytes, (zid,), written) && #[trigger]
            call_ensures(ZenohIdProto::from_le_bytes, (bytes,), read) && bytes@ == written@
            && zid@ != 0 implies read is Some && read->0@ == zid@ by {
        law_identifiers_take_as_few_bytes_as_possible(*zid);
    }
}

} // verus!
