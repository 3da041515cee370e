use vstd::prelude::*;

verus! {

/// What SHAKE128 gives when it has absorbed `input` and is squeezed for `length` bytes.
pub uninterp spec fn shake128(input: Seq<u8>, length: nat) -> Seq<u8>;

/// Squeezes `length` bytes out of SHAKE128 after it has absorbed `input`, by
/// `sha3::Shake128::digest_xof`.
///
/// That the output is a function of the input and of its length, and that it fills the whole
/// buffer, is believed; nothing else is said of the bytes.
#[verifier::external_body]
pub(crate) fn squeeze(input: &[u8], length: u8) -> (output: Vec<u8>)
    ensures
        output@ == shake128(input@, length as nat),
        output@.len() == length,
{
    let mut output = vec![0u8; length as usize];
    <sha3::Shake128 as sha3::digest::ExtendableOutput>::digest_xof(input, &mut output);
    output
}

} // verus!
