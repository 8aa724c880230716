use vstd::prelude::*;

verus! {

/// The SCALE encoding of a byte payload, as produced by
/// `parity_scale_codec::Encode` for `Vec<u8>`. Only named here; what callers
/// may rely on is stated by the two trusted functions below.
pub uninterp spec fn scale_encoded(data: Seq<u8>) -> Seq<u8>;

/// What `parity_scale_codec::Decode` for `Vec<u8>` makes of the given bytes:
/// the decoded payload, or `None` where the bytes do not start with a
/// well-formed encoding.
pub uninterp spec fn scale_decoded(bytes: Seq<u8>) -> Option<Seq<u8>>;

/// Relies on parity-scale-codec's `Encode` for byte vectors. The encoder
/// panics on payloads whose length does not fit the compact 32-bit length
/// prefix, so those stay outside the domain. That decoding an encoding
/// returns the encoded payload is the codec's documented contract and is
/// recorded alongside the encoding itself.
#[verifier::external_body]
pub(crate) fn scale_encode(data: &Vec<u8>) -> (r: Vec<u8>)
    requires
        data@.len() <= u32::MAX,
    ensures
        r@ == scale_encoded(data@),
        scale_decoded(r@) == Some(data@),
{
    parity_scale_codec::Encode::encode(data)
}

/// Relies on parity-scale-codec's `Decode` for byte vectors; the result is a
/// function of the input bytes alone.
#[verifier::external_body]
pub(crate) fn scale_decode(bytes: &Vec<u8>) -> (r: Option<Vec<u8>>)
    ensures
        match r {
            Some(v) => scale_decoded(bytes@) == Some(v@),
            None => scale_decoded(bytes@) is None,
        },
{
    match <Vec<u8> as parity_scale_codec::Decode>::decode(&mut &bytes[..]) {
        Ok(v) => Some(v),
        Err(_) => None,
    }
}

} // verus!
