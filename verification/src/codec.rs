use vstd::prelude::*;
use crate::errors::Error;

verus! {

/// Bidirectional, canonical mapping between a validated group element and
/// its fixed-size compressed encoding.
///
/// `encoding` is the canonical compressed byte string of the element,
/// `spec_size` its fixed length, and `spec_uncompress` says exactly what
/// decompression returns on every byte string: the canonical encoding of
/// the decoded element on success, and which error otherwise. Decompression
/// is the validating gate of the library: it accepts a byte string if and
/// only if the bytes parse to a curve point that lies in the prime-order
/// subgroup, so no element that escapes it can carry an unchecked point.
pub trait Compressable: Sized {
    spec fn encoding(&self) -> Seq<u8>;

    spec fn spec_size() -> int;

    spec fn spec_uncompress(b: Seq<u8>) -> Result<Seq<u8>, Error>;

    /// Serializes an element to its canonical compressed form. Elements are
    /// validated at construction, so compression cannot fail.
    fn compress(&self) -> (r: Vec<u8>)
        ensures
            r@ == self.encoding(),
            r@.len() == Self::spec_size(),
    ;

    /// Decodes and validates an untrusted byte string. Succeeds if and only
    /// if the bytes have the group's fixed compressed size, parse to a point
    /// on the curve, and that point lies in the prime-order subgroup; the
    /// returned element's canonical encoding is the input itself.
    fn uncompress(bytes: &[u8]) -> (r: Result<Self, Error>)
        ensures
            (match r {
                Ok(e) => e.encoding() == bytes@ && Self::spec_uncompress(bytes@)
                    == Ok::<Seq<u8>, Error>(bytes@),
                Err(err) => Self::spec_uncompress(bytes@) == Err::<Seq<u8>, Error>(err),
            }),
    ;
}

} // verus!
