use vstd::prelude::*;
use crate::codec::Compressable;
use crate::errors::blst_code;
use crate::errors::BlstErrorCode;
use crate::errors::Error;

verus! {

/// Outcome of the engine's parse of a byte string as a compressed G1
/// point: `Ok` when the bytes are a well-formed 48-byte encoding of a
/// point on the curve (or of the point at infinity), and the engine's
/// status code otherwise.
pub uninterp spec fn g1_parse(b: Seq<u8>) -> Result<(), BlstErrorCode>;

/// Whether the point encoded by `b` lies in the prime-order subgroup G1.
/// Meaningful for `b` with `g1_parse(b) is Ok`.
pub uninterp spec fn g1_in_subgroup(b: Seq<u8>) -> bool;

/// The canonical compressed encoding of the sum of the two G1 points
/// canonically encoded by `a` and `b`.
pub uninterp spec fn g1_sum(a: Seq<u8>, b: Seq<u8>) -> Seq<u8>;

/// The canonical 48-byte compressed encoding of the G1 identity element
/// (the point at infinity): the compression and infinity flag bits set,
/// every other bit zero.
pub open spec fn p1_identity() -> Seq<u8> {
    Seq::new(48, |i: int| if i == 0 { 0xc0u8 } else { 0u8 })
}

/// A byte string is a valid G1 wire encoding when it has the fixed
/// compressed size, parses to a point on the curve, and that point lies in
/// the prime-order subgroup. Exactly these byte strings decompress
/// successfully, and exactly these are canonical encodings of trusted
/// elements.
pub open spec fn p1_wf(b: Seq<u8>) -> bool {
    &&& b.len() == 48
    &&& g1_parse(b) is Ok
    &&& g1_in_subgroup(b)
}

/// What G1 decompression returns on every input: the gates are applied in
/// order (length, curve decode, subgroup membership), each failure mapped
/// to its error, and success returns the input bytes as the element's
/// canonical encoding.
pub open spec fn p1_uncompress_spec(b: Seq<u8>) -> Result<Seq<u8>, Error> {
    if b.len() != 48 {
        Err(Error::Blst(BlstErrorCode::BadEncoding))
    } else {
        match g1_parse(b) {
            Ok(_) => if g1_in_subgroup(b) {
                Ok(b)
            } else {
                Err(Error::Blst(BlstErrorCode::PointNotInGroup))
            },
            Err(c) => Err(Error::Blst(c)),
        }
    }
}

#[verifier::external_type_specification]
#[verifier::external_body]
pub struct ExMinSigSignature(blst::min_sig::Signature);

/// A G1 curve point parsed by the engine but not yet tested for subgroup
/// membership. It never leaves this module: decompression either promotes
/// it to a `BlstP1Element` after the membership test or discards it.
struct P1Decoded {
    point: blst::min_sig::Signature,
    repr: Ghost<Seq<u8>>,
}

/// A point of the prime-order subgroup G1, validated at construction.
/// Its view is its canonical 48-byte compressed encoding; two elements
/// are the same group element exactly when their views are equal.
pub struct BlstP1Element {
    point: blst::min_sig::Signature,
    repr: Ghost<Seq<u8>>,
}

impl View for BlstP1Element {
    type V = Seq<u8>;

    closed spec fn view(&self) -> Seq<u8> {
        self.repr@
    }
}

impl BlstP1Element {
    #[verifier::type_invariant]
    spec fn inv(self) -> bool {
        p1_wf(self.repr@)
    }
}

impl Clone for BlstP1Element {
    fn clone(&self) -> (r: Self)
        ensures
            r@ == self@,
    {
        proof {
            use_type_invariant(self);
        }
        BlstP1Element { point: self.point, repr: self.repr }
    }
}

/// Relies on `blst::min_sig::Signature::uncompress`: it accepts exactly the
/// 48-byte strings that the engine's G1 uncompression parses (rejecting any
/// other length, a missing compression bit, a non-canonical field element,
/// an x-coordinate with no point on the curve, and a malformed infinity
/// encoding), and hands back the engine's status code otherwise. The engine
/// accepts only canonical encodings, so the parsed point's canonical
/// encoding is the input itself.
#[verifier::external_body]
fn p1_engine_uncompress(bytes: &[u8]) -> (r: Result<P1Decoded, BlstErrorCode>)
    ensures
        (match r {
            Ok(d) => d.repr@ == bytes@ && g1_parse(bytes@) is Ok,
            Err(c) => g1_parse(bytes@) == Err::<(), BlstErrorCode>(c),
        }),
{
    match blst::min_sig::Signature::uncompress(bytes) {
        Ok(point) => Ok(P1Decoded { point, repr: Ghost(arbitrary()) }),
        Err(e) => Err(blst_code(e)),
    }
}

/// Relies on `blst::min_sig::Signature::validate` with the infinity check
/// switched off: it returns `Ok` exactly when the engine's membership test
/// (`blst_p1_in_g1`) places the point in the prime-order subgroup; the
/// point at infinity belongs to the subgroup and passes.
#[verifier::external_body]
fn p1_engine_in_group(d: &P1Decoded) -> (r: bool)
    ensures
        r == g1_in_subgroup(d.repr@),
{
    d.point.validate(false).is_ok()
}

/// Relies on `blst::min_sig::Signature::compress`: it writes the canonical
/// 48-byte compressed encoding of the point, the same bytes the point was
/// decoded from.
#[verifier::external_body]
fn p1_engine_compress(e: &BlstP1Element) -> (r: Vec<u8>)
    ensures
        r@ == e@,
{
    e.point.compress().to_vec()
}

/// Relies on `blst::min_sig::AggregateSignature::from_signature`,
/// `add_signature` (without group check) and `to_signature`: together they
/// compute the group sum of the two points through the engine's
/// add-or-double routine and convert it back to affine form. The sum of two
/// subgroup points is itself a subgroup point, adding the identity returns
/// the other operand, and the result's canonical encoding is a function of
/// the operands alone.
#[verifier::external_body]
fn p1_engine_add(a: &BlstP1Element, b: &BlstP1Element) -> (r: BlstP1Element)
    ensures
        r@ == g1_sum(a@, b@),
        a@ == p1_identity() ==> r@ == b@,
        b@ == p1_identity() ==> r@ == a@,
{
    let mut agg = blst::min_sig::AggregateSignature::from_signature(&a.point);
    let _ = agg.add_signature(&b.point, false);
    BlstP1Element { point: agg.to_signature(), repr: Ghost(arbitrary()) }
}

impl Compressable for BlstP1Element {
    open spec fn encoding(&self) -> Seq<u8> {
        self@
    }

    open spec fn spec_size() -> int {
        48
    }

    open spec fn spec_uncompress(b: Seq<u8>) -> Result<Seq<u8>, Error> {
        p1_uncompress_spec(b)
    }

    fn compress(&self) -> (r: Vec<u8>) {
        proof {
            use_type_invariant(self);
        }
        p1_engine_compress(self)
    }

    fn uncompress(bytes: &[u8]) -> (r: Result<Self, Error>) {
        if bytes.len() != 48 {
            return Err(Error::Blst(BlstErrorCode::BadEncoding));
        }
        match p1_engine_uncompress(bytes) {
            Ok(decoded) => {
                if p1_engine_in_group(&decoded) {
                    Ok(BlstP1Element { point: decoded.point, repr: decoded.repr })
                } else {
                    Err(Error::Blst(BlstErrorCode::PointNotInGroup))
                }
            },
            Err(code) => Err(Error::Blst(code)),
        }
    }
}

/// Decodes and validates an untrusted byte string as a G1 element, in
/// order: length gate, curve decode by the engine, subgroup membership
/// gate. Succeeds if and only if all three pass.
pub fn blst_p1_uncompress(bytes: &[u8]) -> (r: Result<BlstP1Element, Error>)
    ensures
        (match r {
            Ok(e) => e@ == bytes@ && p1_uncompress_spec(bytes@) == Ok::<Seq<u8>, Error>(bytes@),
            Err(err) => p1_uncompress_spec(bytes@) == Err::<Seq<u8>, Error>(err),
        }),
{
    BlstP1Element::uncompress(bytes)
}

/// The group operation on G1: point addition, with doubling as the case of
/// equal operands. Both inputs are validated by construction and the sum is
/// itself a validated element; adding the identity returns the other
/// operand unchanged.
pub fn blst_p1_add_or_double(arg1: BlstP1Element, arg2: BlstP1Element) -> (r: BlstP1Element)
    ensures
        r@ == g1_sum(arg1@, arg2@),
        p1_wf(r@),
        arg1@ == p1_identity() ==> r@ == arg2@,
        arg2@ == p1_identity() ==> r@ == arg1@,
{
    let r = p1_engine_add(&arg1, &arg2);
    proof {
        use_type_invariant(&r);
    }
    r
}

/// Round trip: every valid G1 wire encoding — in particular the canonical
/// encoding that `compress` returns for any element — decompresses
/// successfully, back to an element with that very encoding.
pub proof fn lemma_p1_round_trip(b: Seq<u8>)
    ensures
        p1_wf(b) ==> p1_uncompress_spec(b) == Ok::<Seq<u8>, Error>(b),
{
}

/// Canonicality: whenever decompression succeeds on a byte string, the
/// decoded element's canonical encoding is that byte string itself, so
/// compressing the result reproduces the input byte for byte and no two
/// distinct byte strings decode to the same element.
pub proof fn lemma_p1_canonical(b: Seq<u8>)
    ensures
        p1_uncompress_spec(b) is Ok ==> p1_uncompress_spec(b) == Ok::<Seq<u8>, Error>(b) && p1_wf(
            b,
        ),
{
}

/// Length gate: an input whose length is not the fixed compressed size of
/// G1 always fails with the bad-encoding error, whatever its content.
pub proof fn lemma_p1_length_gate(b: Seq<u8>)
    ensures
        b.len() != 48 ==> p1_uncompress_spec(b) == Err::<Seq<u8>, Error>(
            Error::Blst(BlstErrorCode::BadEncoding),
        ),
{
}

/// Subgroup gate: an input that parses to a point on the curve but outside
/// the prime-order subgroup always fails with the not-in-group error; it
/// never yields an element.
pub proof fn lemma_p1_subgroup_gate(b: Seq<u8>)
    ensures
        b.len() == 48 && g1_parse(b) is Ok && !g1_in_subgroup(b) ==> p1_uncompress_spec(b)
            == Err::<Seq<u8>, Error>(Error::Blst(BlstErrorCode::PointNotInGroup)),
{
}

} // verus!
