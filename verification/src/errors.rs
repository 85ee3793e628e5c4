use vstd::prelude::*;

verus! {

/// One-for-one image of the engine's `blst::BLST_ERROR` status enum, as a
/// plain value the verifier can reason about. `Success` is the image of
/// `BLST_SUCCESS` and never appears inside `Error::Blst`: the engine's
/// status is carried here only on the failure side of a `Result`.
#[derive(Clone, Copy, Debug, PartialEq, Eq, Structural)]
pub enum BlstErrorCode {
    Success,
    BadEncoding,
    PointNotOnCurve,
    PointNotInGroup,
    AggrTypeMismatch,
    VerifyFail,
    PkIsInfinity,
    BadScalar,
}

/// The library's error taxonomy. `Blst` wraps a status reported by the
/// arithmetic engine while decoding a compressed point: a malformed
/// encoding, an x-coordinate with no point on the curve, or a curve point
/// outside the prime-order subgroup. `HashToCurveDstTooBig` is reserved
/// for domain-separation-tag inputs that exceed the engine's size limit;
/// no operation of this library currently returns it.
#[derive(Clone, Copy, Debug, PartialEq, Eq, Structural)]
pub enum Error {
    Blst(BlstErrorCode),
    HashToCurveDstTooBig,
}

#[verifier::external_type_specification]
#[verifier::external_body]
pub struct ExBlstError(blst::BLST_ERROR);

/// Relies on `blst::BLST_ERROR` being the engine's status enum: each of its
/// variants is mapped to the library's code of the same name, variant for
/// variant, moving nothing else.
#[verifier::external_body]
pub(crate) fn blst_code(e: blst::BLST_ERROR) -> BlstErrorCode {
    match e {
        blst::BLST_ERROR::BLST_SUCCESS => BlstErrorCode::Success,
        blst::BLST_ERROR::BLST_BAD_ENCODING => BlstErrorCode::BadEncoding,
        blst::BLST_ERROR::BLST_POINT_NOT_ON_CURVE => BlstErrorCode::PointNotOnCurve,
        blst::BLST_ERROR::BLST_POINT_NOT_IN_GROUP => BlstErrorCode::PointNotInGroup,
        blst::BLST_ERROR::BLST_AGGR_TYPE_MISMATCH => BlstErrorCode::AggrTypeMismatch,
        blst::BLST_ERROR::BLST_VERIFY_FAIL => BlstErrorCode::VerifyFail,
        blst::BLST_ERROR::BLST_PK_IS_INFINITY => BlstErrorCode::PkIsInfinity,
        blst::BLST_ERROR::BLST_BAD_SCALAR => BlstErrorCode::BadScalar,
    }
}

} // verus!
