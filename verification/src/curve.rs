//! Trusted boundary to the Jubjub curve arithmetic and its byte encodings.
//!
//! Every fact the rest of the library knows about scalars and subgroup points
//! enters through the contracts in this module.

use vstd::prelude::*;

verus! {

#[verifier::external_type_specification]
#[verifier::external_body]
pub struct ExFr(jubjub::Fr);

#[verifier::external_type_specification]
#[verifier::external_body]
pub struct ExSubgroupPoint(jubjub::SubgroupPoint);

/// Byte `i` of the canonical 32-byte little-endian encoding of a scalar.
pub uninterp spec fn fr_byte_at(s: jubjub::Fr, i: int) -> u8;

/// The canonical 32-byte little-endian encoding of a scalar.
pub open spec fn fr_bytes(s: jubjub::Fr) -> Seq<u8> {
    Seq::new(32, |i: int| fr_byte_at(s, i))
}

/// What jubjub's `Fr::from_bytes` returns on 32 bytes: `Some` exactly on
/// canonical encodings.
pub uninterp spec fn fr_of_bytes(b: Seq<u8>) -> Option<jubjub::Fr>;

/// Byte `i` of the standard 32-byte compressed encoding of a point.
pub uninterp spec fn point_repr_at(p: jubjub::SubgroupPoint, i: int) -> u8;

/// The standard 32-byte compressed encoding of a prime-order point.
pub open spec fn point_repr(p: jubjub::SubgroupPoint) -> Seq<u8> {
    Seq::new(32, |i: int| point_repr_at(p, i))
}

/// What jubjub's `from_bytes` for `SubgroupPoint` returns on 32 bytes.
pub uninterp spec fn point_of_repr(b: Seq<u8>) -> Option<jubjub::SubgroupPoint>;

/// Byte `i` of the canonical encoding of the affine `u` coordinate.
pub uninterp spec fn point_u_byte_at(p: jubjub::SubgroupPoint, i: int) -> u8;

/// Byte `i` of the canonical encoding of the affine `v` coordinate.
pub uninterp spec fn point_v_byte_at(p: jubjub::SubgroupPoint, i: int) -> u8;

/// The canonical encoding of the affine `u` coordinate of a point.
pub open spec fn point_u_bytes(p: jubjub::SubgroupPoint) -> Seq<u8> {
    Seq::new(32, |i: int| point_u_byte_at(p, i))
}

/// The canonical encoding of the affine `v` coordinate of a point.
pub open spec fn point_v_bytes(p: jubjub::SubgroupPoint) -> Seq<u8> {
    Seq::new(32, |i: int| point_v_byte_at(p, i))
}

/// The point rebuilt from canonical encodings of its affine coordinates.
pub uninterp spec fn point_of_coords(u: Seq<u8>, v: Seq<u8>) -> Option<jubjub::SubgroupPoint>;

/// The fixed public-key base multiplied by a scalar.
pub uninterp spec fn pk_of(s: jubjub::Fr) -> jubjub::SubgroupPoint;

/// Whether a value is a genuine point of the prime-order subgroup: on the
/// curve and torsion free. jubjub's unchecked constructors can produce
/// values of the point type for which this does not hold, and only the
/// checked decode and the group operations below establish it.
pub uninterp spec fn point_valid(p: jubjub::SubgroupPoint) -> bool;

/// Relies on jubjub's `Fr::to_bytes`: the canonical 32-byte little-endian
/// encoding, which `Fr::from_bytes` inverts.
#[verifier::external_body]
pub(crate) fn fr_to_bytes(s: &jubjub::Fr) -> (r: [u8; 32])
    ensures
        r@ == fr_bytes(*s),
        forall|i: int| 0 <= i < 32 ==> r@[i] == fr_byte_at(*s, i),
        fr_of_bytes(r@) == Some(*s),
{
    s.to_bytes()
}

/// Relies on jubjub's `Fr::from_bytes`: succeeds exactly on canonical
/// little-endian encodings and is inverse to `Fr::to_bytes`.
#[verifier::external_body]
pub(crate) fn fr_from_bytes(b: &[u8]) -> (r: Option<jubjub::Fr>)
    requires
        b@.len() == 32,
    ensures
        r == fr_of_bytes(b@),
        r is Some ==> fr_bytes(r->Some_0) == b@,
        forall|s: jubjub::Fr| b@ == fr_bytes(s) ==> r == Some(s),
{
    let arr: &[u8; 32] = b.try_into().unwrap();
    jubjub::Fr::from_bytes(arr).into()
}

/// Relies on jubjub's `GroupEncoding::to_bytes` for `SubgroupPoint`: the
/// standard 32-byte compressed encoding, which `from_bytes` inverts on
/// genuine prime-order points.
#[verifier::external_body]
pub(crate) fn point_to_repr(p: &jubjub::SubgroupPoint) -> (r: [u8; 32])
    ensures
        r@ == point_repr(*p),
        forall|i: int| 0 <= i < 32 ==> r@[i] == point_repr_at(*p, i),
        point_valid(*p) ==> point_of_repr(r@) == Some(*p),
{
    group::GroupEncoding::to_bytes(p)
}

/// Relies on jubjub's `GroupEncoding::from_bytes` for `SubgroupPoint`:
/// succeeds exactly on canonical encodings of on-curve, torsion-free points
/// and is inverse to `to_bytes` on such points.
#[verifier::external_body]
pub(crate) fn point_from_repr(b: &[u8]) -> (r: Option<jubjub::SubgroupPoint>)
    requires
        b@.len() == 32,
    ensures
        r == point_of_repr(b@),
        r is Some ==> point_repr(r->Some_0) == b@,
        r is Some ==> point_valid(r->Some_0),
        forall|q: jubjub::SubgroupPoint|
            point_valid(q) && b@ == point_repr(q) ==> r == Some(q),
{
    let arr: &[u8; 32] = b.try_into().unwrap();
    Option::<jubjub::SubgroupPoint>::from(
        <jubjub::SubgroupPoint as group::GroupEncoding>::from_bytes(arr),
    )
}

/// Relies on jubjub's affine conversion and on the canonical little-endian
/// encoding of the base-field coordinates; 32 bytes each.
#[verifier::external_body]
pub(crate) fn point_to_coords(p: &jubjub::SubgroupPoint) -> (r: ([u8; 32], [u8; 32]))
    ensures
        r.0@ == point_u_bytes(*p),
        r.1@ == point_v_bytes(*p),
        forall|i: int| 0 <= i < 32 ==> r.0@[i] == point_u_byte_at(*p, i),
        forall|i: int| 0 <= i < 32 ==> r.1@[i] == point_v_byte_at(*p, i),
        point_of_coords(r.0@, r.1@) == Some(*p),
{
    let a = jubjub::AffinePoint::from(jubjub::ExtendedPoint::from(*p));
    (a.get_u().to_bytes(), a.get_v().to_bytes())
}

/// Relies on the base field's `from_bytes` (canonical decoding) and on
/// `SubgroupPoint::from_raw_unchecked`: rebuilding a point from its own
/// affine coordinates yields that point. No curve or subgroup check is made.
#[verifier::external_body]
pub(crate) fn point_from_coords(u: &[u8], v: &[u8]) -> (r: Option<jubjub::SubgroupPoint>)
    requires
        u@.len() == 32,
        v@.len() == 32,
    ensures
        r == point_of_coords(u@, v@),
        forall|q: jubjub::SubgroupPoint|
            u@ == point_u_bytes(q) && v@ == point_v_bytes(q) ==> r == Some(q),
{
    let ua: &[u8; 32] = u.try_into().unwrap();
    let va: &[u8; 32] = v.try_into().unwrap();
    let fu = bls12_381::Scalar::from_bytes(ua);
    let fv = bls12_381::Scalar::from_bytes(va);
    if bool::from(fu.is_some()) && bool::from(fv.is_some()) {
        Some(jubjub::SubgroupPoint::from_raw_unchecked(fu.unwrap(), fv.unwrap()))
    } else {
        None
    }
}

/// Relies on jubjub's scalar multiplication with the library's fixed
/// public-key base (a fixed prime-order generator from the gadget library's
/// constants): the public point is a function of the secret scalar alone.
#[verifier::external_body]
pub(crate) fn mul_public_base(s: &jubjub::Fr) -> (r: jubjub::SubgroupPoint)
    ensures
        r == pk_of(*s),
        point_valid(r),
{
    sapling_crypto::constants::NULLIFIER_POSITION_GENERATOR * s
}

/// Relies on rand's `thread_rng` and jubjub's `Fr::from_bytes_wide` to sample
/// a scalar from a cryptographically secure source. Nothing is assumed of the
/// value returned.
#[verifier::external_body]
pub(crate) fn random_fr() -> (r: jubjub::Fr) {
    let mut wide = [0u8; 64];
    rand::RngCore::fill_bytes(&mut rand::thread_rng(), &mut wide);
    jubjub::Fr::from_bytes_wide(&wide)
}

} // verus!
