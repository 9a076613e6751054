//! The ephemeral Diffie-Hellman key pair used by note encryption.

use vstd::prelude::*;

use crate::curve::{
    fr_bytes, fr_from_bytes, fr_of_bytes, fr_to_bytes, mul_public_base, pk_of, point_from_coords,
    point_of_coords, point_to_coords, point_u_bytes, point_v_bytes, point_valid, random_fr,
};

verus! {

/// Diffie-Hellman key exchange pair as used in note encryption: a secret
/// scalar together with its public point under the fixed public-key base.
pub struct EphemeralKeyPair {
    secret: jubjub::Fr,
    public: jubjub::SubgroupPoint,
}

/// The canonical encoding of the base-field element one.
pub open spec fn fq_one_bytes() -> Seq<u8> {
    Seq::new(32, |i: int| if i == 0 { 1u8 } else { 0u8 })
}

/// The 160-byte extended encoding of a point: the affine coordinates
/// `u` and `v`, the projective factor `z = 1`, and the redundant products
/// `t1 = u`, `t2 = v`.
pub open spec fn extended_point_bytes(p: jubjub::SubgroupPoint) -> Seq<u8> {
    point_u_bytes(p) + point_v_bytes(p) + fq_one_bytes() + point_u_bytes(p) + point_v_bytes(p)
}

impl EphemeralKeyPair {
    pub closed spec fn secret_s(self) -> jubjub::Fr {
        self.secret
    }

    pub closed spec fn public_s(self) -> jubjub::SubgroupPoint {
        self.public
    }

    /// Key-pair consistency: the public point is the fixed public-key base
    /// multiplied by the secret scalar.
    pub open spec fn wf(self) -> bool {
        self.public_s() == pk_of(self.secret_s())
    }

    /// The 192-byte wire form: the secret scalar followed by the extended
    /// encoding of the public point.
    pub open spec fn bytes_le(self) -> Seq<u8> {
        fr_bytes(self.secret_s()) + extended_point_bytes(self.public_s())
    }

    /// Samples a fresh secret scalar and derives its public point.
    pub fn new() -> (r: Self)
        ensures
            r.wf(),
            point_valid(r.public_s()),
    {
        let secret = random_fr();
        let public = mul_public_base(&secret);
        EphemeralKeyPair { secret, public }
    }

    pub fn secret(&self) -> (r: &jubjub::Fr)
        ensures
            *r == self.secret_s(),
    {
        &self.secret
    }

    pub fn public(&self) -> (r: &jubjub::SubgroupPoint)
        ensures
            *r == self.public_s(),
    {
        &self.public
    }

    pub fn to_bytes_le(&self) -> (r: Vec<u8>)
        ensures
            r@ == self.bytes_le(),
            r@.len() == 192,
            fr_of_bytes(r@.subrange(0, 32)) == Some(self.secret_s()),
            point_of_coords(r@.subrange(32, 64), r@.subrange(64, 96)) == Some(self.public_s()),
    {
        let mut res: Vec<u8> = Vec::new();
        let sb = fr_to_bytes(&self.secret);
        push_bytes32(&mut res, &sb);
        let (ub, vb) = point_to_coords(&self.public);
        push_bytes32(&mut res, &ub);
        push_bytes32(&mut res, &vb);
        res.push(1u8);
        let mut i: usize = 1;
        while i < 32
            invariant
                1 <= i <= 32,
                res@ == sb@ + ub@ + vb@ + seq![1u8] + Seq::new((i - 1) as nat, |j: int| 0u8),
            decreases 32 - i,
        {
            res.push(0u8);
            i += 1;
        }
        push_bytes32(&mut res, &ub);
        push_bytes32(&mut res, &vb);
        proof {
            assert(seq![1u8] + Seq::new(31nat, |j: int| 0u8) =~= fq_one_bytes());
            assert(res@ =~= self.bytes_le());
            assert(res@.subrange(0, 32) =~= fr_bytes(self.secret_s()));
            assert(res@.subrange(32, 64) =~= point_u_bytes(self.public_s()));
            assert(res@.subrange(64, 96) =~= point_v_bytes(self.public_s()));
        }
        res
    }

    /// Storage round trip: on bytes produced by `to_bytes_le` this rebuilds
    /// the same key pair; the public point is not re-derived from the secret,
    /// is decoded without a curve or subgroup check, and the redundant bytes
    /// at 96..192 (`z`, `t1`, `t2`) are ignored.
    pub fn from_bytes_le(bytes: Vec<u8>) -> (r: Self)
        requires
            bytes@.len() >= 192,
            fr_of_bytes(bytes@.subrange(0, 32)) is Some,
            point_of_coords(bytes@.subrange(32, 64), bytes@.subrange(64, 96)) is Some,
        ensures
            r.secret_s() == fr_of_bytes(bytes@.subrange(0, 32))->Some_0,
            r.public_s() == point_of_coords(bytes@.subrange(32, 64), bytes@.subrange(64, 96))->Some_0,
            forall|kp: EphemeralKeyPair|
                bytes@.len() == 192 && bytes@ == kp.bytes_le() ==> r == kp,
    {
        let sbytes = vstd::slice::slice_subrange(bytes.as_slice(), 0, 32);
        let ubytes = vstd::slice::slice_subrange(bytes.as_slice(), 32, 64);
        let vbytes = vstd::slice::slice_subrange(bytes.as_slice(), 64, 96);
        let secret = match fr_from_bytes(sbytes) {
            Some(secret) => secret,
            None => {
                proof {
                    assert(false);
                }
                vstd::pervasive::unreached()
            },
        };
        let public = match point_from_coords(ubytes, vbytes) {
            Some(public) => public,
            None => {
                proof {
                    assert(false);
                }
                vstd::pervasive::unreached()
            },
        };
        proof {
            assert forall|kp: EphemeralKeyPair| bytes@ == kp.bytes_le() implies sbytes@
                == fr_bytes(kp.secret_s()) && ubytes@ == point_u_bytes(kp.public_s()) && vbytes@
                == point_v_bytes(kp.public_s()) by {
                assert(sbytes@ =~= fr_bytes(kp.secret_s()));
                assert(ubytes@ =~= point_u_bytes(kp.public_s()));
                assert(vbytes@ =~= point_v_bytes(kp.public_s()));
            }
        }
        EphemeralKeyPair { secret, public }
    }

    /// Checked form of `from_bytes_le`: `None` on a short buffer or a
    /// non-canonical secret or coordinate encoding. Like `from_bytes_le` it
    /// ignores the redundant bytes at 96..192 and does not check that the
    /// decoded coordinates lie on the curve.
    pub fn try_from_bytes_le(bytes: Vec<u8>) -> (r: Option<Self>)
        ensures
            r is Some <==> (bytes@.len() >= 192 && fr_of_bytes(bytes@.subrange(0, 32)) is Some
                && point_of_coords(bytes@.subrange(32, 64), bytes@.subrange(64, 96)) is Some),
            r is Some ==> {
                let kp = r->Some_0;
                &&& kp.secret_s() == fr_of_bytes(bytes@.subrange(0, 32))->Some_0
                &&& kp.public_s() == point_of_coords(
                    bytes@.subrange(32, 64),
                    bytes@.subrange(64, 96),
                )->Some_0
            },
            forall|kp: EphemeralKeyPair|
                bytes@.len() == 192 && bytes@ == kp.bytes_le() ==> r == Some(kp),
    {
        if bytes.len() < 192 {
            return None;
        }
        let sbytes = vstd::slice::slice_subrange(bytes.as_slice(), 0, 32);
        let ubytes = vstd::slice::slice_subrange(bytes.as_slice(), 32, 64);
        let vbytes = vstd::slice::slice_subrange(bytes.as_slice(), 64, 96);
        let secret_ok = fr_from_bytes(sbytes).is_some();
        let public_ok = point_from_coords(ubytes, vbytes).is_some();
        proof {
            assert forall|kp: EphemeralKeyPair| bytes@ == kp.bytes_le() implies sbytes@
                == fr_bytes(kp.secret_s()) && ubytes@ == point_u_bytes(kp.public_s()) && vbytes@
                == point_v_bytes(kp.public_s()) by {
                assert(sbytes@ =~= fr_bytes(kp.secret_s()));
                assert(ubytes@ =~= point_u_bytes(kp.public_s()));
                assert(vbytes@ =~= point_v_bytes(kp.public_s()));
            }
        }
        if secret_ok && public_ok {
            Some(Self::from_bytes_le(bytes))
        } else {
            None
        }
    }
}

/// Appends a 32-byte block to a byte vector.
pub(crate) fn push_bytes32(out: &mut Vec<u8>, b: &[u8; 32])
    ensures
        final(out)@ == old(out)@ + b@,
{
    let ghost base = out@;
    let mut i: usize = 0;
    while i < 32
        invariant
            0 <= i <= 32,
            out@ == base + b@.subrange(0, i as int),
        decreases 32 - i,
    {
        out.push(b[i]);
        proof {
            assert(base + b@.subrange(0, (i + 1) as int) =~= (base + b@.subrange(0, i as int)).push(
                b@[i as int],
            ));
        }
        i += 1;
    }
    proof {
        assert(b@.subrange(0, 32) =~= b@);
    }
}

} // verus!
