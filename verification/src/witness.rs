//! The mint-asset witness and its byte-level codec.

use vstd::prelude::*;

use crate::curve::{
    fr_bytes, fr_from_bytes, fr_of_bytes, fr_to_bytes, point_from_repr, point_of_repr, point_repr,
    point_to_repr, point_valid,
};

verus! {

/// Key required to construct proofs for a particular spending key: the
/// authorization public point and the nullifier secret scalar.
pub struct ProofGenerationKey {
    pub ak: jubjub::SubgroupPoint,
    pub nsk: jubjub::Fr,
}

/// The mint-asset witness. Both fields are present during proving and may be
/// absent during circuit-shape inspection.
pub struct MintAsset {
    /// Key required to construct proofs for a particular spending key
    pub proof_generation_key: Option<ProofGenerationKey>,
    /// Used to add randomness to signature generation without leaking the
    /// key. Referred to as `ar` in the literature.
    pub public_key_randomness: Option<jubjub::Fr>,
}

/// Why a witness failed to decode.
#[derive(Clone, Copy, PartialEq, Eq, Structural, Debug)]
pub enum ReadError {
    /// The buffer ended before a required field.
    UnexpectedEnd,
    /// The authorization point bytes are not a canonical prime-order point.
    InvalidPoint,
    /// Scalar bytes are not a canonical encoding.
    InvalidScalar,
}

/// Whether the witness's authorization point, if present, is a genuine
/// prime-order subgroup point. jubjub's unchecked constructors admit other
/// values of the point type; the write/read round trip is promised only on
/// genuine points, which is all the statement proved by the circuit admits.
pub open spec fn witness_valid(w: MintAsset) -> bool {
    match w.proof_generation_key {
        Some(k) => point_valid(k.ak),
        None => true,
    }
}

/// The canonical byte form of a proof-generation key: the compressed
/// authorization point followed by the nullifier scalar.
pub open spec fn pgk_bytes(k: ProofGenerationKey) -> Seq<u8> {
    point_repr(k.ak) + fr_bytes(k.nsk)
}

/// The wire form of a witness: each optional field is prefixed by a presence
/// byte, `1` for present and `0` for absent.
pub open spec fn witness_bytes(w: MintAsset) -> Seq<u8> {
    (match w.proof_generation_key {
        Some(k) => seq![1u8] + pgk_bytes(k),
        None => seq![0u8],
    }) + (match w.public_key_randomness {
        Some(r) => seq![1u8] + fr_bytes(r),
        None => seq![0u8],
    })
}

/// What `read` returns on any byte sequence: the exact parse, including which
/// error is reported on which malformed input. A presence byte other than `1`
/// is treated as absence; trailing bytes are ignored.
pub open spec fn read_spec(b: Seq<u8>) -> Result<MintAsset, ReadError> {
    if b.len() < 1 {
        Err(ReadError::UnexpectedEnd)
    } else if b[0] == 1 {
        if b.len() < 65 {
            Err(ReadError::UnexpectedEnd)
        } else {
            match point_of_repr(b.subrange(1, 33)) {
                None => Err(ReadError::InvalidPoint),
                Some(ak) => match fr_of_bytes(b.subrange(33, 65)) {
                    None => Err(ReadError::InvalidScalar),
                    Some(nsk) => read_ar_spec(b, 65, Some(ProofGenerationKey { ak, nsk })),
                },
            }
        }
    } else {
        read_ar_spec(b, 1, None)
    }
}

/// The parse of the second optional field, starting at `off`.
pub open spec fn read_ar_spec(b: Seq<u8>, off: int, pgk: Option<ProofGenerationKey>) -> Result<
    MintAsset,
    ReadError,
> {
    if b.len() < off + 1 {
        Err(ReadError::UnexpectedEnd)
    } else if b[off] == 1 {
        if b.len() < off + 33 {
            Err(ReadError::UnexpectedEnd)
        } else {
            match fr_of_bytes(b.subrange(off + 1, off + 33)) {
                None => Err(ReadError::InvalidScalar),
                Some(ar) => Ok(
                    MintAsset { proof_generation_key: pgk, public_key_randomness: Some(ar) },
                ),
            }
        }
    } else {
        Ok(MintAsset { proof_generation_key: pgk, public_key_randomness: None })
    }
}

impl MintAsset {
    /// Appends the wire form of this witness: a presence byte and, where
    /// present, the field's canonical bytes, for each of the two fields.
    /// For a valid witness, reading the result back, with anything after it,
    /// yields this witness.
    pub fn write(&self, writer: &mut Vec<u8>)
        ensures
            final(writer)@ == old(writer)@ + witness_bytes(*self),
            forall|rest: Seq<u8>|
                witness_valid(*self) ==> read_spec(witness_bytes(*self) + rest) == Ok::<
                    MintAsset,
                    ReadError,
                >(*self),
    {
        let ghost base = writer@;
        match &self.proof_generation_key {
            Some(k) => {
                writer.push(1u8);
                let akb = point_to_repr(&k.ak);
                crate::keys::push_bytes32(writer, &akb);
                let nskb = fr_to_bytes(&k.nsk);
                crate::keys::push_bytes32(writer, &nskb);
                proof {
                    assert(writer@ =~= base + seq![1u8] + pgk_bytes(self.proof_generation_key->Some_0));
                }
            },
            None => {
                writer.push(0u8);
                proof {
                    assert(writer@ =~= base + seq![0u8]);
                }
            },
        }
        let ghost mid = writer@;
        match &self.public_key_randomness {
            Some(r) => {
                writer.push(1u8);
                let rb = fr_to_bytes(r);
                crate::keys::push_bytes32(writer, &rb);
                proof {
                    assert(writer@ =~= mid + seq![1u8] + fr_bytes(self.public_key_randomness->Some_0));
                }
            },
            None => {
                writer.push(0u8);
                proof {
                    assert(writer@ =~= mid + seq![0u8]);
                }
            },
        }
        proof {
            assert(writer@ =~= base + witness_bytes(*self));
            assert forall|rest: Seq<u8>| witness_valid(*self) implies read_spec(
                witness_bytes(*self) + rest,
            ) == Ok::<MintAsset, ReadError>(*self) by {
                lemma_read_back(*self, rest);
            }
        }
    }

    /// Parses a witness from the front of `bytes`; trailing bytes are
    /// ignored, as a streamed reader would leave them unread. A parsed
    /// authorization point always comes from the checked decode, so it is
    /// a genuine subgroup point.
    pub fn read(bytes: &[u8]) -> (r: Result<MintAsset, ReadError>)
        ensures
            r == read_spec(bytes@),
            r is Ok && r->Ok_0.proof_generation_key is Some ==> point_valid(
                r->Ok_0.proof_generation_key->Some_0.ak,
            ),
    {
        if bytes.len() < 1 {
            return Err(ReadError::UnexpectedEnd);
        }
        let tag0 = *vstd::slice::slice_index_get(bytes, 0);
        let mut pgk: Option<ProofGenerationKey> = None;
        let mut off: usize = 1;
        if tag0 == 1 {
            if bytes.len() < 65 {
                return Err(ReadError::UnexpectedEnd);
            }
            let akb = vstd::slice::slice_subrange(bytes, 1, 33);
            let ak = match point_from_repr(akb) {
                Some(ak) => ak,
                None => {
                    return Err(ReadError::InvalidPoint);
                },
            };
            let nskb = vstd::slice::slice_subrange(bytes, 33, 65);
            let nsk = match fr_from_bytes(nskb) {
                Some(nsk) => nsk,
                None => {
                    return Err(ReadError::InvalidScalar);
                },
            };
            pgk = Some(ProofGenerationKey { ak, nsk });
            off = 65;
        }
        if bytes.len() < off + 1 {
            return Err(ReadError::UnexpectedEnd);
        }
        let tag1 = *vstd::slice::slice_index_get(bytes, off);
        let mut ar: Option<jubjub::Fr> = None;
        if tag1 == 1 {
            if bytes.len() < off + 33 {
                return Err(ReadError::UnexpectedEnd);
            }
            let arb = vstd::slice::slice_subrange(bytes, off + 1, off + 33);
            ar = match fr_from_bytes(arb) {
                Some(a) => Some(a),
                None => {
                    return Err(ReadError::InvalidScalar);
                },
            };
        }
        Ok(MintAsset { proof_generation_key: pgk, public_key_randomness: ar })
    }
}

/// Round trip: the parse of a written witness, with any trailing bytes,
/// yields the witness back. Holds because each field's canonical bytes decode
/// to the field's value.
proof fn lemma_read_back(w: MintAsset, rest: Seq<u8>)
    requires
        w.proof_generation_key is Some ==> point_of_repr(
            point_repr(w.proof_generation_key->Some_0.ak),
        ) == Some(w.proof_generation_key->Some_0.ak) && fr_of_bytes(
            fr_bytes(w.proof_generation_key->Some_0.nsk),
        ) == Some(w.proof_generation_key->Some_0.nsk),
        w.public_key_randomness is Some ==> fr_of_bytes(fr_bytes(w.public_key_randomness->Some_0))
            == Some(w.public_key_randomness->Some_0),
    ensures
        read_spec(witness_bytes(w) + rest) == Ok::<MintAsset, ReadError>(w),
{
    let b = witness_bytes(w) + rest;
    match (w.proof_generation_key, w.public_key_randomness) {
        (Some(k), Some(ar)) => {
            assert(b[0] == 1);
            assert(b.subrange(1, 33) =~= point_repr(k.ak));
            assert(b.subrange(33, 65) =~= fr_bytes(k.nsk));
            assert(b[65] == 1);
            assert(b.subrange(66, 98) =~= fr_bytes(ar));
            assert(ProofGenerationKey { ak: k.ak, nsk: k.nsk } == k);
        },
        (Some(k), None) => {
            assert(b[0] == 1);
            assert(b.subrange(1, 33) =~= point_repr(k.ak));
            assert(b.subrange(33, 65) =~= fr_bytes(k.nsk));
            assert(b[65] == 0);
            assert(ProofGenerationKey { ak: k.ak, nsk: k.nsk } == k);
        },
        (None, Some(ar)) => {
            assert(b[0] == 0);
            assert(b[1] == 1);
            assert(b.subrange(2, 34) =~= fr_bytes(ar));
        },
        (None, None) => {
            assert(b[0] == 0);
            assert(b[1] == 0);
        },
    }
}

} // verus!
