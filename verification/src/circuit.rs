//! The normative synthesis schedule of the mint-asset circuit.
//!
//! The constraint layout of the circuit is fixed by the exact order of gadget
//! invocations: any reordering changes the proving and verifying keys. The
//! schedule below is that order, as data with an exact contract; an
//! interpreter drives a constraint-system gadget library over it, performing
//! one invocation per step.

use vstd::prelude::*;

use crate::witness::MintAsset;

verus! {

/// Bits in the little-endian decomposition of a Jubjub scalar.
pub const SCALAR_BITS: usize = 252;

/// The largest `n` such that every `n`-bit integer is below the Jubjub
/// scalar modulus; hash output is truncated to this many bits.
pub const SCALAR_CAPACITY: usize = 251;

/// Bits in the representation of a point fed to the hash: its `v`
/// coordinate plus one sign bit.
pub const POINT_REPR_BITS: usize = 256;

/// Bits of the ivk hash preimage: the representations of `ak` and `nk`.
pub const IVK_PREIMAGE_BITS: usize = 512;

/// The fixed generators the circuit multiplies by.
pub enum FixedBase {
    /// Base of the rerandomization term added to `ak`.
    SpendingKey,
    /// Base of the nullifier key `nk`.
    ProofGenerationKey,
    /// Base of the owner's public address and of ephemeral keys.
    PublicKey,
}

/// One gadget invocation of the circuit. Steps that produce a point leave it
/// as the current point for the step that follows.
pub enum SynthesisStep {
    /// Allocate `ak` as an Edwards point with its on-curve constraints;
    /// `None` leaves the assignment symbolic for parameter generation.
    WitnessAk { ak: Option<jubjub::SubgroupPoint> },
    /// Constrain `ak` not to be a small-order point.
    AssertAkNotSmallOrder,
    /// Decompose a scalar into little-endian boolean variables.
    DecomposeScalarLe { value: Option<jubjub::Fr>, bits: usize },
    /// Multiply the last decomposition by a fixed base.
    MulFixed { base: FixedBase },
    /// Add the current point to `ak`, giving `rk`.
    AddLastToAk,
    /// Expose the current point's affine coordinates as two public inputs,
    /// `u` first and then `v`.
    ExposeLastPoint,
    /// Append the 256-bit representation of `ak` to the hash preimage.
    ReprAk,
    /// Append the 256-bit representation of the current point (`nk`).
    ReprLastPoint,
    /// Hash the 512-bit preimage with the domain-separated in-circuit hash,
    /// giving 256 output bits.
    HashToIvk { preimage_bits: usize },
    /// Keep the low bits of the hash output as the scalar `ivk`; the
    /// truncation is the field embedding.
    TruncateIvk { keep_bits: usize },
}

/// The full schedule for a witness: fourteen steps in normative order, with
/// the public inputs exposed as `rk.u, rk.v, pk_d.u, pk_d.v`.
pub open spec fn synthesis_schedule(w: MintAsset) -> Seq<SynthesisStep> {
    seq![
        SynthesisStep::WitnessAk {
            ak: match w.proof_generation_key {
                Some(k) => Some(k.ak),
                None => None,
            },
        },
        SynthesisStep::AssertAkNotSmallOrder,
        SynthesisStep::DecomposeScalarLe { value: w.public_key_randomness, bits: SCALAR_BITS },
        SynthesisStep::MulFixed { base: FixedBase::SpendingKey },
        SynthesisStep::AddLastToAk,
        SynthesisStep::ExposeLastPoint,
        SynthesisStep::DecomposeScalarLe {
            value: match w.proof_generation_key {
                Some(k) => Some(k.nsk),
                None => None,
            },
            bits: SCALAR_BITS,
        },
        SynthesisStep::MulFixed { base: FixedBase::ProofGenerationKey },
        SynthesisStep::ReprAk,
        SynthesisStep::ReprLastPoint,
        SynthesisStep::HashToIvk { preimage_bits: IVK_PREIMAGE_BITS },
        SynthesisStep::TruncateIvk { keep_bits: SCALAR_CAPACITY },
        SynthesisStep::MulFixed { base: FixedBase::PublicKey },
        SynthesisStep::ExposeLastPoint,
    ]
}

impl MintAsset {
    /// Emits the synthesis schedule for this witness: exactly the normative
    /// sequence of gadget invocations, in order.
    pub fn synthesis_steps(&self) -> (r: Vec<SynthesisStep>)
        ensures
            r@ == synthesis_schedule(*self),
    {
        let mut steps: Vec<SynthesisStep> = Vec::new();
        steps.push(
            SynthesisStep::WitnessAk {
                ak: match &self.proof_generation_key {
                    Some(k) => Some(k.ak),
                    None => None,
                },
            },
        );
        steps.push(SynthesisStep::AssertAkNotSmallOrder);
        steps.push(
            SynthesisStep::DecomposeScalarLe {
                value: match &self.public_key_randomness {
                    Some(r) => Some(*r),
                    None => None,
                },
                bits: SCALAR_BITS,
            },
        );
        steps.push(SynthesisStep::MulFixed { base: FixedBase::SpendingKey });
        steps.push(SynthesisStep::AddLastToAk);
        steps.push(SynthesisStep::ExposeLastPoint);
        steps.push(
            SynthesisStep::DecomposeScalarLe {
                value: match &self.proof_generation_key {
                    Some(k) => Some(k.nsk),
                    None => None,
                },
                bits: SCALAR_BITS,
            },
        );
        steps.push(SynthesisStep::MulFixed { base: FixedBase::ProofGenerationKey });
        steps.push(SynthesisStep::ReprAk);
        steps.push(SynthesisStep::ReprLastPoint);
        steps.push(SynthesisStep::HashToIvk { preimage_bits: IVK_PREIMAGE_BITS });
        steps.push(SynthesisStep::TruncateIvk { keep_bits: SCALAR_CAPACITY });
        steps.push(SynthesisStep::MulFixed { base: FixedBase::PublicKey });
        steps.push(SynthesisStep::ExposeLastPoint);
        proof {
            assert(steps@ =~= synthesis_schedule(*self));
        }
        steps
    }
}

/// The truncated ivk always fits the scalar field: fewer bits are kept than
/// the field's capacity admits, and the preimage is exactly two point
/// representations.
pub proof fn lemma_schedule_shape(w: MintAsset)
    ensures
        synthesis_schedule(w).len() == 14,
        synthesis_schedule(w)[11] == (SynthesisStep::TruncateIvk { keep_bits: SCALAR_CAPACITY }),
        SCALAR_CAPACITY < SCALAR_BITS,
        IVK_PREIMAGE_BITS == 2 * POINT_REPR_BITS,
{
}

} // verus!
