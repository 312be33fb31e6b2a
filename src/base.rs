//! Attestation processing before Altair: each included attestation is kept
//! as a pending record for the epoch boundary.
use vstd::prelude::*;
use crate::common::{agrees, fail, Outcome};
use crate::process_operations::{attestation_fault, verify_attestation_for_block_inclusion};
use crate::types::{
    Attestation, BeaconState, BlockProcessingError, ChainSpec, ConsensusContext, ForkName,
    PendingAttestation, PendingAttestationView, StateView, VerifySignatures,
};

verus! {

/// The pending record kept for an attestation included on `s`.
pub open spec fn pending_attestation(s: StateView, att: Attestation, proposer: u64) -> PendingAttestationView {
    PendingAttestationView {
        data: att.data,
        attesting_indices: att.attesting_indices@,
        inclusion_delay: (s.slot - att.data.slot) as u64,
        proposer_index: proposer,
    }
}

/// Includes attestation `att`, found at position `k` of its list: it goes
/// to the current-epoch records when it targets the current epoch, else to
/// the previous-epoch records.
pub open spec fn spec_include_attestation(
    s: StateView,
    att: Attestation,
    k: int,
    verify: VerifySignatures,
    proposer: u64,
    spec: ChainSpec,
) -> Outcome {
    match attestation_fault(s, att, verify, spec) {
        Some(reason) => fail(BlockProcessingError::AttestationInvalid { index: k as usize, reason }, s),
        None => if s.fork != ForkName::Base {
            fail(BlockProcessingError::IncorrectStateVariant, s)
        } else if att.data.target_epoch == s.current_epoch(spec) {
            Ok(
                StateView {
                    current_epoch_attestations: s.current_epoch_attestations.push(
                        pending_attestation(s, att, proposer),
                    ),
                    ..s
                },
            )
        } else {
            Ok(
                StateView {
                    previous_epoch_attestations: s.previous_epoch_attestations.push(
                        pending_attestation(s, att, proposer),
                    ),
                    ..s
                },
            )
        },
    }
}

/// Attestations `atts[k..]` included on `s`, in order.
pub open spec fn run_attestations(
    s: StateView,
    atts: Seq<Attestation>,
    k: int,
    verify: VerifySignatures,
    proposer: u64,
    spec: ChainSpec,
) -> Outcome
    decreases atts.len() - k,
{
    if k < 0 || k >= atts.len() {
        Ok(s)
    } else {
        match spec_include_attestation(s, atts[k], k, verify, proposer, spec) {
            Err(e) => Err(e),
            Ok(s1) => run_attestations(s1, atts, k + 1, verify, proposer, spec),
        }
    }
}

/// Validates each attestation and records it for the epoch boundary; no
/// reward is paid here.
pub fn process_attestations(
    state: &mut BeaconState,
    attestations: &[Attestation],
    verify_signatures: VerifySignatures,
    ctxt: &mut ConsensusContext,
    spec: &ChainSpec,
) -> (r: Result<(), BlockProcessingError>)
    requires
        spec.wf(),
    ensures
        *final(ctxt) == *old(ctxt),
        agrees(
            r,
            final(state)@,
            run_attestations(
                old(state)@,
                attestations@,
                0,
                verify_signatures,
                old(ctxt).proposer_index,
                *spec,
            ),
        ),
{
    let proposer = ctxt.proposer_index;
    let mut i: usize = 0;
    while i < attestations.len()
        invariant
            spec.wf(),
            i <= attestations@.len(),
            proposer == old(ctxt).proposer_index,
            *ctxt == *old(ctxt),
            run_attestations(old(state)@, attestations@, 0, verify_signatures, proposer, *spec)
                == run_attestations(state@, attestations@, i as int, verify_signatures, proposer, *spec),
        decreases attestations.len() - i,
    {
        let att = &attestations[i];
        if let Some(reason) = verify_attestation_for_block_inclusion(state, att, verify_signatures, spec) {
            return Err(BlockProcessingError::AttestationInvalid { index: i, reason });
        }
        match state.fork {
            ForkName::Base => {},
            ForkName::Altair => {
                return Err(BlockProcessingError::IncorrectStateVariant);
            },
        }
        let mut participants: Vec<u64> = Vec::new();
        let mut j: usize = 0;
        while j < att.attesting_indices.len()
            invariant
                j <= att.attesting_indices@.len(),
                participants@ == att.attesting_indices@.take(j as int),
            decreases att.attesting_indices.len() - j,
        {
            participants.push(att.attesting_indices[j]);
            j += 1;
        }
        assert(att.attesting_indices@.take(j as int) =~= att.attesting_indices@);
        let pending = PendingAttestation {
            data: att.data,
            attesting_indices: participants,
            inclusion_delay: state.slot - att.data.slot,
            proposer_index: proposer,
        };
        let ghost s1 = state@;
        if att.data.target_epoch == state.slot / spec.slots_per_epoch {
            state.current_epoch_attestations.push(pending);
            assert(state@ =~= StateView {
                current_epoch_attestations: s1.current_epoch_attestations.push(pending@),
                ..s1
            });
        } else {
            state.previous_epoch_attestations.push(pending);
            assert(state@ =~= StateView {
                previous_epoch_attestations: s1.previous_epoch_attestations.push(pending@),
                ..s1
            });
        }
        i += 1;
    }
    Ok(())
}

} // verus!
