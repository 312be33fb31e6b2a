//! The operation processors and the orchestrator that runs them in the
//! protocol's order. Each processor's outcome is a spec function of the
//! state's view and the operation list: a left-to-right run that stops at
//! the first failing operation.
use vstd::prelude::*;
use crate::altair_deneb;
use crate::base;
use crate::common::{
    agrees, fail, Outcome, increase_balance, initiate_validator_exit, is_active_at, is_slashable_at,
    slash_validator, spec_increase_balance, spec_initiate_validator_exit, spec_slash_validator,
    with_validators,
};
use crate::types::{
    Attestation, AttestationData, AttestationInvalid, AttesterSlashing, AttesterSlashingInvalid,
    BeaconBlockBody, BeaconState, BlockProcessingError, BlsExecutionChangeInvalid, ChainSpec,
    ConsensusContext, Deposit, ExitInvalid, ForkName, ProposerSlashing, ProposerSlashingInvalid,
    SignedBlsToExecutionChange, SignedVoluntaryExit, StateView, Validator, VerifySignatures,
    BLS_WITHDRAWAL_PREFIX, ETH1_ADDRESS_WITHDRAWAL_PREFIX,
};

verus! {

// ---------------------------------------------------------------------------
// Orchestration

/// Outcome of `process_operations`: proposer slashings, attester
/// slashings, attestations, deposits, voluntary exits and, where the block
/// carries them, withdrawal-address changes, stopping at the first failure.
pub open spec fn spec_process_operations(
    s: StateView,
    body: BeaconBlockBody,
    verify: VerifySignatures,
    ctxt: ConsensusContext,
    spec: ChainSpec,
) -> Outcome {
    match run_proposer_slashings(s, body.proposer_slashings@, 0, verify, ctxt.proposer_index, spec) {
        Err(e) => Err(e),
        Ok(s1) => match run_attester_slashings(
            s1,
            body.attester_slashings@,
            0,
            verify,
            ctxt.proposer_index,
            spec,
        ) {
            Err(e) => Err(e),
            Ok(s2) => match spec_process_attestations(s2, body, verify, ctxt, spec) {
                Err(e) => Err(e),
                Ok(s3) => match spec_process_deposits(s3, body.deposits@, spec) {
                    Err(e) => Err(e),
                    Ok(s4) => match run_exits(s4, body.voluntary_exits@, 0, verify, spec) {
                        Err(e) => Err(e),
                        Ok(s5) => match body.bls_to_execution_changes {
                            Some(changes) => run_bls_changes(s5, changes@, 0, verify),
                            None => Ok(s5),
                        },
                    },
                },
            },
        },
    }
}

/// Outcome of `process_attestations`: the variant is chosen by the block's
/// fork tag alone.
pub open spec fn spec_process_attestations(
    s: StateView,
    body: BeaconBlockBody,
    verify: VerifySignatures,
    ctxt: ConsensusContext,
    spec: ChainSpec,
) -> Outcome {
    match body.fork {
        ForkName::Base => base::run_attestations(
            s,
            body.attestations@,
            0,
            verify,
            ctxt.proposer_index,
            spec,
        ),
        ForkName::Altair => altair_deneb::spec_process_attestations(
            s,
            body.attestations@,
            verify,
            ctxt,
            spec,
        ),
    }
}

/// Applies the operations of one block in the protocol's order, stopping
/// at the first invalid operation.
pub fn process_operations(
    state: &mut BeaconState,
    block_body: &BeaconBlockBody,
    verify_signatures: VerifySignatures,
    ctxt: &mut ConsensusContext,
    spec: &ChainSpec,
) -> (r: Result<(), BlockProcessingError>)
    requires
        spec.wf(),
    ensures
        *final(ctxt) == *old(ctxt),
        agrees(
            r,
            final(state)@,
            spec_process_operations(old(state)@, *block_body, verify_signatures, *old(ctxt), *spec),
        ),
{
    if let Err(e) = process_proposer_slashings(
        state,
        block_body.proposer_slashings.as_slice(),
        verify_signatures,
        ctxt,
        spec,
    ) {
        return Err(e);
    }
    if let Err(e) = process_attester_slashings(
        state,
        block_body.attester_slashings.as_slice(),
        verify_signatures,
        ctxt,
        spec,
    ) {
        return Err(e);
    }
    if let Err(e) = process_attestations(state, block_body, verify_signatures, ctxt, spec) {
        return Err(e);
    }
    if let Err(e) = process_deposits(state, block_body.deposits.as_slice(), spec) {
        return Err(e);
    }
    if let Err(e) = process_exits(state, block_body.voluntary_exits.as_slice(), verify_signatures, spec) {
        return Err(e);
    }
    match &block_body.bls_to_execution_changes {
        Some(changes) => process_bls_to_execution_changes(
            state,
            changes.as_slice(),
            verify_signatures,
            spec,
        ),
        None => Ok(()),
    }
}

/// Runs the attestation variant that the block's fork tag selects: legacy
/// pending records before Altair; from Altair on, participation flags and a
/// proposer reward paid once for the block.
pub fn process_attestations(
    state: &mut BeaconState,
    block_body: &BeaconBlockBody,
    verify_signatures: VerifySignatures,
    ctxt: &mut ConsensusContext,
    spec: &ChainSpec,
) -> (r: Result<(), BlockProcessingError>)
    requires
        spec.wf(),
    ensures
        *final(ctxt) == *old(ctxt),
        agrees(
            r,
            final(state)@,
            spec_process_attestations(old(state)@, *block_body, verify_signatures, *old(ctxt), *spec),
        ),
{
    match block_body.fork {
        ForkName::Base => base::process_attestations(
            state,
            block_body.attestations.as_slice(),
            verify_signatures,
            ctxt,
            spec,
        ),
        ForkName::Altair => altair_deneb::process_attestations(
            state,
            block_body.attestations.as_slice(),
            verify_signatures,
            ctxt,
            spec,
        ),
    }
}

// ---------------------------------------------------------------------------
// Proposer slashings

/// Why a proposer slashing is invalid against `s`, if it is.
pub open spec fn proposer_slashing_fault(
    s: StateView,
    op: ProposerSlashing,
    verify: VerifySignatures,
    spec: ChainSpec,
) -> Option<ProposerSlashingInvalid> {
    let h1 = op.signed_header_1.message;
    let h2 = op.signed_header_2.message;
    if h1.slot != h2.slot {
        Some(ProposerSlashingInvalid::ProposalSlotMismatch)
    } else if h1.proposer_index != h2.proposer_index {
        Some(ProposerSlashingInvalid::ProposerIndexMismatch)
    } else if h1 == h2 {
        Some(ProposerSlashingInvalid::ProposalsIdentical)
    } else if h1.proposer_index >= s.validators.len() {
        Some(ProposerSlashingInvalid::ProposerUnknown)
    } else if !is_slashable_at(s.validators[h1.proposer_index as int], s.current_epoch(spec)) {
        Some(ProposerSlashingInvalid::ProposerNotSlashable)
    } else if verify.is_true() && !op.signed_header_1.signature_valid {
        Some(ProposerSlashingInvalid::BadProposal1Signature)
    } else if verify.is_true() && !op.signed_header_2.signature_valid {
        Some(ProposerSlashingInvalid::BadProposal2Signature)
    } else {
        None
    }
}

/// Proposer slashings `ops[k..]` applied to `s`, in order.
pub open spec fn run_proposer_slashings(
    s: StateView,
    ops: Seq<ProposerSlashing>,
    k: int,
    verify: VerifySignatures,
    proposer: u64,
    spec: ChainSpec,
) -> Outcome
    decreases ops.len() - k,
{
    if k < 0 || k >= ops.len() {
        Ok(s)
    } else {
        match proposer_slashing_fault(s, ops[k], verify, spec) {
            Some(reason) => fail(BlockProcessingError::ProposerSlashingInvalid { index: k as usize, reason }, s),
            None => match spec_slash_validator(
                s,
                ops[k].signed_header_1.message.proposer_index,
                proposer,
                spec,
            ) {
                Err(e) => Err(e),
                Ok(s1) => run_proposer_slashings(s1, ops, k + 1, verify, proposer, spec),
            },
        }
    }
}

fn verify_proposer_slashing(
    op: &ProposerSlashing,
    state: &BeaconState,
    verify: VerifySignatures,
    spec: &ChainSpec,
) -> (r: Option<ProposerSlashingInvalid>)
    requires
        spec.wf(),
    ensures
        r == proposer_slashing_fault(state@, *op, verify, *spec),
{
    let h1 = op.signed_header_1.message;
    let h2 = op.signed_header_2.message;
    if h1.slot != h2.slot {
        return Some(ProposerSlashingInvalid::ProposalSlotMismatch);
    }
    if h1.proposer_index != h2.proposer_index {
        return Some(ProposerSlashingInvalid::ProposerIndexMismatch);
    }
    if h1 == h2 {
        return Some(ProposerSlashingInvalid::ProposalsIdentical);
    }
    if h1.proposer_index >= state.validators.len() as u64 {
        return Some(ProposerSlashingInvalid::ProposerUnknown);
    }
    let v = state.validators[h1.proposer_index as usize];
    let epoch = state.slot / spec.slots_per_epoch;
    if !(!v.slashed && v.activation_epoch <= epoch && epoch < v.withdrawable_epoch) {
        return Some(ProposerSlashingInvalid::ProposerNotSlashable);
    }
    if verify.is_true() && !op.signed_header_1.signature_valid {
        return Some(ProposerSlashingInvalid::BadProposal1Signature);
    }
    if verify.is_true() && !op.signed_header_2.signature_valid {
        return Some(ProposerSlashingInvalid::BadProposal2Signature);
    }
    None
}

/// Validates each proposer slashing against the current state and slashes
/// the proposer it names, one record after the other, so that a second
/// slashing of the same validator in one block is rejected.
pub fn process_proposer_slashings(
    state: &mut BeaconState,
    proposer_slashings: &[ProposerSlashing],
    verify_signatures: VerifySignatures,
    ctxt: &mut ConsensusContext,
    spec: &ChainSpec,
) -> (r: Result<(), BlockProcessingError>)
    requires
        spec.wf(),
    ensures
        *final(ctxt) == *old(ctxt),
        agrees(
            r,
            final(state)@,
            run_proposer_slashings(
                old(state)@,
                proposer_slashings@,
                0,
                verify_signatures,
                old(ctxt).proposer_index,
                *spec,
            ),
        ),
{
    let proposer = ctxt.proposer_index;
    let mut i: usize = 0;
    while i < proposer_slashings.len()
        invariant
            spec.wf(),
            i <= proposer_slashings@.len(),
            proposer == old(ctxt).proposer_index,
            *ctxt == *old(ctxt),
            run_proposer_slashings(old(state)@, proposer_slashings@, 0, verify_signatures, proposer, *spec)
                == run_proposer_slashings(state@, proposer_slashings@, i as int, verify_signatures, proposer, *spec),
        decreases proposer_slashings.len() - i,
    {
        let op = proposer_slashings[i];
        if let Some(reason) = verify_proposer_slashing(&op, state, verify_signatures, spec) {
            return Err(BlockProcessingError::ProposerSlashingInvalid { index: i, reason });
        }
        if let Err(e) = slash_validator(state, op.signed_header_1.message.proposer_index, proposer, spec) {
            return Err(e);
        }
        i += 1;
    }
    Ok(())
}

// ---------------------------------------------------------------------------
// Attestation inclusion

/// Why an attestation may not be included in a block on `s`, if it may
/// not. Both variants apply the same rules.
pub open spec fn attestation_fault(
    s: StateView,
    att: Attestation,
    verify: VerifySignatures,
    spec: ChainSpec,
) -> Option<AttestationInvalid> {
    let d = att.data;
    if d.slot + spec.min_attestation_inclusion_delay > s.slot {
        Some(AttestationInvalid::IncludedTooEarly)
    } else if s.slot > d.slot + spec.slots_per_epoch {
        Some(AttestationInvalid::IncludedTooLate)
    } else if !att.committee_valid {
        Some(AttestationInvalid::BadCommittee)
    } else if d.target_epoch != s.current_epoch(spec) && d.target_epoch != s.previous_epoch(spec) {
        Some(AttestationInvalid::BadTargetEpoch)
    } else if d.target_epoch != d.slot / spec.slots_per_epoch {
        Some(AttestationInvalid::TargetEpochSlotMismatch)
    } else if !att.matching_source {
        Some(AttestationInvalid::WrongJustifiedCheckpoint)
    } else if verify.is_true() && !att.signature_valid {
        Some(AttestationInvalid::BadSignature)
    } else {
        None
    }
}

/// Checks an attestation for inclusion in a block on `state`.
pub fn verify_attestation_for_block_inclusion(
    state: &BeaconState,
    att: &Attestation,
    verify: VerifySignatures,
    spec: &ChainSpec,
) -> (r: Option<AttestationInvalid>)
    requires
        spec.wf(),
    ensures
        r == attestation_fault(state@, *att, verify, *spec),
{
    let d = att.data;
    if state.slot < spec.min_attestation_inclusion_delay || d.slot > state.slot
        - spec.min_attestation_inclusion_delay {
        return Some(AttestationInvalid::IncludedTooEarly);
    }
    if state.slot - d.slot > spec.slots_per_epoch {
        return Some(AttestationInvalid::IncludedTooLate);
    }
    if !att.committee_valid {
        return Some(AttestationInvalid::BadCommittee);
    }
    let current = state.slot / spec.slots_per_epoch;
    let previous = if current == 0 {
        0
    } else {
        current - 1
    };
    if d.target_epoch != current && d.target_epoch != previous {
        return Some(AttestationInvalid::BadTargetEpoch);
    }
    if d.target_epoch != d.slot / spec.slots_per_epoch {
        return Some(AttestationInvalid::TargetEpochSlotMismatch);
    }
    if !att.matching_source {
        return Some(AttestationInvalid::WrongJustifiedCheckpoint);
    }
    if verify.is_true() && !att.signature_valid {
        return Some(AttestationInvalid::BadSignature);
    }
    None
}

// ---------------------------------------------------------------------------
// Attester slashings

/// Two votes conflict: a double vote (different data, same target) or a
/// surround vote.
pub open spec fn is_slashable_attestation_data(d1: AttestationData, d2: AttestationData) -> bool {
    (d1 != d2 && d1.target_epoch == d2.target_epoch) || (d1.source_epoch < d2.source_epoch
        && d2.target_epoch < d1.target_epoch)
}

/// A valid participant list is non-empty and strictly increasing.
pub open spec fn is_valid_indices(a: Seq<u64>) -> bool {
    a.len() > 0 && forall|i: int, j: int| 0 <= i < j < a.len() ==> a[i] < a[j]
}

/// Why an attester slashing's attestations are invalid, if they are.
pub open spec fn attester_slashing_fault(op: AttesterSlashing, verify: VerifySignatures) -> Option<
    AttesterSlashingInvalid,
> {
    let a1 = op.attestation_1;
    let a2 = op.attestation_2;
    if !is_slashable_attestation_data(a1.data, a2.data) {
        Some(AttesterSlashingInvalid::NotSlashable)
    } else if !is_valid_indices(a1.attesting_indices@) {
        Some(AttesterSlashingInvalid::IndicesNotSorted1)
    } else if verify.is_true() && !a1.signature_valid {
        Some(AttesterSlashingInvalid::BadSignature1)
    } else if !is_valid_indices(a2.attesting_indices@) {
        Some(AttesterSlashingInvalid::IndicesNotSorted2)
    } else if verify.is_true() && !a2.signature_valid {
        Some(AttesterSlashingInvalid::BadSignature2)
    } else {
        None
    }
}

/// The validators among `a1[..n]` that also attested in `a2` and are
/// slashable at `epoch`, in the order of `a1`; an index in both lists that
/// names no validator is an error.
pub open spec fn slashable_indices(
    vals: Seq<Validator>,
    a1: Seq<u64>,
    a2: Seq<u64>,
    n: int,
    epoch: u64,
) -> Result<Seq<u64>, AttesterSlashingInvalid>
    decreases n,
{
    if n <= 0 || n > a1.len() {
        Ok(Seq::empty())
    } else {
        match slashable_indices(vals, a1, a2, n - 1, epoch) {
            Err(e) => Err(e),
            Ok(acc) => {
                let x = a1[n - 1];
                if !a2.contains(x) {
                    Ok(acc)
                } else if x >= vals.len() {
                    Err(AttesterSlashingInvalid::UnknownValidator)
                } else if is_slashable_at(vals[x as int], epoch) {
                    Ok(acc.push(x))
                } else {
                    Ok(acc)
                }
            },
        }
    }
}

proof fn lemma_slashable_indices_err(
    vals: Seq<Validator>,
    a1: Seq<u64>,
    a2: Seq<u64>,
    n: int,
    m: int,
    epoch: u64,
)
    requires
        0 <= n <= m <= a1.len(),
        slashable_indices(vals, a1, a2, n, epoch) is Err,
    ensures
        slashable_indices(vals, a1, a2, m, epoch) == slashable_indices(vals, a1, a2, n, epoch),
    decreases m - n,
{
    if m > n {
        lemma_slashable_indices_err(vals, a1, a2, n, m - 1, epoch);
    }
}

/// Slashes the validators `idx[k..]` in order.
pub open spec fn run_slash_all(
    s: StateView,
    idx: Seq<u64>,
    k: int,
    proposer: u64,
    spec: ChainSpec,
) -> Outcome
    decreases idx.len() - k,
{
    if k < 0 || k >= idx.len() {
        Ok(s)
    } else {
        match spec_slash_validator(s, idx[k], proposer, spec) {
            Err(e) => Err(e),
            Ok(s1) => run_slash_all(s1, idx, k + 1, proposer, spec),
        }
    }
}

/// Applies attester slashing `op`, found at position `k` of its list.
pub open spec fn spec_attester_slashing(
    s: StateView,
    op: AttesterSlashing,
    k: int,
    verify: VerifySignatures,
    proposer: u64,
    spec: ChainSpec,
) -> Outcome {
    let a1 = op.attestation_1.attesting_indices@;
    let a2 = op.attestation_2.attesting_indices@;
    match attester_slashing_fault(op, verify) {
        Some(reason) => fail(BlockProcessingError::AttesterSlashingInvalid { index: k as usize, reason }, s),
        None => match slashable_indices(s.validators, a1, a2, a1.len() as int, s.current_epoch(spec)) {
            Err(reason) => fail(BlockProcessingError::AttesterSlashingInvalid { index: k as usize, reason }, s),
            Ok(idx) => if idx.len() == 0 {
                fail(BlockProcessingError::AttesterSlashingInvalid {
                        index: k as usize,
                        reason: AttesterSlashingInvalid::NoSlashableIndices,
                    }, s)
            } else {
                run_slash_all(s, idx, 0, proposer, spec)
            },
        },
    }
}

/// Attester slashings `ops[k..]` applied to `s`, in order.
pub open spec fn run_attester_slashings(
    s: StateView,
    ops: Seq<AttesterSlashing>,
    k: int,
    verify: VerifySignatures,
    proposer: u64,
    spec: ChainSpec,
) -> Outcome
    decreases ops.len() - k,
{
    if k < 0 || k >= ops.len() {
        Ok(s)
    } else {
        match spec_attester_slashing(s, ops[k], k, verify, proposer, spec) {
            Err(e) => Err(e),
            Ok(s1) => run_attester_slashings(s1, ops, k + 1, verify, proposer, spec),
        }
    }
}

fn indices_valid(a: &Vec<u64>) -> (r: bool)
    ensures
        r == is_valid_indices(a@),
{
    if a.len() == 0 {
        return false;
    }
    let mut j: usize = 1;
    while j < a.len()
        invariant
            1 <= j <= a@.len(),
            forall|p: int, q: int| 0 <= p < q < j ==> a@[p] < a@[q],
        decreases a.len() - j,
    {
        if a[j - 1] >= a[j] {
            return false;
        }
        j += 1;
    }
    true
}

fn contains_index(a: &Vec<u64>, x: u64) -> (r: bool)
    ensures
        r == a@.contains(x),
{
    let mut j: usize = 0;
    while j < a.len()
        invariant
            j <= a@.len(),
            forall|p: int| 0 <= p < j ==> a@[p] != x,
        decreases a.len() - j,
    {
        if a[j] == x {
            return true;
        }
        j += 1;
    }
    false
}

fn get_slashable_indices(state: &BeaconState, op: &AttesterSlashing, spec: &ChainSpec) -> (r: Result<
    Vec<u64>,
    AttesterSlashingInvalid,
>)
    requires
        spec.wf(),
    ensures
        ({
            let a1 = op.attestation_1.attesting_indices@;
            let s = slashable_indices(
                state@.validators,
                a1,
                op.attestation_2.attesting_indices@,
                a1.len() as int,
                state@.current_epoch(*spec),
            );
            match r {
                Ok(v) => s == Ok::<Seq<u64>, AttesterSlashingInvalid>(v@),
                Err(e) => s == Err::<Seq<u64>, AttesterSlashingInvalid>(e),
            }
        }),
{
    let a1 = &op.attestation_1.attesting_indices;
    let a2 = &op.attestation_2.attesting_indices;
    let epoch = state.slot / spec.slots_per_epoch;
    let mut out: Vec<u64> = Vec::new();
    let mut j: usize = 0;
    while j < a1.len()
        invariant
            j <= a1@.len(),
            spec.wf(),
            a1@ == op.attestation_1.attesting_indices@,
            a2@ == op.attestation_2.attesting_indices@,
            epoch == state@.current_epoch(*spec),
            slashable_indices(state@.validators, a1@, a2@, j as int, epoch) == Ok::<
                Seq<u64>,
                AttesterSlashingInvalid,
            >(out@),
        decreases a1.len() - j,
    {
        let x = a1[j];
        if contains_index(a2, x) {
            if x >= state.validators.len() as u64 {
                assert(slashable_indices(state@.validators, a1@, a2@, j + 1, epoch) == Err::<Seq<u64>, AttesterSlashingInvalid>(AttesterSlashingInvalid::UnknownValidator));
                proof {
                    lemma_slashable_indices_err(state@.validators, a1@, a2@, j + 1, a1@.len() as int, epoch);
                }
                return Err(AttesterSlashingInvalid::UnknownValidator);
            }
            let v = state.validators[x as usize];
            if !v.slashed && v.activation_epoch <= epoch && epoch < v.withdrawable_epoch {
                out.push(x);
            }
        }
        j += 1;
    }
    Ok(out)
}

/// Validates each attester slashing, collects the validators that attested
/// to both conflicting votes and are still slashable, and slashes each of
/// them; a record with no such validator is invalid.
pub fn process_attester_slashings(
    state: &mut BeaconState,
    attester_slashings: &[AttesterSlashing],
    verify_signatures: VerifySignatures,
    ctxt: &mut ConsensusContext,
    spec: &ChainSpec,
) -> (r: Result<(), BlockProcessingError>)
    requires
        spec.wf(),
    ensures
        *final(ctxt) == *old(ctxt),
        agrees(
            r,
            final(state)@,
            run_attester_slashings(
                old(state)@,
                attester_slashings@,
                0,
                verify_signatures,
                old(ctxt).proposer_index,
                *spec,
            ),
        ),
{
    let proposer = ctxt.proposer_index;
    let mut i: usize = 0;
    while i < attester_slashings.len()
        invariant
            spec.wf(),
            i <= attester_slashings@.len(),
            proposer == old(ctxt).proposer_index,
            *ctxt == *old(ctxt),
            run_attester_slashings(old(state)@, attester_slashings@, 0, verify_signatures, proposer, *spec)
                == run_attester_slashings(state@, attester_slashings@, i as int, verify_signatures, proposer, *spec),
        decreases attester_slashings.len() - i,
    {
        let op = &attester_slashings[i];
        let a1 = &op.attestation_1;
        let a2 = &op.attestation_2;
        let reason = if !slashable_data(&a1.data, &a2.data) {
            Some(AttesterSlashingInvalid::NotSlashable)
        } else if !indices_valid(&a1.attesting_indices) {
            Some(AttesterSlashingInvalid::IndicesNotSorted1)
        } else if verify_signatures.is_true() && !a1.signature_valid {
            Some(AttesterSlashingInvalid::BadSignature1)
        } else if !indices_valid(&a2.attesting_indices) {
            Some(AttesterSlashingInvalid::IndicesNotSorted2)
        } else if verify_signatures.is_true() && !a2.signature_valid {
            Some(AttesterSlashingInvalid::BadSignature2)
        } else {
            None
        };
        if let Some(reason) = reason {
            return Err(BlockProcessingError::AttesterSlashingInvalid { index: i, reason });
        }
        let idx = match get_slashable_indices(state, op, spec) {
            Ok(idx) => idx,
            Err(reason) => {
                return Err(BlockProcessingError::AttesterSlashingInvalid { index: i, reason });
            },
        };
        if idx.len() == 0 {
            return Err(BlockProcessingError::AttesterSlashingInvalid {
                index: i,
                reason: AttesterSlashingInvalid::NoSlashableIndices,
            });
        }
        let ghost s1 = state@;
        let mut j: usize = 0;
        while j < idx.len()
            invariant
                spec.wf(),
                j <= idx@.len(),
                run_slash_all(s1, idx@, 0, proposer, *spec) == run_slash_all(state@, idx@, j as int, proposer, *spec),
                i < attester_slashings@.len(),
                proposer == old(ctxt).proposer_index,
                *ctxt == *old(ctxt),
                run_attester_slashings(old(state)@, attester_slashings@, 0, verify_signatures, proposer, *spec)
                    == match run_slash_all(s1, idx@, 0, proposer, *spec) {
                    Err(e) => Err(e),
                    Ok(s2) => run_attester_slashings(s2, attester_slashings@, i + 1, verify_signatures, proposer, *spec),
                },
            decreases idx.len() - j,
        {
            if let Err(e) = slash_validator(state, idx[j], proposer, spec) {
                return Err(e);
            }
            j += 1;
        }
        i += 1;
    }
    Ok(())
}

fn slashable_data(d1: &AttestationData, d2: &AttestationData) -> (r: bool)
    ensures
        r == is_slashable_attestation_data(*d1, *d2),
{
    (*d1 != *d2 && d1.target_epoch == d2.target_epoch) || (d1.source_epoch < d2.source_epoch
        && d2.target_epoch < d1.target_epoch)
}

// ---------------------------------------------------------------------------
// Voluntary exits

/// Why a voluntary exit is invalid against `s`, if it is.
pub open spec fn exit_fault(
    s: StateView,
    op: SignedVoluntaryExit,
    verify: VerifySignatures,
    spec: ChainSpec,
) -> Option<ExitInvalid> {
    let index = op.message.validator_index;
    let epoch = s.current_epoch(spec);
    if index >= s.validators.len() {
        Some(ExitInvalid::ValidatorUnknown)
    } else if !is_active_at(s.validators[index as int], epoch) {
        Some(ExitInvalid::NotActive)
    } else if s.validators[index as int].exit_epoch != spec.far_future_epoch {
        Some(ExitInvalid::AlreadyExited)
    } else if epoch < op.message.epoch {
        Some(ExitInvalid::FutureEpoch)
    } else if epoch < s.validators[index as int].activation_epoch + spec.shard_committee_period {
        Some(ExitInvalid::TooYoungToExit)
    } else if verify.is_true() && !op.signature_valid {
        Some(ExitInvalid::BadSignature)
    } else {
        None
    }
}

/// Voluntary exits `ops[k..]` applied to `s`, in order.
pub open spec fn run_exits(
    s: StateView,
    ops: Seq<SignedVoluntaryExit>,
    k: int,
    verify: VerifySignatures,
    spec: ChainSpec,
) -> Outcome
    decreases ops.len() - k,
{
    if k < 0 || k >= ops.len() {
        Ok(s)
    } else {
        match exit_fault(s, ops[k], verify, spec) {
            Some(reason) => fail(BlockProcessingError::ExitInvalid { index: k as usize, reason }, s),
            None => match spec_initiate_validator_exit(s, ops[k].message.validator_index, spec) {
                Err(e) => Err(e),
                Ok(s1) => run_exits(s1, ops, k + 1, verify, spec),
            },
        }
    }
}

fn verify_exit(
    state: &BeaconState,
    op: &SignedVoluntaryExit,
    verify: VerifySignatures,
    spec: &ChainSpec,
) -> (r: Option<ExitInvalid>)
    requires
        spec.wf(),
    ensures
        r == exit_fault(state@, *op, verify, *spec),
{
    let index = op.message.validator_index;
    let epoch = state.slot / spec.slots_per_epoch;
    if index >= state.validators.len() as u64 {
        return Some(ExitInvalid::ValidatorUnknown);
    }
    let v = state.validators[index as usize];
    if !(v.activation_epoch <= epoch && epoch < v.exit_epoch) {
        return Some(ExitInvalid::NotActive);
    }
    if v.exit_epoch != spec.far_future_epoch {
        return Some(ExitInvalid::AlreadyExited);
    }
    if epoch < op.message.epoch {
        return Some(ExitInvalid::FutureEpoch);
    }
    if epoch < v.activation_epoch || epoch - v.activation_epoch < spec.shard_committee_period {
        return Some(ExitInvalid::TooYoungToExit);
    }
    if verify.is_true() && !op.signature_valid {
        return Some(ExitInvalid::BadSignature);
    }
    None
}

/// Validates each voluntary exit against the current state and initiates
/// it at once, so that later exits see the churn of earlier ones.
pub fn process_exits(
    state: &mut BeaconState,
    voluntary_exits: &[SignedVoluntaryExit],
    verify_signatures: VerifySignatures,
    spec: &ChainSpec,
) -> (r: Result<(), BlockProcessingError>)
    requires
        spec.wf(),
    ensures
        agrees(r, final(state)@, run_exits(old(state)@, voluntary_exits@, 0, verify_signatures, *spec)),
{
    let mut i: usize = 0;
    while i < voluntary_exits.len()
        invariant
            spec.wf(),
            i <= voluntary_exits@.len(),
            run_exits(old(state)@, voluntary_exits@, 0, verify_signatures, *spec)
                == run_exits(state@, voluntary_exits@, i as int, verify_signatures, *spec),
        decreases voluntary_exits.len() - i,
    {
        let op = voluntary_exits[i];
        if let Some(reason) = verify_exit(state, &op, verify_signatures, spec) {
            return Err(BlockProcessingError::ExitInvalid { index: i, reason });
        }
        if let Err(e) = initiate_validator_exit(state, op.message.validator_index, spec) {
            return Err(e);
        }
        i += 1;
    }
    Ok(())
}

// ---------------------------------------------------------------------------
// Withdrawal-address changes

/// Why a withdrawal-address change is invalid against `s`, if it is.
pub open spec fn bls_change_fault(
    s: StateView,
    op: SignedBlsToExecutionChange,
    verify: VerifySignatures,
) -> Option<BlsExecutionChangeInvalid> {
    let index = op.message.validator_index;
    if index >= s.validators.len() {
        Some(BlsExecutionChangeInvalid::ValidatorUnknown)
    } else if s.validators[index as int].withdrawal_prefix != BLS_WITHDRAWAL_PREFIX {
        Some(BlsExecutionChangeInvalid::NonBlsWithdrawalCredentials)
    } else if s.validators[index as int].withdrawal_body != op.message.from_bls_pubkey_hash {
        Some(BlsExecutionChangeInvalid::WithdrawalCredentialsMismatch)
    } else if verify.is_true() && !op.signature_valid {
        Some(BlsExecutionChangeInvalid::BadSignature)
    } else {
        None
    }
}

/// Validator `index` of `s` with its credentials pointing at `address`.
pub open spec fn with_execution_address(s: StateView, index: u64, address: u64) -> StateView {
    let v = s.validators[index as int];
    with_validators(
        s,
        s.validators.update(
            index as int,
            Validator {
                withdrawal_prefix: ETH1_ADDRESS_WITHDRAWAL_PREFIX,
                withdrawal_body: address,
                ..v
            },
        ),
    )
}

/// Withdrawal-address changes `ops[k..]` applied to `s`, in order.
pub open spec fn run_bls_changes(
    s: StateView,
    ops: Seq<SignedBlsToExecutionChange>,
    k: int,
    verify: VerifySignatures,
) -> Outcome
    decreases ops.len() - k,
{
    if k < 0 || k >= ops.len() {
        Ok(s)
    } else {
        match bls_change_fault(s, ops[k], verify) {
            Some(reason) => fail(BlockProcessingError::BlsExecutionChangeInvalid { index: k as usize, reason }, s),
            None => run_bls_changes(
                with_execution_address(
                    s,
                    ops[k].message.validator_index,
                    ops[k].message.to_execution_address,
                ),
                ops,
                k + 1,
                verify,
            ),
        }
    }
}

/// Validates each withdrawal-address change and points the validator's
/// withdrawal credentials at the new execution address. A second change of
/// the same validator fails, since its credentials no longer carry the BLS
/// prefix.
pub fn process_bls_to_execution_changes(
    state: &mut BeaconState,
    bls_to_execution_changes: &[SignedBlsToExecutionChange],
    verify_signatures: VerifySignatures,
    spec: &ChainSpec,
) -> (r: Result<(), BlockProcessingError>)
    ensures
        agrees(
            r,
            final(state)@,
            run_bls_changes(old(state)@, bls_to_execution_changes@, 0, verify_signatures),
        ),
{
    let mut i: usize = 0;
    while i < bls_to_execution_changes.len()
        invariant
            i <= bls_to_execution_changes@.len(),
            run_bls_changes(old(state)@, bls_to_execution_changes@, 0, verify_signatures)
                == run_bls_changes(state@, bls_to_execution_changes@, i as int, verify_signatures),
        decreases bls_to_execution_changes.len() - i,
    {
        let op = bls_to_execution_changes[i];
        let index = op.message.validator_index;
        if index >= state.validators.len() as u64 {
            return Err(BlockProcessingError::BlsExecutionChangeInvalid {
                index: i,
                reason: BlsExecutionChangeInvalid::ValidatorUnknown,
            });
        }
        let mut v = state.validators[index as usize];
        let reason = if v.withdrawal_prefix != BLS_WITHDRAWAL_PREFIX {
            Some(BlsExecutionChangeInvalid::NonBlsWithdrawalCredentials)
        } else if v.withdrawal_body != op.message.from_bls_pubkey_hash {
            Some(BlsExecutionChangeInvalid::WithdrawalCredentialsMismatch)
        } else if verify_signatures.is_true() && !op.signature_valid {
            Some(BlsExecutionChangeInvalid::BadSignature)
        } else {
            None
        };
        if let Some(reason) = reason {
            return Err(BlockProcessingError::BlsExecutionChangeInvalid { index: i, reason });
        }
        let ghost s1 = state@;
        v.withdrawal_prefix = ETH1_ADDRESS_WITHDRAWAL_PREFIX;
        v.withdrawal_body = op.message.to_execution_address;
        state.validators.set(index as usize, v);
        assert(state@ =~= with_execution_address(s1, index, op.message.to_execution_address));
        i += 1;
    }
    Ok(())
}

// ---------------------------------------------------------------------------
// Deposits

/// Position of the first validator of `vals[k..]` whose public key is
/// `pubkey`.
pub open spec fn find_validator(vals: Seq<Validator>, pubkey: u64, k: int) -> Option<int>
    decreases vals.len() - k,
{
    if k < 0 || k >= vals.len() {
        None
    } else if vals[k].pubkey == pubkey {
        Some(k)
    } else {
        find_validator(vals, pubkey, k + 1)
    }
}

/// The effective balance of a validator created by a deposit of `amount`:
/// the amount rounded down to the increment, capped at the maximum.
pub open spec fn deposit_effective_balance(amount: u64, spec: ChainSpec) -> u64 {
    let rounded = (amount - amount % spec.effective_balance_increment) as u64;
    if rounded < spec.max_effective_balance {
        rounded
    } else {
        spec.max_effective_balance
    }
}

/// The validator that a deposit for a new public key creates.
pub open spec fn deposit_validator(d: Deposit, spec: ChainSpec) -> Validator {
    Validator {
        pubkey: d.pubkey,
        withdrawal_prefix: d.withdrawal_prefix,
        withdrawal_body: d.withdrawal_body,
        effective_balance: deposit_effective_balance(d.amount, spec),
        slashed: false,
        activation_eligibility_epoch: spec.far_future_epoch,
        activation_epoch: spec.far_future_epoch,
        exit_epoch: spec.far_future_epoch,
        withdrawable_epoch: spec.far_future_epoch,
    }
}

/// `s` with the validator of deposit `d` appended, together with its
/// balance and, from Altair on, zeroed participation flags and inactivity
/// score.
pub open spec fn with_deposit_validator(s: StateView, d: Deposit, spec: ChainSpec) -> StateView {
    let s1 = StateView {
        validators: s.validators.push(deposit_validator(d, spec)),
        balances: s.balances.push(d.amount),
        ..s
    };
    if s.fork == ForkName::Altair {
        StateView {
            previous_epoch_participation: s1.previous_epoch_participation.push(0),
            current_epoch_participation: s1.current_epoch_participation.push(0),
            inactivity_scores: s1.inactivity_scores.push(0),
            ..s1
        }
    } else {
        s1
    }
}

/// Applies one deposit whose proof has been checked: the deposit index
/// advances; a known public key has its balance topped up; an unknown one
/// gets a new validator if the registration signature is valid, and nothing
/// otherwise.
pub open spec fn spec_apply_deposit(s: StateView, d: Deposit, spec: ChainSpec) -> Outcome {
    if s.eth1_deposit_index == u64::MAX {
        fail(BlockProcessingError::ArithError, s)
    } else {
        let s1 = StateView { eth1_deposit_index: (s.eth1_deposit_index + 1) as u64, ..s };
        match find_validator(s.validators, d.pubkey, 0) {
            Some(i) => spec_increase_balance(s1, i as u64, d.amount),
            None => if d.signature_valid {
                Ok(with_deposit_validator(s1, d, spec))
            } else {
                Ok(s1)
            },
        }
    }
}

/// Outcome of `process_deposit`: the proof is checked first when asked.
pub open spec fn spec_process_deposit(
    s: StateView,
    d: Deposit,
    spec: ChainSpec,
    verify_merkle_proof: bool,
) -> Outcome {
    if verify_merkle_proof && !d.proof_valid {
        fail(BlockProcessingError::DepositInvalid { index: s.eth1_deposit_index as usize }, s)
    } else {
        spec_apply_deposit(s, d, spec)
    }
}

/// Deposits `ds[k..]` applied to `s`, in order.
pub open spec fn run_deposits(s: StateView, ds: Seq<Deposit>, k: int, spec: ChainSpec) -> Outcome
    decreases ds.len() - k,
{
    if k < 0 || k >= ds.len() {
        Ok(s)
    } else {
        match spec_apply_deposit(s, ds[k], spec) {
            Err(e) => Err(e),
            Ok(s1) => run_deposits(s1, ds, k + 1, spec),
        }
    }
}

/// Position of the first deposit of `ds[k..]` with an invalid proof.
pub open spec fn first_bad_proof(ds: Seq<Deposit>, k: int) -> Option<int>
    decreases ds.len() - k,
{
    if k < 0 || k >= ds.len() {
        None
    } else if !ds[k].proof_valid {
        Some(k)
    } else {
        first_bad_proof(ds, k + 1)
    }
}

/// The number of deposits that a block must carry.
pub open spec fn expected_deposit_count(s: StateView, spec: ChainSpec) -> u64 {
    let outstanding = (s.eth1_deposit_count - s.eth1_deposit_index) as u64;
    if spec.max_deposits < outstanding {
        spec.max_deposits
    } else {
        outstanding
    }
}

/// Outcome of `process_deposits`.
pub open spec fn spec_process_deposits(s: StateView, ds: Seq<Deposit>, spec: ChainSpec) -> Outcome {
    if s.eth1_deposit_index > s.eth1_deposit_count {
        fail(BlockProcessingError::ArithError, s)
    } else if ds.len() != expected_deposit_count(s, spec) {
        fail(BlockProcessingError::DepositCountInvalid {
                expected: expected_deposit_count(s, spec),
                found: ds.len() as usize,
            }, s)
    } else {
        match first_bad_proof(ds, 0) {
            Some(i) => fail(BlockProcessingError::DepositInvalid { index: i as usize }, s),
            None => run_deposits(s, ds, 0, spec),
        }
    }
}

fn get_existing_validator_index(state: &BeaconState, pubkey: u64) -> (r: Option<u64>)
    ensures
        match find_validator(state@.validators, pubkey, 0) {
            Some(i) => r == Some(i as u64) && i < state@.validators.len(),
            None => r is None,
        },
{
    let mut i: usize = 0;
    while i < state.validators.len()
        invariant
            i <= state@.validators.len(),
            find_validator(state@.validators, pubkey, 0) == find_validator(state@.validators, pubkey, i as int),
            forall|j: int| 0 <= j < i ==> state@.validators[j].pubkey != pubkey,
        decreases state.validators.len() - i,
    {
        if state.validators[i].pubkey == pubkey {
            return Some(i as u64);
        }
        i += 1;
    }
    None
}

/// Applies one deposit, first checking its Merkle proof when
/// `verify_merkle_proof` is set.
pub fn process_deposit(
    state: &mut BeaconState,
    deposit: &Deposit,
    spec: &ChainSpec,
    verify_merkle_proof: bool,
) -> (r: Result<(), BlockProcessingError>)
    requires
        spec.wf(),
    ensures
        agrees(r, final(state)@, spec_process_deposit(old(state)@, *deposit, *spec, verify_merkle_proof)),
{
    if verify_merkle_proof && !deposit.proof_valid {
        return Err(BlockProcessingError::DepositInvalid { index: state.eth1_deposit_index as usize });
    }
    if state.eth1_deposit_index == u64::MAX {
        return Err(BlockProcessingError::ArithError);
    }
    let ghost s0 = state@;
    let existing = get_existing_validator_index(state, deposit.pubkey);
    state.eth1_deposit_index = state.eth1_deposit_index + 1;
    let ghost s1 = state@;
    assert(s1 =~= StateView { eth1_deposit_index: (s0.eth1_deposit_index + 1) as u64, ..s0 });
    match existing {
        Some(index) => increase_balance(state, index, deposit.amount),
        None => {
            if !deposit.signature_valid {
                return Ok(());
            }
            let amount = deposit.amount;
            let inc = spec.effective_balance_increment;
            assert(amount % inc <= amount) by (nonlinear_arith)
                requires inc > 0;
            let rounded = amount - amount % inc;
            let effective_balance = if rounded < spec.max_effective_balance {
                rounded
            } else {
                spec.max_effective_balance
            };
            let validator = Validator {
                pubkey: deposit.pubkey,
                withdrawal_prefix: deposit.withdrawal_prefix,
                withdrawal_body: deposit.withdrawal_body,
                effective_balance,
                slashed: false,
                activation_eligibility_epoch: spec.far_future_epoch,
                activation_epoch: spec.far_future_epoch,
                exit_epoch: spec.far_future_epoch,
                withdrawable_epoch: spec.far_future_epoch,
            };
            state.validators.push(validator);
            state.balances.push(amount);
            match state.fork {
                ForkName::Altair => {
                    state.previous_epoch_participation.push(0);
                    state.current_epoch_participation.push(0);
                    state.inactivity_scores.push(0);
                },
                ForkName::Base => {},
            }
            assert(state@ =~= with_deposit_validator(s1, *deposit, *spec));
            Ok(())
        },
    }
}

/// Checks that the block carries exactly the expected number of deposits,
/// checks every deposit's inclusion proof (reporting the first failing
/// one), then applies the deposits in order.
pub fn process_deposits(state: &mut BeaconState, deposits: &[Deposit], spec: &ChainSpec) -> (r:
    Result<(), BlockProcessingError>)
    requires
        spec.wf(),
    ensures
        agrees(r, final(state)@, spec_process_deposits(old(state)@, deposits@, *spec)),
{
    if state.eth1_deposit_index > state.eth1_deposit_count {
        return Err(BlockProcessingError::ArithError);
    }
    let outstanding = state.eth1_deposit_count - state.eth1_deposit_index;
    let expected = if spec.max_deposits < outstanding {
        spec.max_deposits
    } else {
        outstanding
    };
    if deposits.len() as u64 != expected {
        return Err(BlockProcessingError::DepositCountInvalid { expected, found: deposits.len() });
    }
    let mut i: usize = 0;
    while i < deposits.len()
        invariant
            i <= deposits@.len(),
            first_bad_proof(deposits@, 0) == first_bad_proof(deposits@, i as int),
            *state == *old(state),
            old(state)@.eth1_deposit_index <= old(state)@.eth1_deposit_count,
            deposits@.len() == expected_deposit_count(old(state)@, *spec),
        decreases deposits.len() - i,
    {
        if !deposits[i].proof_valid {
            return Err(BlockProcessingError::DepositInvalid { index: i });
        }
        i += 1;
    }
    let mut i: usize = 0;
    while i < deposits.len()
        invariant
            spec.wf(),
            i <= deposits@.len(),
            spec_process_deposits(old(state)@, deposits@, *spec) == run_deposits(state@, deposits@, i as int, *spec),
        decreases deposits.len() - i,
    {
        if let Err(e) = process_deposit(state, &deposits[i], spec, false) {
            return Err(e);
        }
        i += 1;
    }
    Ok(())
}

} // verus!
