use state_processing::altair_deneb;
use state_processing::base;
use state_processing::process_operations::{
    process_attestations, process_attester_slashings, process_bls_to_execution_changes,
    process_deposit, process_deposits, process_exits, process_operations,
    process_proposer_slashings,
};
use state_processing::types::{
    Attestation, AttestationData, AttestationInvalid, AttesterSlashing, AttesterSlashingInvalid,
    BeaconBlockBody, BeaconBlockHeader, BeaconState, BlockProcessingError, BlsExecutionChangeInvalid,
    BlsToExecutionChange, ChainSpec, ConsensusContext, Deposit, ExitInvalid, ForkName,
    IndexedAttestation, ProposerSlashing, ProposerSlashingInvalid, SignedBeaconBlockHeader,
    SignedBlsToExecutionChange, SignedVoluntaryExit, Validator, VerifySignatures, VoluntaryExit,
};

const GWEI: u64 = 1_000_000_000;

fn chain_spec() -> ChainSpec {
    ChainSpec {
        slots_per_epoch: 32,
        far_future_epoch: u64::MAX,
        effective_balance_increment: GWEI,
        max_effective_balance: 32 * GWEI,
        max_deposits: 16,
        max_seed_lookahead: 4,
        min_validator_withdrawability_delay: 256,
        shard_committee_period: 256,
        min_attestation_inclusion_delay: 1,
        min_per_epoch_churn_limit: 1,
        churn_limit_quotient: 65536,
        epochs_per_slashings_vector: 8192,
        min_slashing_penalty_quotient: 64,
        whistleblower_reward_quotient: 512,
        proposer_reward_quotient: 8,
        base_reward_factor: 64,
    }
}

fn validator(pubkey: u64, effective_balance: u64) -> Validator {
    Validator {
        pubkey,
        withdrawal_prefix: 0,
        withdrawal_body: pubkey + 1000,
        effective_balance,
        slashed: false,
        activation_eligibility_epoch: 0,
        activation_epoch: 0,
        exit_epoch: u64::MAX,
        withdrawable_epoch: u64::MAX,
    }
}

fn state(fork: ForkName, n: usize, slot: u64) -> BeaconState {
    let flags = if fork == ForkName::Altair { n } else { 0 };
    BeaconState {
        fork,
        slot,
        validators: (0..n as u64).map(|i| validator(i, 32 * GWEI)).collect(),
        balances: vec![32 * GWEI; n],
        previous_epoch_attestations: vec![],
        current_epoch_attestations: vec![],
        previous_epoch_participation: vec![0; flags],
        current_epoch_participation: vec![0; flags],
        inactivity_scores: vec![0; flags],
        previous_epoch_target_attesting_balance: 0,
        current_epoch_target_attesting_balance: 0,
        slashings: vec![0; 8192],
        eth1_deposit_index: 0,
        eth1_deposit_count: 0,
    }
}

fn ctxt(proposer_index: u64) -> ConsensusContext {
    ConsensusContext { proposer_index, base_reward_per_increment: 64 }
}

fn header(slot: u64, proposer_index: u64, body_root: u64) -> SignedBeaconBlockHeader {
    SignedBeaconBlockHeader {
        message: BeaconBlockHeader { slot, proposer_index, parent_root: 1, state_root: 2, body_root },
        signature_valid: true,
    }
}

fn proposer_slashing(index: u64) -> ProposerSlashing {
    ProposerSlashing { signed_header_1: header(5, index, 10), signed_header_2: header(5, index, 11) }
}

fn data(slot: u64, target_epoch: u64) -> AttestationData {
    AttestationData {
        slot,
        index: 0,
        beacon_block_root: 7,
        source_epoch: 0,
        source_root: 0,
        target_epoch,
        target_root: 9,
    }
}

fn attestation(indices: Vec<u64>, slot: u64, target: bool, head: bool) -> Attestation {
    Attestation {
        data: data(slot, slot / 32),
        attesting_indices: indices,
        committee_valid: true,
        signature_valid: true,
        matching_source: true,
        matching_target: target,
        matching_head: head,
    }
}

fn deposit(pubkey: u64, amount: u64, signature_valid: bool) -> Deposit {
    Deposit {
        pubkey,
        withdrawal_prefix: 0,
        withdrawal_body: 77,
        amount,
        proof_valid: true,
        signature_valid,
    }
}

fn exit(validator_index: u64) -> SignedVoluntaryExit {
    SignedVoluntaryExit { message: VoluntaryExit { epoch: 0, validator_index }, signature_valid: true }
}

fn empty_body(fork: ForkName) -> BeaconBlockBody {
    BeaconBlockBody {
        fork,
        proposer_slashings: vec![],
        attester_slashings: vec![],
        attestations: vec![],
        deposits: vec![],
        voluntary_exits: vec![],
        bls_to_execution_changes: None,
    }
}

#[test]
fn duplicate_proposer_slashing_rejected_at_second_index() {
    let spec = chain_spec();
    let mut s = state(ForkName::Altair, 4, 64);
    let mut c = ctxt(3);
    let ops = vec![proposer_slashing(1), proposer_slashing(1)];
    let r = process_proposer_slashings(&mut s, &ops, VerifySignatures::True, &mut c, &spec);
    assert_eq!(
        r,
        Err(BlockProcessingError::ProposerSlashingInvalid {
            index: 1,
            reason: ProposerSlashingInvalid::ProposerNotSlashable,
        })
    );
    assert!(s.validators[1].slashed);
    assert_eq!(s.validators.iter().filter(|v| v.slashed).count(), 1);
}

#[test]
fn proposer_slashing_penalises_and_rewards() {
    let spec = chain_spec();
    let mut s = state(ForkName::Altair, 4, 64);
    let mut c = ctxt(3);
    let r = process_proposer_slashings(&mut s, &[proposer_slashing(1)], VerifySignatures::True, &mut c, &spec);
    assert_eq!(r, Ok(()));
    let v = s.validators[1];
    assert!(v.slashed);
    // epoch 2: exit at 2 + 1 + 4, withdrawable pushed to 2 + 8192.
    assert_eq!(v.exit_epoch, 7);
    assert_eq!(v.withdrawable_epoch, 8194);
    assert_eq!(s.balances[1], 32 * GWEI - 32 * GWEI / 64);
    assert_eq!(s.balances[3], 32 * GWEI + 32 * GWEI / 512);
    // Epoch 2 of the slashings ring records the slashed effective balance.
    assert_eq!(s.slashings[2], 32 * GWEI);
}

#[test]
fn proposer_slashing_errors() {
    let spec = chain_spec();
    let mut s = state(ForkName::Base, 2, 64);
    let mut c = ctxt(0);
    let mut same = proposer_slashing(1);
    same.signed_header_2 = same.signed_header_1;
    let r = process_proposer_slashings(&mut s, &[same], VerifySignatures::True, &mut c, &spec);
    assert_eq!(
        r,
        Err(BlockProcessingError::ProposerSlashingInvalid {
            index: 0,
            reason: ProposerSlashingInvalid::ProposalsIdentical,
        })
    );
    let mut bad_sig = proposer_slashing(1);
    bad_sig.signed_header_2.signature_valid = false;
    let r = process_proposer_slashings(&mut s, &[bad_sig], VerifySignatures::True, &mut c, &spec);
    assert_eq!(
        r,
        Err(BlockProcessingError::ProposerSlashingInvalid {
            index: 0,
            reason: ProposerSlashingInvalid::BadProposal2Signature,
        })
    );
    let r = process_proposer_slashings(&mut s, &[bad_sig], VerifySignatures::False, &mut c, &spec);
    assert_eq!(r, Ok(()));
    let r = process_proposer_slashings(&mut s, &[proposer_slashing(9)], VerifySignatures::True, &mut c, &spec);
    assert_eq!(
        r,
        Err(BlockProcessingError::ProposerSlashingInvalid {
            index: 0,
            reason: ProposerSlashingInvalid::ProposerUnknown,
        })
    );
}

fn indexed(indices: Vec<u64>, d: AttestationData) -> IndexedAttestation {
    IndexedAttestation { attesting_indices: indices, data: d, signature_valid: true }
}

#[test]
fn attester_slashing_slashes_common_validators() {
    let spec = chain_spec();
    let mut s = state(ForkName::Altair, 5, 64);
    let mut c = ctxt(4);
    let mut d2 = data(32, 1);
    d2.beacon_block_root = 8;
    let op = AttesterSlashing {
        attestation_1: indexed(vec![0, 1, 2], data(32, 1)),
        attestation_2: indexed(vec![1, 2, 3], d2),
    };
    let r = process_attester_slashings(&mut s, &[op.clone()], VerifySignatures::True, &mut c, &spec);
    assert_eq!(r, Ok(()));
    let slashed: Vec<bool> = s.validators.iter().map(|v| v.slashed).collect();
    assert_eq!(slashed, vec![false, true, true, false, false]);
    let r = process_attester_slashings(&mut s, &[op], VerifySignatures::True, &mut c, &spec);
    assert_eq!(
        r,
        Err(BlockProcessingError::AttesterSlashingInvalid {
            index: 0,
            reason: AttesterSlashingInvalid::NoSlashableIndices,
        })
    );
}

#[test]
fn attester_slashing_errors() {
    let spec = chain_spec();
    let mut s = state(ForkName::Altair, 5, 64);
    let mut c = ctxt(4);
    let same = AttesterSlashing {
        attestation_1: indexed(vec![0], data(32, 1)),
        attestation_2: indexed(vec![0], data(32, 1)),
    };
    let r = process_attester_slashings(&mut s, &[same], VerifySignatures::True, &mut c, &spec);
    assert_eq!(
        r,
        Err(BlockProcessingError::AttesterSlashingInvalid {
            index: 0,
            reason: AttesterSlashingInvalid::NotSlashable,
        })
    );
    let mut d2 = data(32, 1);
    d2.beacon_block_root = 8;
    let unsorted = AttesterSlashing {
        attestation_1: indexed(vec![2, 1], data(32, 1)),
        attestation_2: indexed(vec![1], d2),
    };
    let r = process_attester_slashings(&mut s, &[unsorted], VerifySignatures::True, &mut c, &spec);
    assert_eq!(
        r,
        Err(BlockProcessingError::AttesterSlashingInvalid {
            index: 0,
            reason: AttesterSlashingInvalid::IndicesNotSorted1,
        })
    );
    let unknown = AttesterSlashing {
        attestation_1: indexed(vec![1, 9], data(32, 1)),
        attestation_2: indexed(vec![9], d2),
    };
    let r = process_attester_slashings(&mut s, &[unknown], VerifySignatures::True, &mut c, &spec);
    assert_eq!(
        r,
        Err(BlockProcessingError::AttesterSlashingInvalid {
            index: 0,
            reason: AttesterSlashingInvalid::UnknownValidator,
        })
    );
}

#[test]
fn proposer_reward_is_floored_once_per_attestation() {
    // base reward 64 = 1 increment * 64 per increment; weights 14, 26, 14;
    // denominator (64 - 8) * 64 / 8 = 448.
    let spec = chain_spec();
    let mut s = state(ForkName::Altair, 4, 33);
    for v in s.validators.iter_mut() {
        v.effective_balance = GWEI;
    }
    let mut c = ctxt(3);
    let att = attestation(vec![0, 1, 2], 32, true, true);
    let before = s.balances[3];
    let r = altair_deneb::process_attestations(&mut s, &[att], VerifySignatures::True, &mut c, &spec);
    assert_eq!(r, Ok(()));
    // 3 * 64 * (14 + 26 + 14) = 10368; 10368 / 448 = 23 (not 3 * (2 + 3 + 2)).
    assert_eq!(s.balances[3] - before, 23);
    assert_eq!(s.current_epoch_participation, vec![7, 7, 7, 0]);
    assert_eq!(s.current_epoch_target_attesting_balance, 3 * GWEI);
}

#[test]
fn proposer_reward_source_only() {
    let spec = chain_spec();
    let mut s = state(ForkName::Altair, 5, 33);
    for v in s.validators.iter_mut() {
        v.effective_balance = GWEI;
    }
    let mut c = ctxt(4);
    let att = attestation(vec![0, 1, 2, 3], 32, false, false);
    let before = s.balances[4];
    let r = altair_deneb::process_attestations(&mut s, &[att.clone()], VerifySignatures::True, &mut c, &spec);
    assert_eq!(r, Ok(()));
    // 4 * 64 * 14 = 3584; 3584 / 448 = 8.
    assert_eq!(s.balances[4] - before, 8);
    assert_eq!(s.current_epoch_participation, vec![1, 1, 1, 1, 0]);
    assert_eq!(s.current_epoch_target_attesting_balance, 0);
    // Flags already set earn nothing again.
    let r = altair_deneb::process_attestations(&mut s, &[att], VerifySignatures::True, &mut c, &spec);
    assert_eq!(r, Ok(()));
    assert_eq!(s.balances[4] - before, 8);
}

#[test]
fn previous_epoch_attestation_updates_previous_flags() {
    let spec = chain_spec();
    let mut s = state(ForkName::Altair, 3, 40);
    let mut c = ctxt(2);
    // Included 10 slots late: 10 * 10 > 32, so no timely source; target counts.
    let att = attestation(vec![0], 30, true, true);
    let r = altair_deneb::process_attestations(&mut s, &[att], VerifySignatures::True, &mut c, &spec);
    assert_eq!(r, Ok(()));
    assert_eq!(s.previous_epoch_participation, vec![2, 0, 0]);
    assert_eq!(s.previous_epoch_target_attesting_balance, 32 * GWEI);
    assert_eq!(s.current_epoch_participation, vec![0, 0, 0]);
}

#[test]
fn participation_out_of_bounds() {
    let spec = chain_spec();
    let mut s = state(ForkName::Altair, 3, 33);
    let mut c = ctxt(2);
    let att = attestation(vec![5], 32, true, true);
    let r = altair_deneb::process_attestations(&mut s, &[att], VerifySignatures::True, &mut c, &spec);
    assert_eq!(r, Err(BlockProcessingError::ParticipationOutOfBounds { index: 5 }));
}

#[test]
fn fork_tag_selects_attestation_variant() {
    let spec = chain_spec();
    let att = attestation(vec![0, 1], 32, true, true);

    let mut legacy = state(ForkName::Base, 3, 33);
    let mut c = ctxt(2);
    let mut body = empty_body(ForkName::Base);
    body.attestations = vec![att.clone()];
    let r = process_attestations(&mut legacy, &body, VerifySignatures::True, &mut c, &spec);
    assert_eq!(r, Ok(()));
    assert_eq!(legacy.current_epoch_attestations.len(), 1);
    assert_eq!(legacy.current_epoch_attestations[0].inclusion_delay, 1);
    assert_eq!(legacy.current_epoch_attestations[0].proposer_index, 2);
    assert_eq!(legacy.current_epoch_attestations[0].attesting_indices, vec![0, 1]);
    assert_eq!(legacy.balances[2], 32 * GWEI);

    let mut flagged = state(ForkName::Altair, 3, 33);
    body.fork = ForkName::Altair;
    let r = process_attestations(&mut flagged, &body, VerifySignatures::True, &mut c, &spec);
    assert_eq!(r, Ok(()));
    assert!(flagged.current_epoch_attestations.is_empty());
    assert_eq!(flagged.current_epoch_participation, vec![7, 7, 0]);
    // 2 * (32 * 64) * 54 / 448 = 493.
    assert_eq!(flagged.balances[2], 32 * GWEI + 493);
}

#[test]
fn base_attestation_goes_to_previous_bucket() {
    let spec = chain_spec();
    let mut s = state(ForkName::Base, 3, 40);
    let mut c = ctxt(1);
    let att = attestation(vec![0], 30, true, true);
    let r = base::process_attestations(&mut s, &[att], VerifySignatures::True, &mut c, &spec);
    assert_eq!(r, Ok(()));
    assert_eq!(s.previous_epoch_attestations.len(), 1);
    assert_eq!(s.previous_epoch_attestations[0].inclusion_delay, 10);
}

#[test]
fn attestation_errors() {
    let spec = chain_spec();
    let mut s = state(ForkName::Base, 3, 33);
    let mut c = ctxt(1);
    let early = attestation(vec![0], 33, true, true);
    let r = base::process_attestations(&mut s, &[early], VerifySignatures::True, &mut c, &spec);
    assert_eq!(
        r,
        Err(BlockProcessingError::AttestationInvalid { index: 0, reason: AttestationInvalid::IncludedTooEarly })
    );
    let mut bad_sig = attestation(vec![0], 32, true, true);
    bad_sig.signature_valid = false;
    let ok = attestation(vec![0], 32, true, true);
    let r = base::process_attestations(&mut s, &[ok.clone(), bad_sig], VerifySignatures::True, &mut c, &spec);
    assert_eq!(
        r,
        Err(BlockProcessingError::AttestationInvalid { index: 1, reason: AttestationInvalid::BadSignature })
    );
    let mut late = state(ForkName::Base, 3, 100);
    let r = base::process_attestations(&mut late, &[attestation(vec![0], 60, true, true)], VerifySignatures::True, &mut c, &spec);
    assert_eq!(
        r,
        Err(BlockProcessingError::AttestationInvalid { index: 0, reason: AttestationInvalid::IncludedTooLate })
    );
    let mut flagged = state(ForkName::Altair, 3, 33);
    let r = base::process_attestations(&mut flagged, &[ok], VerifySignatures::True, &mut c, &spec);
    assert_eq!(r, Err(BlockProcessingError::IncorrectStateVariant));
}

#[test]
fn deposit_with_invalid_signature_is_skipped() {
    let spec = chain_spec();
    let mut s = state(ForkName::Altair, 2, 64);
    s.eth1_deposit_count = 1;
    let r = process_deposits(&mut s, &[deposit(50, 32 * GWEI, false)], &spec);
    assert_eq!(r, Ok(()));
    assert_eq!(s.eth1_deposit_index, 1);
    assert_eq!(s.validators.len(), 2);
    assert_eq!(s.balances.len(), 2);
}

#[test]
fn deposits_keep_collections_aligned() {
    let spec = chain_spec();
    let mut s = state(ForkName::Altair, 2, 64);
    s.eth1_deposit_count = 3;
    let ds = [deposit(50, 33 * GWEI, true), deposit(51, 17 * GWEI + 5, true), deposit(0, 7, true)];
    let r = process_deposits(&mut s, &ds, &spec);
    assert_eq!(r, Ok(()));
    assert_eq!(s.eth1_deposit_index, 3);
    assert_eq!(s.validators.len(), 4);
    assert_eq!(s.balances.len(), 4);
    assert_eq!(s.previous_epoch_participation.len(), 4);
    assert_eq!(s.current_epoch_participation.len(), 4);
    assert_eq!(s.inactivity_scores.len(), 4);
    assert_eq!(s.validators[2].effective_balance, 32 * GWEI);
    assert_eq!(s.validators[3].effective_balance, 17 * GWEI);
    assert_eq!(s.validators[3].activation_epoch, u64::MAX);
    assert_eq!(s.balances[3], 17 * GWEI + 5);
    // An existing key is topped up.
    assert_eq!(s.balances[0], 32 * GWEI + 7);
}

#[test]
fn base_deposit_adds_no_flags() {
    let spec = chain_spec();
    let mut s = state(ForkName::Base, 1, 64);
    let r = process_deposit(&mut s, &deposit(9, GWEI, true), &spec, true);
    assert_eq!(r, Ok(()));
    assert_eq!(s.validators.len(), 2);
    assert!(s.current_epoch_participation.is_empty());
    let mut bad = deposit(10, GWEI, true);
    bad.proof_valid = false;
    let r = process_deposit(&mut s, &bad, &spec, true);
    assert_eq!(r, Err(BlockProcessingError::DepositInvalid { index: 1 }));
}

#[test]
fn deposit_count_and_proof_errors() {
    let spec = chain_spec();
    let mut s = state(ForkName::Altair, 1, 64);
    s.eth1_deposit_count = 20;
    let r = process_deposits(&mut s, &[deposit(5, GWEI, true)], &spec);
    assert_eq!(r, Err(BlockProcessingError::DepositCountInvalid { expected: 16, found: 1 }));
    s.eth1_deposit_count = 2;
    let mut bad = deposit(6, GWEI, true);
    bad.proof_valid = false;
    let r = process_deposits(&mut s, &[deposit(5, GWEI, true), bad], &spec);
    assert_eq!(r, Err(BlockProcessingError::DepositInvalid { index: 1 }));
    assert_eq!(s.eth1_deposit_index, 0);
}

#[test]
fn exits_follow_churn_and_reject_repeats() {
    let spec = chain_spec();
    let mut s = state(ForkName::Altair, 3, 300 * 32);
    let r = process_exits(&mut s, &[exit(0), exit(1)], VerifySignatures::True, &spec);
    assert_eq!(r, Ok(()));
    assert_eq!(s.validators[0].exit_epoch, 305);
    assert_eq!(s.validators[1].exit_epoch, 306);
    assert_eq!(s.validators[0].withdrawable_epoch, 561);
    assert_eq!(s.validators[1].withdrawable_epoch, 562);
    let mut t = state(ForkName::Altair, 3, 300 * 32);
    let r = process_exits(&mut t, &[exit(0), exit(1), exit(0)], VerifySignatures::True, &spec);
    assert_eq!(
        r,
        Err(BlockProcessingError::ExitInvalid { index: 2, reason: ExitInvalid::AlreadyExited })
    );
}

#[test]
fn exit_errors() {
    let spec = chain_spec();
    let mut s = state(ForkName::Altair, 2, 10 * 32);
    let r = process_exits(&mut s, &[exit(0)], VerifySignatures::True, &spec);
    assert_eq!(r, Err(BlockProcessingError::ExitInvalid { index: 0, reason: ExitInvalid::TooYoungToExit }));
    let r = process_exits(&mut s, &[exit(7)], VerifySignatures::True, &spec);
    assert_eq!(r, Err(BlockProcessingError::ExitInvalid { index: 0, reason: ExitInvalid::ValidatorUnknown }));
    let mut future = exit(0);
    future.message.epoch = 11;
    let r = process_exits(&mut s, &[future], VerifySignatures::True, &spec);
    assert_eq!(r, Err(BlockProcessingError::ExitInvalid { index: 0, reason: ExitInvalid::FutureEpoch }));
}

fn change(validator_index: u64, from: u64) -> SignedBlsToExecutionChange {
    SignedBlsToExecutionChange {
        message: BlsToExecutionChange {
            validator_index,
            from_bls_pubkey_hash: from,
            to_execution_address: 0xabc,
        },
        signature_valid: true,
    }
}

#[test]
fn bls_change_applies_once() {
    let spec = chain_spec();
    let mut s = state(ForkName::Altair, 2, 64);
    let r = process_bls_to_execution_changes(&mut s, &[change(1, 1001)], VerifySignatures::True, &spec);
    assert_eq!(r, Ok(()));
    assert_eq!(s.validators[1].withdrawal_prefix, 1);
    assert_eq!(s.validators[1].withdrawal_body, 0xabc);
    let r = process_bls_to_execution_changes(&mut s, &[change(1, 1001)], VerifySignatures::True, &spec);
    assert_eq!(
        r,
        Err(BlockProcessingError::BlsExecutionChangeInvalid {
            index: 0,
            reason: BlsExecutionChangeInvalid::NonBlsWithdrawalCredentials,
        })
    );
    let r = process_bls_to_execution_changes(&mut s, &[change(0, 5)], VerifySignatures::True, &spec);
    assert_eq!(
        r,
        Err(BlockProcessingError::BlsExecutionChangeInvalid {
            index: 0,
            reason: BlsExecutionChangeInvalid::WithdrawalCredentialsMismatch,
        })
    );
}

fn full_block() -> BeaconBlockBody {
    let mut body = empty_body(ForkName::Altair);
    body.proposer_slashings = vec![proposer_slashing(5)];
    body.attestations = vec![attestation(vec![0, 1], 32 * 300, true, true)];
    body.deposits = vec![deposit(40, 32 * GWEI, true)];
    body.voluntary_exits = vec![exit(2)];
    body.bls_to_execution_changes = Some(vec![change(3, 1003)]);
    body
}

#[test]
fn process_operations_is_deterministic() {
    let spec = chain_spec();
    let mut a = state(ForkName::Altair, 6, 300 * 32 + 1);
    a.eth1_deposit_count = 1;
    let mut b = a.clone();
    let body = full_block();
    let mut c1 = ctxt(4);
    let mut c2 = ctxt(4);
    let r1 = process_operations(&mut a, &body, VerifySignatures::True, &mut c1, &spec);
    let r2 = process_operations(&mut b, &body, VerifySignatures::True, &mut c2, &spec);
    assert_eq!(r1, Ok(()));
    assert_eq!(r1, r2);
    assert_eq!(format!("{:?}", a), format!("{:?}", b));
    assert!(a.validators[5].slashed);
    assert_eq!(a.validators.len(), 7);
    assert_ne!(a.validators[2].exit_epoch, u64::MAX);
    assert_eq!(a.validators[3].withdrawal_prefix, 1);
}

#[test]
fn process_operations_stops_at_first_failing_stage() {
    let spec = chain_spec();
    let mut s = state(ForkName::Altair, 6, 300 * 32 + 1);
    let mut body = full_block();
    body.deposits = vec![];
    s.eth1_deposit_count = 1;
    let mut c = ctxt(4);
    let r = process_operations(&mut s, &body, VerifySignatures::True, &mut c, &spec);
    assert_eq!(r, Err(BlockProcessingError::DepositCountInvalid { expected: 1, found: 0 }));
    assert_ne!(s.validators[2].exit_epoch, 305);
}

#[test]
fn larger_active_set_raises_churn() {
    let mut spec = chain_spec();
    spec.churn_limit_quotient = 2;
    // 4 active validators / 2 = 2 exits per epoch.
    let mut s = state(ForkName::Base, 4, 300 * 32);
    let r = process_exits(&mut s, &[exit(0), exit(1), exit(2)], VerifySignatures::True, &spec);
    assert_eq!(r, Ok(()));
    assert_eq!(s.validators[0].exit_epoch, 305);
    assert_eq!(s.validators[1].exit_epoch, 305);
    assert_eq!(s.validators[2].exit_epoch, 306);
}

#[test]
fn context_derives_reward_per_increment_from_active_balance() {
    let spec = chain_spec();
    let s = state(ForkName::Altair, 4, 64);
    let c = ConsensusContext::new(&s, 2, &spec).unwrap();
    // sqrt(128e9) = 357770; 64e9 / 357770 = 178885.
    assert_eq!(c.proposer_index, 2);
    assert_eq!(c.base_reward_per_increment, 178885);
    // With no active validator the total is one increment: 64e9 / 31622.
    let mut idle = state(ForkName::Altair, 2, 64);
    for v in idle.validators.iter_mut() {
        v.activation_epoch = u64::MAX;
    }
    let c = ConsensusContext::new(&idle, 0, &spec).unwrap();
    assert_eq!(c.base_reward_per_increment, 2023907);
}

#[test]
fn context_reports_overflow() {
    let mut spec = chain_spec();
    spec.base_reward_factor = u64::MAX;
    let s = state(ForkName::Altair, 1, 64);
    assert_eq!(ConsensusContext::new(&s, 0, &spec), Err(BlockProcessingError::ArithError));
}

#[test]
fn proposer_reward_floored_once_per_block() {
    // Two attestations each add 16 * 14 = 224 to the block's numerator:
    // 448 / 448 = 1, where flooring per attestation would pay 0.
    let spec = chain_spec();
    let mut s = state(ForkName::Altair, 3, 33);
    for v in s.validators.iter_mut() {
        v.effective_balance = GWEI;
    }
    let mut c = ConsensusContext { proposer_index: 2, base_reward_per_increment: 16 };
    let a0 = attestation(vec![0], 32, false, false);
    let a1 = attestation(vec![1], 32, false, false);
    let before = s.balances[2];
    let r = altair_deneb::process_attestations(&mut s, &[a0.clone(), a1], VerifySignatures::True, &mut c, &spec);
    assert_eq!(r, Ok(()));
    assert_eq!(s.balances[2] - before, 1);
    // One attestation alone pays nothing.
    let mut t = state(ForkName::Altair, 3, 33);
    for v in t.validators.iter_mut() {
        v.effective_balance = GWEI;
    }
    let r = altair_deneb::process_attestations(&mut t, &[a0], VerifySignatures::True, &mut c, &spec);
    assert_eq!(r, Ok(()));
    assert_eq!(t.balances[2], 32 * GWEI);
}

#[test]
fn process_attestation_accrues_numerator_without_paying() {
    let spec = chain_spec();
    let mut s = state(ForkName::Altair, 3, 33);
    let mut c = ctxt(2);
    let mut numerator: u64 = 5;
    let att = attestation(vec![0], 32, false, false);
    let r = altair_deneb::process_attestation(&mut s, &att, 0, &mut c, VerifySignatures::True, &spec, &mut numerator);
    assert_eq!(r, Ok(()));
    // 32 increments * 64 * 14 added to the running numerator.
    assert_eq!(numerator, 5 + 32 * 64 * 14);
    assert_eq!(s.balances[2], 32 * GWEI);
    assert_eq!(s.current_epoch_participation, vec![1, 0, 0]);
}

#[test]
fn flag_variant_bounds_inclusion_delay() {
    let spec = chain_spec();
    let mut s = state(ForkName::Altair, 3, 100);
    let mut c = ctxt(2);
    let r = altair_deneb::process_attestations(&mut s, &[attestation(vec![0], 60, true, true)], VerifySignatures::True, &mut c, &spec);
    assert_eq!(
        r,
        Err(BlockProcessingError::AttestationInvalid { index: 0, reason: AttestationInvalid::IncludedTooLate })
    );
    assert_eq!(s.previous_epoch_participation, vec![0, 0, 0]);
    assert_eq!(s.balances[2], 32 * GWEI);
}

#[test]
fn failed_second_exit_keeps_first() {
    let spec = chain_spec();
    let mut s = state(ForkName::Altair, 3, 300 * 32);
    let r = process_exits(&mut s, &[exit(0), exit(0)], VerifySignatures::True, &spec);
    assert_eq!(r, Err(BlockProcessingError::ExitInvalid { index: 1, reason: ExitInvalid::AlreadyExited }));
    assert_eq!(s.validators[0].exit_epoch, 305);
    assert_eq!(s.validators[1].exit_epoch, u64::MAX);
}
