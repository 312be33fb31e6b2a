//! Properties of block processing that relate several operations or calls.
use vstd::prelude::*;
use crate::altair_deneb;
use crate::base;
use crate::common::{
    fail, Failure, Outcome, active_count, churn_limit, exit_count, is_active_at, max_exit_epoch, spec_increase_balance, spec_initiate_validator_exit,
    spec_slash_validator,
};
use crate::process_operations::{
    exit_fault, expected_deposit_count, find_validator, first_bad_proof, proposer_slashing_fault, run_deposits, run_exits,
    run_proposer_slashings, spec_apply_deposit, spec_process_attestations,
    spec_process_deposits, spec_process_operations, with_deposit_validator,
};
use crate::types::{
    Attestation, BeaconBlockBody, BlockProcessingError, ChainSpec, ConsensusContext, Deposit,
    ForkName, ProposerSlashing, SignedVoluntaryExit, StateView, Validator, VerifySignatures,
};

verus! {

/// Processing is deterministic: the same state, block, verification mode,
/// context and configuration always give the same outcome: the same
/// resulting state on success, and on failure the same error and the same
/// state left behind. `process_operations` ends in exactly this outcome, so
/// two runs on equal copies end in equal states whatever happens.
pub proof fn lemma_process_operations_deterministic(
    s1: StateView,
    s2: StateView,
    body: BeaconBlockBody,
    verify: VerifySignatures,
    ctxt: ConsensusContext,
    spec: ChainSpec,
)
    requires
        s1 == s2,
    ensures
        spec_process_operations(s1, body, verify, ctxt, spec) == spec_process_operations(
            s2,
            body,
            verify,
            ctxt,
            spec,
        ),
{
}

proof fn lemma_apply_deposit_aligned(s: StateView, d: Deposit, spec: ChainSpec)
    requires
        s.wf(),
        spec_apply_deposit(s, d, spec) is Ok,
    ensures
        ({
            let s2 = spec_apply_deposit(s, d, spec)->Ok_0;
            &&& s2.wf()
            &&& s2.fork == s.fork
            &&& s2.validators.len() >= s.validators.len()
        }),
{
    let s1 = StateView { eth1_deposit_index: (s.eth1_deposit_index + 1) as u64, ..s };
    match find_validator(s.validators, d.pubkey, 0) {
        Some(i) => {
            assert(spec_apply_deposit(s, d, spec) == spec_increase_balance(s1, i as u64, d.amount));
        },
        None => {
            if d.signature_valid {
                assert(spec_apply_deposit(s, d, spec) == Ok::<StateView, Failure>(with_deposit_validator(s1, d, spec)));
            }
        },
    }
}

proof fn lemma_run_deposits_aligned(s: StateView, ds: Seq<Deposit>, k: int, spec: ChainSpec)
    requires
        s.wf(),
        0 <= k,
        run_deposits(s, ds, k, spec) is Ok,
    ensures
        ({
            let s2 = run_deposits(s, ds, k, spec)->Ok_0;
            &&& s2.wf()
            &&& s2.fork == s.fork
            &&& s2.validators.len() >= s.validators.len()
        }),
    decreases ds.len() - k,
{
    if k < ds.len() {
        lemma_apply_deposit_aligned(s, ds[k], spec);
        let s1 = spec_apply_deposit(s, ds[k], spec)->Ok_0;
        lemma_run_deposits_aligned(s1, ds, k + 1, spec);
    }
}

/// After a successful deposit run on a well-formed state, validators,
/// balances and, from Altair on, both participation records and the
/// inactivity scores have all grown by the same number of entries and stay
/// index-aligned.
pub proof fn lemma_deposits_keep_alignment(s: StateView, ds: Seq<Deposit>, spec: ChainSpec)
    requires
        s.wf(),
        spec_process_deposits(s, ds, spec) is Ok,
    ensures
        ({
            let s2 = spec_process_deposits(s, ds, spec)->Ok_0;
            let n = s2.validators.len() - s.validators.len();
            &&& s2.wf()
            &&& n >= 0
            &&& s2.balances.len() - s.balances.len() == n
            &&& s.fork == ForkName::Altair ==> {
                &&& s2.previous_epoch_participation.len() - s.previous_epoch_participation.len() == n
                &&& s2.current_epoch_participation.len() - s.current_epoch_participation.len() == n
                &&& s2.inactivity_scores.len() - s.inactivity_scores.len() == n
            }
        }),
{
    lemma_run_deposits_aligned(s, ds, 0, spec);
}

/// A slashing that succeeds leaves the validator marked slashed.
proof fn lemma_slash_marks(s: StateView, index: u64, proposer: u64, spec: ChainSpec)
    requires
        spec_slash_validator(s, index, proposer, spec) is Ok,
    ensures
        index < s.validators.len(),
        spec_slash_validator(s, index, proposer, spec)->Ok_0.validators.len() == s.validators.len(),
        spec_slash_validator(s, index, proposer, spec)->Ok_0.validators[index as int].slashed,
{
    let s1 = spec_initiate_validator_exit(s, index, spec)->Ok_0;
    assert(s1.validators.len() == s.validators.len());
}

/// When the first of two proposer slashings naming the same validator is
/// valid, the pair fails: either slashing that validator fails, or it is
/// slashed once, the second record is rejected with index 1, and the state
/// left behind is the one after the first slashing alone.
pub proof fn lemma_duplicate_proposer_slashing_rejected(
    s: StateView,
    ops: Seq<ProposerSlashing>,
    verify: VerifySignatures,
    proposer: u64,
    spec: ChainSpec,
)
    requires
        ops.len() == 2,
        ops[0].signed_header_1.message.proposer_index == ops[1].signed_header_1.message.proposer_index,
        proposer_slashing_fault(s, ops[0], verify, spec) is None,
    ensures
        run_proposer_slashings(s, ops, 0, verify, proposer, spec) is Err,
        match spec_slash_validator(s, ops[0].signed_header_1.message.proposer_index, proposer, spec) {
            Ok(s1) => {
                &&& s1.validators[ops[0].signed_header_1.message.proposer_index as int].slashed
                &&& proposer_slashing_fault(s1, ops[1], verify, spec) is Some
                &&& run_proposer_slashings(s, ops, 0, verify, proposer, spec) == fail(
                    BlockProcessingError::ProposerSlashingInvalid {
                        index: 1,
                        reason: proposer_slashing_fault(s1, ops[1], verify, spec)->Some_0,
                    },
                    s1,
                )
            },
            Err(f) => run_proposer_slashings(s, ops, 0, verify, proposer, spec) == Err::<
                StateView,
                Failure,
            >(f),
        },
{
    let p = ops[0].signed_header_1.message.proposer_index;
    match spec_slash_validator(s, p, proposer, spec) {
        Ok(s1) => {
            lemma_slash_marks(s, p, proposer, spec);
            assert(run_proposer_slashings(s, ops, 0, verify, proposer, spec) == run_proposer_slashings(s1, ops, 1, verify, proposer, spec));
        },
        Err(f) => {},
    }
}

/// A deposit for an unknown public key with an invalid registration
/// signature only advances the deposit index: no validator and no balance
/// is added.
pub proof fn lemma_deposit_silent_skip(s: StateView, d: Deposit, spec: ChainSpec)
    requires
        find_validator(s.validators, d.pubkey, 0) is None,
        !d.signature_valid,
        s.eth1_deposit_index < u64::MAX,
    ensures
        spec_apply_deposit(s, d, spec) == Ok::<StateView, Failure>(
            StateView { eth1_deposit_index: (s.eth1_deposit_index + 1) as u64, ..s },
        ),
{
}

proof fn lemma_max_exit_epoch_bounds(vals: Seq<Validator>, j: int, far_future: u64)
    requires
        0 <= j < vals.len(),
        vals[j].exit_epoch != far_future,
    ensures
        max_exit_epoch(vals, far_future) >= vals[j].exit_epoch,
    decreases vals.len(),
{
    if j < vals.len() - 1 {
        lemma_max_exit_epoch_bounds(vals.drop_last(), j, far_future);
    }
}

proof fn lemma_exit_count_positive(vals: Seq<Validator>, j: int, far_future: u64)
    requires
        0 <= j < vals.len(),
        vals[j].exit_epoch != far_future,
    ensures
        exit_count(vals, vals[j].exit_epoch, far_future) >= 1,
    decreases vals.len(),
{
    if j < vals.len() - 1 {
        lemma_exit_count_positive(vals.drop_last(), j, far_future);
    }
}

proof fn lemma_active_count_update(vals: Seq<Validator>, j: int, v: Validator, epoch: u64)
    requires
        0 <= j < vals.len(),
        is_active_at(vals[j], epoch) == is_active_at(v, epoch),
    ensures
        active_count(vals.update(j, v), epoch) == active_count(vals, epoch),
    decreases vals.len(),
{
    if j < vals.len() - 1 {
        assert(vals.update(j, v).drop_last() =~= vals.drop_last().update(j, v));
        lemma_active_count_update(vals.drop_last(), j, v, epoch);
    } else {
        assert(vals.update(j, v).drop_last() =~= vals.drop_last());
    }
}

/// With a churn limit of one exit per epoch, two voluntary exits of
/// different validators in one block are scheduled in strictly increasing
/// epochs, and so become withdrawable in strictly increasing epochs. (The
/// configuration uses the all-ones far-future epoch and a positive
/// withdrawability delay.)
pub proof fn lemma_exit_churn_orders_exits(
    s: StateView,
    ops: Seq<SignedVoluntaryExit>,
    verify: VerifySignatures,
    spec: ChainSpec,
)
    requires
        spec.wf(),
        churn_limit(s, spec) == 1,
        spec.far_future_epoch == u64::MAX,
        spec.min_validator_withdrawability_delay > 0,
        ops.len() == 2,
        ops[0].message.validator_index != ops[1].message.validator_index,
        run_exits(s, ops, 0, verify, spec) is Ok,
    ensures
        ({
            let s2 = run_exits(s, ops, 0, verify, spec)->Ok_0;
            let a = s2.validators[ops[0].message.validator_index as int];
            let b = s2.validators[ops[1].message.validator_index as int];
            &&& a.exit_epoch < b.exit_epoch
            &&& a.withdrawable_epoch < b.withdrawable_epoch
        }),
{
    let i0 = ops[0].message.validator_index;
    let i1 = ops[1].message.validator_index;
    let s1 = spec_initiate_validator_exit(s, i0, spec)->Ok_0;
    assert(exit_fault(s, ops[0], verify, spec) is None);
    assert(run_exits(s, ops, 0, verify, spec) == run_exits(s1, ops, 1, verify, spec));
    let s2 = spec_initiate_validator_exit(s1, i1, spec)->Ok_0;
    assert(exit_fault(s1, ops[1], verify, spec) is None);
    assert(run_exits(s1, ops, 1, verify, spec) == run_exits(s2, ops, 2, verify, spec));
    let qa = s1.validators[i0 as int].exit_epoch;
    lemma_active_count_update(s.validators, i0 as int, s1.validators[i0 as int], s.current_epoch(spec));
    assert(s1.validators =~= s.validators.update(i0 as int, s1.validators[i0 as int]));
    assert(churn_limit(s1, spec) == 1);
    assert(qa != spec.far_future_epoch);
    lemma_max_exit_epoch_bounds(s1.validators, i0 as int, spec.far_future_epoch);
    lemma_exit_count_positive(s1.validators, i0 as int, spec.far_future_epoch);
    assert(s2.validators[i0 as int] == s1.validators[i0 as int]);
}

/// The state an outcome ends in, on success or at the failure.
pub open spec fn outcome_state(o: Outcome) -> StateView {
    match o {
        Ok(s) => s,
        Err(f) => f.state,
    }
}

proof fn lemma_legacy_accumulates(
    s: StateView,
    atts: Seq<Attestation>,
    k: int,
    verify: VerifySignatures,
    proposer: u64,
    spec: ChainSpec,
)
    requires
        0 <= k <= atts.len(),
    ensures
        ({
            let s2 = outcome_state(base::run_attestations(s, atts, k, verify, proposer, spec));
            &&& s2.balances == s.balances
            &&& s2.validators == s.validators
            &&& s2.previous_epoch_participation == s.previous_epoch_participation
            &&& s2.current_epoch_participation == s.current_epoch_participation
            &&& s2.previous_epoch_attestations.len() + s2.current_epoch_attestations.len()
                <= s.previous_epoch_attestations.len() + s.current_epoch_attestations.len() + (
            atts.len() - k)
            &&& base::run_attestations(s, atts, k, verify, proposer, spec) is Ok ==> s2.previous_epoch_attestations.len()
                + s2.current_epoch_attestations.len() == s.previous_epoch_attestations.len()
                + s.current_epoch_attestations.len() + (atts.len() - k)
        }),
    decreases atts.len() - k,
{
    if k < atts.len() {
        match base::spec_include_attestation(s, atts[k], k, verify, proposer, spec) {
            Ok(s1) => lemma_legacy_accumulates(s1, atts, k + 1, verify, proposer, spec),
            Err(f) => {},
        }
    }
}

proof fn lemma_flags_keep_records(
    s: StateView,
    atts: Seq<Attestation>,
    k: int,
    verify: VerifySignatures,
    ctxt: ConsensusContext,
    spec: ChainSpec,
    num: u64,
)
    requires
        0 <= k <= atts.len(),
    ensures
        ({
            let s2 = match altair_deneb::run_attestations(s, atts, k, verify, ctxt, spec, num) {
                Ok((s2, n)) => s2,
                Err(f) => f.state,
            };
            &&& s2.previous_epoch_attestations == s.previous_epoch_attestations
            &&& s2.current_epoch_attestations == s.current_epoch_attestations
            &&& s2.balances == s.balances
        }),
    decreases atts.len() - k,
{
    if k < atts.len() {
        match altair_deneb::spec_process_attestation(s, atts[k], k, verify, ctxt, spec, num) {
            Ok((s1, n1)) => lemma_flags_keep_records(s1, atts, k + 1, verify, ctxt, spec, n1),
            Err(f) => {},
        }
    }
}

/// The attestation variant is chosen by the block's fork tag alone. Before
/// Altair, whatever the outcome, no balance, validator or participation
/// flag changes, and a successful run keeps one pending record per
/// attestation. From Altair on, whatever the outcome, no pending record is
/// kept, and a successful run credits the proposer once from the block's
/// numerator.
pub proof fn lemma_fork_dispatch(
    s: StateView,
    body: BeaconBlockBody,
    verify: VerifySignatures,
    ctxt: ConsensusContext,
    spec: ChainSpec,
)
    ensures
        ({
            let o = spec_process_attestations(s, body, verify, ctxt, spec);
            let s2 = outcome_state(o);
            &&& body.fork == ForkName::Base ==> {
                &&& s2.balances == s.balances
                &&& s2.validators == s.validators
                &&& s2.previous_epoch_participation == s.previous_epoch_participation
                &&& s2.current_epoch_participation == s.current_epoch_participation
                &&& o is Ok ==> s2.previous_epoch_attestations.len() + s2.current_epoch_attestations.len()
                    == s.previous_epoch_attestations.len() + s.current_epoch_attestations.len()
                    + body.attestations@.len()
            }
            &&& body.fork == ForkName::Altair ==> {
                &&& o == altair_deneb::spec_process_attestations(s, body.attestations@, verify, ctxt, spec)
                &&& s2.previous_epoch_attestations == s.previous_epoch_attestations
                &&& s2.current_epoch_attestations == s.current_epoch_attestations
            }
        }),
{
    match body.fork {
        ForkName::Base => lemma_legacy_accumulates(
            s,
            body.attestations@,
            0,
            verify,
            ctxt.proposer_index,
            spec,
        ),
        ForkName::Altair => lemma_flags_keep_records(s, body.attestations@, 0, verify, ctxt, spec, 0),
    }
}

/// Deposit proofs are all checked before anything is written: a block with
/// the wrong number of deposits, or with any deposit whose inclusion proof
/// fails, is rejected with the state untouched (the first failing proof is
/// the one reported).
pub proof fn lemma_deposit_checks_precede_writes(s: StateView, ds: Seq<Deposit>, spec: ChainSpec)
    requires
        s.eth1_deposit_index > s.eth1_deposit_count || ds.len() != expected_deposit_count(s, spec)
            || first_bad_proof(ds, 0) is Some,
    ensures
        spec_process_deposits(s, ds, spec) is Err,
        outcome_state(spec_process_deposits(s, ds, spec)) == s,
{
}

} // verus!
