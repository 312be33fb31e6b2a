//! Attestation processing from Altair on: participation flags are set for
//! every attesting validator, and the proposer is paid once per block
//! from the numerator accrued over all the block's attestations.
use vstd::prelude::*;
use crate::common::{agrees, increase_balance, spec_increase_balance, Failure, Outcome};
use crate::process_operations::{attestation_fault, verify_attestation_for_block_inclusion};
use crate::types::{
    Attestation, BeaconState, BlockProcessingError, ChainSpec, ConsensusContext, ForkName,
    StateView, Validator, VerifySignatures, PROPOSER_WEIGHT, TIMELY_HEAD_FLAG_INDEX,
    TIMELY_HEAD_WEIGHT, TIMELY_SOURCE_FLAG_INDEX, TIMELY_SOURCE_WEIGHT, TIMELY_TARGET_FLAG_INDEX,
    TIMELY_TARGET_WEIGHT, WEIGHT_DENOMINATOR,
};

verus! {

/// The divisor of the proposer's reward, each division floored in this
/// order.
pub open spec fn proposer_reward_denominator() -> u64 {
    ((WEIGHT_DENOMINATOR - PROPOSER_WEIGHT) * WEIGHT_DENOMINATOR / (PROPOSER_WEIGHT as int)) as u64
}

/// Which flags an attestation earns: its delay, its vote quality.
pub struct EarnedFlags {
    pub source: bool,
    pub target: bool,
    pub head: bool,
}

/// The flags earned by a valid attestation included `delay` slots late:
/// a timely source within the square root of the epoch length, a matching
/// target at any delay, a matching head only at the minimum delay.
pub open spec fn earned_flags(att: Attestation, delay: u64, spec: ChainSpec) -> EarnedFlags {
    let target = att.matching_source && att.matching_target;
    EarnedFlags {
        source: att.matching_source && delay * delay <= spec.slots_per_epoch,
        target: target,
        head: target && att.matching_head && delay == spec.min_attestation_inclusion_delay,
    }
}

/// The base reward of a validator: its effective balance in increments
/// times the reward per increment; `None` on overflow.
pub open spec fn base_reward(v: Validator, per_increment: u64, spec: ChainSpec) -> Option<u64> {
    let r = (v.effective_balance / spec.effective_balance_increment) * per_increment;
    if r > u64::MAX {
        None
    } else {
        Some(r as u64)
    }
}

pub open spec fn has_flag(p: u8, f: u8) -> bool {
    p & (1u8 << f) != 0
}

pub open spec fn add_flag(p: u8, f: u8) -> u8 {
    p | (1u8 << f)
}

/// What a participation update carries along: the flags of the target
/// epoch, the proposer's reward numerator and the target-attesting balance
/// kept for epoch processing.
pub type Tally = (Seq<u8>, u64, u64);

/// A tally reached, or an error with the tally as it stood when raised.
pub type TallyOutcome = Result<Tally, (BlockProcessingError, Tally)>;

/// One flag of one validator: when earned and not yet set it is set, and
/// the validator's base reward times the flag's weight is added to the
/// proposer's numerator; setting the target flag of a validator that is not
/// slashed adds its effective balance to the target-attesting balance.
pub open spec fn flag_step(
    vals: Seq<Validator>,
    t: Tally,
    index: u64,
    f: u8,
    weight: u64,
    earned: bool,
    per_increment: u64,
    spec: ChainSpec,
) -> TallyOutcome {
    let (part, num, tb) = t;
    if index >= part.len() {
        Err((BlockProcessingError::ParticipationOutOfBounds { index }, t))
    } else if earned && !has_flag(part[index as int], f) {
        if index >= vals.len() {
            Err((BlockProcessingError::UnknownValidator { index }, t))
        } else {
            let v = vals[index as int];
            let added = if f == TIMELY_TARGET_FLAG_INDEX && !v.slashed {
                v.effective_balance
            } else {
                0
            };
            match base_reward(v, per_increment, spec) {
                None => Err((BlockProcessingError::ArithError, t)),
                Some(br) => if br * weight > u64::MAX || num + br * weight > u64::MAX || tb + added
                    > u64::MAX {
                    Err((BlockProcessingError::ArithError, t))
                } else {
                    Ok(
                        (
                            part.update(index as int, add_flag(part[index as int], f)),
                            (num + br * weight) as u64,
                            (tb + added) as u64,
                        ),
                    )
                },
            }
        }
    } else {
        Ok(t)
    }
}

/// The three flags of validator `index`, in flag order.
pub open spec fn validator_step(
    vals: Seq<Validator>,
    t: Tally,
    index: u64,
    flags: EarnedFlags,
    per_increment: u64,
    spec: ChainSpec,
) -> TallyOutcome {
    match flag_step(vals, t, index, TIMELY_SOURCE_FLAG_INDEX, TIMELY_SOURCE_WEIGHT, flags.source, per_increment, spec) {
        Err(e) => Err(e),
        Ok(t1) => match flag_step(vals, t1, index, TIMELY_TARGET_FLAG_INDEX, TIMELY_TARGET_WEIGHT, flags.target, per_increment, spec) {
            Err(e) => Err(e),
            Ok(t2) => flag_step(vals, t2, index, TIMELY_HEAD_FLAG_INDEX, TIMELY_HEAD_WEIGHT, flags.head, per_increment, spec),
        },
    }
}

/// The attesting validators `idx[k..]` processed in order.
pub open spec fn run_participation(
    vals: Seq<Validator>,
    t: Tally,
    idx: Seq<u64>,
    k: int,
    flags: EarnedFlags,
    per_increment: u64,
    spec: ChainSpec,
) -> TallyOutcome
    decreases idx.len() - k,
{
    if k < 0 || k >= idx.len() {
        Ok(t)
    } else {
        match validator_step(vals, t, idx[k], flags, per_increment, spec) {
            Err(e) => Err(e),
            Ok(t1) => run_participation(vals, t1, idx, k + 1, flags, per_increment, spec),
        }
    }
}

/// The participation tally of the epoch that an attestation targets.
pub open spec fn start_tally(s: StateView, current: bool, num: u64) -> Tally {
    if current {
        (s.current_epoch_participation, num, s.current_epoch_target_attesting_balance)
    } else {
        (s.previous_epoch_participation, num, s.previous_epoch_target_attesting_balance)
    }
}

/// `s` with the flags and target-attesting balance of tally `t` written
/// back to the current or previous epoch.
pub open spec fn with_tally(s: StateView, current: bool, t: Tally) -> StateView {
    if current {
        StateView { current_epoch_participation: t.0, current_epoch_target_attesting_balance: t.2, ..s }
    } else {
        StateView { previous_epoch_participation: t.0, previous_epoch_target_attesting_balance: t.2, ..s }
    }
}

/// A state and the proposer's reward numerator, or the failure.
pub type Accrual = Result<(StateView, u64), Failure>;

/// Processes attestation `att`, found at position `k` of its list, with the
/// proposer's numerator at `num`: the flags it earns are set in the
/// participation of its target epoch and their rewards added to the
/// numerator. No balance is paid here.
pub open spec fn spec_process_attestation(
    s: StateView,
    att: Attestation,
    k: int,
    verify: VerifySignatures,
    ctxt: ConsensusContext,
    spec: ChainSpec,
    num: u64,
) -> Accrual {
    match attestation_fault(s, att, verify, spec) {
        Some(reason) => Err(
            Failure {
                error: BlockProcessingError::AttestationInvalid { index: k as usize, reason },
                state: s,
            },
        ),
        None => if s.fork != ForkName::Altair {
            Err(Failure { error: BlockProcessingError::IncorrectStateVariant, state: s })
        } else {
            let current = att.data.target_epoch == s.current_epoch(spec);
            let flags = earned_flags(att, (s.slot - att.data.slot) as u64, spec);
            match run_participation(
                s.validators,
                start_tally(s, current, num),
                att.attesting_indices@,
                0,
                flags,
                ctxt.base_reward_per_increment,
                spec,
            ) {
                Err((e, t)) => Err(Failure { error: e, state: with_tally(s, current, t) }),
                Ok(t) => Ok((with_tally(s, current, t), t.1)),
            }
        },
    }
}

/// Attestations `atts[k..]` processed on `s` in order, the numerator
/// carried from one to the next.
pub open spec fn run_attestations(
    s: StateView,
    atts: Seq<Attestation>,
    k: int,
    verify: VerifySignatures,
    ctxt: ConsensusContext,
    spec: ChainSpec,
    num: u64,
) -> Accrual
    decreases atts.len() - k,
{
    if k < 0 || k >= atts.len() {
        Ok((s, num))
    } else {
        match spec_process_attestation(s, atts[k], k, verify, ctxt, spec, num) {
            Err(f) => Err(f),
            Ok((s1, n1)) => run_attestations(s1, atts, k + 1, verify, ctxt, spec, n1),
        }
    }
}

/// Outcome of `process_attestations`: all attestations are processed with
/// one numerator for the block, then the proposer is credited
/// `numerator / denominator`, floored once.
pub open spec fn spec_process_attestations(
    s: StateView,
    atts: Seq<Attestation>,
    verify: VerifySignatures,
    ctxt: ConsensusContext,
    spec: ChainSpec,
) -> Outcome {
    match run_attestations(s, atts, 0, verify, ctxt, spec, 0) {
        Err(f) => Err(f),
        Ok((s1, num)) => spec_increase_balance(
            s1,
            ctxt.proposer_index,
            (num / proposer_reward_denominator()) as u64,
        ),
    }
}

fn apply_flag(
    part: &mut Vec<u8>,
    target_balance: &mut u64,
    vals: &Vec<Validator>,
    num: u64,
    index: u64,
    f: u8,
    weight: u64,
    earned: bool,
    per_increment: u64,
    spec: &ChainSpec,
) -> (r: Result<u64, BlockProcessingError>)
    requires
        spec.wf(),
        f < 8,
    ensures
        match flag_step(vals@, (old(part)@, num, *old(target_balance)), index, f, weight, earned, per_increment, *spec) {
            Ok((p, n, tb)) => r == Ok::<u64, BlockProcessingError>(n) && final(part)@ == p
                && *final(target_balance) == tb,
            Err((e, (p, n, tb))) => r == Err::<u64, BlockProcessingError>(e) && final(part)@ == p
                && *final(target_balance) == tb,
        },
{
    if index >= part.len() as u64 {
        return Err(BlockProcessingError::ParticipationOutOfBounds { index });
    }
    let i = index as usize;
    let p = part[i];
    if earned && p & (1u8 << f) == 0 {
        if index >= vals.len() as u64 {
            return Err(BlockProcessingError::UnknownValidator { index });
        }
        let v = vals[i];
        let increments = v.effective_balance / spec.effective_balance_increment;
        if per_increment != 0 && increments > u64::MAX / per_increment {
            assert(increments * per_increment > u64::MAX) by (nonlinear_arith)
                requires
                    per_increment != 0,
                    increments > u64::MAX / per_increment,
            ;
            return Err(BlockProcessingError::ArithError);
        }
        assert(increments * per_increment <= u64::MAX) by (nonlinear_arith)
            requires
                per_increment == 0 || increments <= u64::MAX / per_increment,
        ;
        let br = increments * per_increment;
        if weight != 0 && br > u64::MAX / weight {
            assert(br * weight > u64::MAX) by (nonlinear_arith)
                requires
                    weight != 0,
                    br > u64::MAX / weight,
            ;
            return Err(BlockProcessingError::ArithError);
        }
        assert(br * weight <= u64::MAX) by (nonlinear_arith)
            requires
                weight == 0 || br <= u64::MAX / weight,
        ;
        let reward = br * weight;
        if num > u64::MAX - reward {
            return Err(BlockProcessingError::ArithError);
        }
        let added = if f == TIMELY_TARGET_FLAG_INDEX && !v.slashed {
            v.effective_balance
        } else {
            0
        };
        if *target_balance > u64::MAX - added {
            return Err(BlockProcessingError::ArithError);
        }
        part.set(i, p | (1u8 << f));
        *target_balance = *target_balance + added;
        Ok(num + reward)
    } else {
        Ok(num)
    }
}

fn update_participation(
    part: &mut Vec<u8>,
    target_balance: &mut u64,
    vals: &Vec<Validator>,
    indices: &Vec<u64>,
    source: bool,
    target: bool,
    head: bool,
    num_in: u64,
    per_increment: u64,
    spec: &ChainSpec,
) -> (r: Result<u64, BlockProcessingError>)
    requires
        spec.wf(),
    ensures
        match run_participation(
            vals@,
            (old(part)@, num_in, *old(target_balance)),
            indices@,
            0,
            EarnedFlags { source, target, head },
            per_increment,
            *spec,
        ) {
            Ok((p, n, tb)) => r == Ok::<u64, BlockProcessingError>(n) && final(part)@ == p
                && *final(target_balance) == tb,
            Err((e, (p, n, tb))) => r == Err::<u64, BlockProcessingError>(e) && final(part)@ == p
                && *final(target_balance) == tb,
        },
{
    let ghost flags = EarnedFlags { source, target, head };
    let mut num: u64 = num_in;
    let mut k: usize = 0;
    while k < indices.len()
        invariant
            spec.wf(),
            k <= indices@.len(),
            flags == (EarnedFlags { source, target, head }),
            run_participation(vals@, (old(part)@, num_in, *old(target_balance)), indices@, 0, flags, per_increment, *spec)
                == run_participation(vals@, (part@, num, *target_balance), indices@, k as int, flags, per_increment, *spec),
        decreases indices.len() - k,
    {
        let index = indices[k];
        let n1 = match apply_flag(part, target_balance, vals, num, index, TIMELY_SOURCE_FLAG_INDEX, TIMELY_SOURCE_WEIGHT, source, per_increment, spec) {
            Ok(n) => n,
            Err(e) => {
                return Err(e);
            },
        };
        let n2 = match apply_flag(part, target_balance, vals, n1, index, TIMELY_TARGET_FLAG_INDEX, TIMELY_TARGET_WEIGHT, target, per_increment, spec) {
            Ok(n) => n,
            Err(e) => {
                return Err(e);
            },
        };
        num = match apply_flag(part, target_balance, vals, n2, index, TIMELY_HEAD_FLAG_INDEX, TIMELY_HEAD_WEIGHT, head, per_increment, spec) {
            Ok(n) => n,
            Err(e) => {
                return Err(e);
            },
        };
        k += 1;
    }
    Ok(num)
}

/// Validates one attestation, sets the participation flags it earns for
/// each attesting validator in the epoch it targets, and adds their rewards
/// to the block's proposer-reward numerator. The proposer is paid by
/// `process_attestations`, once for the block.
pub fn process_attestation(
    state: &mut BeaconState,
    attestation: &Attestation,
    att_index: usize,
    ctxt: &mut ConsensusContext,
    verify_signatures: VerifySignatures,
    spec: &ChainSpec,
    proposer_reward_numerator: &mut u64,
) -> (r: Result<(), BlockProcessingError>)
    requires
        spec.wf(),
    ensures
        *final(ctxt) == *old(ctxt),
        match spec_process_attestation(
            old(state)@,
            *attestation,
            att_index as int,
            verify_signatures,
            *old(ctxt),
            *spec,
            *old(proposer_reward_numerator),
        ) {
            Ok((s, n)) => r is Ok && final(state)@ == s && *final(proposer_reward_numerator) == n,
            Err(f) => r == Err::<(), BlockProcessingError>(f.error) && final(state)@ == f.state,
        },
{
    if let Some(reason) = verify_attestation_for_block_inclusion(state, attestation, verify_signatures, spec) {
        return Err(BlockProcessingError::AttestationInvalid { index: att_index, reason });
    }
    match state.fork {
        ForkName::Altair => {},
        ForkName::Base => {
            return Err(BlockProcessingError::IncorrectStateVariant);
        },
    }
    let data = attestation.data;
    let delay = state.slot - data.slot;
    assert((delay as u128) * (delay as u128) <= u128::MAX) by (nonlinear_arith)
        requires delay <= u64::MAX;
    let source = attestation.matching_source && (delay as u128) * (delay as u128) <= spec.slots_per_epoch as u128;
    let target = attestation.matching_source && attestation.matching_target;
    let head = target && attestation.matching_head && delay == spec.min_attestation_inclusion_delay;
    let ghost s0 = state@;
    let current = data.target_epoch == state.slot / spec.slots_per_epoch;
    let numerator = if current {
        update_participation(
            &mut state.current_epoch_participation,
            &mut state.current_epoch_target_attesting_balance,
            &state.validators,
            &attestation.attesting_indices,
            source,
            target,
            head,
            *proposer_reward_numerator,
            ctxt.base_reward_per_increment,
            spec,
        )
    } else {
        update_participation(
            &mut state.previous_epoch_participation,
            &mut state.previous_epoch_target_attesting_balance,
            &state.validators,
            &attestation.attesting_indices,
            source,
            target,
            head,
            *proposer_reward_numerator,
            ctxt.base_reward_per_increment,
            spec,
        )
    };
    let ghost s1 = state@;
    assert(s1 =~= with_tally(
        s0,
        current,
        if current {
            (s1.current_epoch_participation, 0u64, s1.current_epoch_target_attesting_balance)
        } else {
            (s1.previous_epoch_participation, 0u64, s1.previous_epoch_target_attesting_balance)
        },
    ));
    match numerator {
        Ok(n) => {
            *proposer_reward_numerator = n;
            Ok(())
        },
        Err(e) => Err(e),
    }
}

/// Processes the attestations one after the other with one numerator for
/// the block, then credits the proposer `numerator / denominator`, floored
/// once.
pub fn process_attestations(
    state: &mut BeaconState,
    attestations: &[Attestation],
    verify_signatures: VerifySignatures,
    ctxt: &mut ConsensusContext,
    spec: &ChainSpec,
) -> (r: Result<(), BlockProcessingError>)
    requires
        spec.wf(),
    ensures
        *final(ctxt) == *old(ctxt),
        agrees(
            r,
            final(state)@,
            spec_process_attestations(old(state)@, attestations@, verify_signatures, *old(ctxt), *spec),
        ),
{
    let mut numerator: u64 = 0;
    let mut i: usize = 0;
    while i < attestations.len()
        invariant
            spec.wf(),
            i <= attestations@.len(),
            *ctxt == *old(ctxt),
            run_attestations(old(state)@, attestations@, 0, verify_signatures, *old(ctxt), *spec, 0)
                == run_attestations(state@, attestations@, i as int, verify_signatures, *old(ctxt), *spec, numerator),
        decreases attestations.len() - i,
    {
        if let Err(e) = process_attestation(state, &attestations[i], i, ctxt, verify_signatures, spec, &mut numerator) {
            return Err(e);
        }
        i += 1;
    }
    let denominator = (WEIGHT_DENOMINATOR - PROPOSER_WEIGHT) * WEIGHT_DENOMINATOR / PROPOSER_WEIGHT;
    increase_balance(state, ctxt.proposer_index, numerator / denominator)
}

} // verus!
