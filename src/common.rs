//! Validator lifecycle helpers shared by the processors: balance changes,
//! exit initiation and slashing. Every arithmetic step is checked.
use vstd::prelude::*;
use crate::types::{
    BeaconState, BlockProcessingError, ChainSpec, ForkName, StateView, Validator,
    PROPOSER_WEIGHT, WEIGHT_DENOMINATOR,
};

verus! {

/// A failed operation: the error, and the state as it stands when the
/// error is raised (what was written before it included).
pub struct Failure {
    pub error: BlockProcessingError,
    pub state: StateView,
}

/// The outcome of a transition: the state reached, or the failure.
pub type Outcome = Result<StateView, Failure>;

pub open spec fn fail(error: BlockProcessingError, state: StateView) -> Outcome {
    Err(Failure { error, state })
}

/// Whether the result `r` of a call that mutated a state into `post`
/// agrees with the `expected` outcome: on success the state is the expected
/// one; on failure the error is the expected one and the state is the one
/// the failure was raised in.
pub open spec fn agrees<T>(r: Result<T, BlockProcessingError>, post: StateView, expected: Outcome) -> bool {
    match expected {
        Ok(s) => r is Ok && post == s,
        Err(f) => r == Err::<T, BlockProcessingError>(f.error) && post == f.state,
    }
}

pub open spec fn with_balances(s: StateView, b: Seq<u64>) -> StateView {
    StateView { balances: b, ..s }
}

pub open spec fn with_validators(s: StateView, v: Seq<Validator>) -> StateView {
    StateView { validators: v, ..s }
}

pub open spec fn spec_increase_balance(s: StateView, index: u64, delta: u64) -> Outcome {
    if index >= s.balances.len() {
        fail(BlockProcessingError::UnknownValidator { index }, s)
    } else if s.balances[index as int] + delta > u64::MAX {
        fail(BlockProcessingError::ArithError, s)
    } else {
        Ok(with_balances(s, s.balances.update(index as int, (s.balances[index as int] + delta) as u64)))
    }
}

pub open spec fn spec_decrease_balance(s: StateView, index: u64, delta: u64) -> Outcome {
    if index >= s.balances.len() {
        fail(BlockProcessingError::UnknownValidator { index }, s)
    } else {
        let b = s.balances[index as int];
        Ok(with_balances(s, s.balances.update(index as int, if b > delta { (b - delta) as u64 } else { 0 })))
    }
}

/// Adds `delta` to the balance of validator `index`.
pub fn increase_balance(state: &mut BeaconState, index: u64, delta: u64) -> (r: Result<
    (),
    BlockProcessingError,
>)
    ensures
        agrees(r, final(state)@, spec_increase_balance(old(state)@, index, delta)),
{
    if index >= state.balances.len() as u64 {
        return Err(BlockProcessingError::UnknownValidator { index });
    }
    let i = index as usize;
    let b = state.balances[i];
    if b > u64::MAX - delta {
        return Err(BlockProcessingError::ArithError);
    }
    state.balances.set(i, b + delta);
    assert(state@ =~= with_balances(old(state)@, old(state)@.balances.update(i as int, (b + delta) as u64)));
    Ok(())
}

/// Subtracts `delta` from the balance of validator `index`, stopping at zero.
pub fn decrease_balance(state: &mut BeaconState, index: u64, delta: u64) -> (r: Result<
    (),
    BlockProcessingError,
>)
    ensures
        agrees(r, final(state)@, spec_decrease_balance(old(state)@, index, delta)),
{
    if index >= state.balances.len() as u64 {
        return Err(BlockProcessingError::UnknownValidator { index });
    }
    let i = index as usize;
    let b = state.balances[i];
    let nb = if b > delta { b - delta } else { 0 };
    state.balances.set(i, nb);
    assert(state@ =~= with_balances(old(state)@, old(state)@.balances.update(i as int, nb)));
    Ok(())
}

pub open spec fn is_active_at(v: Validator, epoch: u64) -> bool {
    v.activation_epoch <= epoch && epoch < v.exit_epoch
}

pub open spec fn is_slashable_at(v: Validator, epoch: u64) -> bool {
    !v.slashed && v.activation_epoch <= epoch && epoch < v.withdrawable_epoch
}

/// The latest scheduled exit epoch among `vals`, or 0 when none is scheduled.
pub open spec fn max_exit_epoch(vals: Seq<Validator>, far_future: u64) -> u64
    decreases vals.len(),
{
    if vals.len() == 0 {
        0
    } else {
        let m = max_exit_epoch(vals.drop_last(), far_future);
        let e = vals.last().exit_epoch;
        if e != far_future && e > m {
            e
        } else {
            m
        }
    }
}

/// How many of `vals` are scheduled to exit at `epoch`.
pub open spec fn exit_count(vals: Seq<Validator>, epoch: u64, far_future: u64) -> nat
    decreases vals.len(),
{
    if vals.len() == 0 {
        0
    } else {
        exit_count(vals.drop_last(), epoch, far_future) + if vals.last().exit_epoch == epoch
            && epoch != far_future {
            1nat
        } else {
            0nat
        }
    }
}

/// How many of `vals` are active at `epoch`.
pub open spec fn active_count(vals: Seq<Validator>, epoch: u64) -> nat
    decreases vals.len(),
{
    if vals.len() == 0 {
        0
    } else {
        active_count(vals.drop_last(), epoch) + if is_active_at(vals.last(), epoch) {
            1nat
        } else {
            0nat
        }
    }
}

/// Exits that may be scheduled for one epoch on `s`: the active set's size
/// divided by the churn quotient, and never below the minimum.
pub open spec fn churn_limit(s: StateView, spec: ChainSpec) -> nat {
    let by_size = active_count(s.validators, s.current_epoch(spec)) / (spec.churn_limit_quotient as nat);
    if by_size > spec.min_per_epoch_churn_limit {
        by_size
    } else {
        spec.min_per_epoch_churn_limit as nat
    }
}

/// The epoch from which a change made now takes effect.
pub open spec fn activation_exit_epoch(s: StateView, spec: ChainSpec) -> int {
    s.current_epoch(spec) + 1 + spec.max_seed_lookahead
}

/// The first epoch at or after both the latest scheduled exit and the
/// activation-exit epoch, before the churn check.
pub open spec fn exit_queue_start(s: StateView, spec: ChainSpec) -> u64 {
    let a = activation_exit_epoch(s, spec) as u64;
    let m = max_exit_epoch(s.validators, spec.far_future_epoch);
    if m > a {
        m
    } else {
        a
    }
}

/// Schedules the exit of validator `index` under the churn limit; a
/// validator whose exit is already scheduled is left as it is.
pub open spec fn spec_initiate_validator_exit(s: StateView, index: u64, spec: ChainSpec) -> Outcome {
    if index >= s.validators.len() {
        fail(BlockProcessingError::UnknownValidator { index }, s)
    } else if s.validators[index as int].exit_epoch != spec.far_future_epoch {
        Ok(s)
    } else if activation_exit_epoch(s, spec) > u64::MAX {
        fail(BlockProcessingError::ArithError, s)
    } else {
        let q0 = exit_queue_start(s, spec);
        let full = exit_count(s.validators, q0, spec.far_future_epoch) >= churn_limit(s, spec);
        let q = if full { q0 + 1 } else { q0 as int };
        if q + spec.min_validator_withdrawability_delay > u64::MAX {
            fail(BlockProcessingError::ArithError, s)
        } else {
            let v = s.validators[index as int];
            let nv = Validator {
                exit_epoch: q as u64,
                withdrawable_epoch: (q + spec.min_validator_withdrawability_delay) as u64,
                ..v
            };
            Ok(with_validators(s, s.validators.update(index as int, nv)))
        }
    }
}

fn current_epoch(state: &BeaconState, spec: &ChainSpec) -> (e: u64)
    requires
        spec.wf(),
    ensures
        e == state@.current_epoch(*spec),
{
    state.slot / spec.slots_per_epoch
}

/// Initiates the exit of validator `index`: the exit is scheduled for the
/// first epoch with room under the churn limit, and withdrawability follows
/// after the withdrawability delay.
pub fn initiate_validator_exit(state: &mut BeaconState, index: u64, spec: &ChainSpec) -> (r:
    Result<(), BlockProcessingError>)
    requires
        spec.wf(),
    ensures
        agrees(r, final(state)@, spec_initiate_validator_exit(old(state)@, index, *spec)),
{
    if index >= state.validators.len() as u64 {
        return Err(BlockProcessingError::UnknownValidator { index });
    }
    let i = index as usize;
    let ffe = spec.far_future_epoch;
    if state.validators[i].exit_epoch != ffe {
        return Ok(());
    }
    let epoch = current_epoch(state, spec);
    if epoch > u64::MAX - 1 || epoch + 1 > u64::MAX - spec.max_seed_lookahead {
        return Err(BlockProcessingError::ArithError);
    }
    let a = epoch + 1 + spec.max_seed_lookahead;
    let n = state.validators.len();
    let mut m: u64 = 0;
    let mut j: usize = 0;
    while j < n
        invariant
            n == state.validators.len(),
            j <= n,
            m == max_exit_epoch(state.validators@.take(j as int), ffe),
        decreases n - j,
    {
        let e = state.validators[j].exit_epoch;
        assert(state.validators@.take(j + 1).drop_last() =~= state.validators@.take(j as int));
        if e != ffe && e > m {
            m = e;
        }
        j += 1;
    }
    assert(state.validators@.take(n as int) =~= state.validators@);
    let q0 = if m > a { m } else { a };
    let mut c: u64 = 0;
    let mut j: usize = 0;
    while j < n
        invariant
            n == state.validators.len(),
            j <= n,
            c == exit_count(state.validators@.take(j as int), q0, ffe),
            c <= j,
        decreases n - j,
    {
        assert(state.validators@.take(j + 1).drop_last() =~= state.validators@.take(j as int));
        if state.validators[j].exit_epoch == q0 && q0 != ffe {
            c += 1;
        }
        j += 1;
    }
    let mut active: u64 = 0;
    let mut j: usize = 0;
    while j < n
        invariant
            n == state.validators.len(),
            j <= n,
            epoch == state@.current_epoch(*spec),
            active == active_count(state.validators@.take(j as int), epoch),
            active <= j,
        decreases n - j,
    {
        assert(state.validators@.take(j + 1).drop_last() =~= state.validators@.take(j as int));
        let v = state.validators[j];
        if v.activation_epoch <= epoch && epoch < v.exit_epoch {
            active += 1;
        }
        j += 1;
    }
    assert(state.validators@.take(n as int) =~= state.validators@);
    let by_size = active / spec.churn_limit_quotient;
    let limit = if by_size > spec.min_per_epoch_churn_limit {
        by_size
    } else {
        spec.min_per_epoch_churn_limit
    };
    let q = if c >= limit {
        if q0 == u64::MAX {
            return Err(BlockProcessingError::ArithError);
        }
        q0 + 1
    } else {
        q0
    };
    if q > u64::MAX - spec.min_validator_withdrawability_delay {
        return Err(BlockProcessingError::ArithError);
    }
    let mut v = state.validators[i];
    v.exit_epoch = q;
    v.withdrawable_epoch = q + spec.min_validator_withdrawability_delay;
    let ghost s0 = state@;
    state.validators.set(i, v);
    assert(state@ =~= with_validators(s0, s0.validators.update(i as int, v)));
    Ok(())
}

/// Slashes validator `index` with the block proposer as whistleblower:
/// its exit is initiated, it is marked slashed, its withdrawability is
/// pushed back by the slashings vector, its effective balance is added to
/// this epoch's slashings entry, a penalty is taken from its balance
/// and the whistleblower reward is paid to the proposer.
pub open spec fn spec_slash_validator(s: StateView, index: u64, proposer: u64, spec: ChainSpec) -> Outcome {
    match spec_initiate_validator_exit(s, index, spec) {
        Err(e) => Err(e),
        Ok(s1) => {
            let v = s1.validators[index as int];
            let epoch = s1.current_epoch(spec);
            if epoch + spec.epochs_per_slashings_vector > u64::MAX {
                fail(BlockProcessingError::ArithError, s1)
            } else {
                let w = (epoch + spec.epochs_per_slashings_vector) as u64;
                let nv = Validator {
                    slashed: true,
                    withdrawable_epoch: if v.withdrawable_epoch > w { v.withdrawable_epoch } else { w },
                    ..v
                };
                let s2 = with_validators(s1, s1.validators.update(index as int, nv));
                let slot = (epoch % spec.epochs_per_slashings_vector) as u64;
                let penalty = (v.effective_balance / spec.min_slashing_penalty_quotient) as u64;
                let wr = (v.effective_balance / spec.whistleblower_reward_quotient) as u64;
                if slot >= s2.slashings.len() {
                    fail(BlockProcessingError::SlashingsOutOfBounds { index: slot }, s2)
                } else if s2.slashings[slot as int] + v.effective_balance > u64::MAX {
                    fail(BlockProcessingError::ArithError, s2)
                } else {
                let s2 = StateView {
                    slashings: s2.slashings.update(
                        slot as int,
                        (s2.slashings[slot as int] + v.effective_balance) as u64,
                    ),
                    ..s2
                };
                match spec_decrease_balance(s2, index, penalty) {
                    Err(e) => Err(e),
                    Ok(s3) => {
                        if s.fork == ForkName::Altair && wr * PROPOSER_WEIGHT > u64::MAX {
                            fail(BlockProcessingError::ArithError, s3)
                        } else {
                            let pr = proposer_share(wr, s.fork, spec);
                            match spec_increase_balance(s3, proposer, pr) {
                                Err(e) => Err(e),
                                Ok(s4) => spec_increase_balance(s4, proposer, (wr - pr) as u64),
                            }
                        }
                    },
                }
                }
            }
        },
    }
}

/// The proposer's part of a whistleblower reward.
pub open spec fn proposer_share(wr: u64, fork: ForkName, spec: ChainSpec) -> u64 {
    if fork == ForkName::Base {
        (wr / spec.proposer_reward_quotient) as u64
    } else {
        (wr * PROPOSER_WEIGHT / (WEIGHT_DENOMINATOR as int)) as u64
    }
}

/// Slashes validator `index`, paying the whistleblower reward to `proposer`.
pub fn slash_validator(state: &mut BeaconState, index: u64, proposer: u64, spec: &ChainSpec) -> (r:
    Result<(), BlockProcessingError>)
    requires
        spec.wf(),
    ensures
        agrees(r, final(state)@, spec_slash_validator(old(state)@, index, proposer, *spec)),
{
    let ghost s0 = state@;
    if let Err(e) = initiate_validator_exit(state, index, spec) {
        return Err(e);
    }
    let ghost s1 = state@;
    assert(spec_initiate_validator_exit(s0, index, *spec) == Ok::<StateView, Failure>(s1));
    assert(s1.fork == s0.fork && s1.validators.len() == s0.validators.len());
    // The exit above has already rejected an unknown index; the test here
    // lets the conversion to `usize` be checked in range.
    if index >= state.validators.len() as u64 {
        return Err(BlockProcessingError::UnknownValidator { index });
    }
    let i = index as usize;
    let v = state.validators[i];
    let epoch = current_epoch(state, spec);
    if epoch > u64::MAX - spec.epochs_per_slashings_vector {
        return Err(BlockProcessingError::ArithError);
    }
    let w = epoch + spec.epochs_per_slashings_vector;
    let mut nv = v;
    nv.slashed = true;
    nv.withdrawable_epoch = if v.withdrawable_epoch > w { v.withdrawable_epoch } else { w };
    state.validators.set(i, nv);
    assert(state@ =~= with_validators(s1, s1.validators.update(i as int, nv)));
    let slot = epoch % spec.epochs_per_slashings_vector;
    if slot >= state.slashings.len() as u64 {
        return Err(BlockProcessingError::SlashingsOutOfBounds { index: slot });
    }
    let total = state.slashings[slot as usize];
    if total > u64::MAX - v.effective_balance {
        return Err(BlockProcessingError::ArithError);
    }
    let ghost s1b = state@;
    state.slashings.set(slot as usize, total + v.effective_balance);
    let ghost s2 = state@;
    assert(s2 =~= StateView {
        slashings: s1b.slashings.update(slot as int, (total + v.effective_balance) as u64),
        ..s1b
    });
    let penalty = v.effective_balance / spec.min_slashing_penalty_quotient;
    let wr = v.effective_balance / spec.whistleblower_reward_quotient;
    if let Err(e) = decrease_balance(state, index, penalty) {
        return Err(e);
    }
    let ghost s3 = state@;
    assert(spec_decrease_balance(s2, index, penalty) == Ok::<StateView, Failure>(s3));
    let pr = match state.fork {
        ForkName::Base => wr / spec.proposer_reward_quotient,
        ForkName::Altair => {
            if wr > u64::MAX / PROPOSER_WEIGHT {
                assert(wr * PROPOSER_WEIGHT > u64::MAX) by (nonlinear_arith)
                    requires wr > u64::MAX / PROPOSER_WEIGHT;
                return Err(BlockProcessingError::ArithError);
            }
            assert(wr * PROPOSER_WEIGHT <= u64::MAX) by (nonlinear_arith)
                requires wr <= u64::MAX / PROPOSER_WEIGHT;
            wr * PROPOSER_WEIGHT / WEIGHT_DENOMINATOR
        },
    };
    assert(pr == proposer_share(wr, s0.fork, *spec));
    assert(pr <= wr) by (nonlinear_arith)
        requires pr == proposer_share(wr, s0.fork, *spec), spec.proposer_reward_quotient > 0;
    assert(spec_slash_validator(s0, index, proposer, *spec) == match spec_increase_balance(s3, proposer, pr) {
        Err(e) => Err(e),
        Ok(s4) => spec_increase_balance(s4, proposer, (wr - pr) as u64),
    });
    if let Err(e) = increase_balance(state, proposer, pr) {
        return Err(e);
    }
    increase_balance(state, proposer, wr - pr)
}

} // verus!
