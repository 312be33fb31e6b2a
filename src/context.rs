//! Building the block-scoped consensus context: the base reward per
//! increment is derived once per block from the total active balance.
use vstd::prelude::*;
use crate::common::is_active_at;
use crate::types::{BeaconState, BlockProcessingError, ChainSpec, ConsensusContext, Validator};

verus! {

/// Sum of the effective balances of the validators of `vals` active at
/// `epoch`.
pub open spec fn active_balance_sum(vals: Seq<Validator>, epoch: u64) -> nat
    decreases vals.len(),
{
    if vals.len() == 0 {
        0
    } else {
        active_balance_sum(vals.drop_last(), epoch) + if is_active_at(vals.last(), epoch) {
            vals.last().effective_balance as nat
        } else {
            0nat
        }
    }
}

/// The total active balance, never below one increment.
pub open spec fn total_active_balance(s: BeaconState, spec: ChainSpec) -> nat {
    let sum = active_balance_sum(s@.validators, s@.current_epoch(spec));
    if sum > spec.effective_balance_increment {
        sum
    } else {
        spec.effective_balance_increment as nat
    }
}

/// `r` is the integer square root of `n`.
pub open spec fn is_root(r: nat, n: nat) -> bool {
    r * r <= n && n < (r + 1) * (r + 1)
}

/// The integer square root of `n`: the largest `r` with `r * r <= n`.
pub open spec fn integer_sqrt(n: nat) -> nat {
    choose|r: nat| #[trigger] is_root(r, n)
}

proof fn lemma_integer_sqrt(r: nat, n: nat)
    requires
        r * r <= n < (r + 1) * (r + 1),
    ensures
        integer_sqrt(n) == r,
{
    assert(is_root(r, n));
    let q = integer_sqrt(n);
    assert(is_root(q, n));
    if q < r {
        assert((q + 1) * (q + 1) <= r * r) by (nonlinear_arith)
            requires q < r;
    } else if q > r {
        assert((r + 1) * (r + 1) <= q * q) by (nonlinear_arith)
            requires q > r;
    }
}

/// The reward per increment of effective balance: the increment times the
/// base reward factor, over the square root of the total active balance.
pub open spec fn base_reward_per_increment(total: nat, spec: ChainSpec) -> nat {
    (spec.effective_balance_increment * spec.base_reward_factor) as nat / integer_sqrt(total)
}

fn sqrt_u64(n: u64) -> (r: u64)
    ensures
        is_root(r as nat, n as nat),
        r as nat == integer_sqrt(n as nat),
{
    let mut lo: u64 = 0;
    let mut hi: u64 = 4294967296;
    assert(n < 4294967296 * 4294967296) by (nonlinear_arith)
        requires n <= u64::MAX;
    while hi - lo > 1
        invariant
            lo < hi <= 4294967296,
            lo * lo <= n,
            n < hi * hi,
        decreases hi - lo,
    {
        let mid = lo + (hi - lo) / 2;
        assert(mid * mid <= 4294967296 * 4294967296) by (nonlinear_arith)
            requires mid <= 4294967296;
        if (mid as u128) * (mid as u128) <= n as u128 {
            lo = mid;
        } else {
            hi = mid;
        }
    }
    assert(hi == lo + 1);
    assert(is_root(lo as nat, n as nat));
    proof {
        lemma_integer_sqrt(lo as nat, n as nat);
    }
    lo
}

impl ConsensusContext {
    /// The context of a block proposed by `proposer_index`: the base reward
    /// per increment is computed here, once, from the state's total active
    /// balance. Fails when the sum or the product overflows.
    pub fn new(state: &BeaconState, proposer_index: u64, spec: &ChainSpec) -> (r: Result<
        ConsensusContext,
        BlockProcessingError,
    >)
        requires
            spec.wf(),
        ensures
            ({
                let total = total_active_balance(*state, *spec);
                let product = spec.effective_balance_increment * spec.base_reward_factor;
                match r {
                    Ok(c) => total <= u64::MAX && product <= u64::MAX && c.proposer_index
                        == proposer_index && c.base_reward_per_increment == base_reward_per_increment(
                        total,
                        *spec,
                    ),
                    Err(e) => e == BlockProcessingError::ArithError && (total > u64::MAX
                        || product > u64::MAX),
                }
            }),
    {
        let epoch = state.slot / spec.slots_per_epoch;
        let n = state.validators.len();
        let mut sum: u64 = 0;
        let mut j: usize = 0;
        while j < n
            invariant
                n == state.validators.len(),
                j <= n,
                epoch == state@.current_epoch(*spec),
                sum == active_balance_sum(state.validators@.take(j as int), epoch),
            decreases n - j,
        {
            assert(state.validators@.take(j + 1).drop_last() =~= state.validators@.take(j as int));
            let v = state.validators[j];
            if v.activation_epoch <= epoch && epoch < v.exit_epoch {
                if sum > u64::MAX - v.effective_balance {
                    proof {
                        lemma_sum_grows(state.validators@, j as int + 1, n as int, epoch);
                    }
                    assert(state.validators@.take(n as int) =~= state.validators@);
                    assert(active_balance_sum(state.validators@.take(j + 1), epoch) > u64::MAX);
                    return Err(BlockProcessingError::ArithError);
                }
                sum = sum + v.effective_balance;
            }
            j += 1;
        }
        assert(state.validators@.take(n as int) =~= state.validators@);
        let total = if sum > spec.effective_balance_increment {
            sum
        } else {
            spec.effective_balance_increment
        };
        let inc = spec.effective_balance_increment;
        let factor = spec.base_reward_factor;
        if factor != 0 && inc > u64::MAX / factor {
            assert(inc * factor > u64::MAX) by (nonlinear_arith)
                requires factor != 0, inc > u64::MAX / factor;
            return Err(BlockProcessingError::ArithError);
        }
        assert(inc * factor <= u64::MAX) by (nonlinear_arith)
            requires factor == 0 || inc <= u64::MAX / factor;
        let root = sqrt_u64(total);
        assert(root > 0) by (nonlinear_arith)
            requires is_root(root as nat, total as nat), total >= 1;
        Ok(ConsensusContext { proposer_index, base_reward_per_increment: inc * factor / root })
    }
}

proof fn lemma_sum_grows(vals: Seq<Validator>, j: int, m: int, epoch: u64)
    requires
        0 <= j <= m <= vals.len(),
    ensures
        active_balance_sum(vals.take(m), epoch) >= active_balance_sum(vals.take(j), epoch),
    decreases m - j,
{
    if m > j {
        lemma_sum_grows(vals, j, m - 1, epoch);
        assert(vals.take(m).drop_last() =~= vals.take(m - 1));
    }
}

} // verus!
