//! Data model: configuration, validators, the beacon state and its view,
//! the operation records carried by a block, and the error taxonomy.
use vstd::prelude::*;

verus! {

/// Weight of the "timely source" participation flag.
pub const TIMELY_SOURCE_WEIGHT: u64 = 14;
/// Weight of the "timely target" participation flag.
pub const TIMELY_TARGET_WEIGHT: u64 = 26;
/// Weight of the "timely head" participation flag.
pub const TIMELY_HEAD_WEIGHT: u64 = 14;
/// The share of rewards that goes to the block proposer.
pub const PROPOSER_WEIGHT: u64 = 8;
/// Denominator of all reward weights.
pub const WEIGHT_DENOMINATOR: u64 = 64;
/// Bit position of each participation flag.
pub const TIMELY_SOURCE_FLAG_INDEX: u8 = 0;
pub const TIMELY_TARGET_FLAG_INDEX: u8 = 1;
pub const TIMELY_HEAD_FLAG_INDEX: u8 = 2;
/// Withdrawal-credential prefix of a BLS-key credential.
pub const BLS_WITHDRAWAL_PREFIX: u8 = 0;
/// Withdrawal-credential prefix of an execution-address credential.
pub const ETH1_ADDRESS_WITHDRAWAL_PREFIX: u8 = 1;

/// Protocol era. Base states keep raw attestation records; Altair and later
/// states keep per-validator participation flags and inactivity scores.
#[derive(Clone, Copy, Debug, PartialEq, Eq, Structural)]
pub enum ForkName {
    Base,
    Altair,
}

/// Whether signatures carried by operations are checked.
#[derive(Clone, Copy, Debug, PartialEq, Eq, Structural)]
pub enum VerifySignatures {
    True,
    False,
}

impl VerifySignatures {
    pub open spec fn spec_is_true(self) -> bool {
        self == VerifySignatures::True
    }

    #[verifier::when_used_as_spec(spec_is_true)]
    pub fn is_true(self) -> (r: bool)
        ensures
            r == self.spec_is_true(),
    {
        match self {
            VerifySignatures::True => true,
            VerifySignatures::False => false,
        }
    }
}

/// Protocol constants, threaded explicitly through every call.
#[derive(Clone, Copy, Debug)]
pub struct ChainSpec {
    pub slots_per_epoch: u64,
    pub far_future_epoch: u64,
    pub effective_balance_increment: u64,
    pub max_effective_balance: u64,
    pub max_deposits: u64,
    pub max_seed_lookahead: u64,
    pub min_validator_withdrawability_delay: u64,
    pub shard_committee_period: u64,
    pub min_attestation_inclusion_delay: u64,
    /// Exits that may be scheduled for one epoch: at least the minimum,
    /// more for a larger active set.
    pub min_per_epoch_churn_limit: u64,
    pub churn_limit_quotient: u64,
    pub epochs_per_slashings_vector: u64,
    pub min_slashing_penalty_quotient: u64,
    pub whistleblower_reward_quotient: u64,
    pub proposer_reward_quotient: u64,
    pub base_reward_factor: u64,
}

impl ChainSpec {
    /// The divisors that the rules divide by are non-zero.
    pub open spec fn wf(self) -> bool {
        &&& self.slots_per_epoch > 0
        &&& self.effective_balance_increment > 0
        &&& self.churn_limit_quotient > 0
        &&& self.epochs_per_slashings_vector > 0
        &&& self.min_slashing_penalty_quotient > 0
        &&& self.whistleblower_reward_quotient > 0
        &&& self.proposer_reward_quotient > 0
    }
}

/// A participant identity with stake, lifecycle epochs and credentials.
/// The withdrawal credentials are a one-byte prefix and the remaining
/// bytes, represented as a digest value.
#[derive(Clone, Copy, Debug, PartialEq, Eq, Structural)]
pub struct Validator {
    pub pubkey: u64,
    pub withdrawal_prefix: u8,
    pub withdrawal_body: u64,
    pub effective_balance: u64,
    pub slashed: bool,
    pub activation_eligibility_epoch: u64,
    pub activation_epoch: u64,
    pub exit_epoch: u64,
    pub withdrawable_epoch: u64,
}

/// Vote data of an attestation, with its checkpoints reduced to epochs and
/// roots.
#[derive(Clone, Copy, Debug, PartialEq, Eq, Structural)]
pub struct AttestationData {
    pub slot: u64,
    pub index: u64,
    pub beacon_block_root: u64,
    pub source_epoch: u64,
    pub source_root: u64,
    pub target_epoch: u64,
    pub target_root: u64,
}

/// An attestation record kept by Base states until the epoch boundary,
/// with the validators that took part in it.
#[derive(Clone, Debug)]
pub struct PendingAttestation {
    pub data: AttestationData,
    pub attesting_indices: Vec<u64>,
    pub inclusion_delay: u64,
    pub proposer_index: u64,
}

/// Mathematical model of a `PendingAttestation`.
pub struct PendingAttestationView {
    pub data: AttestationData,
    pub attesting_indices: Seq<u64>,
    pub inclusion_delay: u64,
    pub proposer_index: u64,
}

impl View for PendingAttestation {
    type V = PendingAttestationView;

    open spec fn view(&self) -> PendingAttestationView {
        PendingAttestationView {
            data: self.data,
            attesting_indices: self.attesting_indices@,
            inclusion_delay: self.inclusion_delay,
            proposer_index: self.proposer_index,
        }
    }
}

/// The mutable ledger being transitioned.
#[derive(Clone, Debug)]
pub struct BeaconState {
    pub fork: ForkName,
    pub slot: u64,
    pub validators: Vec<Validator>,
    pub balances: Vec<u64>,
    pub previous_epoch_attestations: Vec<PendingAttestation>,
    pub current_epoch_attestations: Vec<PendingAttestation>,
    pub previous_epoch_participation: Vec<u8>,
    pub current_epoch_participation: Vec<u8>,
    pub inactivity_scores: Vec<u64>,
    /// Running totals, per epoch, of the effective balance of validators
    /// that were not slashed when their target flag was set, kept for epoch
    /// processing; a later slashing is accounted for there, not here.
    pub previous_epoch_target_attesting_balance: u64,
    pub current_epoch_target_attesting_balance: u64,
    /// Effective balance slashed per epoch, kept in a ring of
    /// `epochs_per_slashings_vector` entries.
    pub slashings: Vec<u64>,
    /// Deposits processed so far.
    pub eth1_deposit_index: u64,
    /// Deposits recorded in the deposit contract so far.
    pub eth1_deposit_count: u64,
}

/// Mathematical model of a `BeaconState`.
#[verifier::ext_equal]
pub struct StateView {
    pub fork: ForkName,
    pub slot: u64,
    pub validators: Seq<Validator>,
    pub balances: Seq<u64>,
    pub previous_epoch_attestations: Seq<PendingAttestationView>,
    pub current_epoch_attestations: Seq<PendingAttestationView>,
    pub previous_epoch_participation: Seq<u8>,
    pub current_epoch_participation: Seq<u8>,
    pub inactivity_scores: Seq<u64>,
    pub previous_epoch_target_attesting_balance: u64,
    pub current_epoch_target_attesting_balance: u64,
    pub slashings: Seq<u64>,
    pub eth1_deposit_index: u64,
    pub eth1_deposit_count: u64,
}

impl View for BeaconState {
    type V = StateView;

    open spec fn view(&self) -> StateView {
        StateView {
            fork: self.fork,
            slot: self.slot,
            validators: self.validators@,
            balances: self.balances@,
            previous_epoch_attestations: self.previous_epoch_attestations@.map_values(
                |p: PendingAttestation| p@,
            ),
            current_epoch_attestations: self.current_epoch_attestations@.map_values(
                |p: PendingAttestation| p@,
            ),
            previous_epoch_participation: self.previous_epoch_participation@,
            current_epoch_participation: self.current_epoch_participation@,
            inactivity_scores: self.inactivity_scores@,
            previous_epoch_target_attesting_balance: self.previous_epoch_target_attesting_balance,
            current_epoch_target_attesting_balance: self.current_epoch_target_attesting_balance,
            slashings: self.slashings@,
            eth1_deposit_index: self.eth1_deposit_index,
            eth1_deposit_count: self.eth1_deposit_count,
        }
    }
}

impl StateView {
    /// Per-validator collections are index-aligned; the flag collections
    /// exist (are non-empty when there are validators) only from Altair on.
    pub open spec fn wf(self) -> bool {
        &&& self.balances.len() == self.validators.len()
        &&& self.fork == ForkName::Altair ==> {
            &&& self.previous_epoch_participation.len() == self.validators.len()
            &&& self.current_epoch_participation.len() == self.validators.len()
            &&& self.inactivity_scores.len() == self.validators.len()
        }
        &&& self.fork == ForkName::Base ==> {
            &&& self.previous_epoch_participation.len() == 0
            &&& self.current_epoch_participation.len() == 0
            &&& self.inactivity_scores.len() == 0
        }
    }

    pub open spec fn current_epoch(self, spec: ChainSpec) -> u64
        recommends
            spec.slots_per_epoch > 0,
    {
        (self.slot / spec.slots_per_epoch) as u64
    }

    pub open spec fn previous_epoch(self, spec: ChainSpec) -> u64 {
        if self.current_epoch(spec) == 0 {
            0
        } else {
            (self.current_epoch(spec) - 1) as u64
        }
    }
}

/// Block-scoped cache shared by the processors: the block proposer's index,
/// resolved by the proposer-index resolver, and the base reward per
/// effective-balance increment, derived once per block from the total
/// active balance (`ConsensusContext::new`).
#[derive(Clone, Copy, Debug, PartialEq, Eq, Structural)]
pub struct ConsensusContext {
    pub proposer_index: u64,
    pub base_reward_per_increment: u64,
}

/// A proposer's block header. `signature_valid` is the verdict of the
/// signature verifier on the header's signature.
#[derive(Clone, Copy, Debug, PartialEq, Eq, Structural)]
pub struct BeaconBlockHeader {
    pub slot: u64,
    pub proposer_index: u64,
    pub parent_root: u64,
    pub state_root: u64,
    pub body_root: u64,
}

#[derive(Clone, Copy, Debug)]
pub struct SignedBeaconBlockHeader {
    pub message: BeaconBlockHeader,
    pub signature_valid: bool,
}

#[derive(Clone, Copy, Debug)]
pub struct ProposerSlashing {
    pub signed_header_1: SignedBeaconBlockHeader,
    pub signed_header_2: SignedBeaconBlockHeader,
}

/// An attestation with its participants listed by validator index.
#[derive(Clone, Debug)]
pub struct IndexedAttestation {
    pub attesting_indices: Vec<u64>,
    pub data: AttestationData,
    pub signature_valid: bool,
}

#[derive(Clone, Debug)]
pub struct AttesterSlashing {
    pub attestation_1: IndexedAttestation,
    pub attestation_2: IndexedAttestation,
}

/// An attestation included in a block. The committee resolver supplies
/// `attesting_indices` and `committee_valid` (the committee exists and the
/// aggregation bits fit it); the state's history supplies whether the
/// source, target and head votes match.
#[derive(Clone, Debug)]
pub struct Attestation {
    pub data: AttestationData,
    pub attesting_indices: Vec<u64>,
    pub committee_valid: bool,
    pub signature_valid: bool,
    pub matching_source: bool,
    pub matching_target: bool,
    pub matching_head: bool,
}

/// A deposit. `proof_valid` is the Merkle verifier's verdict on its
/// inclusion proof; `signature_valid` that of the signature verifier on its
/// registration signature.
#[derive(Clone, Copy, Debug)]
pub struct Deposit {
    pub pubkey: u64,
    pub withdrawal_prefix: u8,
    pub withdrawal_body: u64,
    pub amount: u64,
    pub proof_valid: bool,
    pub signature_valid: bool,
}

#[derive(Clone, Copy, Debug)]
pub struct VoluntaryExit {
    pub epoch: u64,
    pub validator_index: u64,
}

#[derive(Clone, Copy, Debug)]
pub struct SignedVoluntaryExit {
    pub message: VoluntaryExit,
    pub signature_valid: bool,
}

/// A change of withdrawal credentials. `from_bls_pubkey_hash` is the
/// credential digest of the declared BLS public key.
#[derive(Clone, Copy, Debug)]
pub struct BlsToExecutionChange {
    pub validator_index: u64,
    pub from_bls_pubkey_hash: u64,
    pub to_execution_address: u64,
}

#[derive(Clone, Copy, Debug)]
pub struct SignedBlsToExecutionChange {
    pub message: BlsToExecutionChange,
    pub signature_valid: bool,
}

/// The operations of one block, with its fork tag.
#[derive(Clone, Debug)]
pub struct BeaconBlockBody {
    pub fork: ForkName,
    pub proposer_slashings: Vec<ProposerSlashing>,
    pub attester_slashings: Vec<AttesterSlashing>,
    pub attestations: Vec<Attestation>,
    pub deposits: Vec<Deposit>,
    pub voluntary_exits: Vec<SignedVoluntaryExit>,
    /// Absent before the fork that introduced credential changes.
    pub bls_to_execution_changes: Option<Vec<SignedBlsToExecutionChange>>,
}

#[derive(Clone, Copy, Debug, PartialEq, Eq, Structural)]
pub enum ProposerSlashingInvalid {
    ProposalSlotMismatch,
    ProposerIndexMismatch,
    ProposalsIdentical,
    ProposerUnknown,
    ProposerNotSlashable,
    BadProposal1Signature,
    BadProposal2Signature,
}

#[derive(Clone, Copy, Debug, PartialEq, Eq, Structural)]
pub enum AttesterSlashingInvalid {
    NotSlashable,
    IndicesNotSorted1,
    IndicesNotSorted2,
    BadSignature1,
    BadSignature2,
    UnknownValidator,
    NoSlashableIndices,
}

#[derive(Clone, Copy, Debug, PartialEq, Eq, Structural)]
pub enum AttestationInvalid {
    BadTargetEpoch,
    TargetEpochSlotMismatch,
    IncludedTooEarly,
    IncludedTooLate,
    BadCommittee,
    WrongJustifiedCheckpoint,
    BadSignature,
}

#[derive(Clone, Copy, Debug, PartialEq, Eq, Structural)]
pub enum ExitInvalid {
    ValidatorUnknown,
    NotActive,
    AlreadyExited,
    FutureEpoch,
    TooYoungToExit,
    BadSignature,
}

#[derive(Clone, Copy, Debug, PartialEq, Eq, Structural)]
pub enum BlsExecutionChangeInvalid {
    ValidatorUnknown,
    NonBlsWithdrawalCredentials,
    WithdrawalCredentialsMismatch,
    BadSignature,
}

/// Why a block was rejected. Operation errors carry the failing
/// operation's index within its list.
#[derive(Clone, Copy, Debug, PartialEq, Eq, Structural)]
pub enum BlockProcessingError {
    ProposerSlashingInvalid { index: usize, reason: ProposerSlashingInvalid },
    AttesterSlashingInvalid { index: usize, reason: AttesterSlashingInvalid },
    AttestationInvalid { index: usize, reason: AttestationInvalid },
    DepositCountInvalid { expected: u64, found: usize },
    DepositInvalid { index: usize },
    ExitInvalid { index: usize, reason: ExitInvalid },
    BlsExecutionChangeInvalid { index: usize, reason: BlsExecutionChangeInvalid },
    UnknownValidator { index: u64 },
    ParticipationOutOfBounds { index: u64 },
    SlashingsOutOfBounds { index: u64 },
    IncorrectStateVariant,
    ArithError,
}

} // verus!
