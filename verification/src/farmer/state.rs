//! The farmer contract's storage: one slot per item, each either empty or
//! holding the value last stored there.
use vstd::prelude::*;

use crate::addr::Addr;
use crate::bignum::{Decimal256, Uint256};
use crate::error::{ContractError, StoredItem};

verus! {

/// The storage key of the configuration.
pub const CONFIG_KEY: &'static str = "config";

/// The storage key of the loan repayment state.
pub const REPAYING_LOAN_KEY: &'static str = "repaying";

/// The storage key of the aimed buffer size.
pub const AIM_BUFFER_SIZE_KEY: &'static str = "aim_buf_size";

/// The storage key of the stable balance noted before ANC is sold.
pub const STABLE_BALANCE_BEFORE_SELL_ANC_KEY: &'static str = "balance_before_sell_anc";

/// The storage key of the height at which rewards were last claimed.
pub const LAST_REWARDS_CLAIMING_HEIGHT_KEY: &'static str = "last_rewards_claiming_height";

/// The storage key of the child contracts' code ids.
pub const CHILD_CONTRACTS_CODE_ID_KEY: &'static str = "child_contracts_code_id";

/// The farmer's configuration.
#[derive(Debug, PartialEq, Eq)]
pub struct Config {
    pub governance_contract: Addr,
    pub psi_distributor_addr: Addr,
    pub anchor_token: Addr,
    pub anchor_overseer_contract: Addr,
    pub anchor_market_contract: Addr,
    pub anchor_custody_basset_contract: Addr,
    pub anc_stable_swap_contract: Addr,
    pub psi_stable_swap_contract: Addr,
    pub casset_token: Addr,
    pub basset_token: Addr,
    pub aterra_token: Addr,
    pub psi_token: Addr,
    pub basset_farmer_config_contract: Addr,
    pub stable_denom: String,
    pub claiming_rewards_delay: u64,
    /// By how much the stable balance should exceed the loan; 1.01 means 1%.
    pub over_loan_balance_value: Decimal256,
}

impl Clone for Config {
    fn clone(&self) -> (r: Config)
        ensures
            r == *self,
    {
        Config {
            governance_contract: self.governance_contract.clone(),
            psi_distributor_addr: self.psi_distributor_addr.clone(),
            anchor_token: self.anchor_token.clone(),
            anchor_overseer_contract: self.anchor_overseer_contract.clone(),
            anchor_market_contract: self.anchor_market_contract.clone(),
            anchor_custody_basset_contract: self.anchor_custody_basset_contract.clone(),
            anc_stable_swap_contract: self.anc_stable_swap_contract.clone(),
            psi_stable_swap_contract: self.psi_stable_swap_contract.clone(),
            casset_token: self.casset_token.clone(),
            basset_token: self.basset_token.clone(),
            aterra_token: self.aterra_token.clone(),
            psi_token: self.psi_token.clone(),
            basset_farmer_config_contract: self.basset_farmer_config_contract.clone(),
            stable_denom: self.stable_denom.clone(),
            claiming_rewards_delay: self.claiming_rewards_delay,
            over_loan_balance_value: self.over_loan_balance_value,
        }
    }
}

/// Where the repayment of the Anchor loan stands.
#[derive(Clone, Copy, Debug, PartialEq, Eq, Structural)]
pub struct RepayingLoanState {
    pub iteration_index: u8,
    pub to_repay_amount: Uint256,
    pub repaying_amount: Uint256,
    pub aim_buffer_size: Uint256,
}

/// The zero integer, limb by limb.
pub open spec fn spec_uint256_zero() -> Uint256 {
    Uint256 { limb0: 0, limb1: 0, limb2: 0, limb3: 0 }
}

impl RepayingLoanState {
    /// The state of a contract that never repaid: every field zero.
    pub open spec fn spec_default() -> RepayingLoanState {
        RepayingLoanState {
            iteration_index: 0,
            to_repay_amount: spec_uint256_zero(),
            repaying_amount: spec_uint256_zero(),
            aim_buffer_size: spec_uint256_zero(),
        }
    }
}

impl Default for RepayingLoanState {
    fn default() -> (r: RepayingLoanState)
        ensures
            r == RepayingLoanState::spec_default(),
    {
        RepayingLoanState {
            iteration_index: 0,
            to_repay_amount: Uint256 { limb0: 0, limb1: 0, limb2: 0, limb3: 0 },
            repaying_amount: Uint256 { limb0: 0, limb1: 0, limb2: 0, limb3: 0 },
            aim_buffer_size: Uint256 { limb0: 0, limb1: 0, limb2: 0, limb3: 0 },
        }
    }
}

/// The code ids that the child contracts are instantiated from.
#[derive(Clone, Copy, Debug, PartialEq, Eq, Default, Structural)]
pub struct ChildContractsCodeId {
    pub nasset_token: u64,
    pub nasset_staker: u64,
    pub psi_distributor: u64,
}

/// The farmer's storage: each item is absent until it is first stored.
#[derive(Debug, PartialEq, Eq)]
pub struct FarmerStore {
    pub config: Option<Config>,
    pub repaying_loan: Option<RepayingLoanState>,
    pub aim_buffer_size: Option<Uint256>,
    pub stable_balance_before_sell_anc: Option<u128>,
    pub last_rewards_claiming_height: Option<u64>,
    pub child_contracts_code_id: Option<ChildContractsCodeId>,
}

/// The storage of a freshly instantiated contract: nothing stored yet.
pub open spec fn spec_empty_store() -> FarmerStore {
    FarmerStore {
        config: None,
        repaying_loan: None,
        aim_buffer_size: None,
        stable_balance_before_sell_anc: None,
        last_rewards_claiming_height: None,
        child_contracts_code_id: None,
    }
}

impl FarmerStore {
    /// An empty storage.
    pub fn new() -> (r: FarmerStore)
        ensures
            r == spec_empty_store(),
    {
        FarmerStore {
            config: None,
            repaying_loan: None,
            aim_buffer_size: None,
            stable_balance_before_sell_anc: None,
            last_rewards_claiming_height: None,
            child_contracts_code_id: None,
        }
    }
}

/// Reading an item that must be there: its value, or `NotFound`.
pub open spec fn must_load<T>(slot: Option<T>, item: StoredItem) -> Result<T, ContractError> {
    match slot {
        Some(v) => Ok(v),
        None => Err(ContractError::NotFound(item)),
    }
}

// ---- configuration ----

pub open spec fn spec_load_config(s: FarmerStore) -> Result<Config, ContractError> {
    must_load(s.config, StoredItem::Config)
}

pub open spec fn spec_store_config(s: FarmerStore, config: Config) -> FarmerStore {
    FarmerStore { config: Some(config), ..s }
}

/// The stored configuration; `NotFound` before the first `store_config`.
pub fn load_config(storage: &FarmerStore) -> (r: Result<Config, ContractError>)
    ensures
        r == spec_load_config(*storage),
{
    match &storage.config {
        Some(config) => Ok(config.clone()),
        None => Err(ContractError::NotFound(StoredItem::Config)),
    }
}

/// Stores `config`, replacing any earlier configuration.
pub fn store_config(storage: &mut FarmerStore, config: &Config) -> (r: Result<(), ContractError>)
    ensures
        r is Ok,
        *final(storage) == spec_store_config(*old(storage), *config),
{
    storage.config = Some(config.clone());
    Ok(())
}

/// The configuration with another cAsset token.
pub open spec fn spec_with_casset_token(config: Config, casset_token: Addr) -> Config {
    Config { casset_token, ..config }
}

/// The configuration with another Psi distributor.
pub open spec fn spec_with_psi_distributor(config: Config, psi_distributor: Addr) -> Config {
    Config { psi_distributor_addr: psi_distributor, ..config }
}

/// Replaces the cAsset token in the stored configuration and returns the new
/// configuration; `NotFound` (and nothing changed) when no configuration is
/// stored.
pub fn config_set_casset_token(storage: &mut FarmerStore, casset_token: Addr) -> (r: Result<
    Config,
    ContractError,
>)
    ensures
        match old(storage).config {
            Some(config) => {
                &&& r == Ok::<Config, ContractError>(spec_with_casset_token(config, casset_token))
                &&& *final(storage) == spec_store_config(
                    *old(storage),
                    spec_with_casset_token(config, casset_token),
                )
            },
            None => {
                &&& r == Err::<Config, ContractError>(ContractError::NotFound(StoredItem::Config))
                &&& *final(storage) == *old(storage)
            },
        },
{
    match load_config(storage) {
        Ok(config) => {
            let mut config = config;
            config.casset_token = casset_token;
            let _ = store_config(storage, &config);
            Ok(config)
        },
        Err(e) => Err(e),
    }
}

/// Replaces the Psi distributor in the stored configuration and returns the
/// new configuration; `NotFound` (and nothing changed) when no configuration
/// is stored.
pub fn config_set_psi_distributor(storage: &mut FarmerStore, psi_distributor: Addr) -> (r: Result<
    Config,
    ContractError,
>)
    ensures
        match old(storage).config {
            Some(config) => {
                &&& r == Ok::<Config, ContractError>(
                    spec_with_psi_distributor(config, psi_distributor),
                )
                &&& *final(storage) == spec_store_config(
                    *old(storage),
                    spec_with_psi_distributor(config, psi_distributor),
                )
            },
            None => {
                &&& r == Err::<Config, ContractError>(ContractError::NotFound(StoredItem::Config))
                &&& *final(storage) == *old(storage)
            },
        },
{
    match load_config(storage) {
        Ok(config) => {
            let mut config = config;
            config.psi_distributor_addr = psi_distributor;
            let _ = store_config(storage, &config);
            Ok(config)
        },
        Err(e) => Err(e),
    }
}

// ---- loan repayment ----

pub open spec fn spec_load_repaying_loan_state(s: FarmerStore) -> Result<
    RepayingLoanState,
    ContractError,
> {
    match s.repaying_loan {
        Some(state) => Ok(state),
        None => Ok(RepayingLoanState::spec_default()),
    }
}

pub open spec fn spec_store_repaying_loan_state(s: FarmerStore, state: RepayingLoanState) -> FarmerStore {
    FarmerStore { repaying_loan: Some(state), ..s }
}

/// The stored loan repayment state, or the default (all zero) state when
/// none was stored yet; never an error.
pub fn load_repaying_loan_state(storage: &FarmerStore) -> (r: Result<RepayingLoanState, ContractError>)
    ensures
        r == spec_load_repaying_loan_state(*storage),
{
    match storage.repaying_loan {
        Some(state) => Ok(state),
        None => Ok(RepayingLoanState::default()),
    }
}

/// Stores the loan repayment state.
pub fn store_repaying_loan_state(
    storage: &mut FarmerStore,
    repaying_loan_state: &RepayingLoanState,
) -> (r: Result<(), ContractError>)
    ensures
        r is Ok,
        *final(storage) == spec_store_repaying_loan_state(*old(storage), *repaying_loan_state),
{
    storage.repaying_loan = Some(*repaying_loan_state);
    Ok(())
}

/// Whether the amount being repaid can be taken off the amount to repay:
/// the subtraction is defined where no state is stored (the update then
/// fails) or where the amount being repaid does not exceed it.
pub open spec fn loan_repayment_defined(s: FarmerStore) -> bool {
    match s.repaying_loan {
        Some(state) => state.repaying_amount@ <= state.to_repay_amount@,
        None => true,
    }
}

/// The state after the amount being repaid was repaid: the amount left to
/// repay shrinks by it; every other field stays.
pub open spec fn part_of_loan_repaid(old_state: RepayingLoanState, new_state: RepayingLoanState) -> bool {
    &&& new_state.to_repay_amount@ == old_state.to_repay_amount@ - old_state.repaying_amount@
    &&& new_state.iteration_index == old_state.iteration_index
    &&& new_state.repaying_amount == old_state.repaying_amount
    &&& new_state.aim_buffer_size == old_state.aim_buffer_size
}

/// Tells whether `update_loan_state_part_of_loan_repaid` may be called on
/// this storage.
pub fn can_update_loan_state_part_of_loan_repaid(storage: &FarmerStore) -> (r: bool)
    ensures
        r == loan_repayment_defined(*storage),
{
    match storage.repaying_loan {
        Some(state) => state.repaying_amount.le(state.to_repay_amount),
        None => true,
    }
}

/// Marks the amount being repaid as repaid: takes it off the amount to repay
/// in the stored state and returns the new state. Unlike
/// `load_repaying_loan_state`, this fails with `NotFound` (changing nothing)
/// when no state was stored.
pub fn update_loan_state_part_of_loan_repaid(storage: &mut FarmerStore) -> (r: Result<
    RepayingLoanState,
    ContractError,
>)
    requires
        loan_repayment_defined(*old(storage)),
    ensures
        match old(storage).repaying_loan {
            Some(old_state) => {
                &&& r is Ok
                &&& part_of_loan_repaid(old_state, r->Ok_0)
                &&& *final(storage) == spec_store_repaying_loan_state(*old(storage), r->Ok_0)
            },
            None => {
                &&& r == Err::<RepayingLoanState, ContractError>(
                    ContractError::NotFound(StoredItem::RepayingLoanState),
                )
                &&& *final(storage) == *old(storage)
            },
        },
{
    match storage.repaying_loan {
        Some(rep_loan) => {
            let mut rep_loan = rep_loan;
            rep_loan.to_repay_amount = rep_loan.to_repay_amount.sub(rep_loan.repaying_amount);
            let _ = store_repaying_loan_state(storage, &rep_loan);
            Ok(rep_loan)
        },
        None => Err(ContractError::NotFound(StoredItem::RepayingLoanState)),
    }
}

// ---- aimed buffer size ----

pub open spec fn spec_load_aim_buffer_size(s: FarmerStore) -> Result<Uint256, ContractError> {
    must_load(s.aim_buffer_size, StoredItem::AimBufferSize)
}

pub open spec fn spec_store_aim_buffer_size(s: FarmerStore, size: Uint256) -> FarmerStore {
    FarmerStore { aim_buffer_size: Some(size), ..s }
}

/// The stored aimed buffer size; `NotFound` before it is first stored.
pub fn load_aim_buffer_size(storage: &FarmerStore) -> (r: Result<Uint256, ContractError>)
    ensures
        r == spec_load_aim_buffer_size(*storage),
{
    match storage.aim_buffer_size {
        Some(size) => Ok(size),
        None => Err(ContractError::NotFound(StoredItem::AimBufferSize)),
    }
}

/// Stores the aimed buffer size.
pub fn store_aim_buffer_size(storage: &mut FarmerStore, aim_buf_size: &Uint256) -> (r: Result<
    (),
    ContractError,
>)
    ensures
        r is Ok,
        *final(storage) == spec_store_aim_buffer_size(*old(storage), *aim_buf_size),
{
    storage.aim_buffer_size = Some(*aim_buf_size);
    Ok(())
}

// ---- stable balance before selling ANC ----

pub open spec fn spec_load_stable_balance_before_selling_anc(s: FarmerStore) -> Result<
    u128,
    ContractError,
> {
    must_load(s.stable_balance_before_sell_anc, StoredItem::StableBalanceBeforeSellAnc)
}

pub open spec fn spec_store_stable_balance_before_selling_anc(s: FarmerStore, balance: u128) -> FarmerStore {
    FarmerStore { stable_balance_before_sell_anc: Some(balance), ..s }
}

/// The stored stable balance noted before selling ANC; `NotFound` before it
/// is first stored.
pub fn load_stable_balance_before_selling_anc(storage: &FarmerStore) -> (r: Result<
    u128,
    ContractError,
>)
    ensures
        r == spec_load_stable_balance_before_selling_anc(*storage),
{
    match storage.stable_balance_before_sell_anc {
        Some(balance) => Ok(balance),
        None => Err(ContractError::NotFound(StoredItem::StableBalanceBeforeSellAnc)),
    }
}

/// Stores the stable balance noted before selling ANC.
pub fn store_stable_balance_before_selling_anc(storage: &mut FarmerStore, balance: &u128) -> (r:
    Result<(), ContractError>)
    ensures
        r is Ok,
        *final(storage) == spec_store_stable_balance_before_selling_anc(*old(storage), *balance),
{
    storage.stable_balance_before_sell_anc = Some(*balance);
    Ok(())
}

// ---- child contracts' code ids ----

pub open spec fn spec_load_child_contracts_code_id(s: FarmerStore) -> Result<
    ChildContractsCodeId,
    ContractError,
> {
    must_load(s.child_contracts_code_id, StoredItem::ChildContractsCodeId)
}

pub open spec fn spec_store_child_contracts_code_id(s: FarmerStore, ids: ChildContractsCodeId) -> FarmerStore {
    FarmerStore { child_contracts_code_id: Some(ids), ..s }
}

/// The stored code ids of the child contracts; `NotFound` before they are
/// first stored.
pub fn load_child_contracts_code_id(storage: &FarmerStore) -> (r: Result<
    ChildContractsCodeId,
    ContractError,
>)
    ensures
        r == spec_load_child_contracts_code_id(*storage),
{
    match storage.child_contracts_code_id {
        Some(ids) => Ok(ids),
        None => Err(ContractError::NotFound(StoredItem::ChildContractsCodeId)),
    }
}

/// Stores the code ids of the child contracts.
pub fn store_child_contracts_code_id(
    storage: &mut FarmerStore,
    child_contracts_code_id: &ChildContractsCodeId,
) -> (r: Result<(), ContractError>)
    ensures
        r is Ok,
        *final(storage) == spec_store_child_contracts_code_id(
            *old(storage),
            *child_contracts_code_id,
        ),
{
    storage.child_contracts_code_id = Some(*child_contracts_code_id);
    Ok(())
}

// ---- height of the last rewards claim ----

pub open spec fn spec_load_last_rewards_claiming_height(s: FarmerStore) -> Result<u64, ContractError> {
    match s.last_rewards_claiming_height {
        Some(height) => Ok(height),
        None => Ok(0),
    }
}

pub open spec fn spec_store_last_rewards_claiming_height(s: FarmerStore, height: u64) -> FarmerStore {
    FarmerStore { last_rewards_claiming_height: Some(height), ..s }
}

/// The stored height of the last rewards claim, or 0 when rewards were never
/// claimed; never an error.
pub fn load_last_rewards_claiming_height(storage: &FarmerStore) -> (r: Result<u64, ContractError>)
    ensures
        r == spec_load_last_rewards_claiming_height(*storage),
{
    match storage.last_rewards_claiming_height {
        Some(height) => Ok(height),
        None => Ok(0),
    }
}

/// Stores the height of the last rewards claim.
pub fn store_last_rewards_claiming_height(storage: &mut FarmerStore, height: &u64) -> (r: Result<
    (),
    ContractError,
>)
    ensures
        r is Ok,
        *final(storage) == spec_store_last_rewards_claiming_height(*old(storage), *height),
{
    storage.last_rewards_claiming_height = Some(*height);
    Ok(())
}

// ---- laws ----

/// Reading an item gives back the value last stored in it.
pub proof fn lemma_load_returns_stored(
    s: FarmerStore,
    config: Config,
    loan: RepayingLoanState,
    aim_buf_size: Uint256,
    balance: u128,
    ids: ChildContractsCodeId,
    height: u64,
)
    ensures
        spec_load_config(spec_store_config(s, config)) == Ok::<Config, ContractError>(config),
        spec_load_repaying_loan_state(spec_store_repaying_loan_state(s, loan)) == Ok::<
            RepayingLoanState,
            ContractError,
        >(loan),
        spec_load_aim_buffer_size(spec_store_aim_buffer_size(s, aim_buf_size)) == Ok::<
            Uint256,
            ContractError,
        >(aim_buf_size),
        spec_load_stable_balance_before_selling_anc(
            spec_store_stable_balance_before_selling_anc(s, balance),
        ) == Ok::<u128, ContractError>(balance),
        spec_load_child_contracts_code_id(spec_store_child_contracts_code_id(s, ids)) == Ok::<
            ChildContractsCodeId,
            ContractError,
        >(ids),
        spec_load_last_rewards_claiming_height(spec_store_last_rewards_claiming_height(s, height))
            == Ok::<u64, ContractError>(height),
{
}

/// Storing the configuration leaves what every other item reads unchanged.
pub proof fn lemma_store_config_keeps_other_items(s: FarmerStore, config: Config)
    ensures
        ({
            let t = spec_store_config(s, config);
            &&& spec_load_repaying_loan_state(t) == spec_load_repaying_loan_state(s)
            &&& spec_load_aim_buffer_size(t) == spec_load_aim_buffer_size(s)
            &&& spec_load_stable_balance_before_selling_anc(t)
                == spec_load_stable_balance_before_selling_anc(s)
            &&& spec_load_child_contracts_code_id(t) == spec_load_child_contracts_code_id(s)
            &&& spec_load_last_rewards_claiming_height(t) == spec_load_last_rewards_claiming_height(
                s,
            )
        }),
{
}

/// Storing the loan repayment state leaves what every other item reads
/// unchanged.
pub proof fn lemma_store_repaying_loan_state_keeps_other_items(
    s: FarmerStore,
    loan: RepayingLoanState,
)
    ensures
        ({
            let t = spec_store_repaying_loan_state(s, loan);
            &&& spec_load_config(t) == spec_load_config(s)
            &&& spec_load_aim_buffer_size(t) == spec_load_aim_buffer_size(s)
            &&& spec_load_stable_balance_before_selling_anc(t)
                == spec_load_stable_balance_before_selling_anc(s)
            &&& spec_load_child_contracts_code_id(t) == spec_load_child_contracts_code_id(s)
            &&& spec_load_last_rewards_claiming_height(t) == spec_load_last_rewards_claiming_height(
                s,
            )
        }),
{
}

/// Storing the aimed buffer size, the stable balance, the code ids or the
/// claiming height leaves the configuration and the loan state unchanged.
pub proof fn lemma_store_scalars_keep_config_and_loan(
    s: FarmerStore,
    aim_buf_size: Uint256,
    balance: u128,
    ids: ChildContractsCodeId,
    height: u64,
)
    ensures
        spec_load_config(spec_store_aim_buffer_size(s, aim_buf_size)) == spec_load_config(s),
        spec_load_config(spec_store_stable_balance_before_selling_anc(s, balance))
            == spec_load_config(s),
        spec_load_config(spec_store_child_contracts_code_id(s, ids)) == spec_load_config(s),
        spec_load_config(spec_store_last_rewards_claiming_height(s, height)) == spec_load_config(
            s,
        ),
        spec_load_repaying_loan_state(spec_store_aim_buffer_size(s, aim_buf_size))
            == spec_load_repaying_loan_state(s),
        spec_load_repaying_loan_state(spec_store_stable_balance_before_selling_anc(s, balance))
            == spec_load_repaying_loan_state(s),
        spec_load_repaying_loan_state(spec_store_child_contracts_code_id(s, ids))
            == spec_load_repaying_loan_state(s),
        spec_load_repaying_loan_state(spec_store_last_rewards_claiming_height(s, height))
            == spec_load_repaying_loan_state(s),
{
}

/// In a fresh storage the loan state reads as the all-zero state and the
/// claiming height as 0, while every other item is `NotFound`.
pub proof fn lemma_fresh_store_reads()
    ensures
        spec_load_repaying_loan_state(spec_empty_store()) == Ok::<RepayingLoanState, ContractError>(
            RepayingLoanState::spec_default(),
        ),
        spec_load_last_rewards_claiming_height(spec_empty_store()) == Ok::<u64, ContractError>(0),
        spec_load_config(spec_empty_store()) == Err::<Config, ContractError>(
            ContractError::NotFound(StoredItem::Config),
        ),
        spec_load_aim_buffer_size(spec_empty_store()) == Err::<Uint256, ContractError>(
            ContractError::NotFound(StoredItem::AimBufferSize),
        ),
        spec_load_stable_balance_before_selling_anc(spec_empty_store()) == Err::<
            u128,
            ContractError,
        >(ContractError::NotFound(StoredItem::StableBalanceBeforeSellAnc)),
        spec_load_child_contracts_code_id(spec_empty_store()) == Err::<
            ChildContractsCodeId,
            ContractError,
        >(ContractError::NotFound(StoredItem::ChildContractsCodeId)),
{
}

/// On a storage without a loan state the read gives the default state, and
/// the update may be called there (it answers `NotFound`).
pub proof fn lemma_loan_state_reads_without_store(s: FarmerStore)
    requires
        s.repaying_loan is None,
    ensures
        spec_load_repaying_loan_state(s) == Ok::<RepayingLoanState, ContractError>(
            RepayingLoanState::spec_default(),
        ),
        loan_repayment_defined(s),
{
}

/// Repaying nothing leaves the amount to repay as it was; repaying it all
/// leaves nothing to repay.
pub proof fn lemma_part_of_loan_repaid_bounds(old_state: RepayingLoanState, new_state: RepayingLoanState)
    requires
        part_of_loan_repaid(old_state, new_state),
    ensures
        old_state.repaying_amount@ == 0 ==> new_state.to_repay_amount@
            == old_state.to_repay_amount@,
        old_state.repaying_amount@ == old_state.to_repay_amount@ ==> new_state.to_repay_amount@
            == 0,
        new_state.to_repay_amount@ <= old_state.to_repay_amount@,
{
}

/// After part of the loan is repaid, the amount left to repay is the old
/// amount to repay less the amount being repaid, for every state where the
/// latter does not exceed the former; the amount being repaid, the buffer
/// size and the iteration index stay.
pub proof fn lemma_repaid_amount_taken_off_once(old_state: RepayingLoanState, new_state: RepayingLoanState)
    requires
        part_of_loan_repaid(old_state, new_state),
    ensures
        new_state.to_repay_amount@ + old_state.repaying_amount@ == old_state.to_repay_amount@,
        new_state.repaying_amount@ == old_state.repaying_amount@,
        new_state.aim_buffer_size@ == old_state.aim_buffer_size@,
        new_state.iteration_index == old_state.iteration_index,
{
}

/// Where no loan repayment state is stored, reading it gives a state whose
/// index and amounts are all zero.
pub proof fn lemma_default_loan_state_is_zero(s: FarmerStore)
    requires
        s.repaying_loan is None,
    ensures
        spec_load_repaying_loan_state(s) matches Ok(st) && {
            &&& st.iteration_index == 0
            &&& st.to_repay_amount@ == 0
            &&& st.repaying_amount@ == 0
            &&& st.aim_buffer_size@ == 0
        },
{
}

} // verus!
