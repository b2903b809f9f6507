//! The farmer's queries: its configuration, and whether and how its Anchor
//! loan should be rebalanced.
use vstd::prelude::*;

use crate::bignum::{decimal_fractional, uint256_limit, Decimal256, Uint256};
use crate::error::ContractError;
use crate::farmer::state::{load_config, spec_load_config, spec_store_config, Config, FarmerStore};
use crate::error::StoredItem;

verus! {

/// The configuration as the config query reports it: addresses as text.
#[derive(Clone, Debug, PartialEq, Eq)]
pub struct ConfigResponse {
    pub governance_contract: String,
    pub anchor_token: String,
    pub anchor_overseer_contract: String,
    pub anchor_market_contract: String,
    pub custody_basset_contract: String,
    pub anc_stable_swap_contract: String,
    pub psi_stable_swap_contract: String,
    pub casset_token: String,
    pub basset_token: String,
    pub aterra_token: String,
    pub psi_token: String,
    pub basset_farmer_config_contract: String,
    pub stable_denom: String,
    pub claiming_rewards_delay: u64,
}

/// The report of a configuration.
pub open spec fn spec_config_response(config: Config) -> ConfigResponse {
    ConfigResponse {
        governance_contract: config.governance_contract.address,
        anchor_token: config.anchor_token.address,
        anchor_overseer_contract: config.anchor_overseer_contract.address,
        anchor_market_contract: config.anchor_market_contract.address,
        custody_basset_contract: config.anchor_custody_basset_contract.address,
        anc_stable_swap_contract: config.anc_stable_swap_contract.address,
        psi_stable_swap_contract: config.psi_stable_swap_contract.address,
        casset_token: config.casset_token.address,
        basset_token: config.basset_token.address,
        aterra_token: config.aterra_token.address,
        psi_token: config.psi_token.address,
        basset_farmer_config_contract: config.basset_farmer_config_contract.address,
        stable_denom: config.stable_denom,
        claiming_rewards_delay: config.claiming_rewards_delay,
    }
}

/// What the config query answers for a storage.
pub open spec fn spec_query_config(storage: FarmerStore) -> Result<ConfigResponse, ContractError> {
    match spec_load_config(storage) {
        Ok(config) => Ok(spec_config_response(config)),
        Err(e) => Err(e),
    }
}

/// Reports the stored configuration; `NotFound` before one is stored.
pub fn query_config(storage: &FarmerStore) -> (r: Result<ConfigResponse, ContractError>)
    ensures
        r == spec_query_config(*storage),
{
    let config: Config = match load_config(storage) {
        Ok(config) => config,
        Err(e) => return Err(e),
    };
    Ok(
        ConfigResponse {
            governance_contract: config.governance_contract.to_string(),
            anchor_token: config.anchor_token.to_string(),
            anchor_overseer_contract: config.anchor_overseer_contract.to_string(),
            anchor_market_contract: config.anchor_market_contract.to_string(),
            custody_basset_contract: config.anchor_custody_basset_contract.to_string(),
            anc_stable_swap_contract: config.anc_stable_swap_contract.to_string(),
            psi_stable_swap_contract: config.psi_stable_swap_contract.to_string(),
            casset_token: config.casset_token.to_string(),
            basset_token: config.basset_token.to_string(),
            aterra_token: config.aterra_token.to_string(),
            psi_token: config.psi_token.to_string(),
            basset_farmer_config_contract: config.basset_farmer_config_contract.to_string(),
            stable_denom: config.stable_denom,
            claiming_rewards_delay: config.claiming_rewards_delay,
        },
    )
}

/// What the farmer's config contract advises to do with the loan.
#[derive(Clone, Copy, Debug, PartialEq, Eq, Structural)]
pub enum BorrowerActionResponse {
    Nothing,
    Repay { amount: Uint256, advised_buffer_size: Uint256 },
    Borrow { amount: Uint256, advised_buffer_size: Uint256 },
}

/// What the rebalance query reports.
#[derive(Clone, Copy, Debug, PartialEq, Eq, Structural)]
pub enum RebalanceResponse {
    Nothing,
    Repay { amount: Uint256, advised_buffer_size: Uint256 },
    Borrow { amount: Uint256, advised_buffer_size: Uint256, is_possible: bool },
}

/// The part of an Anchor market's configuration that limits borrowing.
#[derive(Clone, Copy, Debug, PartialEq, Eq, Structural)]
pub struct AnchorMarketConfigResponse {
    pub max_borrow_factor: Decimal256,
}

/// The part of an Anchor market's state that limits borrowing.
#[derive(Clone, Copy, Debug, PartialEq, Eq, Structural)]
pub struct AnchorMarketStateResponse {
    pub total_liabilities: Decimal256,
    pub total_reserves: Decimal256,
}

/// What is known of an Anchor market when a borrow is considered: its
/// configuration, its state and its stable coin balance.
#[derive(Clone, Copy, Debug, PartialEq, Eq, Structural)]
pub struct AnchorMarketSnapshot {
    pub config: AnchorMarketConfigResponse,
    pub state: AnchorMarketStateResponse,
    pub balance: u128,
}

/// The market's balance in atomics of a decimal.
pub open spec fn balance_atomics(market_balance: nat) -> nat {
    market_balance * decimal_fractional()
}

/// The liabilities that the market allows in total: the balance plus the
/// liabilities minus the reserves, times the maximal borrow factor (in
/// atomics, rounded down).
pub open spec fn liabilities_limit(
    market_config: AnchorMarketConfigResponse,
    market_state: AnchorMarketStateResponse,
    market_balance: nat,
) -> int {
    (balance_atomics(market_balance) + market_state.total_liabilities@
        - market_state.total_reserves@) * market_config.max_borrow_factor@ / (
    decimal_fractional() as int)
}

/// Whether the borrow check can be computed without overflowing 256 bits or
/// subtracting more reserves than there are. The second sum is only computed
/// when the first check passed.
pub open spec fn borrow_check_defined(
    market_config: AnchorMarketConfigResponse,
    market_state: AnchorMarketStateResponse,
    market_balance: nat,
    borrow_amount: nat,
) -> bool {
    let balance = balance_atomics(market_balance);
    let borrow = borrow_amount * decimal_fractional();
    let liabilities = market_state.total_liabilities@;
    let reserves = market_state.total_reserves@;
    &&& balance < uint256_limit()
    &&& borrow < uint256_limit()
    &&& liabilities + borrow < uint256_limit()
    &&& balance + liabilities < uint256_limit()
    &&& reserves <= balance + liabilities
    &&& (balance + liabilities - reserves) * market_config.max_borrow_factor@ < uint256_limit()
    &&& liabilities + borrow <= liabilities_limit(market_config, market_state, market_balance)
        ==> borrow + reserves < uint256_limit()
}

/// Whether the market lets `borrow_amount` be borrowed: the liabilities with
/// the new loan stay within the limit set by the maximal borrow factor, and
/// the loan plus the reserves do not exceed the balance.
pub open spec fn borrow_allowed(
    market_config: AnchorMarketConfigResponse,
    market_state: AnchorMarketStateResponse,
    market_balance: nat,
    borrow_amount: nat,
) -> bool {
    let borrow = borrow_amount * decimal_fractional();
    &&& market_state.total_liabilities@ + borrow <= liabilities_limit(
        market_config,
        market_state,
        market_balance,
    )
    &&& borrow + market_state.total_reserves@ <= balance_atomics(market_balance)
}

/// Checks a borrow against the market's maximal borrow factor and against
/// its available balance, as the Anchor market itself does.
pub fn assert_max_borrow_factor(
    market_config: AnchorMarketConfigResponse,
    market_state: AnchorMarketStateResponse,
    market_balance: Uint256,
    borrow_amount: Uint256,
) -> (r: bool)
    requires
        borrow_check_defined(market_config, market_state, market_balance@, borrow_amount@),
    ensures
        r == borrow_allowed(market_config, market_state, market_balance@, borrow_amount@),
{
    let current_balance = Decimal256::from_uint256(market_balance);
    let borrow_amount = Decimal256::from_uint256(borrow_amount);

    // Assert max borrow factor
    if market_state.total_liabilities.add(borrow_amount).gt(
        current_balance.add(market_state.total_liabilities).sub(market_state.total_reserves).mul(
            market_config.max_borrow_factor,
        ),
    ) {
        return false;
    }

    // Assert available balance
    if borrow_amount.add(market_state.total_reserves).gt(current_balance) {
        return false;
    }
    return true;
}

/// Tells whether `assert_max_borrow_factor` may be called on these values,
/// by running its arithmetic with overflow checks.
pub fn borrow_check_is_defined(
    market_config: AnchorMarketConfigResponse,
    market_state: AnchorMarketStateResponse,
    market_balance: Uint256,
    borrow_amount: Uint256,
) -> (r: bool)
    ensures
        r == borrow_check_defined(market_config, market_state, market_balance@, borrow_amount@),
{
    let fractional = Uint256::from_u128(1_000_000_000_000_000_000);
    let balance = match market_balance.checked_mul(fractional) {
        Some(v) => v,
        None => return false,
    };
    let borrow = match borrow_amount.checked_mul(fractional) {
        Some(v) => v,
        None => return false,
    };
    let liabilities = market_state.total_liabilities.atomics;
    let reserves = market_state.total_reserves.atomics;
    let new_liabilities = match liabilities.checked_add(borrow) {
        Some(v) => v,
        None => return false,
    };
    let funds = match balance.checked_add(liabilities) {
        Some(v) => v,
        None => return false,
    };
    if !reserves.le(funds) {
        return false;
    }
    let net = funds.sub(reserves);
    if net.checked_mul(market_config.max_borrow_factor.atomics).is_none() {
        return false;
    }
    let limit = Decimal256::from_atomics(net).mul(market_config.max_borrow_factor);
    if Decimal256::from_atomics(new_liabilities).gt(limit) {
        true
    } else {
        borrow.checked_add(reserves).is_some()
    }
}

/// Tells whether `query_rebalance` may be called on these values.
pub fn can_query_rebalance(
    borrower_action: &BorrowerActionResponse,
    market: &Option<AnchorMarketSnapshot>,
) -> (r: bool)
    ensures
        r == rebalance_defined(*borrower_action, *market),
{
    match borrower_action {
        BorrowerActionResponse::Borrow { amount, .. } => match market {
            Some(m) => borrow_check_is_defined(
                m.config,
                m.state,
                Uint256::from_u128(m.balance),
                *amount,
            ),
            None => false,
        },
        _ => true,
    }
}

/// Whether the rebalance report can be computed: a borrow needs the market's
/// data, and the borrow check must be defined on it.
pub open spec fn rebalance_defined(
    borrower_action: BorrowerActionResponse,
    market: Option<AnchorMarketSnapshot>,
) -> bool {
    match borrower_action {
        BorrowerActionResponse::Borrow { amount, .. } => match market {
            Some(m) => borrow_check_defined(m.config, m.state, m.balance as nat, amount@),
            None => false,
        },
        _ => true,
    }
}

/// Whether the advised action needs the market's data: only a borrow does.
pub fn rebalance_needs_market(borrower_action: &BorrowerActionResponse) -> (r: bool)
    ensures
        r == borrower_action is Borrow,
{
    match borrower_action {
        BorrowerActionResponse::Borrow { .. } => true,
        _ => false,
    }
}

/// The rebalance report for an advised action: nothing and repayments are
/// passed on as advised; a borrow is reported with whether the market allows
/// it.
pub open spec fn spec_rebalance_response(
    borrower_action: BorrowerActionResponse,
    market: Option<AnchorMarketSnapshot>,
) -> RebalanceResponse {
    match borrower_action {
        BorrowerActionResponse::Nothing => RebalanceResponse::Nothing,
        BorrowerActionResponse::Repay { amount, advised_buffer_size } => RebalanceResponse::Repay {
            amount,
            advised_buffer_size,
        },
        BorrowerActionResponse::Borrow { amount, advised_buffer_size } => RebalanceResponse::Borrow {
            amount,
            advised_buffer_size,
            is_possible: borrow_allowed(
                market->0.config,
                market->0.state,
                market->0.balance as nat,
                amount@,
            ),
        },
    }
}

/// The rebalance report for an advised action, given the market's data where
/// the action is a borrow.
pub fn query_rebalance(borrower_action: BorrowerActionResponse, market: Option<AnchorMarketSnapshot>) -> (r:
    RebalanceResponse)
    requires
        rebalance_defined(borrower_action, market),
    ensures
        r == spec_rebalance_response(borrower_action, market),
{
    match borrower_action {
        BorrowerActionResponse::Nothing => RebalanceResponse::Nothing,
        BorrowerActionResponse::Repay { amount, advised_buffer_size } => RebalanceResponse::Repay {
            amount,
            advised_buffer_size,
        },
        BorrowerActionResponse::Borrow { amount, advised_buffer_size } => {
            match market {
                Some(m) => {
                    let is_borrowing_possible = assert_max_borrow_factor(
                        m.config,
                        m.state,
                        Uint256::from_u128(m.balance),
                        amount,
                    );
                    RebalanceResponse::Borrow {
                        amount,
                        advised_buffer_size,
                        is_possible: is_borrowing_possible,
                    }
                },
                None => RebalanceResponse::Nothing,
            }
        },
    }
}

// ---- laws ----

/// The config query reports the configuration last stored, and is refused
/// exactly while none is stored.
pub proof fn lemma_query_config_reports_stored(s: FarmerStore, config: Config)
    ensures
        spec_query_config(spec_store_config(s, config)) == Ok::<ConfigResponse, ContractError>(
            spec_config_response(config),
        ),
        s.config is None ==> spec_query_config(s) == Err::<ConfigResponse, ContractError>(
            ContractError::NotFound(StoredItem::Config),
        ),
        s.config is Some ==> spec_query_config(s) is Ok,
{
}

/// Whenever the market allows a borrow, it allows every smaller borrow.
pub proof fn lemma_smaller_borrow_allowed(
    market_config: AnchorMarketConfigResponse,
    market_state: AnchorMarketStateResponse,
    market_balance: nat,
    smaller: nat,
    larger: nat,
)
    requires
        smaller <= larger,
        borrow_allowed(market_config, market_state, market_balance, larger),
    ensures
        borrow_allowed(market_config, market_state, market_balance, smaller),
{
    assert(smaller * decimal_fractional() <= larger * decimal_fractional()) by (nonlinear_arith)
        requires
            smaller <= larger,
    ;
}

/// The report passes on the advised amounts; only a borrow depends on the
/// market, and it is reported possible exactly when the market allows it.
pub proof fn lemma_rebalance_keeps_advice(
    borrower_action: BorrowerActionResponse,
    market: Option<AnchorMarketSnapshot>,
    other_market: Option<AnchorMarketSnapshot>,
)
    ensures
        !(borrower_action is Borrow) ==> spec_rebalance_response(borrower_action, market)
            == spec_rebalance_response(borrower_action, other_market),
        borrower_action matches BorrowerActionResponse::Borrow { amount, advised_buffer_size } ==> {
            &&& spec_rebalance_response(borrower_action, market) matches RebalanceResponse::Borrow {
                amount: a,
                advised_buffer_size: b,
                is_possible,
            }
            &&& a == amount
            &&& b == advised_buffer_size
            &&& is_possible == borrow_allowed(
                market->0.config,
                market->0.state,
                market->0.balance as nat,
                amount@,
            )
        },
{
}

/// An allowed borrow never takes more than the market's balance left over
/// after its reserves.
pub proof fn lemma_allowed_borrow_within_available_balance(
    market_config: AnchorMarketConfigResponse,
    market_state: AnchorMarketStateResponse,
    market_balance: nat,
    borrow_amount: nat,
)
    requires
        borrow_allowed(market_config, market_state, market_balance, borrow_amount),
    ensures
        borrow_amount * decimal_fractional() <= balance_atomics(market_balance)
            - market_state.total_reserves@,
{
}

/// The market allows a borrow exactly when the liabilities with the new loan
/// stay within `(balance + liabilities - reserves) * max_borrow_factor` and the
/// loan plus the reserves stay within the balance (all in atomics, the product
/// rounded down). In particular, once the borrow-factor limit is met, any
/// borrow that with the reserves fits in the balance is allowed, whatever the
/// liabilities are.
pub proof fn lemma_borrow_allowed_exactly(
    market_config: AnchorMarketConfigResponse,
    market_state: AnchorMarketStateResponse,
    market_balance: nat,
    borrow_amount: nat,
)
    ensures
        borrow_allowed(market_config, market_state, market_balance, borrow_amount) <==> (
        market_state.total_liabilities@ + borrow_amount * 1_000_000_000_000_000_000 <= (
        market_balance * 1_000_000_000_000_000_000 + market_state.total_liabilities@
            - market_state.total_reserves@) * market_config.max_borrow_factor@
            / 1_000_000_000_000_000_000int && borrow_amount * 1_000_000_000_000_000_000
            + market_state.total_reserves@ <= market_balance * 1_000_000_000_000_000_000),
        forall|other_liabilities: Decimal256|
            #![trigger borrow_allowed(
                market_config,
                AnchorMarketStateResponse {
                    total_liabilities: other_liabilities,
                    total_reserves: market_state.total_reserves,
                },
                market_balance,
                borrow_amount,
            )]
            other_liabilities@ + borrow_amount * 1_000_000_000_000_000_000 <= (market_balance
                * 1_000_000_000_000_000_000 + other_liabilities@ - market_state.total_reserves@)
                * market_config.max_borrow_factor@ / 1_000_000_000_000_000_000int
                && borrow_amount * 1_000_000_000_000_000_000 + market_state.total_reserves@
                <= market_balance * 1_000_000_000_000_000_000 ==> borrow_allowed(
                market_config,
                AnchorMarketStateResponse {
                    total_liabilities: other_liabilities,
                    total_reserves: market_state.total_reserves,
                },
                market_balance,
                borrow_amount,
            ),
{
}

/// A `Nothing` advice is reported as `Nothing`, and a `Repay` advice as a
/// `Repay` of exactly the advised amount and buffer size, whatever the
/// market data.
pub proof fn lemma_rebalance_passes_on_advice(
    amount: Uint256,
    advised_buffer_size: Uint256,
    market: Option<AnchorMarketSnapshot>,
)
    ensures
        spec_rebalance_response(BorrowerActionResponse::Nothing, market)
            == RebalanceResponse::Nothing,
        spec_rebalance_response(BorrowerActionResponse::Repay { amount, advised_buffer_size }, market)
            == (RebalanceResponse::Repay { amount, advised_buffer_size }),
        spec_rebalance_response(BorrowerActionResponse::Borrow { amount, advised_buffer_size }, market) matches RebalanceResponse::Borrow {
            amount: a,
            advised_buffer_size: s,
            ..
        } && a == amount && s == advised_buffer_size,
{
}

/// Every field of the config report is the text of the same-named field of
/// the stored configuration (the custody contract being the Anchor custody
/// contract).
pub proof fn lemma_config_response_fields(s: FarmerStore)
    requires
        s.config is Some,
    ensures
        spec_query_config(s) matches Ok(r) && {
            let c = s.config->0;
            &&& r.governance_contract == c.governance_contract.address
            &&& r.anchor_token == c.anchor_token.address
            &&& r.anchor_overseer_contract == c.anchor_overseer_contract.address
            &&& r.anchor_market_contract == c.anchor_market_contract.address
            &&& r.custody_basset_contract == c.anchor_custody_basset_contract.address
            &&& r.anc_stable_swap_contract == c.anc_stable_swap_contract.address
            &&& r.psi_stable_swap_contract == c.psi_stable_swap_contract.address
            &&& r.casset_token == c.casset_token.address
            &&& r.basset_token == c.basset_token.address
            &&& r.aterra_token == c.aterra_token.address
            &&& r.psi_token == c.psi_token.address
            &&& r.basset_farmer_config_contract == c.basset_farmer_config_contract.address
            &&& r.stable_denom == c.stable_denom
            &&& r.claiming_rewards_delay == c.claiming_rewards_delay
        },
{
}

} // verus!
