use basset_vault::addr::Addr;
use basset_vault::bignum::{Decimal256, Uint256};
use basset_vault::error::{ContractError, StoredItem};
use basset_vault::farmer::queries::{
    assert_max_borrow_factor, borrow_check_is_defined, can_query_rebalance, query_config,
    query_rebalance, rebalance_needs_market, AnchorMarketConfigResponse,
    AnchorMarketSnapshot, AnchorMarketStateResponse, BorrowerActionResponse, RebalanceResponse,
};
use basset_vault::farmer::state::{
    can_update_loan_state_part_of_loan_repaid, config_set_casset_token, config_set_psi_distributor,
    load_aim_buffer_size, load_child_contracts_code_id, load_config,
    load_last_rewards_claiming_height, load_repaying_loan_state,
    load_stable_balance_before_selling_anc, store_aim_buffer_size, store_child_contracts_code_id,
    store_config, store_last_rewards_claiming_height, store_repaying_loan_state,
    store_stable_balance_before_selling_anc, update_loan_state_part_of_loan_repaid,
    ChildContractsCodeId, Config, FarmerStore, RepayingLoanState,
};

const ONE: u128 = 1_000_000_000_000_000_000;

fn addr(s: &str) -> Addr {
    Addr::unchecked(s.to_string())
}

fn u(x: u128) -> Uint256 {
    Uint256::from_u128(x)
}

fn dec(atomics: u128) -> Decimal256 {
    Decimal256::from_atomics(u(atomics))
}

fn config() -> Config {
    Config {
        governance_contract: addr("gov"),
        psi_distributor_addr: addr("psi_distributor"),
        anchor_token: addr("anc"),
        anchor_overseer_contract: addr("overseer"),
        anchor_market_contract: addr("market"),
        anchor_custody_basset_contract: addr("custody"),
        anc_stable_swap_contract: addr("anc_swap"),
        psi_stable_swap_contract: addr("psi_swap"),
        casset_token: addr("casset"),
        basset_token: addr("basset"),
        aterra_token: addr("aterra"),
        psi_token: addr("psi"),
        basset_farmer_config_contract: addr("farmer_config"),
        stable_denom: "uusd".to_string(),
        claiming_rewards_delay: 1000,
        over_loan_balance_value: dec(1_010_000_000_000_000_000),
    }
}

fn market(factor: u128, liabilities: u128, reserves: u128, balance: u128) -> AnchorMarketSnapshot {
    AnchorMarketSnapshot {
        config: AnchorMarketConfigResponse { max_borrow_factor: dec(factor) },
        state: AnchorMarketStateResponse {
            total_liabilities: dec(liabilities),
            total_reserves: dec(reserves),
        },
        balance,
    }
}

#[test]
fn farmer_config_read_gives_back_write() {
    let mut store = FarmerStore::new();
    assert_eq!(load_config(&store), Err(ContractError::NotFound(StoredItem::Config)));
    assert_eq!(store_config(&mut store, &config()), Ok(()));
    assert_eq!(load_config(&store), Ok(config()));
}

#[test]
fn farmer_config_setters() {
    let mut store = FarmerStore::new();
    assert_eq!(
        config_set_casset_token(&mut store, addr("new_casset")),
        Err(ContractError::NotFound(StoredItem::Config))
    );
    assert_eq!(store, FarmerStore::new());
    store_config(&mut store, &config()).unwrap();
    let mut expected = config();
    expected.casset_token = addr("new_casset");
    assert_eq!(config_set_casset_token(&mut store, addr("new_casset")), Ok(expected.clone()));
    assert_eq!(load_config(&store), Ok(expected.clone()));
    expected.psi_distributor_addr = addr("new_distributor");
    assert_eq!(config_set_psi_distributor(&mut store, addr("new_distributor")), Ok(expected.clone()));
    assert_eq!(load_config(&store), Ok(expected));
}

#[test]
fn farmer_loan_state_defaults_and_updates() {
    let mut store = FarmerStore::new();
    assert_eq!(load_repaying_loan_state(&store), Ok(RepayingLoanState::default()));
    assert_eq!(
        update_loan_state_part_of_loan_repaid(&mut store),
        Err(ContractError::NotFound(StoredItem::RepayingLoanState))
    );
    let state = RepayingLoanState {
        iteration_index: 2,
        to_repay_amount: u(100),
        repaying_amount: u(30),
        aim_buffer_size: u(7),
    };
    store_repaying_loan_state(&mut store, &state).unwrap();
    assert_eq!(load_repaying_loan_state(&store), Ok(state));
    assert!(can_update_loan_state_part_of_loan_repaid(&store));
    let expected = RepayingLoanState { to_repay_amount: u(70), ..state };
    assert_eq!(update_loan_state_part_of_loan_repaid(&mut store), Ok(expected));
    assert_eq!(load_repaying_loan_state(&store), Ok(expected));
}

#[test]
fn farmer_loan_update_needs_enough_to_repay() {
    let mut store = FarmerStore::new();
    let state = RepayingLoanState {
        iteration_index: 0,
        to_repay_amount: u(10),
        repaying_amount: u(30),
        aim_buffer_size: u(0),
    };
    store_repaying_loan_state(&mut store, &state).unwrap();
    assert!(!can_update_loan_state_part_of_loan_repaid(&store));
}

#[test]
fn farmer_scalar_items() {
    let mut store = FarmerStore::new();
    assert_eq!(load_aim_buffer_size(&store), Err(ContractError::NotFound(StoredItem::AimBufferSize)));
    assert_eq!(
        load_stable_balance_before_selling_anc(&store),
        Err(ContractError::NotFound(StoredItem::StableBalanceBeforeSellAnc))
    );
    assert_eq!(
        load_child_contracts_code_id(&store),
        Err(ContractError::NotFound(StoredItem::ChildContractsCodeId))
    );
    assert_eq!(load_last_rewards_claiming_height(&store), Ok(0));

    store_aim_buffer_size(&mut store, &u(5)).unwrap();
    store_stable_balance_before_selling_anc(&mut store, &77).unwrap();
    let ids = ChildContractsCodeId { nasset_token: 1, nasset_staker: 2, psi_distributor: 3 };
    store_child_contracts_code_id(&mut store, &ids).unwrap();
    store_last_rewards_claiming_height(&mut store, &12345).unwrap();

    assert_eq!(load_aim_buffer_size(&store), Ok(u(5)));
    assert_eq!(load_stable_balance_before_selling_anc(&store), Ok(77));
    assert_eq!(load_child_contracts_code_id(&store), Ok(ids));
    assert_eq!(load_last_rewards_claiming_height(&store), Ok(12345));
    // the other items stayed as they were
    assert_eq!(load_config(&store), Err(ContractError::NotFound(StoredItem::Config)));
    assert_eq!(load_repaying_loan_state(&store), Ok(RepayingLoanState::default()));
}

#[test]
fn farmer_query_config_reports_addresses() {
    let mut store = FarmerStore::new();
    assert_eq!(query_config(&store), Err(ContractError::NotFound(StoredItem::Config)));
    store_config(&mut store, &config()).unwrap();
    let response = query_config(&store).unwrap();
    assert_eq!(response.governance_contract, "gov");
    assert_eq!(response.custody_basset_contract, "custody");
    assert_eq!(response.casset_token, "casset");
    assert_eq!(response.basset_farmer_config_contract, "farmer_config");
    assert_eq!(response.stable_denom, "uusd");
    assert_eq!(response.claiming_rewards_delay, 1000);
}

#[test]
fn max_borrow_factor_allows_borrow_within_limit() {
    // balance 100, no liabilities or reserves, factor 0.95: limit 95
    let m = market(950_000_000_000_000_000, 0, 0, 100);
    assert!(assert_max_borrow_factor(m.config, m.state, u(100), u(95)));
    assert!(!assert_max_borrow_factor(m.config, m.state, u(100), u(96)));
}

#[test]
fn max_borrow_factor_counts_liabilities_and_reserves() {
    // balance 100, liabilities 50, reserves 10, factor 0.5:
    // limit (100 + 50 - 10) * 0.5 = 70, liabilities + borrow <= 70 => borrow <= 20
    let m = market(ONE / 2, 50 * ONE, 10 * ONE, 100);
    assert!(assert_max_borrow_factor(m.config, m.state, u(100), u(20)));
    assert!(!assert_max_borrow_factor(m.config, m.state, u(100), u(21)));
}

#[test]
fn available_balance_limits_borrow() {
    // factor 10 lifts the first limit; reserves 40 leave 60 of the balance 100
    let m = market(10 * ONE, 0, 40 * ONE, 100);
    assert!(assert_max_borrow_factor(m.config, m.state, u(100), u(60)));
    assert!(!assert_max_borrow_factor(m.config, m.state, u(100), u(61)));
}

#[test]
fn rebalance_passes_on_nothing_and_repay() {
    assert!(!rebalance_needs_market(&BorrowerActionResponse::Nothing));
    assert_eq!(query_rebalance(BorrowerActionResponse::Nothing, None), RebalanceResponse::Nothing);
    let repay = BorrowerActionResponse::Repay { amount: u(5), advised_buffer_size: u(6) };
    assert!(can_query_rebalance(&repay, &None));
    assert_eq!(
        query_rebalance(repay, None),
        RebalanceResponse::Repay { amount: u(5), advised_buffer_size: u(6) }
    );
}

#[test]
fn rebalance_reports_whether_borrow_is_possible() {
    let borrow = BorrowerActionResponse::Borrow { amount: u(95), advised_buffer_size: u(3) };
    assert!(rebalance_needs_market(&borrow));
    assert!(!can_query_rebalance(&borrow, &None));
    let m = Some(market(950_000_000_000_000_000, 0, 0, 100));
    assert!(can_query_rebalance(&borrow, &m));
    assert_eq!(
        query_rebalance(borrow, m),
        RebalanceResponse::Borrow { amount: u(95), advised_buffer_size: u(3), is_possible: true }
    );
    let too_much = BorrowerActionResponse::Borrow { amount: u(96), advised_buffer_size: u(3) };
    assert_eq!(
        query_rebalance(too_much, m),
        RebalanceResponse::Borrow { amount: u(96), advised_buffer_size: u(3), is_possible: false }
    );
}

#[test]
fn borrow_check_refuses_overflowing_inputs() {
    let m = market(ONE, 0, 0, 100);
    let huge = Uint256::from_limbs([0, 0, 0, u64::MAX]);
    assert!(borrow_check_is_defined(m.config, m.state, u(100), u(10)));
    assert!(!borrow_check_is_defined(m.config, m.state, huge, u(10)));
    assert!(!borrow_check_is_defined(m.config, m.state, u(100), huge));
    // more reserves than balance plus liabilities
    let broke = market(ONE, 0, 200 * ONE, 100);
    assert!(!borrow_check_is_defined(broke.config, broke.state, u(100), u(10)));
}

#[test]
fn smaller_borrow_is_allowed_whenever_larger_is() {
    let m = market(ONE / 2, 50 * ONE, 10 * ONE, 100);
    for amount in 0..=20u128 {
        assert!(assert_max_borrow_factor(m.config, m.state, u(100), u(amount)));
    }
}

#[test]
fn repay_report_ignores_market_data() {
    let repay = BorrowerActionResponse::Repay { amount: u(8), advised_buffer_size: u(1) };
    let m = Some(market(ONE, 0, 0, 100));
    assert_eq!(query_rebalance(repay, None), query_rebalance(repay, m));
}
