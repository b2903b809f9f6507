use basset_vault::addr::Addr;
use basset_vault::bignum::{Decimal256, Uint256};
use basset_vault::error::{ContractError, StoredItem};
use basset_vault::vault::state::{
    can_update_loan_state_part_of_loan_repaid, config_set_nasset_token, config_set_psi_distributor,
    load_aim_buffer_size, load_child_contracts_info, load_config, load_gov_update,
    load_last_rewards_claiming_height, load_nasset_token_config_holder, load_repaying_loan_state,
    load_stable_balance_before_selling_anc, remove_gov_update, store_aim_buffer_size,
    store_child_contracts_info, store_config, store_gov_update, store_last_rewards_claiming_height,
    store_nasset_token_config_holder, store_repaying_loan_state,
    store_stable_balance_before_selling_anc, update_loan_state_part_of_loan_repaid,
    ChildContractsInfo, Config, GovernanceUpdateState, RepayingLoanState, VaultStore,
};

fn addr(s: &str) -> Addr {
    Addr::unchecked(s.to_string())
}

fn u(x: u128) -> Uint256 {
    Uint256::from_u128(x)
}

fn dec(atomics: u128) -> Decimal256 {
    Decimal256::from_atomics(u(atomics))
}

fn config() -> Config {
    Config {
        governance_contract: addr("gov"),
        anchor_token: addr("anc"),
        anchor_overseer_contract: addr("overseer"),
        anchor_market_contract: addr("market"),
        anchor_custody_basset_contract: addr("custody"),
        anc_stable_swap_contract: addr("anc_swap"),
        psi_stable_swap_contract: addr("psi_swap"),
        basset_token: addr("basset"),
        aterra_token: addr("aterra"),
        psi_token: addr("psi"),
        basset_vault_strategy_contract: addr("strategy"),
        stable_denom: "uusd".to_string(),
        claiming_rewards_delay: 1000,
        over_loan_balance_value: dec(1_010_000_000_000_000_000),
        nasset_token: addr("nasset"),
        psi_distributor: addr("psi_distributor"),
    }
}

fn info() -> ChildContractsInfo {
    ChildContractsInfo {
        nasset_token_code_id: 1,
        nasset_token_rewards_code_id: 2,
        psi_distributor_code_id: 3,
        collateral_token_symbol: "Luna".to_string(),
        community_pool_contract_addr: "community".to_string(),
        manual_ltv: dec(600_000_000_000_000_000),
        fee_rate: dec(500_000_000_000_000_000),
        tax_rate: dec(250_000_000_000_000_000),
        nasset_psi_swap_contract_addr: "nasset_psi_swap".to_string(),
        terraswap_factory_contract_addr: "factory".to_string(),
    }
}

#[test]
fn vault_config_read_gives_back_write() {
    let mut store = VaultStore::new();
    assert_eq!(load_config(&store), Err(ContractError::NotFound(StoredItem::Config)));
    store_config(&mut store, &config()).unwrap();
    assert_eq!(load_config(&store), Ok(config()));
}

#[test]
fn vault_config_setters() {
    let mut store = VaultStore::new();
    assert_eq!(
        config_set_nasset_token(&mut store, addr("x")),
        Err(ContractError::NotFound(StoredItem::Config))
    );
    assert_eq!(
        config_set_psi_distributor(&mut store, addr("x")),
        Err(ContractError::NotFound(StoredItem::Config))
    );
    store_config(&mut store, &config()).unwrap();
    let mut expected = config();
    expected.nasset_token = addr("new_nasset");
    assert_eq!(config_set_nasset_token(&mut store, addr("new_nasset")), Ok(expected.clone()));
    expected.psi_distributor = addr("new_distributor");
    assert_eq!(config_set_psi_distributor(&mut store, addr("new_distributor")), Ok(expected.clone()));
    assert_eq!(load_config(&store), Ok(expected));
}

#[test]
fn vault_loan_update_marks_repayment() {
    let mut store = VaultStore::new();
    assert_eq!(load_repaying_loan_state(&store), Ok(RepayingLoanState::default()));
    assert!(!RepayingLoanState::default().repayed_something);
    assert_eq!(
        update_loan_state_part_of_loan_repaid(&mut store),
        Err(ContractError::NotFound(StoredItem::RepayingLoanState))
    );
    let state = RepayingLoanState {
        iteration_index: 1,
        repayed_something: false,
        to_repay_amount: u(500),
        repaying_amount: u(500),
        aim_buffer_size: u(9),
    };
    store_repaying_loan_state(&mut store, &state).unwrap();
    assert!(can_update_loan_state_part_of_loan_repaid(&store));
    let expected = RepayingLoanState { to_repay_amount: u(0), repayed_something: true, ..state };
    assert_eq!(update_loan_state_part_of_loan_repaid(&mut store), Ok(expected));
    assert_eq!(load_repaying_loan_state(&store), Ok(expected));
}

#[test]
fn vault_governance_update_can_be_removed() {
    let mut store = VaultStore::new();
    let update = GovernanceUpdateState { new_governance_contract_addr: addr("new_gov"), wait_approve_until: 99 };
    assert_eq!(load_gov_update(&store), Err(ContractError::NotFound(StoredItem::GovernanceUpdate)));
    store_gov_update(&mut store, &update).unwrap();
    assert_eq!(load_gov_update(&store), Ok(update.clone()));
    remove_gov_update(&mut store);
    assert_eq!(load_gov_update(&store), Err(ContractError::NotFound(StoredItem::GovernanceUpdate)));
    remove_gov_update(&mut store);
    assert_eq!(store, VaultStore::new());
}

#[test]
fn vault_other_items() {
    let mut store = VaultStore::new();
    assert_eq!(
        load_nasset_token_config_holder(&store),
        Err(ContractError::NotFound(StoredItem::NassetTokenConfigHolder))
    );
    assert_eq!(
        load_child_contracts_info(&store),
        Err(ContractError::NotFound(StoredItem::ChildContractsInfo))
    );
    assert_eq!(load_last_rewards_claiming_height(&store), Ok(0));
    store_nasset_token_config_holder(&mut store, &addr("holder")).unwrap();
    store_child_contracts_info(&mut store, &info()).unwrap();
    store_aim_buffer_size(&mut store, &u(3)).unwrap();
    store_stable_balance_before_selling_anc(&mut store, &8).unwrap();
    store_last_rewards_claiming_height(&mut store, &44).unwrap();
    assert_eq!(load_nasset_token_config_holder(&store), Ok(addr("holder")));
    assert_eq!(load_child_contracts_info(&store), Ok(info()));
    assert_eq!(load_aim_buffer_size(&store), Ok(u(3)));
    assert_eq!(load_stable_balance_before_selling_anc(&store), Ok(8));
    assert_eq!(load_last_rewards_claiming_height(&store), Ok(44));
    assert_eq!(load_config(&store), Err(ContractError::NotFound(StoredItem::Config)));
    assert_eq!(load_gov_update(&store), Err(ContractError::NotFound(StoredItem::GovernanceUpdate)));
}
