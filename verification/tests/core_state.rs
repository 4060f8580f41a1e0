use aml_core::contract::execute;
use aml_core::contract::query;
use aml_core::contract::transfer;
use aml_core::contract::Coin;
use aml_core::contract::CoreOk;
use aml_core::contract::ExecuteMsg;
use aml_core::contract::QueryAnswer;
use aml_core::contract::QueryMsg;
use aml_core::errors::CoreError;
use aml_core::keys::KeyType;
use aml_core::state::initialize;
use aml_core::state::CoreState;
use aml_core::state::ValidatedTransaction;

fn fresh_state() -> CoreState {
    initialize("admin".to_string(), vec![2u8; 33], "k256").unwrap()
}

fn sample_tx(n: u64) -> ValidatedTransaction {
    ValidatedTransaction {
        sender: format!("sender-{}", n),
        receiver: format!("receiver-{}", n),
        amount: 1000 + n as u128,
        timestamp: 1_700_000_000 + n,
    }
}

#[test]
fn initialize_normalizes_key_type() {
    let st = fresh_state();
    assert_eq!(st.read_admin(), "admin".to_string());
    assert_eq!(st.read_oracle_key(), (vec![2u8; 33], KeyType::Secp256k1));
    assert_eq!(st.read_oracle_data(), None);
    assert!(st.read_all_validated_transactions().is_empty());
}

#[test]
fn initialize_rejects_unknown_key_type() {
    let r = initialize("admin".to_string(), vec![2u8; 33], "rsa");
    assert_eq!(r.unwrap_err(), CoreError::ConfigurationError);
}

#[test]
fn rotate_by_non_admin_is_rejected_and_changes_nothing() {
    let mut st = fresh_state();
    let intruder = "intruder".to_string();
    let r = st.rotate_oracle_key(&intruder, vec![3u8; 33], Some("ed25519".to_string()));
    assert_eq!(r.unwrap_err(), CoreError::AuthorizationError);
    assert_eq!(st.read_oracle_key(), (vec![2u8; 33], KeyType::Secp256k1));
}

#[test]
fn rotate_with_key_type_omitted_keeps_previous_type() {
    let mut st = fresh_state();
    let admin = "admin".to_string();
    let r = st.rotate_oracle_key(&admin, vec![4u8; 65], None);
    assert_eq!(r.unwrap(), KeyType::Secp256k1);
    assert_eq!(st.read_oracle_key(), (vec![4u8; 65], KeyType::Secp256k1));
}

#[test]
fn rotate_with_key_type_replaces_both() {
    let mut st = fresh_state();
    let admin = "admin".to_string();
    let r = st.rotate_oracle_key(&admin, vec![3u8; 33], Some("ED".to_string()));
    assert_eq!(r.unwrap(), KeyType::Ed25519);
    assert_eq!(st.read_oracle_key(), (vec![3u8; 33], KeyType::Ed25519));
}

#[test]
fn rotate_with_invalid_key_type_is_atomic() {
    let mut st = fresh_state();
    let admin = "admin".to_string();
    let r = st.rotate_oracle_key(&admin, vec![3u8; 33], Some("dsa".to_string()));
    assert_eq!(r.unwrap_err(), CoreError::ConfigurationError);
    assert_eq!(st.read_oracle_key(), (vec![2u8; 33], KeyType::Secp256k1));
}

#[test]
fn ledger_assigns_consecutive_sequence_numbers() {
    let mut st = fresh_state();
    assert_eq!(st.add_validated_transaction(sample_tx(0)), 0);
    assert_eq!(st.add_validated_transaction(sample_tx(1)), 1);
    assert_eq!(st.add_validated_transaction(sample_tx(2)), 2);
    let all = st.read_all_validated_transactions();
    assert_eq!(all.len(), 3);
    assert_eq!(all[0], sample_tx(0));
    assert_eq!(all[1], sample_tx(1));
    assert_eq!(all[2], sample_tx(2));
}

#[test]
fn transfer_with_zero_funds_is_rejected() {
    let r = transfer("someone".to_string(), Vec::new());
    assert_eq!(r.unwrap_err(), CoreError::ValidationError);
}

#[test]
fn transfer_forwards_all_attached_funds() {
    let funds = vec![
        Coin { denom: "uatom".to_string(), amount: 25 },
        Coin { denom: "untrn".to_string(), amount: 1 },
    ];
    let p = transfer("someone".to_string(), funds.clone()).unwrap();
    assert_eq!(p.to_address, "someone".to_string());
    assert_eq!(p.amount, funds);
}

#[test]
fn execute_send_without_funds_produces_no_instruction() {
    let mut st = fresh_state();
    let r = execute(
        &mut st,
        "caller".to_string(),
        Vec::new(),
        ExecuteMsg::Send { recipient: "someone".to_string() },
    );
    assert_eq!(r.unwrap_err(), CoreError::ValidationError);
}

#[test]
fn execute_send_with_funds_emits_instruction() {
    let mut st = fresh_state();
    let funds = vec![Coin { denom: "uatom".to_string(), amount: 7 }];
    let r = execute(
        &mut st,
        "caller".to_string(),
        funds.clone(),
        ExecuteMsg::Send { recipient: "someone".to_string() },
    );
    match r.unwrap() {
        CoreOk::Sent { instruction } => {
            assert_eq!(instruction.to_address, "someone".to_string());
            assert_eq!(instruction.amount, funds);
        },
        other => panic!("unexpected outcome: {:?}", other),
    }
}

#[test]
fn execute_routes_rotation_and_reports_audit_fields() {
    let mut st = fresh_state();
    let r = execute(
        &mut st,
        "admin".to_string(),
        Vec::new(),
        ExecuteMsg::UpdateOracle { new_pubkey: vec![3u8; 33], new_key_type: None },
    );
    assert_eq!(
        r.unwrap(),
        CoreOk::OracleKeyRotated {
            admin: "admin".to_string(),
            new_pubkey: vec![3u8; 33],
            key_type: KeyType::Secp256k1,
        },
    );
}

#[test]
fn execute_routes_ledger_appends() {
    let mut st = fresh_state();
    let r = execute(
        &mut st,
        "caller".to_string(),
        Vec::new(),
        ExecuteMsg::AddValidTransaction { transaction: sample_tx(0) },
    );
    assert_eq!(r.unwrap(), CoreOk::TransactionAdded { sequence: 0 });
    let r = execute(
        &mut st,
        "caller".to_string(),
        Vec::new(),
        ExecuteMsg::AddValidTransaction { transaction: sample_tx(1) },
    );
    assert_eq!(r.unwrap(), CoreOk::TransactionAdded { sequence: 1 });
}

#[test]
fn queries_report_each_slot() {
    let mut st = fresh_state();
    st.add_validated_transaction(sample_tx(5));
    assert_eq!(query(&st, QueryMsg::GetOracleData), QueryAnswer::OracleData { data: None });
    assert_eq!(
        query(&st, QueryMsg::GetOraclePubkey),
        QueryAnswer::OraclePubkey { pubkey: vec![2u8; 33], key_type: KeyType::Secp256k1 },
    );
    assert_eq!(query(&st, QueryMsg::GetAdmin), QueryAnswer::Admin { admin: "admin".to_string() });
    assert_eq!(
        query(&st, QueryMsg::GetValidTransactions),
        QueryAnswer::ValidTransactions { transactions: vec![sample_tx(5)] },
    );
}
