//! Request dispatch: the abstract request/response surface of the module.
//!
//! Each request variant is routed to the operation that decides it, and
//! the response carries the audit record a host would emit on success.
//! Attached funds and payment instructions are modeled as plain values;
//! issuing a payment and resolving the recipient identity are the host's
//! concern.

use vstd::prelude::*;

use crate::crypto::secp256k1_accepts;
use crate::crypto::secp256k1_pubkey_shape;
use crate::crypto::secp256k1_valid;
use crate::crypto::sha256_of;
use crate::errors::CoreError;
use crate::keys::normalize_key_type;
use crate::keys::KeyType;
use crate::state::appended;
use crate::state::committed;
use crate::state::rotated;
use crate::state::CoreState;
use crate::state::ValidatedTransaction;
use vstd::slice::slice_to_vec;
use vstd::utf8::encode_utf8;

verus! {

/// An amount of one denomination attached to a request.
#[derive(Clone, Debug, PartialEq, Eq)]
pub struct Coin {
    pub denom: String,
    pub amount: u128,
}

/// A payment the host is asked to carry out: the attached funds,
/// forwarded in full to one recipient.
#[derive(Debug, PartialEq, Eq)]
pub struct PaymentInstruction {
    pub to_address: String,
    pub amount: Vec<Coin>,
}

/// Builds the payment instruction for a transfer, rejecting a request
/// with no attached funds before any instruction is produced.
pub fn transfer(recipient: String, funds: Vec<Coin>) -> (r: Result<PaymentInstruction, CoreError>)
    ensures
        match r {
            Ok(p) => funds@.len() > 0 && p.to_address == recipient && p.amount@ == funds@,
            Err(e) => e == CoreError::ValidationError && funds@.len() == 0,
        },
{
    if funds.is_empty() {
        Err(CoreError::ValidationError)
    } else {
        Ok(PaymentInstruction { to_address: recipient, amount: funds })
    }
}

/// A state-changing request.
#[derive(Debug, PartialEq, Eq)]
pub enum ExecuteMsg {
    /// Forward the attached funds to `recipient`.
    Send { recipient: String },
    /// Run the verify-then-commit oracle update protocol.
    OracleDataUpdate { data: String, signature: Vec<u8> },
    /// Admin-gated rotation of the oracle key store.
    UpdateOracle { new_pubkey: Vec<u8>, new_key_type: Option<String> },
    /// Append a pre-validated entry to the ledger.
    AddValidTransaction { transaction: ValidatedTransaction },
}

/// The successful outcome of a request, carrying the fields of the audit
/// record the host emits.
#[derive(Debug, PartialEq, Eq)]
pub enum CoreOk {
    Sent { instruction: PaymentInstruction },
    OracleDataUpdated { sender: String, data: String },
    OracleKeyRotated { admin: String, new_pubkey: Vec<u8>, key_type: KeyType },
    TransactionAdded { sequence: u64 },
}

/// Routes one state-changing request. `sender` is the caller's identity
/// and `funds` what the caller attached; both come from the host.
pub fn execute(state: &mut CoreState, sender: String, funds: Vec<Coin>, msg: ExecuteMsg) -> (r:
    Result<CoreOk, CoreError>)
    ensures
        match msg {
            ExecuteMsg::Send { recipient } => *final(state) == *old(state) && match r {
                Ok(ok) => funds@.len() > 0 && (ok matches CoreOk::Sent { instruction }
                    && instruction.to_address == recipient && instruction.amount@ == funds@),
                Err(e) => e == CoreError::ValidationError && funds@.len() == 0,
            },
            ExecuteMsg::OracleDataUpdate { data, signature } => {
                &&& match r {
                    Ok(ok) => {
                        &&& old(state).oracle_key_type == KeyType::Secp256k1
                        &&& secp256k1_valid(
                            sha256_of(encode_utf8(data@)),
                            signature@,
                            old(state).oracle_pubkey@,
                        )
                        &&& committed(*old(state), *final(state), data@)
                        &&& (ok matches CoreOk::OracleDataUpdated {
                            sender: a_sender,
                            data: a_data,
                        } && a_sender == sender && a_data == data)
                    },
                    Err(e) => *final(state) == *old(state) && match e {
                        CoreError::UnsupportedKeyType => old(state).oracle_key_type
                            == KeyType::Ed25519,
                        CoreError::VerificationError => old(state).oracle_key_type
                            == KeyType::Secp256k1,
                        _ => false,
                    },
                }
                &&& (old(state).oracle_key_type == KeyType::Secp256k1 && signature@.len() == 64
                    && secp256k1_pubkey_shape(old(state).oracle_pubkey@) && secp256k1_accepts(
                    signature@,
                    old(state).oracle_pubkey@,
                ) && secp256k1_valid(
                    sha256_of(encode_utf8(data@)),
                    signature@,
                    old(state).oracle_pubkey@,
                ) ==> r is Ok)
                &&& (old(state).oracle_key_type == KeyType::Secp256k1 && (signature@.len() != 64
                    || !secp256k1_pubkey_shape(old(state).oracle_pubkey@)) ==> (r matches Err(e)
                    && e == CoreError::VerificationError))
            },
            ExecuteMsg::UpdateOracle { new_pubkey, new_key_type } => match r {
                Ok(ok) => {
                    &&& sender@ == old(state).admin@
                    &&& (ok matches CoreOk::OracleKeyRotated {
                        admin: a_admin,
                        new_pubkey: a_pk,
                        key_type: a_kt,
                    }
                        && a_admin@ == old(state).admin@ && a_pk@ == new_pubkey@ && rotated(
                        *old(state),
                        *final(state),
                        new_pubkey@,
                        match new_key_type {
                            Some(raw) => normalize_key_type(raw@),
                            None => None,
                        },
                    ) && a_kt == final(state).oracle_key_type && (match new_key_type {
                        Some(raw) => normalize_key_type(raw@) == Some(a_kt),
                        None => a_kt == old(state).oracle_key_type,
                    }))
                },
                Err(e) => *final(state) == *old(state) && match e {
                    CoreError::AuthorizationError => sender@ != old(state).admin@,
                    CoreError::ConfigurationError => sender@ == old(state).admin@ && (
                    new_key_type matches Some(raw) && normalize_key_type(raw@) is None),
                    _ => false,
                },
            },
            ExecuteMsg::AddValidTransaction { transaction } => r matches Ok(ok) && (ok
                matches CoreOk::TransactionAdded { sequence } && appended(
                *old(state),
                *final(state),
                transaction,
                sequence,
            )),
        },
{
    match msg {
        ExecuteMsg::Send { recipient } => {
            match transfer(recipient, funds) {
                Ok(instruction) => Ok(CoreOk::Sent { instruction }),
                Err(e) => Err(e),
            }
        },
        ExecuteMsg::OracleDataUpdate { data, signature } => {
            let audit_data = data.clone();
            match state.update_oracle_data(data, signature.as_slice()) {
                Ok(_) => Ok(CoreOk::OracleDataUpdated { sender, data: audit_data }),
                Err(e) => Err(e),
            }
        },
        ExecuteMsg::UpdateOracle { new_pubkey, new_key_type } => {
            let audit_pubkey = slice_to_vec(new_pubkey.as_slice());
            match state.rotate_oracle_key(&sender, new_pubkey, new_key_type) {
                Ok(kt) => Ok(
                    CoreOk::OracleKeyRotated {
                        admin: sender,
                        new_pubkey: audit_pubkey,
                        key_type: kt,
                    },
                ),
                Err(e) => Err(e),
            }
        },
        ExecuteMsg::AddValidTransaction { transaction } => {
            let sequence = state.add_validated_transaction(transaction);
            Ok(CoreOk::TransactionAdded { sequence })
        },
    }
}

/// A read-only request.
#[derive(Debug, PartialEq, Eq)]
pub enum QueryMsg {
    GetOracleData,
    GetOraclePubkey,
    GetAdmin,
    GetValidTransactions,
}

/// The answer to a read-only request.
#[derive(Debug, PartialEq, Eq)]
pub enum QueryAnswer {
    OracleData { data: Option<String> },
    OraclePubkey { pubkey: Vec<u8>, key_type: KeyType },
    Admin { admin: String },
    ValidTransactions { transactions: Vec<ValidatedTransaction> },
}

/// Routes one read-only request; no query changes the state.
pub fn query(state: &CoreState, msg: QueryMsg) -> (r: QueryAnswer)
    ensures
        match msg {
            QueryMsg::GetOracleData => r matches QueryAnswer::OracleData { data } && data
                == state.oracle_data,
            QueryMsg::GetOraclePubkey => r matches QueryAnswer::OraclePubkey { pubkey, key_type }
                && pubkey@ == state.oracle_pubkey@ && key_type == state.oracle_key_type,
            QueryMsg::GetAdmin => r matches QueryAnswer::Admin { admin } && admin == state.admin,
            QueryMsg::GetValidTransactions => r matches QueryAnswer::ValidTransactions {
                transactions,
            } && transactions@ == state.ledger@,
        },
{
    match msg {
        QueryMsg::GetOracleData => QueryAnswer::OracleData { data: state.read_oracle_data() },
        QueryMsg::GetOraclePubkey => {
            let (pubkey, key_type) = state.read_oracle_key();
            QueryAnswer::OraclePubkey { pubkey, key_type }
        },
        QueryMsg::GetAdmin => QueryAnswer::Admin { admin: state.read_admin() },
        QueryMsg::GetValidTransactions => QueryAnswer::ValidTransactions {
            transactions: state.read_all_validated_transactions(),
        },
    }
}

} // verus!
