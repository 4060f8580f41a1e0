//! The module's state and its transitions.
//!
//! Every persisted slot of the module is an explicit field of
//! [`CoreState`]: the one admin identity, the oracle key store (public key
//! bytes plus normalized key type), the single-slot oracle datum, and the
//! append-only transaction ledger. Each operation is a single
//! request-to-response transition: all preconditions are evaluated before
//! any field is written, so a failing operation leaves the state unchanged.

use vstd::prelude::*;

use crate::crypto::secp256k1_accepts;
use crate::crypto::secp256k1_pubkey_shape;
use crate::crypto::secp256k1_valid;
use crate::crypto::sha256_of;
use crate::crypto::verify;
use crate::crypto::VerifyError;
use crate::errors::CoreError;
use crate::keys::normalize_key_type;
use crate::keys::parse_key_type;
use crate::keys::KeyType;
use vstd::slice::slice_to_vec;
use vstd::utf8::encode_utf8;

verus! {

/// One externally pre-validated transaction record, immutable once created.
#[derive(Debug, PartialEq, Eq)]
pub struct ValidatedTransaction {
    pub sender: String,
    pub receiver: String,
    pub amount: u128,
    pub timestamp: u64,
}

impl Clone for ValidatedTransaction {
    fn clone(&self) -> (res: Self)
        ensures
            res == *self,
    {
        ValidatedTransaction {
            sender: self.sender.clone(),
            receiver: self.receiver.clone(),
            amount: self.amount,
            timestamp: self.timestamp,
        }
    }
}

/// The full state of the module: the admin identity, the oracle key
/// store, the latest verified oracle datum, and the transaction ledger.
///
/// The ledger's sequence numbers are its indices: entry `i` carries
/// sequence number `i`, so the next number to assign always equals the
/// current entry count and numbers are never skipped or reused.
#[derive(Debug)]
pub struct CoreState {
    /// The one privileged identity, set at creation and immutable.
    pub admin: String,
    /// Raw bytes of the oracle's public key.
    pub oracle_pubkey: Vec<u8>,
    /// Normalized scheme of the oracle key, stored in canonical form.
    pub oracle_key_type: KeyType,
    /// Most recently accepted oracle payload; absent until the first
    /// successful verified update.
    pub oracle_data: Option<String>,
    /// Append-only record of pre-validated transactions, in insertion
    /// order.
    pub ledger: Vec<ValidatedTransaction>,
}

/// The key store after a successful rotation: the public key is always
/// replaced, the key type only when a new one was supplied; every other
/// slot is unchanged.
pub open spec fn rotated(
    pre: CoreState,
    post: CoreState,
    new_pubkey: Seq<u8>,
    new_key_type: Option<KeyType>,
) -> bool {
    &&& post.admin == pre.admin
    &&& post.oracle_pubkey@ == new_pubkey
    &&& post.oracle_key_type == (match new_key_type {
        Some(k) => k,
        None => pre.oracle_key_type,
    })
    &&& post.oracle_data == pre.oracle_data
    &&& post.ledger@ == pre.ledger@
}

/// A successful oracle-data commit: the datum slot holds exactly the new
/// payload and every other slot is unchanged.
pub open spec fn committed(pre: CoreState, post: CoreState, data: Seq<char>) -> bool {
    &&& post.admin == pre.admin
    &&& post.oracle_pubkey@ == pre.oracle_pubkey@
    &&& post.oracle_key_type == pre.oracle_key_type
    &&& (post.oracle_data matches Some(d) && d@ == data)
    &&& post.ledger@ == pre.ledger@
}

/// A successful ledger append: the entry is assigned the prior entry
/// count as its sequence number and goes to the end of the ledger; every
/// other slot is unchanged.
pub open spec fn appended(
    pre: CoreState,
    post: CoreState,
    tx: ValidatedTransaction,
    seq_no: u64,
) -> bool {
    &&& seq_no == pre.ledger@.len()
    &&& post.ledger@ == pre.ledger@.push(tx)
    &&& post.admin == pre.admin
    &&& post.oracle_pubkey@ == pre.oracle_pubkey@
    &&& post.oracle_key_type == pre.oracle_key_type
    &&& post.oracle_data == pre.oracle_data
}

/// Creates the module's state: the caller becomes the one admin, and the
/// supplied key-type name must normalize or the whole operation fails
/// with `ConfigurationError`.
pub fn initialize(admin: String, oracle_pubkey: Vec<u8>, oracle_key_type: &str) -> (r: Result<
    CoreState,
    CoreError,
>)
    ensures
        match r {
            Ok(s) => {
                &&& normalize_key_type(oracle_key_type@) == Some(s.oracle_key_type)
                &&& s.admin == admin
                &&& s.oracle_pubkey@ == oracle_pubkey@
                &&& s.oracle_data is None
                &&& s.ledger@.len() == 0
            },
            Err(e) => e == CoreError::ConfigurationError && normalize_key_type(oracle_key_type@)
                is None,
        },
{
    match parse_key_type(oracle_key_type) {
        Some(kt) => Ok(
            CoreState {
                admin,
                oracle_pubkey,
                oracle_key_type: kt,
                oracle_data: None,
                ledger: Vec::new(),
            },
        ),
        None => Err(CoreError::ConfigurationError),
    }
}

/// The full outcome relation of the oracle-update protocol: what a call
/// may change, which error it reports and why, and when success is owed.
///
/// Success is owed exactly where the core decides alone: under a
/// `Secp256k1` key store, a 64-byte signature and a well-shaped,
/// parseable key whose verdict is `true` must commit. Malformed lengths
/// or key shapes must be rejected as a verification failure, and an
/// `Ed25519` key store always reports the missing verifier.
pub open spec fn update_outcome(
    pre: CoreState,
    post: CoreState,
    data: Seq<char>,
    signature: Seq<u8>,
    r: Result<(), CoreError>,
) -> bool {
    &&& match r {
        Ok(_) => {
            &&& pre.oracle_key_type == KeyType::Secp256k1
            &&& secp256k1_valid(sha256_of(encode_utf8(data)), signature, pre.oracle_pubkey@)
            &&& committed(pre, post, data)
        },
        Err(e) => post == pre && match e {
            CoreError::UnsupportedKeyType => pre.oracle_key_type == KeyType::Ed25519,
            CoreError::VerificationError => pre.oracle_key_type == KeyType::Secp256k1,
            _ => false,
        },
    }
    &&& (pre.oracle_key_type == KeyType::Ed25519 ==> r == Err::<(), CoreError>(
        CoreError::UnsupportedKeyType,
    ))
    &&& (pre.oracle_key_type == KeyType::Secp256k1 && signature.len() == 64
        && secp256k1_pubkey_shape(pre.oracle_pubkey@) && secp256k1_accepts(
        signature,
        pre.oracle_pubkey@,
    ) && secp256k1_valid(sha256_of(encode_utf8(data)), signature, pre.oracle_pubkey@) ==> r is Ok)
    &&& (pre.oracle_key_type == KeyType::Secp256k1 && (signature.len() != 64
        || !secp256k1_pubkey_shape(pre.oracle_pubkey@)) ==> r == Err::<(), CoreError>(
        CoreError::VerificationError,
    ))
}

/// Maps a verification outcome to the oracle-update decision: commit
/// exactly on a `true` verdict; a `false` verdict and malformed input
/// both reject as a verification failure; an unsupported scheme stays a
/// distinct error.
pub fn decide_update(outcome: Result<bool, VerifyError>) -> (d: Result<(), CoreError>)
    ensures
        d == Ok::<(), CoreError>(()) <==> outcome == Ok::<bool, VerifyError>(true),
        outcome == Ok::<bool, VerifyError>(false) ==> d == Err::<(), CoreError>(
            CoreError::VerificationError,
        ),
        outcome == Err::<bool, VerifyError>(VerifyError::MalformedInput) ==> d == Err::<
            (),
            CoreError,
        >(CoreError::VerificationError),
        outcome == Err::<bool, VerifyError>(VerifyError::UnsupportedKeyType) ==> d == Err::<
            (),
            CoreError,
        >(CoreError::UnsupportedKeyType),
{
    match outcome {
        Ok(true) => Ok(()),
        Ok(false) => Err(CoreError::VerificationError),
        Err(VerifyError::MalformedInput) => Err(CoreError::VerificationError),
        Err(VerifyError::UnsupportedKeyType) => Err(CoreError::UnsupportedKeyType),
    }
}

impl CoreState {
    /// The verify-then-commit protocol: the payload's signature is checked
    /// against the current key store, and only a `true` verdict writes the
    /// datum slot. A genuine signature under a well-formed stored key must
    /// commit; on any failure the state is exactly as before, so a failed
    /// update never changes what a read returns. See [`update_outcome`]
    /// for the full relation.
    pub fn update_oracle_data(&mut self, data: String, signature: &[u8]) -> (r: Result<
        (),
        CoreError,
    >)
        ensures
            update_outcome(*old(self), *final(self), data@, signature@, r),
    {
        let outcome = verify(
            data.as_str().as_bytes(),
            signature,
            self.oracle_pubkey.as_slice(),
            self.oracle_key_type,
        );
        match decide_update(outcome) {
            Ok(_) => {
                self.oracle_data = Some(data);
                Ok(())
            },
            Err(e) => Err(e),
        }
    }

    /// Admin-gated key rotation: the caller must be the admin, and a
    /// supplied key-type name must normalize, or the whole operation
    /// fails with the state unchanged. On success the public key is
    /// replaced, the key type only when supplied, and the stored key
    /// type is returned.
    pub fn rotate_oracle_key(
        &mut self,
        caller: &String,
        new_pubkey: Vec<u8>,
        new_key_type: Option<String>,
    ) -> (r: Result<KeyType, CoreError>)
        ensures
            match r {
                Ok(kt) => {
                    &&& caller@ == old(self).admin@
                    &&& match new_key_type {
                        Some(raw) => normalize_key_type(raw@) == Some(kt),
                        None => kt == old(self).oracle_key_type,
                    }
                    &&& rotated(
                        *old(self),
                        *final(self),
                        new_pubkey@,
                        match new_key_type {
                            Some(raw) => normalize_key_type(raw@),
                            None => None,
                        },
                    )
                },
                Err(e) => *final(self) == *old(self) && match e {
                    CoreError::AuthorizationError => caller@ != old(self).admin@,
                    CoreError::ConfigurationError => caller@ == old(self).admin@ && (
                    new_key_type matches Some(raw) && normalize_key_type(raw@) is None),
                    _ => false,
                },
            },
            caller@ != old(self).admin@ ==> r == Err::<KeyType, CoreError>(
                CoreError::AuthorizationError,
            ),
            caller@ == old(self).admin@ && (new_key_type matches Some(raw) ==> normalize_key_type(
                raw@,
            ) is Some) ==> r is Ok,
    {
        if !(self.admin == *caller) {
            return Err(CoreError::AuthorizationError);
        }
        let parsed_new: Option<KeyType> = match &new_key_type {
            Some(raw) => {
                match parse_key_type(raw.as_str()) {
                    Some(k) => Some(k),
                    None => {
                        return Err(CoreError::ConfigurationError);
                    },
                }
            },
            None => None,
        };
        self.oracle_pubkey = new_pubkey;
        let kt = match parsed_new {
            Some(k) => {
                self.oracle_key_type = k;
                k
            },
            None => self.oracle_key_type,
        };
        Ok(kt)
    }

    /// Appends a pre-validated entry to the ledger and returns its
    /// sequence number, which equals the entry count before the call.
    /// Content validity is the caller's responsibility.
    pub fn add_validated_transaction(&mut self, tx: ValidatedTransaction) -> (seq_no: u64)
        ensures
            appended(*old(self), *final(self), tx, seq_no),
    {
        let seq_no = self.ledger.len() as u64;
        self.ledger.push(tx);
        seq_no
    }

    /// The latest verified oracle payload, absent until the first commit.
    pub fn read_oracle_data(&self) -> (r: Option<String>)
        ensures
            r == self.oracle_data,
    {
        match &self.oracle_data {
            Some(d) => Some(d.clone()),
            None => None,
        }
    }

    /// The current oracle public key and its normalized key type.
    pub fn read_oracle_key(&self) -> (r: (Vec<u8>, KeyType))
        ensures
            r.0@ == self.oracle_pubkey@,
            r.1 == self.oracle_key_type,
    {
        (slice_to_vec(self.oracle_pubkey.as_slice()), self.oracle_key_type)
    }

    /// The one admin identity.
    pub fn read_admin(&self) -> (r: String)
        ensures
            r == self.admin,
    {
        self.admin.clone()
    }

    /// All ledger entries, ascending by sequence number, which is their
    /// insertion order.
    pub fn read_all_validated_transactions(&self) -> (r: Vec<ValidatedTransaction>)
        ensures
            r@ == self.ledger@,
    {
        let mut out: Vec<ValidatedTransaction> = Vec::new();
        let mut i: usize = 0;
        while i < self.ledger.len()
            invariant
                i <= self.ledger.len(),
                out@.len() == i,
                forall|j: int| 0 <= j < i ==> out@[j] == self.ledger@[j],
            decreases self.ledger.len() - i,
        {
            out.push(self.ledger[i].clone());
            i += 1;
        }
        proof {
            assert(out@ =~= self.ledger@);
        }
        out
    }
}

/// An oracle update whose signature does not verify under the stored
/// secp256k1 key — in particular one whose payload, signature, or key
/// was altered from a combination that verifies — is rejected and leaves
/// the oracle datum, and every other slot, unchanged.
pub proof fn lemma_update_rejects_invalid(
    pre: CoreState,
    post: CoreState,
    data: Seq<char>,
    signature: Seq<u8>,
    r: Result<(), CoreError>,
)
    requires
        update_outcome(pre, post, data, signature, r),
        pre.oracle_key_type == KeyType::Secp256k1,
        !secp256k1_valid(sha256_of(encode_utf8(data)), signature, pre.oracle_pubkey@),
    ensures
        r == Err::<(), CoreError>(CoreError::VerificationError),
        post == pre,
{
}

/// Two successive appends assign consecutive sequence numbers in call
/// order, and the ledger keeps both entries at exactly those positions,
/// in insertion order.
pub proof fn lemma_sequence_numbers_consecutive(
    s0: CoreState,
    s1: CoreState,
    s2: CoreState,
    t1: ValidatedTransaction,
    t2: ValidatedTransaction,
    n1: u64,
    n2: u64,
)
    requires
        appended(s0, s1, t1, n1),
        appended(s1, s2, t2, n2),
    ensures
        n2 == n1 + 1,
        s2.ledger@ == s0.ledger@.push(t1).push(t2),
        s2.ledger@[n1 as int] == t1,
        s2.ledger@[n2 as int] == t2,
{
}

} // verus!
