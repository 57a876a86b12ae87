//! Snapshots of on-chain accounts, and the public key a wallet contract keeps in its data.

use vstd::prelude::*;
use vstd::slice::slice_subrange;
use crate::bytes::array_32;
use crate::error::{Error, ExtractionError};
use crate::keys::{ed25519_accepts, ed25519_key_valid, PublicKey, Signature};

verus! {

/// Which contract an account runs, as far as the wallet tells contracts apart.
#[derive(Clone, Copy, Debug, PartialEq, Eq)]
pub enum CodeIdentity {
    /// The sequence-number wallet of the third revision.
    WalletV3,
    /// The high-load wallet of the second revision.
    HighloadWalletV2,
    /// Any other code.
    Other,
}

/// The state an account is in, with the parts of an active account that the wallet reads:
/// the identity of its code and the bytes of its data cell.
#[derive(Clone, Debug, PartialEq, Eq)]
pub enum AccountStatus {
    Uninit,
    Frozen,
    Active { code: Option<CodeIdentity>, data: Option<Vec<u8>> },
}

/// A snapshot of one account, taken for one operation and never kept.
#[derive(Clone, Debug, PartialEq, Eq)]
pub struct AccountState {
    pub balance: u64,
    pub status: AccountStatus,
}

/// How many bytes of data stand before the public key, by the contract's layout: a
/// sequence number and a wallet id in the sequence-number wallet, a wallet id and a
/// clean-up time in the high-load wallet, nothing where the layout is not known.
pub open spec fn key_offset(code: Option<CodeIdentity>) -> int {
    match code {
        Some(CodeIdentity::WalletV3) => 8,
        Some(CodeIdentity::HighloadWalletV2) => 12,
        _ => 0,
    }
}

/// The 32 bytes where an active account's data holds the key.
pub open spec fn key_window(code: Option<CodeIdentity>, data: Seq<u8>) -> Result<Seq<u8>, ExtractionError> {
    if data.len() < key_offset(code) + 32 {
        Err(ExtractionError::CellUnderflow)
    } else {
        Ok(data.subrange(key_offset(code), key_offset(code) + 32))
    }
}

/// The public key in an active account's data: the key window, where it is a point of
/// the curve.
pub open spec fn key_in_data(code: Option<CodeIdentity>, data: Seq<u8>) -> Result<Seq<u8>, ExtractionError> {
    match key_window(code, data) {
        Ok(window) => if ed25519_key_valid(window) {
            Ok(window)
        } else {
            Err(ExtractionError::InvalidPublicKey)
        },
        Err(error) => Err(error),
    }
}

/// The bytes that are to be the public key of an account.
pub open spec fn key_bytes_of(account: AccountState) -> Result<Seq<u8>, ExtractionError> {
    match account.status {
        AccountStatus::Active { code, data } => match data {
            Some(data) => key_window(code, data@),
            None => Err(ExtractionError::AccountDataNotFound),
        },
        _ => Err(ExtractionError::AccountIsNotActive),
    }
}

/// The public key of an account.
pub open spec fn public_key_of(account: AccountState) -> Result<Seq<u8>, ExtractionError> {
    match account.status {
        AccountStatus::Active { code, data } => match data {
            Some(data) => key_in_data(code, data@),
            None => Err(ExtractionError::AccountDataNotFound),
        },
        _ => Err(ExtractionError::AccountIsNotActive),
    }
}

/// True when reading the key by a known layout and reading it from the start of the data
/// come to the same: the data is too short for either, or long enough for the layout and
/// the two windows hold the same bytes or are both no key.
pub open spec fn layouts_agree(code: CodeIdentity, data: Seq<u8>) -> bool {
    let offset = key_offset(Some(code));
    ||| data.len() < 32
    ||| {
        &&& data.len() >= offset + 32
        &&& {
            ||| data.subrange(offset, offset + 32) == data.subrange(0, 32)
            ||| (!ed25519_key_valid(data.subrange(offset, offset + 32)) && !ed25519_key_valid(
                data.subrange(0, 32),
            ))
        }
    }
}

/// An account of a known wallet revision and an account of unknown code, with the same
/// data, yield the same key or the same failure exactly when the layouts agree on that data.
pub proof fn lemma_revision_and_fallback(code: CodeIdentity, data: Seq<u8>)
    ensures
        key_in_data(Some(code), data) == key_in_data(Some(CodeIdentity::Other), data)
            <==> layouts_agree(code, data),
        key_in_data(None, data) == key_in_data(Some(CodeIdentity::Other), data),
{
    let offset = key_offset(Some(code));
    let named = data.subrange(offset, offset + 32);
    let plain = data.subrange(0, 32);
    if data.len() >= offset + 32 {
        assert(key_window(Some(code), data) == Ok::<Seq<u8>, ExtractionError>(named));
        assert(key_window(Some(CodeIdentity::Other), data) == Ok::<Seq<u8>, ExtractionError>(plain));
    }
}

impl Default for AccountState {
    /// The state that stands for an account that does not exist: nothing on it, not
    /// initialised.
    fn default() -> (state: AccountState)
        ensures
            state == (AccountState { balance: 0, status: AccountStatus::Uninit }),
    {
        AccountState { balance: 0, status: AccountStatus::Uninit }
    }
}

/// Reads the 32 bytes that are to be the account's public key: the account must be
/// active and hold data, and the data must reach to the end of the key.
pub fn key_bytes(account: &AccountState) -> (bytes: Result<[u8; 32], ExtractionError>)
    ensures
        match key_bytes_of(*account) {
            Ok(window) => bytes is Ok && bytes->Ok_0@ == window,
            Err(error) => bytes == Err::<[u8; 32], ExtractionError>(error),
        },
{
    match &account.status {
        AccountStatus::Active { code, data } => match data {
            Some(data) => {
                let offset: usize = match code {
                    Some(CodeIdentity::WalletV3) => 8,
                    Some(CodeIdentity::HighloadWalletV2) => 12,
                    _ => 0,
                };
                if data.len() < 32 || data.len() - 32 < offset {
                    Err(ExtractionError::CellUnderflow)
                } else {
                    let window = slice_subrange(data.as_slice(), offset, offset + 32);
                    Ok(array_32(window))
                }
            },
            None => Err(ExtractionError::AccountDataNotFound),
        },
        _ => Err(ExtractionError::AccountIsNotActive),
    }
}

/// Reads the public key that a wallet contract keeps in its data.
pub fn extract_public_key(account: &AccountState) -> (key: Result<PublicKey, ExtractionError>)
    ensures
        match public_key_of(*account) {
            Ok(bytes) => key is Ok && key->Ok_0@ == bytes,
            Err(error) => key == Err::<PublicKey, ExtractionError>(error),
        },
{
    match key_bytes(account) {
        Ok(bytes) => match PublicKey::from_bytes(bytes.as_slice()) {
            Some(key) => Ok(key),
            None => Err(ExtractionError::InvalidPublicKey),
        },
        Err(error) => Err(error),
    }
}

/// What checking a signature against an account's state comes to: nothing where there
/// is no state, a failure where the state yields no key, and else whether the key accepts.
pub open spec fn checked(state: Option<AccountState>, signature: Seq<u8>, message: Seq<u8>) -> Result<
    Option<bool>,
    ExtractionError,
> {
    match state {
        None => Ok(None),
        Some(account) => match public_key_of(account) {
            Ok(key) => Ok(Some(ed25519_accepts(key, message, signature))),
            Err(error) => Err(error),
        },
    }
}

/// Checks a signature over a message against the key of an account, given the account's
/// state as it was fetched. A signature that does not match is `false`, not a failure.
pub fn check_signature(state: Option<&AccountState>, signature: &Signature, message: &[u8]) -> (result:
    Result<Option<bool>, ExtractionError>)
    ensures
        result == checked(
            match state {
                Some(account) => Some(*account),
                None => None,
            },
            signature@,
            message@,
        ),
{
    match state {
        None => Ok(None),
        Some(account) => match extract_public_key(account) {
            Ok(key) => Ok(Some(key.verify(message, signature))),
            Err(error) => Err(error),
        },
    }
}

/// The balance in a fetched state; an account that does not exist has none to report.
pub fn balance(state: Option<&AccountState>) -> (amount: Result<u64, Error>)
    ensures
        amount == match state {
            Some(account) => Ok::<u64, Error>(account.balance),
            None => Err::<u64, Error>(Error::AccountNotFound),
        },
{
    match state {
        Some(account) => Ok(account.balance),
        None => Err(Error::AccountNotFound),
    }
}

} // verus!
