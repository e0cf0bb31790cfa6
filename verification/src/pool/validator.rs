//! Pool-level validation of Pachi custom transaction types: lightweight checks
//! before a transaction enters the mempool (full validation happens at block
//! building).

use vstd::prelude::*;
use vstd::string::StringExecFns;

use crate::session::nonce::{SessionNonce, nonce_of};
use crate::session::record::SessionStatus;
use crate::session::registry::stored_effective;
use crate::session::slots::{offset_slot, read_session_record, record_stored, record_word, slot_at, word_address_bytes};
use crate::state::{PachiState, StorageMap, storage_read};
use crate::text::{append_decimal, decimal, digit_str, hex_char, hex_digit_str};
use crate::word::{Address, B256, U256};

verus! {

/// Errors from pool-level validation of Pachi custom transaction types.
#[derive(Debug, Clone)]
pub enum PachiTxValidationError {
    /// Session does not exist or is not active.
    SessionInvalid(String),
    /// Session has expired.
    SessionExpired,
    /// Session nonce mismatch.
    SessionNonceMismatch {
        /// Expected nonce.
        expected: u64,
        /// Actual nonce in the transaction.
        got: u64,
    },
    /// Sponsor is not active or its policy check failed.
    SponsorInvalid(String),
    /// Sponsor has insufficient balance (deposit mode).
    SponsorInsufficientBalance,
    /// Unknown or unsupported custom transaction type.
    UnsupportedTxType(u8),
}

/// The `SponsorHub` precompile address, `0x…0801`.
pub open spec fn sponsor_hub_address() -> Address {
    Address { bytes: [0u8, 0, 0, 0, 0, 0, 0, 0, 0, 0, 0, 0, 0, 0, 0, 0, 0, 0, 0x08, 0x01] }
}

/// The `SponsorHub` precompile address.
pub fn sponsor_hub_precompile_address() -> (r: Address)
    ensures
        r == sponsor_hub_address(),
{
    Address { bytes: [0u8, 0, 0, 0, 0, 0, 0, 0, 0, 0, 0, 0, 0, 0, 0, 0, 0, 0, 0x08, 0x01] }
}

/// Whether a transaction type byte is a Pachi custom type: session (`0x04`),
/// sponsored (`0x05`), session-sponsored (`0x06`) or system (`0x50`).
pub open spec fn pachi_type(ty: u8) -> bool {
    ty == 0x04 || ty == 0x05 || ty == 0x06 || ty == 0x50
}

/// The verdict on a session transaction: the session must exist, be active,
/// belong to the authorizer, and expect the transaction's nonce.
pub open spec fn session_tx_verdict(
    m: StorageMap,
    hash: Seq<u8>,
    authorizer: Address,
    tx_nonce: u64,
    ts: u64,
    r: Result<(), PachiTxValidationError>,
) -> bool {
    if !record_stored(m, hash) {
        r matches Err(PachiTxValidationError::SessionInvalid(s)) && s@ == "not found"@
    } else if stored_effective(m, hash, ts) == SessionStatus::Revoked {
        r matches Err(PachiTxValidationError::SessionInvalid(s)) && s@ == "revoked"@
    } else if stored_effective(m, hash, ts) == SessionStatus::Expired {
        r matches Err(PachiTxValidationError::SessionExpired)
    } else if word_address_bytes(record_word(m, hash, 1)) != authorizer.bytes@ {
        r matches Err(PachiTxValidationError::SessionInvalid(s)) && s@ == "authorizer mismatch"@
    } else if tx_nonce != nonce_of(m, authorizer, hash) {
        r matches Err(PachiTxValidationError::SessionNonceMismatch { expected, got })
            && expected == nonce_of(m, authorizer, hash) && got == tx_nonce
    } else {
        r is Ok
    }
}

/// Word `k` of a sponsor record starting at `base`: 0 status, 1 type,
/// 2 balance, 3 creation time, 4 expiry.
pub open spec fn sponsor_word(m: StorageMap, base: U256, k: nat) -> U256 {
    storage_read(m, sponsor_hub_address(), offset_slot(base, k))
}

/// The verdict on a sponsor record: it must exist (non-zero creation time),
/// be active (status 0), not be expired (an expiry of 0 never expires), and in
/// deposit mode (type 0) hold at least the estimated gas cost.
pub open spec fn sponsor_verdict(m: StorageMap, base: U256, ts: u64, gas_cost: U256, r: Result<(), PachiTxValidationError>) -> bool {
    let status = (sponsor_word(m, base, 0).l0 % 256) as u8;
    let sponsor_type = (sponsor_word(m, base, 1).l0 % 256) as u8;
    let valid_until = sponsor_word(m, base, 4).l0;
    if sponsor_word(m, base, 3)@ == 0 {
        r matches Err(PachiTxValidationError::SponsorInvalid(s)) && s@ == "not found"@
    } else if status != 0 {
        r matches Err(PachiTxValidationError::SponsorInvalid(s)) && s@ == "status="@ + decimal(status as nat)
    } else if valid_until != 0 && ts > valid_until {
        r matches Err(PachiTxValidationError::SponsorInvalid(s)) && s@ == "expired"@
    } else if sponsor_type == 0 && sponsor_word(m, base, 2)@ < gas_cost@ {
        r matches Err(PachiTxValidationError::SponsorInsufficientBalance)
    } else {
        r is Ok
    }
}

/// `status=` followed by the decimal digits of a status byte.
fn status_text(status: u8) -> (r: String)
    ensures
        r@ == "status="@ + decimal(status as nat),
{
    let mut s = String::from_str("status=");
    if status >= 100 {
        s.append(digit_str(status / 100));
        s.append(digit_str((status / 10) % 10));
        s.append(digit_str(status % 10));
        proof {
            let n = status as nat;
            assert(decimal(n / 100) == seq![((n / 100) + 48) as char]);
            assert(n / 10 / 10 == n / 100);
            assert(decimal(n / 10) == decimal(n / 10 / 10).push(((n / 10 % 10) + 48) as char));
            assert(s@ =~= "status="@ + decimal(status as nat));
        }
    } else if status >= 10 {
        s.append(digit_str(status / 10));
        s.append(digit_str(status % 10));
        proof {
            let n = status as nat;
            assert(decimal(n / 10) == seq![((n / 10) + 48) as char]);
            assert(decimal(n) == decimal(n / 10).push(((n % 10) + 48) as char));
        }
        assert(s@ =~= "status="@ + decimal(status as nat));
    } else {
        s.append(digit_str(status));
        assert(s@ =~= "status="@ + decimal(status as nat));
    }
    s
}

/// The message of a validation error.
pub open spec fn error_message(e: PachiTxValidationError) -> Seq<char> {
    match e {
        PachiTxValidationError::SessionInvalid(s) => "session not found or inactive: "@ + s@,
        PachiTxValidationError::SessionExpired => "session expired"@,
        PachiTxValidationError::SessionNonceMismatch { expected, got } => "session nonce mismatch: expected "@
            + decimal(expected as nat) + ", got "@ + decimal(got as nat),
        PachiTxValidationError::SponsorInvalid(s) => "sponsor validation failed: "@ + s@,
        PachiTxValidationError::SponsorInsufficientBalance => "sponsor has insufficient balance"@,
        PachiTxValidationError::UnsupportedTxType(t) => "unsupported Pachi tx type: 0x"@ + seq![
            hex_char(t as nat / 16),
            hex_char(t as nat % 16),
        ],
    }
}

impl PachiTxValidationError {
    /// The error's message.
    pub fn message(&self) -> (r: String)
        ensures
            r@ == error_message(*self),
    {
        match self {
            PachiTxValidationError::SessionInvalid(s) => {
                let mut m = String::from_str("session not found or inactive: ");
                m.append(s.as_str());
                m
            },
            PachiTxValidationError::SessionExpired => String::from_str("session expired"),
            PachiTxValidationError::SessionNonceMismatch { expected, got } => {
                let mut m = String::from_str("session nonce mismatch: expected ");
                append_decimal(&mut m, *expected);
                m.append(", got ");
                append_decimal(&mut m, *got);
                m
            },
            PachiTxValidationError::SponsorInvalid(s) => {
                let mut m = String::from_str("sponsor validation failed: ");
                m.append(s.as_str());
                m
            },
            PachiTxValidationError::SponsorInsufficientBalance => String::from_str(
                "sponsor has insufficient balance",
            ),
            PachiTxValidationError::UnsupportedTxType(t) => {
                let mut m = String::from_str("unsupported Pachi tx type: 0x");
                m.append(hex_digit_str(*t / 16));
                m.append(hex_digit_str(*t % 16));
                assert(m@ =~= error_message(*self));
                m
            },
        }
    }
}

/// Pool-level validator for Pachi custom transaction types.
#[derive(Debug)]
pub struct PachiPoolValidator;

impl PachiPoolValidator {
    /// Validates a session transaction for mempool acceptance: the session
    /// exists and is active, the authorizer matches, the nonce is current.
    pub fn validate_session_tx<S: PachiState>(
        state: &S,
        session_hash: &B256,
        authorizer: Address,
        tx_nonce: u64,
        block_timestamp: u64,
    ) -> (r: Result<(), PachiTxValidationError>)
        ensures
            session_tx_verdict(state.storage(), session_hash.bytes@, authorizer, tx_nonce, block_timestamp, r),
    {
        let record = match read_session_record(state, session_hash) {
            Some(rec) => rec,
            None => return Err(PachiTxValidationError::SessionInvalid(String::from_str("not found"))),
        };
        let effective = record.effective_status(block_timestamp);
        match effective {
            SessionStatus::Active => {},
            SessionStatus::Revoked => {
                return Err(PachiTxValidationError::SessionInvalid(String::from_str("revoked")));
            },
            SessionStatus::Expired => {
                return Err(PachiTxValidationError::SessionExpired);
            },
        }
        if record.authorizer != authorizer {
            return Err(PachiTxValidationError::SessionInvalid(String::from_str("authorizer mismatch")));
        }
        let current_nonce = SessionNonce::get(state, authorizer, session_hash);
        if tx_nonce != current_nonce {
            return Err(PachiTxValidationError::SessionNonceMismatch { expected: current_nonce, got: tx_nonce });
        }
        Ok(())
    }

    /// Validates the sponsor record starting at slot `base` of the `SponsorHub`
    /// for mempool acceptance of a sponsored transaction.
    pub fn validate_sponsor_record<S: PachiState>(
        state: &S,
        base: U256,
        block_timestamp: u64,
        estimated_gas_cost: U256,
    ) -> (r: Result<(), PachiTxValidationError>)
        ensures
            sponsor_verdict(state.storage(), base, block_timestamp, estimated_gas_cost, r),
    {
        let hub = sponsor_hub_precompile_address();
        let status: u8 = (state.get_storage(hub, slot_at(&base, 0)).l0 % 256) as u8;
        let sponsor_type: u8 = (state.get_storage(hub, slot_at(&base, 1)).l0 % 256) as u8;
        let balance = state.get_storage(hub, slot_at(&base, 2));
        let created_at = state.get_storage(hub, slot_at(&base, 3));
        let valid_until = state.get_storage(hub, slot_at(&base, 4)).l0;
        if created_at.is_zero() {
            return Err(PachiTxValidationError::SponsorInvalid(String::from_str("not found")));
        }
        if status != 0 {
            return Err(PachiTxValidationError::SponsorInvalid(status_text(status)));
        }
        if valid_until != 0 && block_timestamp > valid_until {
            return Err(PachiTxValidationError::SponsorInvalid(String::from_str("expired")));
        }
        if sponsor_type == 0 && balance.lt(&estimated_gas_cost) {
            return Err(PachiTxValidationError::SponsorInsufficientBalance);
        }
        Ok(())
    }

    /// Validates a session-sponsored transaction: the session first, then the
    /// sponsor record at `sponsor_base`.
    pub fn validate_session_sponsored_record<S: PachiState>(
        state: &S,
        session_hash: &B256,
        authorizer: Address,
        tx_nonce: u64,
        sponsor_base: U256,
        block_timestamp: u64,
        estimated_gas_cost: U256,
    ) -> (r: Result<(), PachiTxValidationError>)
        ensures
            ({
                let m = state.storage();
                let session_ok = session_tx_verdict(m, session_hash.bytes@, authorizer, tx_nonce, block_timestamp, Ok(()));
                &&& !session_ok ==> session_tx_verdict(m, session_hash.bytes@, authorizer, tx_nonce, block_timestamp, r)
                &&& session_ok ==> sponsor_verdict(m, sponsor_base, block_timestamp, estimated_gas_cost, r)
            }),
    {
        match Self::validate_session_tx(state, session_hash, authorizer, tx_nonce, block_timestamp) {
            Ok(()) => {},
            Err(e) => return Err(e),
        }
        Self::validate_sponsor_record(state, sponsor_base, block_timestamp, estimated_gas_cost)
    }

    /// Returns `true` if the given transaction type byte is a Pachi custom type
    /// that requires pool-level validation.
    pub fn is_pachi_type(ty: u8) -> (r: bool)
        ensures
            r == pachi_type(ty),
    {
        ty == 0x04 || ty == 0x05 || ty == 0x06 || ty == 0x50
    }
}

} // verus!
