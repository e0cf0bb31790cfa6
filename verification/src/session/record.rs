//! Session record types.

use vstd::prelude::*;

use crate::word::Address;

verus! {

/// Status of a session.
#[derive(Debug, Clone, Copy, PartialEq, Eq, Structural)]
pub enum SessionStatus {
    /// Session is active and usable.
    Active,
    /// Session has been revoked (irreversible).
    Revoked,
    /// Session has expired (`block.timestamp > expires_at`).
    Expired,
}

/// The status a stored byte denotes.
pub open spec fn status_of_code(v: u8) -> Option<SessionStatus> {
    if v == 0 {
        Some(SessionStatus::Active)
    } else if v == 1 {
        Some(SessionStatus::Revoked)
    } else if v == 2 {
        Some(SessionStatus::Expired)
    } else {
        None
    }
}

/// The status after expiry is taken into account: a revoked session stays
/// revoked; otherwise a session is expired once the timestamp is past its
/// expiry; otherwise it keeps its stored status.
pub open spec fn effective_of(status: SessionStatus, expires_at: u64, block_timestamp: u64) -> SessionStatus {
    if status == SessionStatus::Revoked {
        SessionStatus::Revoked
    } else if block_timestamp > expires_at {
        SessionStatus::Expired
    } else {
        status
    }
}

impl SessionStatus {
    /// The stored byte of a status: 0, 1, 2.
    pub open spec fn code(self) -> u8 {
        match self {
            SessionStatus::Active => 0,
            SessionStatus::Revoked => 1,
            SessionStatus::Expired => 2,
        }
    }

    /// The stored byte of a status (`status as u8`).
    pub fn as_u8(&self) -> (r: u8)
        ensures
            r == self.code(),
    {
        match self {
            SessionStatus::Active => 0,
            SessionStatus::Revoked => 1,
            SessionStatus::Expired => 2,
        }
    }

    /// Converts a `u8` to a `SessionStatus`.
    pub fn from_u8(v: u8) -> (r: Option<SessionStatus>)
        ensures
            r == status_of_code(v),
    {
        match v {
            0 => Some(SessionStatus::Active),
            1 => Some(SessionStatus::Revoked),
            2 => Some(SessionStatus::Expired),
            _ => None,
        }
    }
}

/// Decoding the byte of a status gives the status back.
pub proof fn lemma_status_code_roundtrip(s: SessionStatus)
    ensures
        status_of_code(s.code()) == Some(s),
{
}

/// On-chain session record.
///
/// Policy content is not stored on-chain; only the session hash and metadata.
#[derive(Debug, Clone, Copy, PartialEq, Eq)]
pub struct SessionRecord {
    /// Session status.
    pub status: SessionStatus,
    /// Delegating wallet.
    pub authorizer: Address,
    /// Session key address (ephemeral key).
    pub signer: Address,
    /// Expiration (unix timestamp).
    pub expires_at: u64,
    /// Creation time (unix timestamp).
    pub created_at: u64,
}

impl SessionRecord {
    /// Returns the effective status considering expiration.
    ///
    /// Priority: Revoked > Expired > Active.
    pub fn effective_status(&self, block_timestamp: u64) -> (r: SessionStatus)
        ensures
            r == effective_of(self.status, self.expires_at, block_timestamp),
    {
        if self.status == SessionStatus::Revoked {
            return SessionStatus::Revoked;
        }
        if block_timestamp > self.expires_at {
            return SessionStatus::Expired;
        }
        self.status
    }

    /// Returns `true` if the session is active at the given timestamp.
    pub fn is_active(&self, block_timestamp: u64) -> (r: bool)
        ensures
            r == (effective_of(self.status, self.expires_at, block_timestamp)
                == SessionStatus::Active),
    {
        let s = self.effective_status(block_timestamp);
        match s {
            SessionStatus::Active => true,
            _ => false,
        }
    }
}

} // verus!
