//! Event logs of the Pachi precompiles.
//!
//! Topic 0 is the Keccak-256 of the event signature; indexed addresses are
//! left-padded to 32 bytes; non-indexed parameters are ABI words.

use vstd::prelude::*;
use vstd::string::StringSliceAdditionalSpecFns;

use crate::evm::abi::{address_topic, be32, push_address_word, push_u64_word, push_word};
use crate::evm::outcome::LogRecord;
use crate::hash::{keccak256, keccak256_spec};
use crate::word::{Address, B256, U256, address_word_bytes};

verus! {

/// The topics of a log as byte strings.
pub open spec fn topic_bytes(l: LogRecord) -> Seq<Seq<u8>> {
    l.topics@.map_values(|t: B256| t.bytes@)
}

/// Whether a log was emitted by `address` with the given topics and data.
pub open spec fn log_is(l: LogRecord, address: Address, topics: Seq<Seq<u8>>, data: Seq<u8>) -> bool {
    l.address == address && topic_bytes(l) == topics && l.data@ == data
}

/// The topic of an indexed address.
pub open spec fn address_topic_bytes(a: Address) -> Seq<u8> {
    address_word_bytes(a.bytes@)
}

/// The signature hash of an event.
fn signature_topic(signature: &str) -> (r: B256)
    ensures
        r.bytes@ == keccak256_spec(signature.spec_bytes()),
{
    keccak256(signature.as_bytes())
}

/// `SessionCreated(bytes32 indexed sessionHash, address indexed authorizer,
/// address signer, uint64 expiresAt)`.
pub fn session_created_log(
    precompile_addr: Address,
    session_hash: B256,
    authorizer: Address,
    signer: Address,
    expires_at: u64,
) -> (r: LogRecord)
    ensures
        log_is(
            r,
            precompile_addr,
            seq![
                keccak256_spec("SessionCreated(bytes32,address,address,uint64)".spec_bytes()),
                session_hash.bytes@,
                address_topic_bytes(authorizer),
            ],
            address_word_bytes(signer.bytes@) + be32(expires_at as nat),
        ),
{
    let topics = vec![
        signature_topic("SessionCreated(bytes32,address,address,uint64)"),
        session_hash,
        address_topic(&authorizer),
    ];
    let mut data: Vec<u8> = Vec::new();
    push_address_word(&mut data, &signer);
    push_u64_word(&mut data, expires_at);
    let r = LogRecord { address: precompile_addr, topics, data };
    assert(topic_bytes(r) =~= seq![
        keccak256_spec("SessionCreated(bytes32,address,address,uint64)".spec_bytes()),
        session_hash.bytes@,
        address_topic_bytes(authorizer),
    ]);
    r
}

/// `SessionRevoked(bytes32 indexed sessionHash, address indexed authorizer)`.
pub fn session_revoked_log(precompile_addr: Address, session_hash: B256, authorizer: Address) -> (r: LogRecord)
    ensures
        log_is(
            r,
            precompile_addr,
            seq![
                keccak256_spec("SessionRevoked(bytes32,address)".spec_bytes()),
                session_hash.bytes@,
                address_topic_bytes(authorizer),
            ],
            Seq::empty(),
        ),
{
    let topics = vec![
        signature_topic("SessionRevoked(bytes32,address)"),
        session_hash,
        address_topic(&authorizer),
    ];
    let r = LogRecord { address: precompile_addr, topics, data: Vec::new() };
    assert(topic_bytes(r) =~= seq![
        keccak256_spec("SessionRevoked(bytes32,address)".spec_bytes()),
        session_hash.bytes@,
        address_topic_bytes(authorizer),
    ]);
    r
}

/// `SessionReplaced(bytes32 indexed oldHash, bytes32 indexed newHash,
/// address indexed authorizer)`.
pub fn session_replaced_log(precompile_addr: Address, old_hash: B256, new_hash: B256, authorizer: Address) -> (r: LogRecord)
    ensures
        log_is(
            r,
            precompile_addr,
            seq![
                keccak256_spec("SessionReplaced(bytes32,bytes32,address)".spec_bytes()),
                old_hash.bytes@,
                new_hash.bytes@,
                address_topic_bytes(authorizer),
            ],
            Seq::empty(),
        ),
{
    let topics = vec![
        signature_topic("SessionReplaced(bytes32,bytes32,address)"),
        old_hash,
        new_hash,
        address_topic(&authorizer),
    ];
    let r = LogRecord { address: precompile_addr, topics, data: Vec::new() };
    assert(topic_bytes(r) =~= seq![
        keccak256_spec("SessionReplaced(bytes32,bytes32,address)".spec_bytes()),
        old_hash.bytes@,
        new_hash.bytes@,
        address_topic_bytes(authorizer),
    ]);
    r
}

/// `PolicyRegistered(address indexed sponsor, uint8 sponsorType, uint64 validUntil)`.
pub fn policy_registered_log(addr: Address, sponsor: Address, sponsor_type: u8, valid_until: u64) -> (r: LogRecord)
    ensures
        log_is(
            r,
            addr,
            seq![
                keccak256_spec("PolicyRegistered(address,uint8,uint64)".spec_bytes()),
                address_topic_bytes(sponsor),
            ],
            be32(sponsor_type as nat) + be32(valid_until as nat),
        ),
{
    let topics = vec![signature_topic("PolicyRegistered(address,uint8,uint64)"), address_topic(&sponsor)];
    let mut data: Vec<u8> = Vec::new();
    push_u64_word(&mut data, sponsor_type as u64);
    push_u64_word(&mut data, valid_until);
    let r = LogRecord { address: addr, topics, data };
    assert(topic_bytes(r) =~= seq![
        keccak256_spec("PolicyRegistered(address,uint8,uint64)".spec_bytes()),
        address_topic_bytes(sponsor),
    ]);
    r
}

/// `PolicyDeactivated(address indexed sponsor)`.
pub fn policy_deactivated_log(addr: Address, sponsor: Address) -> (r: LogRecord)
    ensures
        log_is(
            r,
            addr,
            seq![
                keccak256_spec("PolicyDeactivated(address)".spec_bytes()),
                address_topic_bytes(sponsor),
            ],
            Seq::empty(),
        ),
{
    let topics = vec![signature_topic("PolicyDeactivated(address)"), address_topic(&sponsor)];
    let r = LogRecord { address: addr, topics, data: Vec::new() };
    assert(topic_bytes(r) =~= seq![
        keccak256_spec("PolicyDeactivated(address)".spec_bytes()),
        address_topic_bytes(sponsor),
    ]);
    r
}

/// A log with an indexed address and two non-indexed words (`Deposited`, `Withdrawn`).
fn balance_log(addr: Address, signature: &str, sponsor: Address, amount: U256, new_balance: U256) -> (r: LogRecord)
    ensures
        log_is(
            r,
            addr,
            seq![keccak256_spec(signature.spec_bytes()), address_topic_bytes(sponsor)],
            be32(amount@) + be32(new_balance@),
        ),
{
    let topics = vec![signature_topic(signature), address_topic(&sponsor)];
    let mut data: Vec<u8> = Vec::new();
    push_word(&mut data, &amount);
    push_word(&mut data, &new_balance);
    let r = LogRecord { address: addr, topics, data };
    assert(topic_bytes(r) =~= seq![keccak256_spec(signature.spec_bytes()), address_topic_bytes(sponsor)]);
    r
}

/// `Deposited(address indexed sponsor, uint256 amount, uint256 newBalance)`.
pub fn deposited_log(addr: Address, sponsor: Address, amount: U256, new_balance: U256) -> (r: LogRecord)
    ensures
        log_is(
            r,
            addr,
            seq![
                keccak256_spec("Deposited(address,uint256,uint256)".spec_bytes()),
                address_topic_bytes(sponsor),
            ],
            be32(amount@) + be32(new_balance@),
        ),
{
    balance_log(addr, "Deposited(address,uint256,uint256)", sponsor, amount, new_balance)
}

/// `Withdrawn(address indexed sponsor, uint256 amount, uint256 newBalance)`.
pub fn withdrawn_log(addr: Address, sponsor: Address, amount: U256, new_balance: U256) -> (r: LogRecord)
    ensures
        log_is(
            r,
            addr,
            seq![
                keccak256_spec("Withdrawn(address,uint256,uint256)".spec_bytes()),
                address_topic_bytes(sponsor),
            ],
            be32(amount@) + be32(new_balance@),
        ),
{
    balance_log(addr, "Withdrawn(address,uint256,uint256)", sponsor, amount, new_balance)
}

/// A log with two indexed addresses and no data (`MintApproved`, `MintRevoked`,
/// `OwnershipTransferred`).
fn two_address_log(addr: Address, signature: &str, first: Address, second: Address) -> (r: LogRecord)
    ensures
        log_is(
            r,
            addr,
            seq![
                keccak256_spec(signature.spec_bytes()),
                address_topic_bytes(first),
                address_topic_bytes(second),
            ],
            Seq::empty(),
        ),
{
    let topics = vec![signature_topic(signature), address_topic(&first), address_topic(&second)];
    let r = LogRecord { address: addr, topics, data: Vec::new() };
    assert(topic_bytes(r) =~= seq![
        keccak256_spec(signature.spec_bytes()),
        address_topic_bytes(first),
        address_topic_bytes(second),
    ]);
    r
}

/// `MintApproved(address indexed sponsor, address indexed approvedBy)`.
pub fn mint_approved_log(addr: Address, sponsor: Address, approved_by: Address) -> (r: LogRecord)
    ensures
        log_is(
            r,
            addr,
            seq![
                keccak256_spec("MintApproved(address,address)".spec_bytes()),
                address_topic_bytes(sponsor),
                address_topic_bytes(approved_by),
            ],
            Seq::empty(),
        ),
{
    two_address_log(addr, "MintApproved(address,address)", sponsor, approved_by)
}

/// `MintRevoked(address indexed sponsor, address indexed revokedBy)`.
pub fn mint_revoked_log(addr: Address, sponsor: Address, revoked_by: Address) -> (r: LogRecord)
    ensures
        log_is(
            r,
            addr,
            seq![
                keccak256_spec("MintRevoked(address,address)".spec_bytes()),
                address_topic_bytes(sponsor),
                address_topic_bytes(revoked_by),
            ],
            Seq::empty(),
        ),
{
    two_address_log(addr, "MintRevoked(address,address)", sponsor, revoked_by)
}

/// `OwnershipTransferred(address indexed previousOwner, address indexed newOwner)`.
pub fn ownership_transferred_log(addr: Address, previous_owner: Address, new_owner: Address) -> (r: LogRecord)
    ensures
        log_is(
            r,
            addr,
            seq![
                keccak256_spec("OwnershipTransferred(address,address)".spec_bytes()),
                address_topic_bytes(previous_owner),
                address_topic_bytes(new_owner),
            ],
            Seq::empty(),
        ),
{
    two_address_log(addr, "OwnershipTransferred(address,address)", previous_owner, new_owner)
}

} // verus!
