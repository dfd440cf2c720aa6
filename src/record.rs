use vstd::prelude::*;
use crate::status::SlotStatus;
use solana_pubkey::Pubkey;
use solana_signature::Signature;
use std::time::{Instant, SystemTime};

verus! {

/// A monotonic clock reading, carried through unread.
#[verifier::external_type_specification]
#[verifier::external_body]
pub struct ExInstant(std::time::Instant);

/// A wall-clock reading, carried through unread.
#[verifier::external_type_specification]
#[verifier::external_body]
pub struct ExSystemTime(std::time::SystemTime);

/// An account address, carried through unread.
#[verifier::external_type_specification]
#[verifier::external_body]
pub struct ExPubkey(solana_pubkey::Pubkey);

/// A transaction signature, carried through unread.
#[verifier::external_type_specification]
#[verifier::external_body]
pub struct ExSignature(solana_signature::Signature);

/// Declared because `Signature` converts from a byte slice with this error;
/// no function here handles one.
#[verifier::external_type_specification]
#[verifier::external_body]
pub struct ExTryFromSliceError(core::array::TryFromSliceError);

/// Relies on std::time::Instant::now: a reading of the monotonic clock.
/// Nothing is promised of the value read.
pub assume_specification[ std::time::Instant::now ]() -> std::time::Instant;

/// Relies on std::time::SystemTime::now: a reading of the wall clock.
/// Nothing is promised of the value read.
pub assume_specification[ std::time::SystemTime::now ]() -> std::time::SystemTime;

/// One observed status transition of a slot.
///
/// `instant` serves elapsed-time arithmetic between records; `system_time`
/// serves display only, since a wall clock may jump.
#[derive(Debug, Clone, Copy)]
pub struct SlotUpdate {
    pub slot: u64,
    pub status: SlotStatus,
    pub instant: Instant,
    pub system_time: SystemTime,
}

/// One observed mutation of an account.
///
/// `write_version` increases strictly per account on one endpoint; the two
/// clock readings follow the same rules as in [`SlotUpdate`].
#[derive(Debug, Clone, Copy)]
pub struct AccountUpdate {
    pub slot: u64,
    pub pubkey: Pubkey,
    pub write_version: u64,
    pub tx_signature: Signature,
    pub instant: Instant,
    pub system_time: SystemTime,
}

impl SlotUpdate {
    /// Records `status` for `slot`, reading both clocks at this one point of
    /// capture, one right after the other.
    pub fn capture(slot: u64, status: SlotStatus) -> (r: SlotUpdate)
        ensures
            r.slot == slot,
            r.status == status,
    {
        let instant = Instant::now();
        let system_time = SystemTime::now();
        SlotUpdate { slot, status, instant, system_time }
    }
}

impl AccountUpdate {
    /// Records a mutation of `pubkey`, reading both clocks at this one point
    /// of capture, one right after the other.
    pub fn capture(slot: u64, pubkey: Pubkey, write_version: u64, tx_signature: Signature) -> (r:
        AccountUpdate)
        ensures
            r.slot == slot,
            r.pubkey == pubkey,
            r.write_version == write_version,
            r.tx_signature == tx_signature,
    {
        let instant = Instant::now();
        let system_time = SystemTime::now();
        AccountUpdate { slot, pubkey, write_version, tx_signature, instant, system_time }
    }
}

} // verus!
