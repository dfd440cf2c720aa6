use endpoint_capture::{AccountUpdate, BufferFraction, EndpointData, SlotStatus, SlotUpdate};
use solana_pubkey::Pubkey;
use solana_signature::Signature;

fn none() -> BufferFraction {
    BufferFraction { numer: 0, denom: 1 }
}

fn half() -> BufferFraction {
    BufferFraction { numer: 1, denom: 2 }
}

fn account(slot: u64, key: u8, write_version: u64) -> AccountUpdate {
    AccountUpdate::capture(
        slot,
        Pubkey::new_from_array([key; 32]),
        write_version,
        Signature::from([key; 64]),
    )
}

#[test]
fn normalize_known_codes() {
    assert_eq!(SlotStatus::from(0), SlotStatus::Processed);
    assert_eq!(SlotStatus::from(1), SlotStatus::Confirmed);
    assert_eq!(SlotStatus::from(2), SlotStatus::Finalized);
    assert_eq!(SlotStatus::from(3), SlotStatus::FirstShredReceived);
    assert_eq!(SlotStatus::from(4), SlotStatus::Completed);
    assert_eq!(SlotStatus::from(5), SlotStatus::CreatedBank);
    assert_eq!(SlotStatus::from(6), SlotStatus::Dead);
}

#[test]
fn normalize_unknown_codes_are_dead() {
    for code in [-1, -1000, i32::MIN, 7, 8, 100, i32::MAX] {
        assert_eq!(SlotStatus::from(code), SlotStatus::Dead);
    }
}

#[test]
fn slot_capacity_examples() {
    assert_eq!(EndpointData::calculate_capacity(1000, none()), 6000);
    assert_eq!(EndpointData::calculate_capacity(1000, half()), 9000);
    assert_eq!(EndpointData::calculate_capacity(0, half()), 0);
    assert_eq!(EndpointData::calculate_capacity(2, none()), 12);
}

#[test]
fn slot_capacity_floors_the_scaled_count() {
    // 3 * (1 + 1/3) = 4, 5 * (1 + 1/3) = 6.66.. floors to 6
    let third = BufferFraction { numer: 1, denom: 3 };
    assert_eq!(EndpointData::calculate_capacity(3, third), 24);
    assert_eq!(EndpointData::calculate_capacity(5, third), 36);
}

#[test]
fn slot_capacity_is_monotonic() {
    let fractions = [none(), BufferFraction { numer: 1, denom: 4 }, half(), BufferFraction { numer: 3, denom: 2 }];
    for n in 0..50usize {
        for i in 0..fractions.len() {
            for j in i..fractions.len() {
                let low = EndpointData::calculate_capacity(n, fractions[i]);
                assert!(low <= EndpointData::calculate_capacity(n + 1, fractions[i]));
                assert!(low <= EndpointData::calculate_capacity(n, fractions[j]));
            }
        }
    }
}

#[test]
fn account_capacity_ceiling() {
    assert_eq!(EndpointData::account_capacity(0), 0);
    assert_eq!(EndpointData::account_capacity(1000), 100_000);
    assert_eq!(EndpointData::account_capacity(10_000), 1_000_000);
    assert_eq!(EndpointData::account_capacity(10_001), 1_000_000);
    assert_eq!(EndpointData::account_capacity(20_000), 1_000_000);
    assert_eq!(EndpointData::account_capacity(usize::MAX), 1_000_000);
}

#[test]
fn new_buffer_is_empty_with_planned_room() {
    let data = EndpointData::new("provider-A".to_string(), 1000, half());
    assert_eq!(data.endpoint, "provider-A");
    assert!(data.updates.is_empty());
    assert!(data.account_updates.is_empty());
    assert!(data.updates.capacity() >= 9000);
    assert!(data.account_updates.capacity() >= 100_000);
}

#[test]
fn appends_keep_order_across_interleaving() {
    let mut data = EndpointData::new("provider-B".to_string(), 1, none());
    let mut expected_slots = Vec::new();
    let mut expected_versions = Vec::new();
    for i in 0..40u64 {
        if i % 3 == 0 {
            data.record_account_update(account(i, (i % 7) as u8, i));
            expected_versions.push(i);
        } else {
            data.record_slot_update(SlotUpdate::capture(i, SlotStatus::from((i % 7) as i32)));
            expected_slots.push(i);
        }
    }
    let slots: Vec<u64> = data.updates.iter().map(|u| u.slot).collect();
    let versions: Vec<u64> = data.account_updates.iter().map(|u| u.write_version).collect();
    assert_eq!(slots, expected_slots);
    assert_eq!(versions, expected_versions);
    assert_eq!(data.endpoint, "provider-B");
}

#[test]
fn buffers_do_not_share_storage() {
    let mut a = EndpointData::new("a".to_string(), 2, none());
    let b = EndpointData::new("b".to_string(), 2, none());
    a.record_slot_update(SlotUpdate::capture(1, SlotStatus::Processed));
    a.record_account_update(account(1, 9, 1));
    assert_eq!(a.updates.len(), 1);
    assert_eq!(a.account_updates.len(), 1);
    assert!(b.updates.is_empty());
    assert!(b.account_updates.is_empty());
}

#[test]
fn recorded_record_keeps_both_clock_readings() {
    let mut data = EndpointData::new("c".to_string(), 1, none());
    let update = SlotUpdate::capture(7, SlotStatus::Confirmed);
    data.record_slot_update(update);
    data.record_slot_update(SlotUpdate::capture(8, SlotStatus::Finalized));
    assert_eq!(data.updates[0].instant, update.instant);
    assert_eq!(data.updates[0].system_time, update.system_time);
    assert!(data.updates[0].instant <= data.updates[1].instant);
}

#[test]
fn account_capture_keeps_fields() {
    let update = account(42, 3, 17);
    assert_eq!(update.slot, 42);
    assert_eq!(update.pubkey, Pubkey::new_from_array([3; 32]));
    assert_eq!(update.write_version, 17);
    assert_eq!(update.tx_signature, Signature::from([3; 64]));
}

#[test]
fn end_to_end_three_statuses() {
    let mut data = EndpointData::new("provider-A".to_string(), 2, none());
    assert!(data.updates.capacity() >= 12);
    for status in [SlotStatus::Processed, SlotStatus::Confirmed, SlotStatus::Finalized] {
        data.record_slot_update(SlotUpdate::capture(5, status));
    }
    assert_eq!(data.updates.len(), 3);
    let statuses: Vec<SlotStatus> = data.updates.iter().map(|u| u.status).collect();
    assert_eq!(statuses, vec![SlotStatus::Processed, SlotStatus::Confirmed, SlotStatus::Finalized]);
    assert!(data.updates.iter().all(|u| u.slot == 5));
}

#[test]
fn buffer_grows_past_its_hint() {
    let mut data = EndpointData::new("provider-A".to_string(), 2, none());
    for i in 0..100u64 {
        data.record_slot_update(SlotUpdate::capture(i, SlotStatus::Processed));
    }
    assert_eq!(data.updates.len(), 100);
    assert_eq!(data.updates[99].slot, 99);
}
