use vstd::prelude::*;

verus! {

/// Lifecycle state of a slot as reported by an endpoint.
#[derive(Debug, Clone, Copy, PartialEq, Eq, Structural, Hash)]
pub enum SlotStatus {
    FirstShredReceived,
    Completed,
    CreatedBank,
    Processed,
    Confirmed,
    Finalized,
    Dead,
}

/// The canonical status of a raw provider code: a fixed table for `0..=6`,
/// and `Dead` for every code outside it.
pub open spec fn status_of_code(code: i32) -> SlotStatus {
    if code == 0 {
        SlotStatus::Processed
    } else if code == 1 {
        SlotStatus::Confirmed
    } else if code == 2 {
        SlotStatus::Finalized
    } else if code == 3 {
        SlotStatus::FirstShredReceived
    } else if code == 4 {
        SlotStatus::Completed
    } else if code == 5 {
        SlotStatus::CreatedBank
    } else {
        SlotStatus::Dead
    }
}

impl From<i32> for SlotStatus {
    /// Normalizes a raw provider status code; unknown codes become `Dead`.
    fn from(value: i32) -> (r: Self)
        ensures
            r == status_of_code(value),
            value < 0 || value > 6 ==> r == SlotStatus::Dead,
    {
        match value {
            0 => SlotStatus::Processed,
            1 => SlotStatus::Confirmed,
            2 => SlotStatus::Finalized,
            3 => SlotStatus::FirstShredReceived,
            4 => SlotStatus::Completed,
            5 => SlotStatus::CreatedBank,
            6 => SlotStatus::Dead,
            _ => SlotStatus::Dead,
        }
    }
}

impl vstd::std_specs::convert::FromSpecImpl<i32> for SlotStatus {
    open spec fn obeys_from_spec() -> bool {
        true
    }

    open spec fn from_spec(v: i32) -> SlotStatus {
        status_of_code(v)
    }
}

} // verus!
