use vstd::prelude::*;
use crate::record::{AccountUpdate, SlotUpdate};

verus! {

/// Number of statuses expected per slot in steady state: every status but `Dead`.
pub const STATUSES_PER_SLOT: usize = 6;

/// Account mutations reserved per expected slot.
pub const ACCOUNTS_PER_SLOT: usize = 100;

/// Ceiling on the account-mutation reservation.
pub const MAX_ACCOUNT_CAPACITY: usize = 1_000_000;

/// A non-negative safety margin on the expected slot volume, held exactly as
/// the fraction `numer / denom` (one half is `1 / 2`, none is `0 / 1`).
#[derive(Debug, Clone, Copy, PartialEq, Eq, Structural)]
pub struct BufferFraction {
    pub numer: u32,
    pub denom: u32,
}

impl BufferFraction {
    /// A fraction needs a positive denominator.
    pub open spec fn wf(self) -> bool {
        self.denom > 0
    }

    /// `self <= other` as rational numbers.
    pub open spec fn le(self, other: BufferFraction) -> bool {
        self.numer * other.denom <= other.numer * self.denom
    }
}

/// `floor(slot_count * (1 + numer / denom)) * 6`.
pub open spec fn planned_slot_capacity(slot_count: int, buffer: BufferFraction) -> int {
    (slot_count * (buffer.denom + buffer.numer) / (buffer.denom as int)) * STATUSES_PER_SLOT
}

/// `min(slot_count * 100, 1_000_000)`.
pub open spec fn planned_account_capacity(slot_count: int) -> int {
    if slot_count * ACCOUNTS_PER_SLOT <= MAX_ACCOUNT_CAPACITY {
        slot_count * ACCOUNTS_PER_SLOT
    } else {
        MAX_ACCOUNT_CAPACITY as int
    }
}

/// If `a / b <= c / d` as rationals, with positive denominators, then the
/// floors keep that order.
proof fn lemma_floor_div_le(a: int, b: int, c: int, d: int)
    requires
        a >= 0,
        c >= 0,
        b > 0,
        d > 0,
        a * d <= c * b,
    ensures
        a / b <= c / d,
{
    let q = a / b;
    assert(q * b <= a) by (nonlinear_arith)
        requires
            q == a / b,
            b > 0,
    ;
    assert(q * d * b <= c * b) by (nonlinear_arith)
        requires
            q * b <= a,
            a * d <= c * b,
            d > 0,
    ;
    assert(q * d <= c) by (nonlinear_arith)
        requires
            q * d * b <= c * b,
            b > 0,
    ;
    assert(q <= c / d) by (nonlinear_arith)
        requires
            q * d <= c,
            d > 0,
    ;
}

/// The slot-update reservation never shrinks when the expected slot count or
/// the safety margin grows.
pub proof fn lemma_slot_capacity_monotonic(
    n1: nat,
    f1: BufferFraction,
    n2: nat,
    f2: BufferFraction,
)
    requires
        f1.wf(),
        f2.wf(),
        n1 <= n2,
        f1.le(f2),
    ensures
        planned_slot_capacity(n1 as int, f1) <= planned_slot_capacity(n2 as int, f2),
{
    let d1 = f1.denom as int;
    let m1 = f1.numer as int;
    let d2 = f2.denom as int;
    let m2 = f2.numer as int;
    let a = n1 * (d1 + m1);
    let c = n2 * (d2 + m2);
    assert(a * d2 <= c * d1) by (nonlinear_arith)
        requires
            a == n1 * (d1 + m1),
            c == n2 * (d2 + m2),
            m1 * d2 <= m2 * d1,
            0 <= n1 <= n2,
            d1 > 0,
            d2 > 0,
            m1 >= 0,
            m2 >= 0,
    ;
    assert(a >= 0 && c >= 0) by (nonlinear_arith)
        requires
            a == n1 * (d1 + m1),
            c == n2 * (d2 + m2),
            n1 >= 0,
            n2 >= 0,
            d1 > 0,
            d2 > 0,
            m1 >= 0,
            m2 >= 0,
    ;
    lemma_floor_div_le(a, d1, c, d2);
}

/// A buffer sequence after `rs` is recorded into it one item at a time, each
/// step appending at the end as `record_slot_update` and
/// `record_account_update` state.
pub open spec fn after_appends<T>(start: Seq<T>, rs: Seq<T>) -> Seq<T>
    decreases rs.len(),
{
    if rs.len() == 0 {
        start
    } else {
        after_appends(start, rs.drop_last()).push(rs.last())
    }
}

/// Recording `r1, ..., rN` in turn leaves exactly those records after the
/// earlier ones, in the order recorded, and grows the sequence by `N`.
pub proof fn lemma_appends_keep_order<T>(start: Seq<T>, rs: Seq<T>)
    ensures
        after_appends(start, rs) == start + rs,
        after_appends(start, rs).len() == start.len() + rs.len(),
    decreases rs.len(),
{
    if rs.len() > 0 {
        lemma_appends_keep_order(start, rs.drop_last());
        assert(start + rs =~= (start + rs.drop_last()).push(rs.last()));
    } else {
        assert(start + rs =~= start);
    }
}

/// The records captured from one endpoint, in order of arrival.
///
/// Both sequences only ever grow at their end, and independently of each
/// other: no index of one corresponds to an index of the other.
pub struct EndpointData {
    pub updates: Vec<SlotUpdate>,
    pub account_updates: Vec<AccountUpdate>,
    pub endpoint: String,
}

impl EndpointData {
    /// An empty buffer for `endpoint`, with room reserved for
    /// `calculate_capacity(slot_count, buffer)` slot updates and
    /// `account_capacity(slot_count)` account updates.
    pub fn new(endpoint: String, slot_count: usize, buffer: BufferFraction) -> (r: Self)
        requires
            buffer.wf(),
            planned_slot_capacity(slot_count as int, buffer) <= usize::MAX,
        ensures
            r.updates@ == Seq::<SlotUpdate>::empty(),
            r.account_updates@ == Seq::<AccountUpdate>::empty(),
            r.endpoint@ == endpoint@,
    {
        let capacity = Self::calculate_capacity(slot_count, buffer);
        let account_capacity = Self::account_capacity(slot_count);
        EndpointData {
            updates: Vec::with_capacity(capacity),
            account_updates: Vec::with_capacity(account_capacity),
            endpoint,
        }
    }

    /// The reservation for slot updates: `floor(slot_count * (1 + buffer)) * 6`.
    pub fn calculate_capacity(slot_count: usize, buffer: BufferFraction) -> (r: usize)
        requires
            buffer.wf(),
            planned_slot_capacity(slot_count as int, buffer) <= usize::MAX,
        ensures
            r == planned_slot_capacity(slot_count as int, buffer),
    {
        let n = slot_count as u128;
        let d = buffer.denom as u128;
        let m = buffer.numer as u128;
        assert(n * (d + m) <= 0xffff_ffff_ffff_ffffu128 * 0x1_ffff_fffeu128) by (nonlinear_arith)
            requires
                n <= 0xffff_ffff_ffff_ffffu128,
                d + m <= 0x1_ffff_fffeu128,
        ;
        let scaled: u128 = n * (d + m);
        let whole: u128 = scaled / d;
        assert(whole * 6 <= usize::MAX);
        (whole as usize) * STATUSES_PER_SLOT
    }

    /// The reservation for account updates: `min(slot_count * 100, 1_000_000)`.
    pub fn account_capacity(slot_count: usize) -> (r: usize)
        ensures
            r == planned_account_capacity(slot_count as int),
            slot_count <= 10_000 ==> r == slot_count * 100,
            slot_count > 10_000 ==> r == 1_000_000,
    {
        if slot_count <= MAX_ACCOUNT_CAPACITY / ACCOUNTS_PER_SLOT {
            slot_count * ACCOUNTS_PER_SLOT
        } else {
            MAX_ACCOUNT_CAPACITY
        }
    }

    /// Appends `update` after every slot update recorded so far.
    pub fn record_slot_update(&mut self, update: SlotUpdate)
        ensures
            final(self).updates@ == old(self).updates@.push(update),
            final(self).account_updates@ == old(self).account_updates@,
            final(self).endpoint@ == old(self).endpoint@,
    {
        self.updates.push(update);
    }

    /// Appends `update` after every account update recorded so far.
    pub fn record_account_update(&mut self, update: AccountUpdate)
        ensures
            final(self).account_updates@ == old(self).account_updates@.push(update),
            final(self).updates@ == old(self).updates@,
            final(self).endpoint@ == old(self).endpoint@,
    {
        self.account_updates.push(update);
    }
}

} // verus!
