use vstd::prelude::*;

verus! {

/// Length of a chiller parameter slot, in seconds (ten minutes).
pub const CHILLER_SLOT_SECONDS: i64 = 600;

/// Length of an energy demand slot, in seconds (fifteen minutes).
pub const DEMAND_SLOT_SECONDS: i64 = 900;

/// Start of the slot of `width` seconds that holds the instant `ts`: the largest multiple
/// of `width` that is not after `ts` (slots are aligned on the Unix epoch, hence on every
/// hour for widths that divide an hour).
pub open spec fn slot_start(ts: int, width: int) -> int {
    ts - ts % width
}

/// Start of the ten-minute slot of the instant `ts` (Unix seconds): its minute rounded down
/// to a multiple of ten, seconds cleared.
pub fn ten_minute_slot(ts: i64) -> (r: i64)
    requires
        ts - ts % 600 >= i64::MIN,
    ensures
        r == slot_start(ts as int, CHILLER_SLOT_SECONDS as int),
        r <= ts < r + CHILLER_SLOT_SECONDS,
        r % CHILLER_SLOT_SECONDS == 0,
{
    let m: i64 = match ts.checked_rem_euclid(CHILLER_SLOT_SECONDS) {
        Some(m) => m,
        None => 0,
    };
    ts - m
}

/// The fifteen-minute demand slot that a reading at `ts` closes, for the report of the day
/// that starts at `day_start` (both Unix seconds): the reading covers the quarter hour
/// before it, so it goes to the slot that starts fifteen minutes earlier, rounded down to a
/// quarter hour. A reading of the day's first quarter hour closes a slot of the previous
/// day and belongs to no slot of this report (`None`).
pub open spec fn demand_slot(ts: int, day_start: int) -> Option<int> {
    if day_start <= ts < day_start + DEMAND_SLOT_SECONDS {
        None
    } else {
        Some(slot_start(ts - DEMAND_SLOT_SECONDS, DEMAND_SLOT_SECONDS as int))
    }
}

/// Computes [`demand_slot`].
pub fn quarter_hour_slot(ts: i64, day_start: i64) -> (r: Option<i64>)
    requires
        ts - 2 * DEMAND_SLOT_SECONDS >= i64::MIN,
    ensures
        r matches Some(s) ==> demand_slot(ts as int, day_start as int) == Some(s as int),
        r is None ==> demand_slot(ts as int, day_start as int) is None,
{
    let from_day: i128 = ts as i128 - day_start as i128;
    if 0 <= from_day && from_day < DEMAND_SLOT_SECONDS as i128 {
        return None;
    }
    let adjusted: i64 = ts - DEMAND_SLOT_SECONDS;
    let m: i64 = match adjusted.checked_rem_euclid(DEMAND_SLOT_SECONDS) {
        Some(m) => m,
        None => 0,
    };
    Some(adjusted - m)
}

/// A demand slot is a quarter hour that ends at most fifteen minutes before the reading
/// that closes it, and starts on a quarter hour.
pub proof fn lemma_demand_slot_precedes_reading(ts: int, day_start: int)
    requires
        demand_slot(ts, day_start) is Some,
    ensures
        ({
            let s = demand_slot(ts, day_start)->0;
            &&& s + DEMAND_SLOT_SECONDS <= ts < s + 2 * DEMAND_SLOT_SECONDS
            &&& s % (DEMAND_SLOT_SECONDS as int) == 0
        }),
{
    let a = ts - DEMAND_SLOT_SECONDS;
    assert(0 <= a % 900 < 900);
    assert((a - a % 900) % 900 == 0) by {
        vstd::arithmetic::div_mod::lemma_fundamental_div_mod(a, 900);
        vstd::arithmetic::div_mod::lemma_mod_multiples_vanish(a / 900, 0, 900);
    }
}

/// Interval, in seconds, between the readings of a DRI: the configured one, or five minutes
/// when none is configured (taken as an `i32`, wrapping as Rust's `as` does).
pub open spec fn dri_interval_seconds(dri_interval: Option<isize>) -> i32 {
    match dri_interval {
        Some(i) => i as i32,
        None => 300,
    }
}

/// Rust's division of `a` by a positive `b`, which rounds toward zero.
pub open spec fn div_toward_zero(a: int, b: int) -> int {
    if a >= 0 {
        a / b
    } else {
        -((-a) / b)
    }
}

/// Minutes without a reading after which a device counts as offline: the client's own
/// setting, or else the device's reading interval in whole minutes.
pub fn offline_check_minutes(client_minutes: Option<i32>, dri_interval: Option<isize>) -> (r: i32)
    ensures
        r as int == match client_minutes {
            Some(m) => m as int,
            None => div_toward_zero(dri_interval_seconds(dri_interval) as int, 60),
        },
{
    match client_minutes {
        Some(m) => m,
        None => {
            let interval: i64 = match dri_interval {
                Some(i) => (i as i32) as i64,
                None => 300,
            };
            if interval >= 0 {
                (interval / 60) as i32
            } else {
                (-((-interval) / 60)) as i32
            }
        },
    }
}

/// The readings of one slot: the slot's start and the positions of its readings, in order.
pub struct SlotGroup {
    pub slot: i64,
    pub members: Vec<usize>,
}

/// Whether `groups` gathers the readings whose slots are `slots` by slot: one group per
/// slot, each reading in the group of its slot, in the order of the readings.
pub open spec fn groups_readings(groups: Seq<SlotGroup>, slots: Seq<i64>) -> bool {
    &&& forall|a: int, b: int|
        0 <= a < b < groups.len() ==> #[trigger] groups[a].slot != #[trigger] groups[b].slot
    &&& forall|g: int, k: int|
        0 <= g < groups.len() && 0 <= k < groups[g].members@.len() ==> {
            &&& (#[trigger] groups[g].members@[k]) < slots.len()
            &&& slots[groups[g].members@[k] as int] == groups[g].slot
        }
    &&& forall|g: int, k1: int, k2: int|
        0 <= g < groups.len() && 0 <= k1 < k2 < groups[g].members@.len() ==> #[trigger] groups[g].members@[k1]
            < #[trigger] groups[g].members@[k2]
    &&& forall|g: int| 0 <= g < groups.len() ==> (#[trigger] groups[g].members@).len() > 0
    &&& forall|j: int| 0 <= j < slots.len() ==> #[trigger] reading_grouped(groups, j)
}

/// Whether reading `j` is among the members of some group.
pub open spec fn reading_grouped(groups: Seq<SlotGroup>, j: int) -> bool {
    exists|g: int| 0 <= g < groups.len() && #[trigger] groups[g].members@.contains(j as usize)
}

/// Gathers readings by slot, `slots[i]` being the slot of reading `i`: the groups come in
/// the order in which their slots first appear.
pub fn group_by_slot(slots: &Vec<i64>) -> (r: Vec<SlotGroup>)
    ensures
        groups_readings(r@, slots@),
{
    let mut groups: Vec<SlotGroup> = Vec::new();
    let mut i: usize = 0;
    while i < slots.len()
        invariant
            i <= slots.len(),
            groups_readings(groups@, slots@.take(i as int)),
            forall|g: int, k: int|
                0 <= g < groups@.len() && 0 <= k < groups@[g].members@.len() ==> (#[trigger] groups@[g].members@[k]) < i,
        decreases slots.len() - i,
    {
        let s = slots[i];
        let ghost before = groups@;
        let mut g: usize = 0;
        while g < groups.len() && groups[g].slot != s
            invariant
                g <= groups@.len(),
                groups@ == before,
                forall|h: int| 0 <= h < g ==> (#[trigger] groups@[h]).slot != s,
            decreases groups@.len() - g,
        {
            g = g + 1;
        }
        if g < groups.len() {
            groups[g].members.push(i);
            proof {
                let after = groups@;
                assert forall|h: int| 0 <= h < after.len() && h != g implies after[h] == before[h] by {}
                assert(after[g as int].members@ == before[g as int].members@.push(i));
                assert forall|j: int| 0 <= j < i + 1 implies #[trigger] reading_grouped(after, j) by {
                    if j == i {
                        assert(after[g as int].members@[before[g as int].members@.len() as int] == i);
                        assert(after[g as int].members@.contains(j as usize));
                    } else {
                        assert(slots@.take(i as int).len() == i);
                        assert(reading_grouped(before, j));
                        let h = choose|h: int|
                            0 <= h < before.len() && #[trigger] before[h].members@.contains(j as usize);
                        let k = choose|k: int|
                            0 <= k < before[h].members@.len() && before[h].members@[k] == j as usize;
                        assert(after[h].members@[k] == j as usize);
                        assert(after[h].members@.contains(j as usize));
                    }
                }
                assert(slots@.take(i + 1).len() == i + 1);
                assert forall|h: int, k: int|
                    0 <= h < after.len() && 0 <= k < after[h].members@.len() implies {
                        &&& (#[trigger] after[h].members@[k]) < slots@.take(i + 1).len()
                        &&& slots@.take(i + 1)[after[h].members@[k] as int] == after[h].slot
                    } by {
                    if h == g && k == before[g as int].members@.len() {
                    } else {
                        assert(after[h].members@[k] == before[h].members@[k]);
                        assert(slots@.take(i as int)[before[h].members@[k] as int] == before[h].slot);
                    }
                }
                assert forall|h: int, k1: int, k2: int|
                    0 <= h < after.len() && 0 <= k1 < k2 < after[h].members@.len() implies #[trigger] after[h].members@[k1]
                        < #[trigger] after[h].members@[k2] by {
                    if h == g && k2 == before[g as int].members@.len() {
                        assert(after[h].members@[k1] == before[h].members@[k1]);
                    } else {
                        assert(after[h].members@[k1] == before[h].members@[k1]);
                        assert(after[h].members@[k2] == before[h].members@[k2]);
                    }
                }
            }
        } else {
            let mut members: Vec<usize> = Vec::new();
            members.push(i);
            groups.push(SlotGroup { slot: s, members });
            proof {
                let after = groups@;
                assert(after == before.push(after[before.len() as int]));
                assert(after[before.len() as int].members@ == seq![i]);
                assert forall|j: int| 0 <= j < i + 1 implies #[trigger] reading_grouped(after, j) by {
                    if j == i {
                        assert(after[before.len() as int].members@[0] == i);
                        assert(after[before.len() as int].members@.contains(j as usize));
                    } else {
                        assert(slots@.take(i as int).len() == i);
                        assert(reading_grouped(before, j));
                        let h = choose|h: int|
                            0 <= h < before.len() && #[trigger] before[h].members@.contains(j as usize);
                        let k = choose|k: int|
                            0 <= k < before[h].members@.len() && before[h].members@[k] == j as usize;
                        assert(after[h].members@[k] == j as usize);
                        assert(after[h].members@.contains(j as usize));
                    }
                }
                assert(slots@.take(i + 1).len() == i + 1);
                assert forall|h: int, k: int|
                    0 <= h < after.len() && 0 <= k < after[h].members@.len() implies {
                        &&& (#[trigger] after[h].members@[k]) < slots@.take(i + 1).len()
                        &&& slots@.take(i + 1)[after[h].members@[k] as int] == after[h].slot
                    } by {
                    if h < before.len() {
                        assert(slots@.take(i as int)[before[h].members@[k] as int] == before[h].slot);
                    }
                }
            }
        }
        i = i + 1;
    }
    assert(slots@.take(slots@.len() as int) =~= slots@);
    groups
}

/// A reading belongs to one group only: the group of its slot.
pub proof fn lemma_reading_in_one_group(groups: Seq<SlotGroup>, slots: Seq<i64>, j: int, g1: int, g2: int)
    requires
        groups_readings(groups, slots),
        0 <= j < slots.len() <= usize::MAX,
        0 <= g1 < groups.len(),
        0 <= g2 < groups.len(),
        groups[g1].members@.contains(j as usize),
        groups[g2].members@.contains(j as usize),
    ensures
        g1 == g2,
        groups[g1].slot == slots[j],
{
    assert((j as usize) as int == j);
    let k1 = choose|k: int| 0 <= k < groups[g1].members@.len() && groups[g1].members@[k] == j as usize;
    let k2 = choose|k: int| 0 <= k < groups[g2].members@.len() && groups[g2].members@[k] == j as usize;
    assert(slots[groups[g1].members@[k1] as int] == groups[g1].slot);
    assert(slots[groups[g2].members@[k2] as int] == groups[g2].slot);
    if g1 < g2 {
        assert(groups[g1].slot != groups[g2].slot);
    } else if g2 < g1 {
        assert(groups[g2].slot != groups[g1].slot);
    }
}

} // verus!
