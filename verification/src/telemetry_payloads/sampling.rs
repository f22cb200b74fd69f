use vstd::prelude::*;

verus! {

/// How a calculator fills the seconds that went by without a sample.
pub struct GapFill {
    /// Number of placeholder samples to push.
    pub count: usize,
    /// Whether the placeholders repeat the most recent sample (`true`) or are empty (`false`).
    pub repeat_last: bool,
}

/// Seconds that went by between the previous sample at `last_ts` and the new one at
/// `final_ts`, not counting the new sample's own second; zero without a previous sample.
pub open spec fn gap_seconds(last_ts: Option<i64>, final_ts: i64) -> int {
    match last_ts {
        Some(t) => final_ts - t - 1,
        None => 0,
    }
}

/// Placeholders needed for a gap of `gap` seconds at one per `step` seconds (Rust's
/// integer division, which rounds toward zero, so a gap shorter than `step` needs none).
pub open spec fn gap_steps(gap: int, step: int) -> int {
    if gap <= 0 {
        0
    } else {
        gap / step
    }
}

/// Plans the filling of the gap before a sample at `final_ts`: one placeholder per `step`
/// seconds of gap (none when the gap is negative), repeating the last sample when the gap
/// is at most `max_repeat_gap` seconds and empty otherwise.
pub fn plan_gap_fill(last_ts: Option<i64>, final_ts: i64, max_repeat_gap: i64, step: i64) -> (r:
    GapFill)
    requires
        step > 0,
    ensures
        r.repeat_last == (gap_seconds(last_ts, final_ts) <= max_repeat_gap),
        r.count as int == if gap_steps(gap_seconds(last_ts, final_ts), step as int) > usize::MAX {
            usize::MAX as int
        } else {
            gap_steps(gap_seconds(last_ts, final_ts), step as int)
        },
{
    let gap: i128 = match last_ts {
        Some(t) => final_ts as i128 - t as i128 - 1,
        None => 0,
    };
    let repeat_last = gap <= max_repeat_gap as i128;
    let steps: i128 = if gap <= 0 {
        0
    } else {
        gap / (step as i128)
    };
    let count: usize = if steps > usize::MAX as i128 {
        usize::MAX
    } else {
        steps as usize
    };
    GapFill { count, repeat_last }
}

/// Offset of a sample taken at `ts` inside the window `[ts_ini, ts_next)`, or `None` when
/// the sample lies outside it.
pub open spec fn window_offset_spec(ts: i64, ts_ini: i64, ts_next: i64) -> Option<int> {
    if ts_ini <= ts && ts < ts_next {
        Some(ts - ts_ini)
    } else {
        None
    }
}

/// Where a sample taken at `ts` falls in the window `[ts_ini, ts_next)`.
pub fn window_offset(ts: i64, ts_ini: i64, ts_next: i64) -> (r: Option<isize>)
    requires
        ts_ini <= ts < ts_next ==> ts - ts_ini <= isize::MAX,
    ensures
        r matches Some(o) ==> window_offset_spec(ts, ts_ini, ts_next) == Some(o as int),
        r is None <==> window_offset_spec(ts, ts_ini, ts_next) is None,
{
    if ts < ts_ini || ts >= ts_next {
        None
    } else {
        let d: i64 = ts - ts_ini;
        Some(d as isize)
    }
}

/// One reading unpacked from a telemetry pack.
pub struct PackSample {
    /// Position of the reading in the pack's arrays.
    pub index: usize,
    /// Unix time of the reading, in seconds.
    pub ts: i64,
    /// Offset of the reading in the requested window, when it falls inside it.
    pub offset: Option<isize>,
}

/// Time of reading `index` of a pack of `len` readings, `sampling_time` seconds apart,
/// whose last reading was taken at `pack_ts`.
pub open spec fn sample_ts(pack_ts: i64, sampling_time: i64, len: int, index: int) -> int {
    pack_ts - (len - 1 - index) * sampling_time
}

/// The readings of a pack can be timed without leaving `i64`, and every reading inside the
/// window has an offset that fits in `isize`.
pub open spec fn pack_timing_fits(
    pack_ts: i64,
    sampling_time: i64,
    len: int,
    ts_ini: i64,
    ts_next: i64,
) -> bool {
    &&& len <= i64::MAX
    &&& forall|k: int|
        0 <= k < len ==> i64::MIN <= #[trigger] (k * sampling_time) <= i64::MAX && i64::MIN
            <= pack_ts - k * sampling_time <= i64::MAX
    &&& forall|i: int|
        0 <= i < len && ts_ini <= #[trigger] sample_ts(pack_ts, sampling_time, len, i) < ts_next
            ==> sample_ts(pack_ts, sampling_time, len, i) - ts_ini <= isize::MAX
}

/// Tests [`pack_timing_fits`].
pub fn check_pack_timing(pack_ts: i64, sampling_time: i64, len: usize, ts_ini: i64, ts_next: i64) -> (r:
    bool)
    ensures
        r == pack_timing_fits(pack_ts, sampling_time, len as int, ts_ini, ts_next),
{
    if len as u128 > i64::MAX as u128 {
        return false;
    }
    let mut k: usize = 0;
    while k < len
        invariant
            k <= len <= i64::MAX,
            forall|j: int|
                0 <= j < k ==> i64::MIN <= #[trigger] (j * sampling_time) <= i64::MAX && i64::MIN
                    <= pack_ts - j * sampling_time <= i64::MAX,
            forall|i: int|
                len - k <= i < len && ts_ini <= #[trigger] sample_ts(
                    pack_ts,
                    sampling_time,
                    len as int,
                    i,
                ) < ts_next ==> sample_ts(pack_ts, sampling_time, len as int, i) - ts_ini
                    <= isize::MAX,
        decreases len - k,
    {
        let ki: i128 = k as i128;
        let si: i128 = sampling_time as i128;
        assert(-0x8000_0000_0000_0000_0000_0000_0000_0000 < ki * si < 0x8000_0000_0000_0000_0000_0000_0000_0000)
            by (nonlinear_arith)
            requires
                0 <= ki <= 0x7FFF_FFFF_FFFF_FFFF,
                -0x8000_0000_0000_0000 <= si <= 0x7FFF_FFFF_FFFF_FFFF,
        ;
        let prod: i128 = ki * si;
        assert(prod == (k as int) * sampling_time);
        if prod < i64::MIN as i128 || prod > i64::MAX as i128 {
            return false;
        }
        let ts: i128 = pack_ts as i128 - prod;
        if ts < i64::MIN as i128 || ts > i64::MAX as i128 {
            return false;
        }
        let i: Ghost<int> = Ghost(len - 1 - k);
        assert(sample_ts(pack_ts, sampling_time, len as int, i@) == ts);
        if ts_ini as i128 <= ts && ts < ts_next as i128 && ts - ts_ini as i128 > isize::MAX as i128 {
            return false;
        }
        k = k + 1;
    }
    true
}

/// Times every reading of a pack of `len` readings, oldest first, and places each one in
/// the window `[ts_ini, ts_next)`.
pub fn plan_pack_samples(
    pack_ts: i64,
    sampling_time: i64,
    len: usize,
    ts_ini: i64,
    ts_next: i64,
) -> (r: Vec<PackSample>)
    requires
        pack_timing_fits(pack_ts, sampling_time, len as int, ts_ini, ts_next),
    ensures
        r@.len() == len,
        forall|i: int|
            0 <= i < len ==> {
                &&& (#[trigger] r@[i]).index == i
                &&& r@[i].ts == sample_ts(pack_ts, sampling_time, len as int, i)
                &&& r@[i].offset matches Some(o) ==> window_offset_spec(r@[i].ts, ts_ini, ts_next)
                    == Some(o as int)
                &&& r@[i].offset is None <==> window_offset_spec(r@[i].ts, ts_ini, ts_next) is None
            },
{
    let mut out: Vec<PackSample> = Vec::new();
    let mut i: usize = 0;
    while i < len
        invariant
            i <= len,
            out@.len() == i,
            pack_timing_fits(pack_ts, sampling_time, len as int, ts_ini, ts_next),
            forall|j: int|
                0 <= j < i ==> {
                    &&& (#[trigger] out@[j]).index == j
                    &&& out@[j].ts == sample_ts(pack_ts, sampling_time, len as int, j)
                    &&& out@[j].offset matches Some(o) ==> window_offset_spec(
                        out@[j].ts,
                        ts_ini,
                        ts_next,
                    ) == Some(o as int)
                    &&& out@[j].offset is None <==> window_offset_spec(out@[j].ts, ts_ini, ts_next)
                        is None
                },
        decreases len - i,
    {
        let k: i64 = (len - 1 - i) as i64;
        assert(i64::MIN <= k * sampling_time <= i64::MAX && i64::MIN <= pack_ts - k
            * sampling_time <= i64::MAX);
        let ts: i64 = pack_ts - k * sampling_time;
        assert(ts == sample_ts(pack_ts, sampling_time, len as int, i as int));
        let offset = window_offset(ts, ts_ini, ts_next);
        out.push(PackSample { index: i, ts, offset });
        i = i + 1;
    }
    out
}


/// The readings of a pack are `sampling_time` seconds apart and the last one is taken at
/// the pack's own time.
pub proof fn lemma_samples_evenly_spaced(pack_ts: i64, sampling_time: i64, len: int, i: int)
    requires
        0 <= i,
        i + 1 < len,
    ensures
        sample_ts(pack_ts, sampling_time, len, i + 1) - sample_ts(pack_ts, sampling_time, len, i)
            == sampling_time,
        sample_ts(pack_ts, sampling_time, len, len - 1) == pack_ts,
{
    assert((len - 1 - i) * sampling_time == (len - 1 - (i + 1)) * sampling_time + sampling_time)
        by (nonlinear_arith);
}

/// An offset in the window is never negative and stays below the window's length.
pub proof fn lemma_offset_inside_window(ts: i64, ts_ini: i64, ts_next: i64)
    ensures
        window_offset_spec(ts, ts_ini, ts_next) matches Some(o) ==> 0 <= o < ts_next - ts_ini,
{
}

} // verus!
