use vstd::prelude::*;
use vstd::string::*;

use crate::telemetry_payloads::sampling::gap_seconds;

verus! {

/// Silence, in seconds, after which the suction-temperature calculator forgets what it has
/// seen and starts over.
pub const TSUC_MEMORY_SECONDS: i64 = 300;

/// Time, in seconds, from the first reading of a run during which the suction-temperature
/// calculator gives no L1.
pub const TSUC_WARMUP_SECONDS: i64 = 300;

/// A reading at `ts` is refused when it is not later than the last one.
pub open spec fn tsuc_refuses(last_ts: Option<i64>, ts: i64) -> bool {
    match last_ts {
        Some(t) => t >= ts,
        None => false,
    }
}

/// A reading at `ts` starts a new run when more than five minutes went by since the last.
pub open spec fn tsuc_resets(last_ts: Option<i64>, ts: i64) -> bool {
    match last_ts {
        Some(t) => ts - t > TSUC_MEMORY_SECONDS,
        None => false,
    }
}

/// Start of the run once a reading at `ts` was accepted.
pub open spec fn tsuc_start_after_begin(last_ts: Option<i64>, start_ts: Option<i64>, ts: i64) -> Option<
    i64,
> {
    if tsuc_resets(last_ts, ts) {
        None
    } else {
        start_ts
    }
}

/// Seconds before a reading at `ts` that the calculator fills by interpolation: those since
/// the last reading, or none when there is no last reading or the run starts over.
pub open spec fn tsuc_fill_seconds(last_ts: Option<i64>, ts: i64) -> int {
    if tsuc_resets(last_ts, ts) {
        0
    } else {
        gap_seconds(last_ts, ts)
    }
}

/// What the calculator gives for a reading at `ts` whose conditions say `l1`: nothing
/// during the first five minutes of a run (a run without a start begins now), `l1` after.
pub open spec fn tsuc_output(start_ts: Option<i64>, ts: i64, l1: bool) -> Option<bool> {
    match start_ts {
        Some(t) => if ts - t < TSUC_WARMUP_SECONDS {
            None
        } else {
            Some(l1)
        },
        None => None,
    }
}

/// Start of the run once a reading at `ts` was given out.
pub open spec fn tsuc_start_after_finish(start_ts: Option<i64>, ts: i64) -> Option<i64> {
    match start_ts {
        Some(t) => Some(t),
        None => Some(ts),
    }
}

/// Takes the ambient, suction and liquid temperatures of a reading, which the rule needs
/// all three of: the first one missing gives its error.
pub fn require_temperatures<T: Copy>(tamb: Option<T>, tsuc: Option<T>, tliq: Option<T>) -> (r: Result<
    (T, T, T),
    String,
>)
    ensures
        tamb is None ==> (r matches Err(e) && e@ == "No Tamb"@),
        tamb is Some && tsuc is None ==> (r matches Err(e) && e@ == "No Tsuc"@),
        tamb is Some && tsuc is Some && tliq is None ==> (r matches Err(e) && e@ == "No Tliq"@),
        tamb is Some && tsuc is Some && tliq is Some ==> r == Ok::<(T, T, T), String>(
            (tamb->0, tsuc->0, tliq->0),
        ),
{
    let a = match tamb {
        Some(a) => a,
        None => {
            return Err(String::from_str("No Tamb"));
        },
    };
    let s = match tsuc {
        Some(s) => s,
        None => {
            return Err(String::from_str("No Tsuc"));
        },
    };
    let l = match tliq {
        Some(l) => l,
        None => {
            return Err(String::from_str("No Tliq"));
        },
    };
    Ok((a, s, l))
}

/// How the seconds before an accepted reading are handled.
pub struct TsucGap {
    /// Whether the temperature memories must be cleared first.
    pub reset: bool,
    /// Seconds to fill by interpolation before the reading.
    pub fill_seconds: usize,
}

/// The timing of the suction-temperature L1 calculator: when its last reading was, and when
/// its current run started.
pub struct TsucTimeline {
    last_ts: Option<i64>,
    start_ts: Option<i64>,
}

impl TsucTimeline {
    /// Time of the last accepted reading, in Unix seconds.
    pub closed spec fn last_reading(&self) -> Option<i64> {
        self.last_ts
    }

    /// Time at which the current run started, in Unix seconds.
    pub closed spec fn started_at(&self) -> Option<i64> {
        self.start_ts
    }

    /// A timeline with no reading yet.
    pub fn new() -> (r: Self)
        ensures
            r.last_reading() is None,
            r.started_at() is None,
    {
        TsucTimeline { last_ts: None, start_ts: None }
    }

    /// Accepts a reading at `ts`: refuses it when it is not later than the last one,
    /// otherwise says whether the run starts over and how many seconds to fill before it.
    pub fn begin_step(&mut self, ts: i64) -> (r: Result<TsucGap, String>)
        ensures
            tsuc_refuses(old(self).last_reading(), ts) ==> {
                &&& r matches Err(e) && e@ == "last_ts >= ts"@
                &&& final(self).last_reading() == old(self).last_reading()
                &&& final(self).started_at() == old(self).started_at()
            },
            !tsuc_refuses(old(self).last_reading(), ts) ==> {
                &&& r matches Ok(g) && g.reset == tsuc_resets(old(self).last_reading(), ts)
                    && g.fill_seconds == tsuc_fill_seconds(old(self).last_reading(), ts)
                    && g.fill_seconds < TSUC_MEMORY_SECONDS
                &&& final(self).last_reading() == Some(ts)
                &&& final(self).started_at() == tsuc_start_after_begin(
                    old(self).last_reading(),
                    old(self).started_at(),
                    ts,
                )
            },
    {
        let mut reset = false;
        let mut fill_seconds: usize = 0;
        if let Some(last_ts) = self.last_ts {
            if last_ts >= ts {
                return Err(String::from_str("last_ts >= ts"));
            }
            let elapsed: i128 = ts as i128 - last_ts as i128;
            if elapsed > TSUC_MEMORY_SECONDS as i128 {
                reset = true;
                self.start_ts = None;
            } else {
                fill_seconds = (elapsed - 1) as usize;
            }
        }
        self.last_ts = Some(ts);
        Ok(TsucGap { reset, fill_seconds })
    }

    /// Gives out the reading at `ts` whose conditions say `l1`: nothing during the first five
    /// minutes of the run, which starts now if it had not started.
    pub fn finish_step(&mut self, ts: i64, l1: bool) -> (r: Option<bool>)
        ensures
            r == tsuc_output(old(self).started_at(), ts, l1),
            final(self).started_at() == tsuc_start_after_finish(old(self).started_at(), ts),
            final(self).last_reading() == old(self).last_reading(),
    {
        match self.start_ts {
            Some(t) => {
                if (ts as i128) - (t as i128) < TSUC_WARMUP_SECONDS as i128 {
                    None
                } else {
                    Some(l1)
                }
            },
            None => {
                self.start_ts = Some(ts);
                None
            },
        }
    }
}

/// The reading that opens a run, the first one or the first after more than five minutes
/// of silence, gives no L1, and neither does any reading of the next five minutes.
pub proof fn lemma_new_run_gives_nothing(
    last_ts: Option<i64>,
    start_ts: Option<i64>,
    ts: i64,
    later: i64,
    l1: bool,
)
    requires
        (last_ts is None && start_ts is None) || tsuc_resets(last_ts, ts),
        ts <= later < ts + TSUC_WARMUP_SECONDS,
    ensures
        tsuc_output(tsuc_start_after_begin(last_ts, start_ts, ts), ts, l1) is None,
        tsuc_output(
            tsuc_start_after_finish(tsuc_start_after_begin(last_ts, start_ts, ts), ts),
            later,
            l1,
        ) is None,
{
}

/// Once five minutes of a run have gone by, the calculator gives its conditions' verdict.
pub proof fn lemma_warm_run_gives_verdict(start: i64, ts: i64, l1: bool)
    requires
        ts - start >= TSUC_WARMUP_SECONDS,
    ensures
        tsuc_output(Some(start), ts, l1) == Some(l1),
        tsuc_start_after_finish(Some(start), ts) == Some(start),
{
}

/// The timeline, as (last reading, start of the run), after accepting the readings
/// `ts[0..n]` one by one, each through [`TsucTimeline::begin_step`] and then
/// [`TsucTimeline::finish_step`], starting from [`TsucTimeline::new`].
pub open spec fn tsuc_after(ts: Seq<i64>, n: int) -> (Option<i64>, Option<i64>)
    decreases n,
{
    if n <= 0 {
        (None, None)
    } else {
        let (last, start) = tsuc_after(ts, n - 1);
        let t = ts[n - 1];
        (Some(t), tsuc_start_after_finish(tsuc_start_after_begin(last, start, t), t))
    }
}

/// What the reading `ts[k]` gives when the readings `ts[0..=k]` went through the timeline
/// in order, its conditions saying `l1`.
pub open spec fn tsuc_output_at(ts: Seq<i64>, k: int, l1: bool) -> Option<bool> {
    let (last, start) = tsuc_after(ts, k);
    tsuc_output(tsuc_start_after_begin(last, start, ts[k]), ts[k], l1)
}

/// The first reading of the run that holds `ts[k]`: the first reading, or the first one
/// after more than five minutes of silence.
pub open spec fn run_start(ts: Seq<i64>, k: int) -> i64
    decreases k,
{
    if k <= 0 {
        ts[0]
    } else if ts[k] - ts[k - 1] > TSUC_MEMORY_SECONDS {
        ts[k]
    } else {
        run_start(ts, k - 1)
    }
}

/// Over any sequence of readings later each than the one before, none is refused, the run
/// of each reading starts at its [`run_start`], a reading more than five minutes after the
/// previous one starts the run over (the memories are cleared), and a reading gives an L1
/// exactly when five minutes or more have gone by since the start of its run.
pub proof fn lemma_warmup_over_readings(ts: Seq<i64>, k: int, l1: bool)
    requires
        0 <= k < ts.len(),
        forall|i: int| 0 < i < ts.len() ==> ts[i - 1] < #[trigger] ts[i],
    ensures
        !tsuc_refuses(tsuc_after(ts, k).0, ts[k]),
        k > 0 ==> (tsuc_resets(tsuc_after(ts, k).0, ts[k]) <==> ts[k] - ts[k - 1]
            > TSUC_MEMORY_SECONDS),
        tsuc_after(ts, k + 1) == (Some(ts[k]), Some(run_start(ts, k))),
        run_start(ts, k) <= ts[k],
        tsuc_output_at(ts, k, l1) == if ts[k] - run_start(ts, k) < TSUC_WARMUP_SECONDS {
            None::<bool>
        } else {
            Some(l1)
        },
    decreases k,
{
    if k > 0 {
        lemma_warmup_over_readings(ts, k - 1, l1);
        assert(ts[k - 1] < ts[k]);
    }
}

} // verus!
