use vstd::prelude::*;

use crate::text::optional_text;
use vstd::string::*;

use crate::telemetry_payloads::circ_buffer::{
    count_equal, count_some, lemma_count_equal_prepend, lemma_count_some_prepend,
    lemma_empty_has_no_entries, lemma_empty_has_no_matches, shift_in, shift_in_repeated,
    CircularBuffer,
};
use crate::telemetry_payloads::sampling::{gap_seconds, gap_steps, plan_gap_fill};

verus! {

/// The parts of a DAC's hardware description that decide how its L1 (compressor on/off)
/// is computed.
pub struct DacL1Settings {
    pub is_vrf: bool,
    pub simulate_l1: bool,
    pub calculate_l1_fancoil: Option<bool>,
    pub p0_psuc: bool,
    pub p1_psuc: bool,
    pub fluid: Option<String>,
}

/// Which L1 calculator a DAC gets.
pub enum DacL1CalculatorKind {
    /// Majority vote over the last seconds of a chain of virtual calculators; the chain
    /// starts with the pressure based one when `with_pressure` holds.
    Virtual { with_pressure: bool },
    /// Fancoil rule on the suction and liquid temperatures.
    Fancoil,
    /// The L1 input of the device itself.
    Physical,
}

/// Which calculator [`select_l1_calculator`] picks for `cfg`.
pub open spec fn l1_calculator_kind(cfg: DacL1Settings) -> DacL1CalculatorKind {
    if cfg.is_vrf || cfg.simulate_l1 {
        DacL1CalculatorKind::Virtual { with_pressure: cfg.p0_psuc || cfg.p1_psuc }
    } else if cfg.calculate_l1_fancoil == Some(true) {
        DacL1CalculatorKind::Fancoil
    } else {
        DacL1CalculatorKind::Physical
    }
}

/// Picks the L1 calculator for a DAC: virtual for VRF machines or when simulation is asked
/// for, the fancoil rule when configured, the physical input otherwise.
pub fn select_l1_calculator(cfg: &DacL1Settings) -> (r: DacL1CalculatorKind)
    ensures
        r == l1_calculator_kind(*cfg),
        cfg.is_vrf || cfg.simulate_l1 ==> r == (DacL1CalculatorKind::Virtual {
            with_pressure: cfg.p0_psuc || cfg.p1_psuc,
        }),
        !(cfg.is_vrf || cfg.simulate_l1) && cfg.calculate_l1_fancoil == Some(true) ==> r
            == DacL1CalculatorKind::Fancoil,
        !(cfg.is_vrf || cfg.simulate_l1) && cfg.calculate_l1_fancoil != Some(true) ==> r
            == DacL1CalculatorKind::Physical,
{
    if cfg.is_vrf || cfg.simulate_l1 {
        DacL1CalculatorKind::Virtual { with_pressure: cfg.p0_psuc || cfg.p1_psuc }
    } else if match cfg.calculate_l1_fancoil {
        Some(b) => b,
        None => false,
    } {
        DacL1CalculatorKind::Fancoil
    } else {
        DacL1CalculatorKind::Physical
    }
}

fn same_fluid(a: &Option<String>, b: &Option<String>) -> (r: bool)
    ensures
        r == (optional_text(*a) == optional_text(*b)),
{
    match (a, b) {
        (Some(x), Some(y)) => *x == *y,
        (None, None) => true,
        _ => false,
    }
}

/// Whether a DAC whose configuration went from `last_cfg` to `new_cfg` needs a new L1
/// calculator.
pub open spec fn l1_calc_outdated(last_cfg: Option<DacL1Settings>, new_cfg: DacL1Settings) -> bool {
    match last_cfg {
        None => true,
        Some(last) => {
            ||| last.simulate_l1 != new_cfg.simulate_l1
            ||| last.is_vrf != new_cfg.is_vrf
            ||| (last.calculate_l1_fancoil != new_cfg.calculate_l1_fancoil && !new_cfg.is_vrf)
            ||| (new_cfg.is_vrf && (last.p0_psuc || last.p1_psuc) != (new_cfg.p0_psuc
                || new_cfg.p1_psuc))
            ||| optional_text(last.fluid) != optional_text(new_cfg.fluid)
        },
    }
}

/// Whether the L1 calculator must be rebuilt after the configuration changed.
pub fn should_update_l1_calc(last_cfg: Option<&DacL1Settings>, new_cfg: &DacL1Settings) -> (r:
    bool)
    ensures
        r == l1_calc_outdated(
            match last_cfg {
                Some(c) => Some(*c),
                None => None,
            },
            *new_cfg,
        ),
        last_cfg is None ==> r,
        last_cfg matches Some(last) && last.simulate_l1 != new_cfg.simulate_l1 ==> r,
        last_cfg matches Some(last) && last.is_vrf != new_cfg.is_vrf ==> r,
        last_cfg matches Some(last) && last.calculate_l1_fancoil != new_cfg.calculate_l1_fancoil
            && !new_cfg.is_vrf ==> r,
        last_cfg matches Some(last) && new_cfg.is_vrf && (last.p0_psuc || last.p1_psuc) != (
        new_cfg.p0_psuc || new_cfg.p1_psuc) ==> r,
        last_cfg matches Some(last) && optional_text(last.fluid) != optional_text(new_cfg.fluid)
            ==> r,
        last_cfg matches Some(last) && last.simulate_l1 == new_cfg.simulate_l1 && last.is_vrf
            == new_cfg.is_vrf && (last.calculate_l1_fancoil == new_cfg.calculate_l1_fancoil
            || new_cfg.is_vrf) && (!new_cfg.is_vrf || (last.p0_psuc || last.p1_psuc) == (
        new_cfg.p0_psuc || new_cfg.p1_psuc)) && optional_text(last.fluid) == optional_text(
            new_cfg.fluid,
        ) ==> !r,
{
    let last_cfg = match last_cfg {
        Some(c) => c,
        None => {
            return true;
        },
    };
    let virtual_l1_state_changed = last_cfg.simulate_l1 != new_cfg.simulate_l1;
    let vrf_state_changed = last_cfg.is_vrf != new_cfg.is_vrf;
    let fancoil_state_changed = last_cfg.calculate_l1_fancoil != new_cfg.calculate_l1_fancoil
        && !new_cfg.is_vrf;
    let pressure_state_changed = (last_cfg.p0_psuc || last_cfg.p1_psuc) != (new_cfg.p0_psuc
        || new_cfg.p1_psuc);
    let fluid_changed = !same_fluid(&last_cfg.fluid, &new_cfg.fluid);
    virtual_l1_state_changed || vrf_state_changed || fancoil_state_changed || (new_cfg.is_vrf
        && pressure_state_changed) || fluid_changed
}

/// The reading of one calculator of a chain: an error counts as no reading.
pub open spec fn reading_of(r: Result<Option<bool>, String>) -> Option<bool> {
    match r {
        Ok(l1) => l1,
        Err(_) => None,
    }
}

/// The first reading of a chain of calculators, `results` being what each returned in
/// order: later calculators only fill in when the earlier ones gave nothing.
pub open spec fn first_reading(results: Seq<Result<Option<bool>, String>>) -> Option<bool>
    decreases results.len(),
{
    if results.len() == 0 {
        None
    } else if reading_of(results[0]) is Some {
        reading_of(results[0])
    } else {
        first_reading(results.drop_first())
    }
}

/// Combines the results of a chain of L1 calculators that were all asked, in order: an
/// error when the chain is empty, otherwise the first reading any of them gave.
pub fn fallback_l1(results: &Vec<Result<Option<bool>, String>>) -> (r: Result<Option<bool>, String>)
    ensures
        results@.len() == 0 ==> (r matches Err(e) && e@ == "Não há checker de l1"@),
        results@.len() > 0 ==> r == Ok::<Option<bool>, String>(first_reading(results@)),
{
    if results.len() == 0 {
        return Err(String::from_str("Não há checker de l1"));
    }
    let mut l1: Option<bool> = match &results[0] {
        Ok(v) => *v,
        Err(_) => None,
    };
    let mut i: usize = 1;
    assert(results@.skip(1) =~= results@.drop_first());
    while i < results.len()
        invariant
            1 <= i <= results@.len(),
            l1 is Some ==> l1 == first_reading(results@),
            l1 is None ==> first_reading(results@) == first_reading(results@.skip(i as int)),
        decreases results@.len() - i,
    {
        assert(results@.skip(i as int).drop_first() =~= results@.skip(i + 1));
        assert(results@.skip(i as int)[0] == results@[i as int]);
        if let Ok(fallback_l1) = &results[i] {
            if l1.is_none() {
                l1 = *fallback_l1;
            }
        }
        i = i + 1;
    }
    Ok(l1)
}

/// Number of one-second L1 readings the virtual calculator votes over.
pub const VIRTUAL_L1_WINDOW: usize = 30;

/// The vote over a window of L1 readings: on when more than half of the present readings
/// are on, nothing when no reading is present.
pub open spec fn majority_vote(s: Seq<Option<bool>>) -> Option<bool> {
    if count_some(s) > 0 {
        Some(2 * count_equal(s, true) > count_some(s))
    } else {
        None
    }
}

/// The window after the gap before a reading at `ts` was filled: every missing second is
/// pushed in, repeating the last reading when at most 15 seconds are missing.
pub open spec fn virtual_gap_filled(window: Seq<Option<bool>>, last_ts: Option<i64>, ts: i64) -> Seq<
    Option<bool>,
> {
    shift_in_repeated(
        window,
        if gap_seconds(last_ts, ts) <= 15 {
            window[0]
        } else {
            None
        },
        gap_steps(gap_seconds(last_ts, ts), 1),
    )
}

/// Smooths the L1 of an inner calculator `calc` with a majority vote over its last
/// [`VIRTUAL_L1_WINDOW`] one-second readings.
pub struct DacVirtualCalculator<T> {
    pub calc: T,
    unfiltered_l1: CircularBuffer<30, bool>,
    last_ts: Option<i64>,
}

impl<T> DacVirtualCalculator<T> {
    /// The vote window is well formed.
    pub closed spec fn wf(&self) -> bool {
        self.unfiltered_l1.wf()
    }

    /// The readings in the vote window, most recent first.
    pub closed spec fn window(&self) -> Seq<Option<bool>> {
        self.unfiltered_l1@
    }

    /// The inner calculator.
    pub closed spec fn inner(&self) -> T {
        self.calc
    }

    /// Time of the last reading, in Unix seconds.
    pub closed spec fn last_reading(&self) -> Option<i64> {
        self.last_ts
    }

    /// A calculator around `calc` with an empty window and no reading yet.
    pub fn new(calc: T) -> (r: Self)
        ensures
            r.wf(),
            r.window() == Seq::new(30, |i: int| None::<bool>),
            r.last_reading() is None,
            r.inner() == calc,
    {
        DacVirtualCalculator { calc, unfiltered_l1: CircularBuffer::new(), last_ts: None }
    }

    /// Fills the seconds between the last reading and `final_ts` and records `final_ts` as
    /// the time of the last reading.
    fn fill_gaps(&mut self, final_ts: i64)
        requires
            old(self).wf(),
        ensures
            final(self).wf(),
            final(self).window() == virtual_gap_filled(
                old(self).window(),
                old(self).last_reading(),
                final_ts,
            ),
            final(self).last_reading() == Some(final_ts),
            final(self).inner() == old(self).inner(),
    {
        proof {
            self.unfiltered_l1.lemma_view_len();
        }
        let plan = plan_gap_fill(self.last_ts, final_ts, 15, 1);
        let l1_to_fill = if plan.repeat_last {
            self.unfiltered_l1.get(0)
        } else {
            None
        };
        let ghost before = self.window();
        let count = if plan.count > VIRTUAL_L1_WINDOW {
            VIRTUAL_L1_WINDOW
        } else {
            plan.count
        };
        self.unfiltered_l1.fill(l1_to_fill, count);
        assert(self.window() =~= virtual_gap_filled(before, self.last_ts, final_ts));
        self.last_ts = Some(final_ts);
    }

    /// Starts the computation for a reading at `ts`: refuses a reading that is not later
    /// than the last one, and otherwise fills the gap before it.
    pub fn begin_step(&mut self, ts: i64) -> (r: Result<(), String>)
        requires
            old(self).wf(),
        ensures
            final(self).wf(),
            final(self).inner() == old(self).inner(),
            match old(self).last_reading() {
                Some(t) => t >= ts,
                None => false,
            } ==> {
                &&& r matches Err(e) && e@ == "last_ts >= ts"@
                &&& final(self).window() == old(self).window()
                &&& final(self).last_reading() == old(self).last_reading()
            },
            !match old(self).last_reading() {
                Some(t) => t >= ts,
                None => false,
            } ==> {
                &&& r is Ok
                &&& final(self).window() == virtual_gap_filled(
                    old(self).window(),
                    old(self).last_reading(),
                    ts,
                )
                &&& final(self).last_reading() == Some(ts)
            },
    {
        if let Some(last_ts) = self.last_ts {
            if last_ts >= ts {
                return Err(String::from_str("last_ts >= ts"));
            }
        }
        self.fill_gaps(ts);
        Ok(())
    }

    /// Ends the computation: pushes the inner calculator's reading `l1` into the window and
    /// returns the vote over the window.
    pub fn finish_step(&mut self, l1: Option<bool>) -> (r: Option<bool>)
        requires
            old(self).wf(),
        ensures
            final(self).wf(),
            final(self).inner() == old(self).inner(),
            final(self).last_reading() == old(self).last_reading(),
            final(self).window() == shift_in(old(self).window(), l1),
            r == majority_vote(final(self).window()),
    {
        self.unfiltered_l1.insert_point(l1);
        let l1_on = self.unfiltered_l1.entries_matching(&true);
        let valid_l1 = self.unfiltered_l1.valid_entries();
        if valid_l1 > 0 {
            Some(2 * l1_on > valid_l1)
        } else {
            None
        }
    }
}


/// VRF machines and machines that simulate their L1 get the virtual calculator, whose chain
/// starts with the pressure based one exactly when P0 or P1 measures the suction pressure;
/// other machines get the fancoil rule when it is switched on, and their physical L1 input
/// otherwise.
pub proof fn lemma_calculator_choice(cfg: DacL1Settings)
    ensures
        cfg.is_vrf || cfg.simulate_l1 ==> l1_calculator_kind(cfg) == (DacL1CalculatorKind::Virtual {
            with_pressure: cfg.p0_psuc || cfg.p1_psuc,
        }),
        !(cfg.is_vrf || cfg.simulate_l1) && cfg.calculate_l1_fancoil == Some(true)
            ==> l1_calculator_kind(cfg) == DacL1CalculatorKind::Fancoil,
        !(cfg.is_vrf || cfg.simulate_l1) && cfg.calculate_l1_fancoil != Some(true)
            ==> l1_calculator_kind(cfg) == DacL1CalculatorKind::Physical,
{
}

/// The calculator is rebuilt when the L1 simulation is switched, when the machine becomes
/// or stops being VRF, when the fluid changes, when the fancoil setting of a machine that
/// is not VRF changes, or when a VRF machine gains or loses its suction pressure sensor;
/// any other change (such as moving the suction pressure sensor from P0 to P1) keeps it.
pub proof fn lemma_rebuild_triggers(last: DacL1Settings, new_cfg: DacL1Settings)
    ensures
        last.simulate_l1 != new_cfg.simulate_l1 ==> l1_calc_outdated(Some(last), new_cfg),
        last.is_vrf != new_cfg.is_vrf ==> l1_calc_outdated(Some(last), new_cfg),
        last.calculate_l1_fancoil != new_cfg.calculate_l1_fancoil && !new_cfg.is_vrf
            ==> l1_calc_outdated(Some(last), new_cfg),
        new_cfg.is_vrf && (last.p0_psuc || last.p1_psuc) != (new_cfg.p0_psuc || new_cfg.p1_psuc)
            ==> l1_calc_outdated(Some(last), new_cfg),
        optional_text(last.fluid) != optional_text(new_cfg.fluid) ==> l1_calc_outdated(
            Some(last),
            new_cfg,
        ),
        last.simulate_l1 == new_cfg.simulate_l1 && last.is_vrf == new_cfg.is_vrf && (
        last.calculate_l1_fancoil == new_cfg.calculate_l1_fancoil || new_cfg.is_vrf) && (
        !new_cfg.is_vrf || (last.p0_psuc || last.p1_psuc) == (new_cfg.p0_psuc || new_cfg.p1_psuc))
            && optional_text(last.fluid) == optional_text(new_cfg.fluid) ==> !l1_calc_outdated(
            Some(last),
            new_cfg,
        ),
{
}

/// The chain's reading is that of the earliest calculator that gave one: errors and empty
/// readings before it are skipped, and calculators after it are not looked at.
pub proof fn lemma_first_reading_is_earliest(results: Seq<Result<Option<bool>, String>>, i: int)
    requires
        0 <= i < results.len(),
        reading_of(results[i]) is Some,
        forall|j: int| 0 <= j < i ==> reading_of(#[trigger] results[j]) is None,
    ensures
        first_reading(results) == reading_of(results[i]),
    decreases i,
{
    if i > 0 {
        let rest = results.drop_first();
        assert forall|j: int| 0 <= j < i - 1 implies reading_of(#[trigger] rest[j]) is None by {
            assert(rest[j] == results[j + 1]);
        }
        assert(reading_of(results[0]) is None);
        lemma_first_reading_is_earliest(rest, i - 1);
    }
}

/// A chain in which no calculator gave a reading has none.
pub proof fn lemma_chain_without_reading(results: Seq<Result<Option<bool>, String>>)
    requires
        forall|j: int| 0 <= j < results.len() ==> reading_of(#[trigger] results[j]) is None,
    ensures
        first_reading(results) is None,
    decreases results.len(),
{
    if results.len() > 0 {
        let rest = results.drop_first();
        assert forall|j: int| 0 <= j < rest.len() implies reading_of(#[trigger] rest[j]) is None by {
            assert(rest[j] == results[j + 1]);
        }
        assert(reading_of(results[0]) is None);
        lemma_chain_without_reading(rest);
    }
}

/// The vote is on when more present readings are on than off, off when at least as many
/// are off as on (a tie is off), and absent when the window holds no reading.
pub proof fn lemma_majority_vote_cases(s: Seq<Option<bool>>)
    ensures
        count_some(s) == 0 ==> majority_vote(s) is None,
        count_some(s) > 0 && count_equal(s, true) > count_some(s) - count_equal(s, true)
            ==> majority_vote(s) == Some(true),
        count_some(s) > 0 && count_equal(s, true) <= count_some(s) - count_equal(s, true)
            ==> majority_vote(s) == Some(false),
{
}

/// A configuration that did not change never asks for a new calculator, and the first
/// configuration always does.
pub proof fn lemma_unchanged_settings_keep_calculator(cfg: DacL1Settings)
    ensures
        !l1_calc_outdated(Some(cfg), cfg),
        l1_calc_outdated(None, cfg),
{
}

/// When no rebuild is asked for, the kind of calculator the new configuration gets is the
/// one already in use. This fails for a machine that is not VRF but simulates its L1 and
/// whose pressure sensors were switched on or off, which is therefore left out.
pub proof fn lemma_no_rebuild_keeps_kind(last: DacL1Settings, new_cfg: DacL1Settings)
    requires
        !l1_calc_outdated(Some(last), new_cfg),
        !(new_cfg.simulate_l1 && !new_cfg.is_vrf && (last.p0_psuc || last.p1_psuc) != (
        new_cfg.p0_psuc || new_cfg.p1_psuc)),
    ensures
        l1_calculator_kind(last) == l1_calculator_kind(new_cfg),
{
}

/// After a gap of more than 15 seconds that fills the whole window with empty readings,
/// the vote is the inner calculator's reading itself.
pub proof fn lemma_vote_after_long_gap(
    window: Seq<Option<bool>>,
    last_ts: Option<i64>,
    ts: i64,
    l1: Option<bool>,
)
    requires
        window.len() == VIRTUAL_L1_WINDOW,
        gap_seconds(last_ts, ts) > 15,
        gap_seconds(last_ts, ts) >= VIRTUAL_L1_WINDOW - 1,
    ensures
        majority_vote(shift_in(virtual_gap_filled(window, last_ts, ts), l1)) == l1,
{
    let empty = Seq::new((VIRTUAL_L1_WINDOW - 1) as nat, |i: int| None::<bool>);
    assert(shift_in(virtual_gap_filled(window, last_ts, ts), l1) =~= seq![l1] + empty);
    lemma_count_some_prepend(l1, empty);
    lemma_count_equal_prepend(l1, empty, true);
    lemma_empty_has_no_entries::<bool>((VIRTUAL_L1_WINDOW - 1) as nat);
    lemma_empty_has_no_matches::<bool>((VIRTUAL_L1_WINDOW - 1) as nat, true);
}

} // verus!
