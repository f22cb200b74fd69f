use vstd::prelude::*;

verus! {

/// What the hourly consumption report knows of one hour.
#[derive(Clone, Copy, Debug, PartialEq, Eq, Structural)]
pub struct HourCheck {
    /// Whether the hour's consumption was measured and can be trusted.
    pub valid: bool,
    /// Whether a gap that reaches this valid hour runs on through it (a meter that reports
    /// pulses counts a valid hour that measured nothing as part of the gap around it).
    pub joins_gap: bool,
}

/// Whether a gap that reached hour `h` runs on through it.
pub open spec fn extends_gap(h: HourCheck) -> bool {
    !h.valid || h.joins_gap
}

/// A run of hours without a valid measure, bracketed by valid hours: the consumption seen
/// between the hour `before` and the hour `end` is shared over the hours `start..end`.
#[derive(Clone, Copy, Debug, PartialEq, Eq, Structural)]
pub struct GapSpread {
    /// The valid hour just before the gap.
    pub before: usize,
    /// The first hour of the gap.
    pub start: usize,
    /// The valid hour that closes the gap, just after its last hour.
    pub end: usize,
}

/// The gap that the scan of the hours is in before hour `k` (the hour it opened at), or
/// `None` outside a gap. A gap opens at a hour without a valid measure, runs on over the
/// hours that extend it and closes at the first one that does not.
pub open spec fn scan_state(hours: Seq<HourCheck>, k: int) -> Option<int>
    decreases k,
{
    if k <= 0 {
        None
    } else {
        let h = hours[k - 1];
        match scan_state(hours, k - 1) {
            None => if !h.valid {
                Some(k - 1)
            } else {
                None
            },
            Some(s) => if extends_gap(h) {
                Some(s)
            } else {
                None
            },
        }
    }
}

/// The spread that hour `k` gives out: the gap that it closes, when a valid hour came
/// before that gap.
pub open spec fn closed_at(hours: Seq<HourCheck>, k: int) -> Seq<GapSpread> {
    match scan_state(hours, k) {
        Some(s) => if !extends_gap(hours[k]) && s > 0 {
            seq![GapSpread { before: (s - 1) as usize, start: s as usize, end: k as usize }]
        } else {
            Seq::empty()
        },
        None => Seq::empty(),
    }
}

/// The spreads that the hours before `k` give out, in order.
pub open spec fn spreads_upto(hours: Seq<HourCheck>, k: int) -> Seq<GapSpread>
    decreases k,
{
    if k <= 0 {
        Seq::empty()
    } else {
        spreads_upto(hours, k - 1) + closed_at(hours, k - 1)
    }
}

/// The spreads of a whole day of hours: every gap with a valid hour before and after it.
/// A gap at the start of the day or one still open at its end is left as it is.
pub open spec fn gap_spreads(hours: Seq<HourCheck>) -> Seq<GapSpread> {
    spreads_upto(hours, hours.len() as int)
}

/// Finds the gaps of the hourly report over which a consumption must be shared.
pub fn plan_gap_spreads(hours: &Vec<HourCheck>) -> (r: Vec<GapSpread>)
    ensures
        r@ == gap_spreads(hours@),
{
    let n = hours.len();
    let mut result: Vec<GapSpread> = Vec::new();
    let mut run: Option<usize> = None;
    let mut k: usize = 0;
    while k < n
        invariant
            n == hours.len(),
            k <= n,
            result@ == spreads_upto(hours@, k as int),
            match run {
                Some(s) => scan_state(hours@, k as int) == Some(s as int),
                None => scan_state(hours@, k as int) is None,
            },
        decreases n - k,
    {
        let h = hours[k];
        match run {
            None => {
                if !h.valid {
                    run = Some(k);
                }
            },
            Some(s) => {
                if h.valid && !h.joins_gap {
                    if s > 0 {
                        result.push(GapSpread { before: s - 1, start: s, end: k });
                    }
                    run = None;
                }
            },
        }
        k = k + 1;
    }
    result
}

/// Whether the spread `sp` shares a consumption over the hour `p`.
pub open spec fn covers(sp: GapSpread, p: int) -> bool {
    sp.start <= p < sp.end
}

/// The shape of an open gap: it opened at a hour without a valid measure, after a valid
/// hour when it is not the first, and every hour since extends it.
proof fn lemma_open_gap_shape(hours: Seq<HourCheck>, k: int)
    requires
        0 <= k <= hours.len(),
    ensures
        scan_state(hours, k) matches Some(s) ==> {
            &&& 0 <= s < k
            &&& !hours[s].valid
            &&& s > 0 ==> hours[s - 1].valid
            &&& forall|j: int| s <= j < k ==> extends_gap(#[trigger] hours[j])
        },
        scan_state(hours, k) is None && k > 0 ==> hours[k - 1].valid,
        forall|i: int|
            0 <= i < spreads_upto(hours, k).len() ==> #[trigger] spreads_upto(hours, k)[i].end < k,
        scan_state(hours, k) matches Some(s) ==> forall|i: int|
            0 <= i < spreads_upto(hours, k).len() ==> #[trigger] spreads_upto(hours, k)[i].end < s,
    decreases k,
{
    if k > 0 {
        lemma_open_gap_shape(hours, k - 1);
        let prev = spreads_upto(hours, k - 1);
        let cur = spreads_upto(hours, k);
        assert(cur == prev + closed_at(hours, k - 1));
        match scan_state(hours, k - 1) {
            None => {
                if k - 1 > 0 {
                    assert(hours[k - 2].valid);
                }
            },
            Some(s) => {},
        }
        assert forall|i: int| 0 <= i < cur.len() implies #[trigger] cur[i].end < k by {
            if i < prev.len() {
                assert(cur[i] == prev[i]);
            }
        }
    }
}

/// Every spread is a run of hours that extend a gap, opened by a hour without a valid
/// measure, with a valid hour just before it and a valid hour that does not extend it just
/// after; and the spreads come in the order of the day without overlapping.
pub proof fn lemma_spreads_well_formed(hours: Seq<HourCheck>)
    requires
        hours.len() <= usize::MAX,
    ensures
        forall|i: int|
            0 <= i < gap_spreads(hours).len() ==> {
                let sp = #[trigger] gap_spreads(hours)[i];
                &&& sp.before + 1 == sp.start < sp.end < hours.len()
                &&& hours[sp.before as int].valid
                &&& !hours[sp.start as int].valid
                &&& forall|j: int| sp.start <= j < sp.end ==> extends_gap(#[trigger] hours[j])
                &&& !extends_gap(hours[sp.end as int])
            },
        forall|i: int|
            0 <= i < gap_spreads(hours).len() - 1 ==> #[trigger] gap_spreads(hours)[i].end
                <= gap_spreads(hours)[i + 1].before,
{
    lemma_spreads_shape(hours, hours.len() as int);
}

/// [`lemma_spreads_well_formed`] for the spreads of the hours before `k`.
proof fn lemma_spreads_shape(hours: Seq<HourCheck>, k: int)
    requires
        0 <= k <= hours.len() <= usize::MAX,
    ensures
        forall|i: int|
            0 <= i < spreads_upto(hours, k).len() ==> {
                let sp = #[trigger] spreads_upto(hours, k)[i];
                &&& sp.before + 1 == sp.start < sp.end < hours.len()
                &&& hours[sp.before as int].valid
                &&& !hours[sp.start as int].valid
                &&& forall|j: int| sp.start <= j < sp.end ==> extends_gap(#[trigger] hours[j])
                &&& !extends_gap(hours[sp.end as int])
            },
        forall|i: int|
            0 <= i < spreads_upto(hours, k).len() - 1 ==> #[trigger] spreads_upto(hours, k)[i].end
                <= spreads_upto(hours, k)[i + 1].before,
    decreases k,
{
    if k > 0 {
        lemma_spreads_shape(hours, k - 1);
        lemma_open_gap_shape(hours, k - 1);
        let prev = spreads_upto(hours, k - 1);
        let new = closed_at(hours, k - 1);
        let cur = spreads_upto(hours, k);
        assert(cur == prev + new);
        assert forall|i: int| 0 <= i < cur.len() implies {
            let sp = #[trigger] cur[i];
            &&& sp.before + 1 == sp.start < sp.end < hours.len()
            &&& hours[sp.before as int].valid
            &&& !hours[sp.start as int].valid
            &&& forall|j: int| sp.start <= j < sp.end ==> extends_gap(#[trigger] hours[j])
            &&& !extends_gap(hours[sp.end as int])
        } by {
            if i < prev.len() {
                assert(cur[i] == prev[i]);
            } else {
                assert(cur[i] == new[0]);
            }
        }
        assert forall|i: int| 0 <= i < cur.len() - 1 implies #[trigger] cur[i].end <= cur[i
            + 1].before by {
            if i + 1 < prev.len() {
                assert(cur[i] == prev[i]);
                assert(cur[i + 1] == prev[i + 1]);
            } else {
                assert(cur[i] == prev[i]);
                assert(cur[i + 1] == new[0]);
            }
        }
    }
}

/// The spreads of the hours before `k` come first among those of the hours before `m`.
proof fn lemma_spreads_grow(hours: Seq<HourCheck>, k: int, m: int)
    requires
        0 <= k <= m,
    ensures
        spreads_upto(hours, k).len() <= spreads_upto(hours, m).len(),
        forall|i: int|
            0 <= i < spreads_upto(hours, k).len() ==> #[trigger] spreads_upto(hours, m)[i]
                == spreads_upto(hours, k)[i],
    decreases m - k,
{
    if k < m {
        lemma_spreads_grow(hours, k, m - 1);
        let prev = spreads_upto(hours, m - 1);
        assert(spreads_upto(hours, m) == prev + closed_at(hours, m - 1));
        assert forall|i: int| 0 <= i < spreads_upto(hours, k).len() implies #[trigger] spreads_upto(
            hours,
            m,
        )[i] == spreads_upto(hours, k)[i] by {
            assert(spreads_upto(hours, m)[i] == prev[i]);
        }
    }
}

/// From the hour after `p` up to `k`, a gap that holds `p` either is still open or was
/// closed by a spread over `p`.
proof fn lemma_gap_stays_or_spreads(hours: Seq<HourCheck>, p: int, s: int, k: int)
    requires
        0 < s <= p < k <= hours.len() <= usize::MAX,
        scan_state(hours, p + 1) == Some(s),
    ensures
        scan_state(hours, k) == Some(s) || exists|i: int|
            0 <= i < spreads_upto(hours, k).len() && covers(
                #[trigger] spreads_upto(hours, k)[i],
                p,
            ),
    decreases k - p,
{
    if k > p + 1 {
        lemma_gap_stays_or_spreads(hours, p, s, k - 1);
        let prev = spreads_upto(hours, k - 1);
        assert(spreads_upto(hours, k) == prev + closed_at(hours, k - 1));
        if scan_state(hours, k - 1) == Some(s) {
            if !extends_gap(hours[k - 1]) {
                let sp = GapSpread { before: (s - 1) as usize, start: s as usize, end: (k - 1) as usize };
                assert(spreads_upto(hours, k)[prev.len() as int] == sp);
                assert(covers(spreads_upto(hours, k)[prev.len() as int], p));
            }
        } else {
            let i = choose|i: int| 0 <= i < prev.len() && covers(#[trigger] prev[i], p);
            assert(spreads_upto(hours, k)[i] == prev[i]);
        }
    }
}

/// Every hour without a valid measure that has, somewhere before it and somewhere after it,
/// a valid hour that does not extend a gap, gets a share of a consumption: some spread
/// covers it.
pub proof fn lemma_bracketed_hour_is_spread(hours: Seq<HourCheck>, q: int, p: int, r: int)
    requires
        0 <= q < p < r < hours.len() <= usize::MAX,
        !extends_gap(hours[q]),
        !hours[p].valid,
        !extends_gap(hours[r]),
    ensures
        exists|i: int| 0 <= i < gap_spreads(hours).len() && covers(#[trigger] gap_spreads(hours)[i], p),
{
    lemma_open_gap_shape(hours, p + 1);
    let s = scan_state(hours, p + 1)->0;
    assert(scan_state(hours, p + 1) is Some);
    assert(s > q) by {
        if s <= q {
            assert(extends_gap(hours[q]));
        }
    }
    lemma_gap_stays_or_spreads(hours, p, s, r + 1);
    lemma_open_gap_shape(hours, r);
    if scan_state(hours, r + 1) == Some(s) {
        assert(false);
    }
    let i = choose|i: int|
        0 <= i < spreads_upto(hours, r + 1).len() && covers(
            #[trigger] spreads_upto(hours, r + 1)[i],
            p,
        );
    lemma_spreads_grow(hours, r + 1, hours.len() as int);
    assert(gap_spreads(hours)[i] == spreads_upto(hours, r + 1)[i]);
}

} // verus!
