use vstd::prelude::*;

use crate::text::optional_text;
use vstd::string::*;

verus! {

/// Number of readings of a DUT pack: the length of its temperature array, else of its CO2
/// array, else of its second temperature array; zero for a pack that only reports its
/// automation state.
pub open spec fn dut_pack_length_spec(
    temperature: Option<usize>,
    eco2: Option<usize>,
    temperature_1: Option<usize>,
) -> usize {
    match temperature {
        Some(n) => n,
        None => match eco2 {
            Some(n) => n,
            None => match temperature_1 {
                Some(n) => n,
                None => 0,
            },
        },
    }
}

/// Counts the readings of a DUT pack from the lengths of the arrays it carries.
pub fn dut_pack_length(temperature: Option<usize>, eco2: Option<usize>, temperature_1: Option<usize>) -> (r:
    usize)
    ensures
        r == dut_pack_length_spec(temperature, eco2, temperature_1),
        temperature matches Some(n) ==> r == n,
        eco2 matches Some(n) ==> (temperature is None ==> r == n),
        temperature_1 matches Some(n) ==> (temperature is None && eco2 is None ==> r == n),
        temperature is None && eco2 is None && temperature_1 is None ==> r == 0,
{
    match temperature {
        Some(n) => n,
        None => match eco2 {
            Some(n) => n,
            None => match temperature_1 {
                Some(n) => n,
                None => 0,
            },
        },
    }
}

/// An optional array length that is either absent or equal to `n`.
pub open spec fn length_agrees(len: Option<usize>, n: usize) -> bool {
    len matches Some(l) ==> l == n
}

/// Checks that every array a DUT pack carries among humidity, temperature, second
/// temperature, raw CO2 and `Tmp` holds `pack_length` readings.
pub fn check_dut_lengths(
    pack_length: usize,
    humidity: Option<usize>,
    temperature: Option<usize>,
    temperature_1: Option<usize>,
    raw_eco2: Option<usize>,
    tmp: Option<usize>,
) -> (r: Result<(), String>)
    ensures
        r is Ok <==> (length_agrees(humidity, pack_length) && length_agrees(temperature, pack_length)
            && length_agrees(temperature_1, pack_length) && length_agrees(raw_eco2, pack_length)
            && length_agrees(tmp, pack_length)),
        r matches Err(e) ==> e@ == "Incompatible length"@,
{
    let lens = [humidity, temperature, temperature_1, raw_eco2, tmp];
    let mut i: usize = 0;
    while i < 5
        invariant
            i <= 5,
            lens@ == seq![humidity, temperature, temperature_1, raw_eco2, tmp],
            forall|j: int| 0 <= j < i ==> length_agrees(#[trigger] lens@[j], pack_length),
        decreases 5 - i,
    {
        if let Some(l) = lens[i] {
            if l != pack_length {
                return Err(String::from_str("Incompatible length"));
            }
        }
        i = i + 1;
    }
    assert(length_agrees(lens@[0], pack_length) && length_agrees(lens@[4], pack_length));
    Ok(())
}

/// A CO2 reading; the sensor reports `-99` when it has none.
pub open spec fn co2_reading(v: Option<i16>) -> Option<i16> {
    if v == Some(-99i16) {
        None
    } else {
        v
    }
}

/// Drops the CO2 sensor's "no reading" marker.
pub fn dut_co2(v: Option<i16>) -> (r: Option<i16>)
    ensures
        r == co2_reading(v),
{
    match v {
        Some(c) => if c != -99 {
            Some(c)
        } else {
            None
        },
        None => None,
    }
}

/// A TVOC reading; the sensor reports `-99` or less when it has none.
pub open spec fn tvoc_reading(v: Option<i16>) -> Option<i16> {
    match v {
        Some(t) => if t > -99 {
            Some(t)
        } else {
            None
        },
        None => None,
    }
}

/// Drops the TVOC sensor's "no reading" values.
pub fn dut_tvoc(v: Option<i16>) -> (r: Option<i16>)
    ensures
        r == tvoc_reading(v),
        v matches Some(t) ==> (t > -99 ==> r == Some(t)),
        v matches Some(t) ==> (t <= -99 ==> r is None),
        v is None ==> r is None,
{
    match v {
        Some(t) => if t > -99 {
            Some(t)
        } else {
            None
        },
        None => None,
    }
}

/// The automation mode as reported: `"AUTO"` is written `"Auto"`, any other mode as is.
pub open spec fn reported_mode(mode: Option<Seq<char>>) -> Option<Seq<char>> {
    match mode {
        Some(m) => if m == "AUTO"@ {
            Some("Auto"@)
        } else {
            Some(m)
        },
        None => None,
    }
}

/// Normalizes the automation mode of a DUT reading.
pub fn dut_mode(mode: &Option<String>) -> (r: Option<String>)
    ensures
        optional_text(r) == reported_mode(optional_text(*mode)),
        *mode is None ==> r is None,
        *mode matches Some(m) ==> (m@ == "AUTO"@ ==> (r matches Some(o) && o@ == "Auto"@)),
        *mode matches Some(m) ==> (m@ != "AUTO"@ ==> (r matches Some(o) && o@ == m@)),
{
    match mode {
        Some(m) => if *m == String::from_str("AUTO") {
            Some(String::from_str("Auto"))
        } else {
            Some(m.clone())
        },
        None => None,
    }
}

} // verus!
