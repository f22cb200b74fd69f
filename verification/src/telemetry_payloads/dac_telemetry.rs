#![allow(non_snake_case)]
#![allow(non_camel_case_types)]

use vstd::prelude::*;

use crate::text::optional_text;
use vstd::string::*;

verus! {

/// The temperature inputs of a DAC.
#[derive(Debug)]
pub enum T_sensors {
    T0,
    T1,
    T2,
}

/// Which input measures the ambient, suction and liquid temperatures of a DAC.
#[derive(Debug)]
pub struct T_sensor_cfg {
    pub Tamb: Option<T_sensors>,
    pub Tsuc: Option<T_sensors>,
    pub Tliq: Option<T_sensors>,
}

/// The reading of the input `which` among `t0`, `t1` and `t2`; none when no input is
/// assigned.
pub open spec fn sensor_reading<V>(which: Option<T_sensors>, t0: Option<V>, t1: Option<V>, t2: Option<V>) -> Option<V> {
    match which {
        None => None,
        Some(T_sensors::T0) => t0,
        Some(T_sensors::T1) => t1,
        Some(T_sensors::T2) => t2,
    }
}

/// Picks the reading of the input assigned to a measurement.
pub fn pick_sensor<V: Copy>(which: &Option<T_sensors>, t0: Option<V>, t1: Option<V>, t2: Option<V>) -> (r: Option<V>)
    ensures
        r == sensor_reading(*which, t0, t1, t2),
        *which is None ==> r is None,
        *which matches Some(T_sensors::T0) ==> r == t0,
        *which matches Some(T_sensors::T1) ==> r == t1,
        *which matches Some(T_sensors::T2) ==> r == t2,
{
    match which {
        None => None,
        Some(T_sensors::T0) => t0,
        Some(T_sensors::T1) => t1,
        Some(T_sensors::T2) => t2,
    }
}

/// The compressor state reported for a DAC: with automation, off while the automation is
/// `"Disabled"`, the computed L1 while it is `"Enabled"` and unknown otherwise; without
/// automation, the computed L1.
pub open spec fn compressor_state(has_automation: bool, state: Option<Seq<char>>, l1: Option<bool>) -> Option<
    bool,
> {
    if has_automation {
        if state == Some("Disabled"@) {
            Some(false)
        } else if state == Some("Enabled"@) {
            l1
        } else {
            None
        }
    } else {
        l1
    }
}

/// Decides the compressor state of a DAC reading from the automation state and the
/// computed L1.
pub fn dac_lcmp(has_automation: bool, state: &Option<String>, l1: Option<bool>) -> (r: Option<bool>)
    ensures
        r == compressor_state(has_automation, optional_text(*state), l1),
        !has_automation ==> r == l1,
        has_automation && optional_text(*state) == Some("Enabled"@) ==> r == l1,
        has_automation && optional_text(*state) == Some("Disabled"@) ==> r == Some(false),
        has_automation && optional_text(*state) != Some("Enabled"@) && optional_text(*state)
            != Some("Disabled"@) ==> r is None,
{
    proof {
        reveal_strlit("Enabled");
        reveal_strlit("Disabled");
        assert("Enabled"@[0] != "Disabled"@[0]);
    }
    if has_automation {
        match state {
            Some(s) => {
                if *s == String::from_str("Disabled") {
                    Some(false)
                } else if *s == String::from_str("Enabled") {
                    l1
                } else {
                    None
                }
            },
            None => None,
        }
    } else {
        l1
    }
}

/// A measurement reads the input it is assigned to: T0's reading for T0, T1's for T1, T2's
/// for T2, and nothing when no input is assigned.
pub proof fn lemma_reading_follows_assignment<V>(which: Option<T_sensors>, t0: Option<V>, t1: Option<V>, t2: Option<V>)
    ensures
        which is None ==> sensor_reading(which, t0, t1, t2) is None,
        which matches Some(T_sensors::T0) ==> sensor_reading(which, t0, t1, t2) == t0,
        which matches Some(T_sensors::T1) ==> sensor_reading(which, t0, t1, t2) == t1,
        which matches Some(T_sensors::T2) ==> sensor_reading(which, t0, t1, t2) == t2,
{
}

/// The reported compressor state is the computed L1 for a DAC without automation and for
/// one whose automation is `"Enabled"`; it is off while the automation is `"Disabled"`,
/// and unknown for any other automation state.
pub proof fn lemma_compressor_state_by_automation(has_automation: bool, state: Option<Seq<char>>, l1: Option<bool>)
    ensures
        !has_automation ==> compressor_state(has_automation, state, l1) == l1,
        has_automation && state == Some("Enabled"@) ==> compressor_state(has_automation, state, l1) == l1,
        has_automation && state == Some("Disabled"@) ==> compressor_state(has_automation, state, l1) == Some(false),
        has_automation && state != Some("Enabled"@) && state != Some("Disabled"@)
            ==> compressor_state(has_automation, state, l1) is None,
{
    reveal_strlit("Enabled");
    reveal_strlit("Disabled");
    assert("Enabled"@[0] != "Disabled"@[0]);
}

/// The message for an array of a pack whose length differs from the L1 array's.
pub open spec fn length_error(name: Seq<char>, timestamp: Seq<char>) -> Seq<char> {
    "Incompatible length of "@ + name + " at "@ + timestamp
}

fn length_message(name: &str, timestamp: &String) -> (r: String)
    ensures
        r@ == length_error(name@, timestamp@),
{
    let mut m = String::from_str("Incompatible length of ");
    m.append(name);
    m.append(" at ");
    m.append(timestamp.as_str());
    m
}

/// Checks that the T0, T1, T2, P0 and P1 arrays of a DAC pack are as long as its L1
/// array, reporting the first that is not.
pub fn check_dac_pack_lengths(
    timestamp: &String,
    l1_len: usize,
    t0_len: usize,
    t1_len: usize,
    t2_len: usize,
    p0_len: usize,
    p1_len: usize,
) -> (r: Result<(), String>)
    ensures
        t0_len != l1_len ==> (r matches Err(e) && e@ == length_error("T0"@, timestamp@)),
        t0_len == l1_len && t1_len != l1_len ==> (r matches Err(e) && e@ == length_error(
            "T1"@,
            timestamp@,
        )),
        t0_len == l1_len && t1_len == l1_len && t2_len != l1_len ==> (r matches Err(e) && e@
            == length_error("T2"@, timestamp@)),
        t0_len == l1_len && t1_len == l1_len && t2_len == l1_len && p0_len != l1_len ==> (r matches Err(
            e,
        ) && e@ == length_error("P0"@, timestamp@)),
        t0_len == l1_len && t1_len == l1_len && t2_len == l1_len && p0_len == l1_len && p1_len
            != l1_len ==> (r matches Err(e) && e@ == length_error("P1"@, timestamp@)),
        r is Ok <==> (t0_len == l1_len && t1_len == l1_len && t2_len == l1_len && p0_len == l1_len
            && p1_len == l1_len),
{
    if t0_len != l1_len {
        return Err(length_message("T0", timestamp));
    }
    if t1_len != l1_len {
        return Err(length_message("T1", timestamp));
    }
    if t2_len != l1_len {
        return Err(length_message("T2", timestamp));
    }
    if p0_len != l1_len {
        return Err(length_message("P0", timestamp));
    }
    if p1_len != l1_len {
        return Err(length_message("P1", timestamp));
    }
    Ok(())
}

} // verus!
