use vstd::prelude::*;

verus! {

/// A machine row.
#[derive(Debug)]
pub struct Machines {
    pub id: Option<i32>,
    pub machine_name: String,
    pub reference_id: i32,
    pub unit_id: i32,
    pub device_code_autom: Option<String>,
}

} // verus!
