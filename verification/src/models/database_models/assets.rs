use vstd::prelude::*;

verus! {

/// An asset row: a device attached to a machine of a unit.
#[derive(Debug)]
pub struct Assets {
    pub id: Option<i32>,
    pub asset_name: String,
    pub device_code: String,
    pub machine_reference_id: i32,
    pub reference_id: i32,
    pub unit_id: i32,
}

} // verus!
