use vstd::prelude::*;

verus! {

/// An electric circuit row.
#[derive(Debug)]
pub struct ElectricCircuit {
    pub id: Option<i32>,
    pub name: String,
    pub reference_id: i32,
    pub unit_id: i32,
}

} // verus!
