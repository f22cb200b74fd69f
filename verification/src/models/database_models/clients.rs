use vstd::prelude::*;

verus! {

/// A client row.
#[derive(Debug)]
pub struct Clients {
    pub id: Option<i32>,
    pub client_name: String,
    pub amount_minutes_check_offline: Option<i32>,
}

} // verus!
