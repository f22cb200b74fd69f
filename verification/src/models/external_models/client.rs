use vstd::prelude::*;

verus! {

/// A client as the API server lists it.
#[derive(Debug, Clone)]
pub struct ClientInfo {
    pub client_id: i32,
    pub client_name: String,
}

/// The API server's list of clients.
#[derive(Debug)]
pub struct ClientListData {
    pub list: Vec<ClientInfo>,
}

} // verus!
