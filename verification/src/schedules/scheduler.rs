use vstd::prelude::*;

use crate::text::optional_text;

use crate::models::database_models::clients::Clients;
use crate::models::database_models::units::Units;
use crate::models::decimal::{
    lemma_same_optional_number_reflexive, optional_decimal_eq, same_optional_number,
};
use crate::models::external_models::client::ClientInfo;
use crate::models::external_models::unit::UnitInfo;
use crate::schedules::upsert::{lookup_error, text_differs, UpsertStep};

verus! {

/// What to do with a client after looking it up by name.
pub enum ClientStep {
    /// The lookup failed; the message says why.
    Failed(String),
    /// The client is stored under `id`, with its own offline-check interval in minutes.
    Found { id: i32, amount_minutes_check_offline: Option<i32> },
    /// The client is not stored yet: insert this row.
    Insert(Clients),
}

/// Decides how the client `client_info` is found or stored, given what the lookup of the
/// stored client by name gave.
pub fn verify_insert_client(client_info: &ClientInfo, lookup: Result<Option<Clients>, String>) -> (r:
    ClientStep)
    requires
        lookup matches Ok(Some(c)) ==> c.id is Some,
    ensures
        match lookup {
            Err(e) => r matches ClientStep::Failed(m) && m@ == "Erro ao verificar cliente, "@
                + e@,
            Ok(Some(c)) => r == ClientStep::Found {
                id: c.id->0,
                amount_minutes_check_offline: c.amount_minutes_check_offline,
            },
            Ok(None) => r matches ClientStep::Insert(c) && {
                &&& c.id is None
                &&& c.client_name@ == client_info.client_name@
                &&& c.amount_minutes_check_offline is None
            },
        },
{
    let client = match lookup {
        Ok(res) => res,
        Err(err) => {
            return ClientStep::Failed(lookup_error("Erro ao verificar cliente, ", &err));
        },
    };
    match client {
        Some(res) => ClientStep::Found {
            id: match res.id {
                Some(id) => id,
                None => 0,
            },
            amount_minutes_check_offline: res.amount_minutes_check_offline,
        },
        None => ClientStep::Insert(
            Clients {
                id: None,
                client_name: client_info.client_name.clone(),
                amount_minutes_check_offline: None,
            },
        ),
    }
}


/// Whether two optional strings hold different texts.
pub fn optional_text_differs(a: &Option<String>, b: &Option<String>) -> (r: bool)
    ensures
        r == (optional_text(*a) != optional_text(*b)),
{
    match (a, b) {
        (Some(x), Some(y)) => !(*x == *y),
        (None, None) => false,
        _ => true,
    }
}

/// Whether the stored unit `stored` differs from what the API server says of it.
pub open spec fn unit_outdated(stored: Units, info: UnitInfo) -> bool {
    ||| stored.unit_name@ != info.unit_name@
    ||| optional_text(stored.city_name) != optional_text(info.city_name)
    ||| optional_text(stored.state_name) != optional_text(info.state_name)
    ||| !same_optional_number(stored.tarifa_kwh, info.tarifa_kwh)
    ||| !same_optional_number(stored.constructed_area, info.constructed_area)
    ||| !same_optional_number(stored.capacity_power, info.capacity_power)
}

/// Decides how the unit `unit_info` of the client `client_id` is kept up to date, given
/// what the lookup of the stored unit gave.
pub fn verify_insert_update_units(
    client_id: i32,
    unit_info: &UnitInfo,
    lookup: Result<Option<Units>, String>,
) -> (r: UpsertStep<Units>)
    requires
        lookup matches Ok(Some(u)) ==> u.id is Some,
    ensures
        match lookup {
            Err(e) => r matches UpsertStep::Failed(m) && m@ == "Erro ao verificar cliente, "@
                + e@,
            Ok(Some(u)) => r == UpsertStep::<Units>::Found {
                id: u.id->0,
                needs_update: unit_outdated(u, *unit_info),
            },
            Ok(None) => r matches UpsertStep::Insert(u) && {
                &&& u.id is None
                &&& u.client_id == client_id
                &&& u.unit_name@ == unit_info.unit_name@
                &&& u.reference_id == unit_info.unit_id
                &&& u.city_name == unit_info.city_name
                &&& u.state_name == unit_info.state_name
                &&& u.tarifa_kwh == unit_info.tarifa_kwh
                &&& u.constructed_area == unit_info.constructed_area
                &&& u.capacity_power == unit_info.capacity_power
            },
        },
        lookup matches Ok(Some(u)) && u.unit_name@ != unit_info.unit_name@ ==> (r matches UpsertStep::Found { needs_update, .. } && needs_update),
        lookup matches Ok(Some(u)) && optional_text(u.city_name) != optional_text(unit_info.city_name) ==> (r matches UpsertStep::Found { needs_update, .. } && needs_update),
        lookup matches Ok(Some(u)) && optional_text(u.state_name) != optional_text(unit_info.state_name) ==> (r matches UpsertStep::Found { needs_update, .. } && needs_update),
        lookup matches Ok(Some(u)) && !same_optional_number(u.tarifa_kwh, unit_info.tarifa_kwh) ==> (r matches UpsertStep::Found { needs_update, .. } && needs_update),
        lookup matches Ok(Some(u)) && !same_optional_number(u.constructed_area, unit_info.constructed_area) ==> (r matches UpsertStep::Found { needs_update, .. } && needs_update),
        lookup matches Ok(Some(u)) && !same_optional_number(u.capacity_power, unit_info.capacity_power) ==> (r matches UpsertStep::Found { needs_update, .. } && needs_update),
        lookup matches Ok(Some(u)) && u.unit_name@ == unit_info.unit_name@
            && optional_text(u.city_name) == optional_text(unit_info.city_name)
            && optional_text(u.state_name) == optional_text(unit_info.state_name)
            && same_optional_number(u.tarifa_kwh, unit_info.tarifa_kwh)
            && same_optional_number(u.constructed_area, unit_info.constructed_area)
            && same_optional_number(u.capacity_power, unit_info.capacity_power) ==> (r matches UpsertStep::Found { needs_update, .. } && !needs_update),
{
    let unit = match lookup {
        Ok(unit_data) => unit_data,
        Err(err) => {
            return UpsertStep::Failed(lookup_error("Erro ao verificar cliente, ", &err));
        },
    };
    if let Some(unit_data) = unit {
        let needs_update = text_differs(&unit_data.unit_name, unit_info.unit_name.as_str())
            || optional_text_differs(&unit_data.city_name, &unit_info.city_name)
            || optional_text_differs(&unit_data.state_name, &unit_info.state_name)
            || !optional_decimal_eq(&unit_data.tarifa_kwh, &unit_info.tarifa_kwh)
            || !optional_decimal_eq(&unit_data.constructed_area, &unit_info.constructed_area)
            || !optional_decimal_eq(&unit_data.capacity_power, &unit_info.capacity_power);
        UpsertStep::Found {
            id: match unit_data.id {
                Some(id) => id,
                None => 0,
            },
            needs_update,
        }
    } else {
        UpsertStep::Insert(
            Units {
                id: None,
                client_id,
                unit_name: unit_info.unit_name.clone(),
                reference_id: unit_info.unit_id,
                city_name: unit_info.city_name.clone(),
                state_name: unit_info.state_name.clone(),
                tarifa_kwh: unit_info.tarifa_kwh,
                constructed_area: unit_info.constructed_area,
                capacity_power: unit_info.capacity_power,
            },
        )
    }
}


/// A stored unit must be rewritten as soon as any one of its name, city, state, kWh tariff,
/// constructed area or capacity power differs from what the API server says (the numbers
/// compared by value, whatever their scales), and only then.
pub proof fn lemma_unit_change_detected(stored: Units, info: UnitInfo)
    ensures
        stored.unit_name@ != info.unit_name@ ==> unit_outdated(stored, info),
        optional_text(stored.city_name) != optional_text(info.city_name) ==> unit_outdated(stored, info),
        optional_text(stored.state_name) != optional_text(info.state_name) ==> unit_outdated(stored, info),
        !same_optional_number(stored.tarifa_kwh, info.tarifa_kwh) ==> unit_outdated(stored, info),
        !same_optional_number(stored.constructed_area, info.constructed_area) ==> unit_outdated(stored, info),
        !same_optional_number(stored.capacity_power, info.capacity_power) ==> unit_outdated(stored, info),
        stored.unit_name@ == info.unit_name@
            && optional_text(stored.city_name) == optional_text(info.city_name)
            && optional_text(stored.state_name) == optional_text(info.state_name)
            && same_optional_number(stored.tarifa_kwh, info.tarifa_kwh)
            && same_optional_number(stored.constructed_area, info.constructed_area)
            && same_optional_number(stored.capacity_power, info.capacity_power) ==> !unit_outdated(stored, info),
{
}

/// Once the unit row that [`verify_insert_update_units`] asks to insert is stored, checking
/// the same unit again finds it up to date.
pub proof fn lemma_inserted_unit_is_current(u: Units, info: UnitInfo)
    requires
        u.unit_name@ == info.unit_name@,
        u.city_name == info.city_name,
        u.state_name == info.state_name,
        u.tarifa_kwh == info.tarifa_kwh,
        u.constructed_area == info.constructed_area,
        u.capacity_power == info.capacity_power,
    ensures
        !unit_outdated(u, info),
{
    lemma_same_optional_number_reflexive(u.tarifa_kwh);
    lemma_same_optional_number_reflexive(u.constructed_area);
    lemma_same_optional_number_reflexive(u.capacity_power);
}

} // verus!
