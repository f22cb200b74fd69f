use telemetry_scheduler::telemetry_payloads::dal_payload_json::get_raw_telemetry_pack_dal;
use telemetry_scheduler::telemetry_payloads::dmt_payload_json::get_raw_telemetry_pack_dmt;
use telemetry_scheduler::telemetry_payloads::json_value::JsonValue;
use telemetry_scheduler::telemetry_payloads::parse_json_props::{
    get_bool_array_prop, get_bool_prop, get_int_number_array_prop, get_int_number_array_prop_checked,
    get_int_number_prop, get_string_array_prop, get_string_prop,
};

fn s(x: &str) -> JsonValue {
    JsonValue::String(x.to_string())
}

fn obj(members: Vec<(&str, JsonValue)>) -> JsonValue {
    JsonValue::Object(members.into_iter().map(|(k, v)| (k.to_string(), v)).collect())
}

#[test]
fn scalar_props() {
    assert_eq!(get_bool_prop(&Some(&JsonValue::Bool(true))), Ok(true));
    assert_eq!(get_bool_prop(&None), Err("Attribute is empty".to_string()));
    assert_eq!(get_bool_prop(&Some(&JsonValue::Int(1))), Err("Could not find valid attribute value".to_string()));
    assert_eq!(get_string_prop(&Some(&s("abc"))), Ok("abc".to_string()));
    assert_eq!(get_string_prop(&Some(&JsonValue::Null)), Err("Could not find valid attribute value".to_string()));
    assert_eq!(get_int_number_prop(&Some(&JsonValue::Int(-7))), Ok(-7));
    assert_eq!(get_int_number_prop(&Some(&JsonValue::OtherNumber)), Err("Could not find valid attribute value".to_string()));
    assert_eq!(get_int_number_prop(&None), Err("Attribute is empty".to_string()));
}

#[test]
fn string_array_prop_skips_non_strings_and_wraps_lone_string() {
    let arr = JsonValue::Array(vec![s("a"), JsonValue::Int(3), s("b")]);
    assert_eq!(get_string_array_prop(&Some(&arr)), Ok(vec!["a".to_string(), "b".to_string()]));
    assert_eq!(get_string_array_prop(&Some(&s("solo"))), Ok(vec!["solo".to_string()]));
    assert_eq!(get_string_array_prop(&Some(&JsonValue::Bool(true))), Err("Could not find valid attribute value".to_string()));
    assert_eq!(get_string_array_prop(&None), Err("Could not find valid attribute value".to_string()));
}

#[test]
fn bool_array_prop_reads_zero_and_one() {
    let arr = JsonValue::Array(vec![JsonValue::Bool(false), JsonValue::Int(1), JsonValue::Int(0), JsonValue::Int(2), s("x")]);
    assert_eq!(get_bool_array_prop(&Some(&arr)), Ok(vec![Some(false), Some(true), Some(false), None, None]));
    assert_eq!(get_bool_array_prop(&Some(&s("[1]"))), Err("Could not find valid attribute value".to_string()));
}

#[test]
fn int_array_prop_from_array_or_json_text() {
    let arr = JsonValue::Array(vec![JsonValue::Int(5), JsonValue::Null, JsonValue::Int(-3)]);
    assert_eq!(get_int_number_array_prop(&arr), Ok(vec![Some(5), None, Some(-3)]));
    assert_eq!(get_int_number_array_prop(&s("[1, 2.5, null, 300]")), Ok(vec![Some(1), None, None, Some(300)]));
    assert_eq!(get_int_number_array_prop(&s("{\"a\": 1}")), Err("Could not find valid attribute value".to_string()));
    let err = get_int_number_array_prop(&s("[1,")).unwrap_err();
    assert!(err.starts_with("EROR40 "));
    assert_eq!(get_int_number_array_prop(&JsonValue::Int(1)), Err("Could not find valid attribute value".to_string()));
}

#[test]
fn int_array_prop_checked_refuses_values_beyond_i16() {
    assert_eq!(get_int_number_array_prop_checked(&JsonValue::Array(vec![JsonValue::Int(40000)])), None);
    assert_eq!(get_int_number_array_prop_checked(&s("[-40000]")), None);
    assert_eq!(get_int_number_array_prop_checked(&s("[32767]")), Some(Ok(vec![Some(32767)])));
}

fn dal_item(with_gmt: bool) -> JsonValue {
    let mut members = vec![
        ("timestamp", s("2024-01-01T00:00:00")),
        ("dev_id", s("DAL1")),
        ("State", s("Enabled")),
        ("Mode", s("AUTO")),
        ("Relays", JsonValue::Array(vec![JsonValue::Int(1), JsonValue::Int(0)])),
        ("Feedback", JsonValue::Array(vec![JsonValue::Bool(true)])),
    ];
    if with_gmt {
        members.push(("gmt", s("-2")));
    }
    obj(members)
}

#[test]
fn raw_dal_pack_from_json() {
    let p = get_raw_telemetry_pack_dal(&dal_item(true)).unwrap();
    assert_eq!(p.timestamp, "2024-01-01T00:00:00");
    assert_eq!(p.Mode, vec!["AUTO".to_string()]);
    assert_eq!(p.Relays, vec![Some(true), Some(false)]);
    assert_eq!(p.Feedback, vec![Some(true)]);
    assert_eq!(p.gmt, Some("-2".to_string()));
    let p = get_raw_telemetry_pack_dal(&dal_item(false)).unwrap();
    assert_eq!(p.gmt, Some("-3".to_string()));
}

#[test]
fn raw_dal_pack_reports_first_missing_property() {
    let item = obj(vec![("dev_id", s("DAL1"))]);
    assert_eq!(get_raw_telemetry_pack_dal(&item).err(), Some("Attribute is empty".to_string()));
    let item = obj(vec![("timestamp", s("t")), ("dev_id", s("d")), ("State", s("s")), ("Mode", s("m"))]);
    assert_eq!(get_raw_telemetry_pack_dal(&item).err(), Some("Could not find valid attribute value".to_string()));
}

#[test]
fn raw_dmt_pack_defaults_sampling_time() {
    let item = obj(vec![
        ("timestamp", s("2024-01-01T00:00:00")),
        ("dev_id", s("DMT1")),
        ("Feedback", JsonValue::Array(vec![JsonValue::Int(1)])),
    ]);
    let p = get_raw_telemetry_pack_dmt(&item).unwrap();
    assert_eq!(p.samplingTime, 1);
    assert_eq!(p.Feedback, vec![Some(true)]);
    let item = obj(vec![
        ("timestamp", s("2024-01-01T00:00:00")),
        ("dev_id", s("DMT1")),
        ("samplingTime", JsonValue::Int(5)),
        ("Feedback", JsonValue::Array(vec![])),
    ]);
    assert_eq!(get_raw_telemetry_pack_dmt(&item).unwrap().samplingTime, 5);
    let item = obj(vec![("timestamp", s("x")), ("dev_id", JsonValue::Int(2))]);
    assert_eq!(get_raw_telemetry_pack_dmt(&item).err(), Some("Could not find valid attribute value".to_string()));
}

#[test]
fn object_member_lookup() {
    let o = obj(vec![("a", JsonValue::Int(1)), ("b", JsonValue::Int(2))]);
    assert!(matches!(o.get("b"), Some(JsonValue::Int(2))));
    assert!(o.get("c").is_none());
    assert!(JsonValue::Int(1).get("a").is_none());
}
