use telemetry_scheduler::telemetry_payloads::dal_telemetry;
use telemetry_scheduler::telemetry_payloads::dmt_telemety;
use telemetry_scheduler::telemetry_payloads::dri_telemetry::{split_pack_ccn, split_pack_ccn_checked, DriCCNTelemetry, TelemetryDri};
use telemetry_scheduler::telemetry_payloads::pack_time::{locate_pack, locate_pack_checked};
use telemetry_scheduler::telemetry_payloads::telemetry_formats::{TelemetryPackDAL, TelemetryPackDMT};

// 2024-01-01T00:00:00 UTC
const DAY: i64 = 1704067200;

fn dal(ts: &str, relays: usize, feedback: usize) -> TelemetryPackDAL {
    TelemetryPackDAL {
        timestamp: ts.to_string(),
        dev_id: "DAL1".to_string(),
        State: "Enabled".to_string(),
        Mode: vec!["AUTO".to_string()],
        Feedback: vec![Some(true); feedback],
        Relays: vec![Some(false); relays],
        gmt: Some("-3".to_string()),
    }
}

#[test]
fn locate_pack_reads_the_timestamp() {
    assert_eq!(locate_pack("2024-01-01T00:00:10", DAY, DAY + 86400), Ok(Some(10)));
    assert_eq!(locate_pack("2024-01-02T00:00:00", DAY, DAY + 86400), Ok(None));
    assert_eq!(locate_pack("2024-01-01 00:00:10", DAY, DAY + 86400), Err("Error parsing Date".to_string()));
    assert_eq!(locate_pack_checked("2024-01-01T01:00:00", DAY, DAY + 86400), Some(Ok(Some(3600))));
}

#[test]
fn dal_pack_in_window_keeps_long_lists() {
    let p = dal("2024-01-01T00:01:00", 4, 5);
    let (t, off) = dal_telemetry::split_pack(&p, DAY, DAY + 86400).unwrap().unwrap();
    assert_eq!(off, 60);
    assert_eq!(t.Relays, vec![Some(false); 4]);
    assert_eq!(t.Feedback, vec![Some(true); 5]);
    assert_eq!(t.dev_id, "DAL1");
    assert_eq!(t.Mode, vec!["AUTO".to_string()]);
    assert_eq!(t.gmt, Some("-3".to_string()));
}

#[test]
fn dal_pack_drops_short_lists() {
    let p = dal("2024-01-01T00:01:00", 3, 2);
    let (t, _) = dal_telemetry::split_pack(&p, DAY, DAY + 86400).unwrap().unwrap();
    assert!(t.Relays.is_empty());
    assert!(t.Feedback.is_empty());
}

#[test]
fn dal_pack_outside_window_or_unreadable() {
    let p = dal("2023-12-31T23:59:59", 4, 4);
    assert!(dal_telemetry::split_pack(&p, DAY, DAY + 86400).unwrap().is_none());
    let p = dal("not a date", 4, 4);
    assert_eq!(dal_telemetry::split_pack(&p, DAY, DAY + 86400).err(), Some("Error parsing Date".to_string()));
    assert!(dal_telemetry::split_pack_checked(&p, DAY, DAY + 86400).unwrap().is_err());
}

#[test]
fn dmt_pack_reports_first_feedback() {
    let p = TelemetryPackDMT {
        timestamp: "2024-01-01T00:00:05".to_string(),
        dev_id: "DMT1".to_string(),
        samplingTime: 1,
        Feedback: vec![Some(false), Some(true), None, Some(true)],
    };
    let (t, off) = dmt_telemety::split_pack(&p, DAY, DAY + 10).unwrap().unwrap();
    assert_eq!(off, 5);
    assert_eq!(t.F1, Some(false));
    let short = TelemetryPackDMT { Feedback: vec![Some(true)], ..p };
    let (t, _) = dmt_telemety::split_pack_checked(&short, DAY, DAY + 10).unwrap().unwrap().unwrap();
    assert_eq!(t.F1, None);
}

fn dri(dev_type: &str, values: Option<Vec<Option<i16>>>) -> TelemetryDri {
    TelemetryDri {
        dev_id: "DRI1".to_string(),
        timestamp: "2024-01-01T00:00:30".to_string(),
        dev_type: dev_type.to_string(),
        values,
        therm_on: None,
        fanspeed: None,
        mode: None,
        setpoint: None,
        lock: None,
        temp_amb: None,
        valve_on: None,
        fan_status: None,
        formulas: None,
    }
}

#[test]
fn ccn_reading_maps_minus_one_to_none() {
    let t = DriCCNTelemetry::try_from(dri("CCN", Some(vec![Some(22), Some(-1), Some(3)]))).unwrap();
    assert_eq!(t.Setpoint, Some(22));
    assert_eq!(t.Status, None);
    assert_eq!(t.Mode, Some(3));
    assert_eq!(t.timestamp, "2024-01-01T00:00:30");
    let t = DriCCNTelemetry::try_from(dri("CCN", Some(vec![None, Some(1), Some(-1), Some(9)]))).unwrap();
    assert_eq!((t.Setpoint, t.Status, t.Mode), (None, Some(1), None));
}

#[test]
fn ccn_reading_errors() {
    assert_eq!(
        DriCCNTelemetry::try_from(dri("VAV", Some(vec![Some(1), Some(2), Some(3)]))).err(),
        Some("The dev type and telemetry type does not match".to_string())
    );
    assert_eq!(
        DriCCNTelemetry::try_from(dri("CCN", None)).err(),
        Some("Telemetry does not have \"values\" field".to_string())
    );
}

#[test]
fn ccn_split_places_reading() {
    let t = DriCCNTelemetry::try_from(dri("CCN", Some(vec![Some(1), Some(2), Some(3)]))).unwrap();
    assert_eq!(split_pack_ccn(&t, DAY, DAY + 60), Ok(Some(30)));
    assert_eq!(split_pack_ccn(&t, DAY, DAY + 30), Ok(None));
    assert_eq!(split_pack_ccn_checked(&t, DAY + 31, DAY + 60), Some(Ok(None)));
}
