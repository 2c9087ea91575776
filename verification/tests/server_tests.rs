use spoolbuddy::api::{found_or_not_found, internal_error, not_found, require_rows_affected};
use spoolbuddy::device::{
    server_message, DeviceCommand, DeviceEvent, DeviceStateInner, ServerMessage, UiEvent,
};
use spoolbuddy::spools::{build_list_query, ListQuery};

fn connected_with_tag() -> DeviceStateInner {
    let mut s = DeviceStateInner::default();
    s.connect();
    s.handle_device_message(DeviceEvent::TagDetected {
        tag_id: "04A1B2C3".to_string(),
        tag_type: "ntag215".to_string(),
    });
    s
}

#[test]
fn device_starts_disconnected() {
    let s = DeviceStateInner::default();
    assert!(!s.connected);
    assert!(s.last_weight.is_none());
    assert!(!s.weight_stable);
    assert!(s.current_tag_id.is_none());
    assert!(!s.has_command_channel);
    let status = s.device_status();
    assert!(!status.connected && status.last_weight.is_none() && status.current_tag_id.is_none());
}

#[test]
fn device_messages_update_state() {
    let mut s = DeviceStateInner::default();
    assert!(matches!(s.connect(), UiEvent::DeviceConnected));
    assert!(s.connected && s.has_command_channel);

    let ev = s.handle_device_message(DeviceEvent::Weight { grams: 1234.5f64.to_bits(), stable: true });
    assert!(matches!(ev, Some(UiEvent::Weight { grams, stable: true }) if f64::from_bits(grams) == 1234.5));
    assert_eq!(s.last_weight.map(f64::from_bits), Some(1234.5));
    assert!(s.weight_stable);

    let ev = s.handle_device_message(DeviceEvent::TagDetected {
        tag_id: "tag-1".to_string(),
        tag_type: "mifare".to_string(),
    });
    assert!(matches!(ev, Some(UiEvent::TagDetected { ref tag_id, ref tag_type }) if tag_id == "tag-1" && tag_type == "mifare"));
    assert_eq!(s.current_tag_id.as_deref(), Some("tag-1"));

    assert!(s.handle_device_message(DeviceEvent::Heartbeat { uptime: 42 }).is_none());
    assert_eq!(s.current_tag_id.as_deref(), Some("tag-1"));

    let ev = s.handle_device_message(DeviceEvent::CommandResult {
        request_id: "r1".to_string(),
        success: false,
        error: Some("write failed".to_string()),
    });
    assert!(matches!(ev, Some(UiEvent::CommandResult { ref request_id, success: false, error: Some(ref e) }) if request_id == "r1" && e == "write failed"));

    assert!(matches!(s.handle_device_message(DeviceEvent::TagRemoved), Some(UiEvent::TagRemoved)));
    assert!(s.current_tag_id.is_none());
    assert!(s.connected);
}

#[test]
fn disconnect_clears_tag_and_channel() {
    let mut s = connected_with_tag();
    s.handle_device_message(DeviceEvent::Weight { grams: 850.0f64.to_bits(), stable: false });
    assert!(matches!(s.disconnect(), UiEvent::DeviceDisconnected));
    assert!(!s.connected);
    assert!(!s.has_command_channel);
    assert!(s.current_tag_id.is_none());
    assert_eq!(s.last_weight.map(f64::from_bits), Some(850.0));
    let e = s.tare_scale().unwrap_err();
    assert_eq!((e.status, e.message.as_str()), (503, "Device not connected"));
}

#[test]
fn tare_requests() {
    let s = DeviceStateInner::default();
    let e = s.tare_scale().unwrap_err();
    assert_eq!(e.status, 503);
    assert_eq!(e.message, "Device not connected");
    let mut s = DeviceStateInner::default();
    s.connect();
    assert_eq!(s.tare_scale().unwrap(), true);
    s.has_command_channel = false;
    assert_eq!(s.tare_scale().unwrap(), false);
}

#[test]
fn write_tag_requests() {
    let s = DeviceStateInner::default();
    let e = s.write_tag_precheck().unwrap_err();
    assert_eq!((e.status, e.message.as_str()), (503, "Device not connected"));

    let mut s = DeviceStateInner::default();
    s.connect();
    let e = s.write_tag_precheck().unwrap_err();
    assert_eq!((e.status, e.message.as_str()), (400, "No tag present"));

    let s = connected_with_tag();
    assert!(s.write_tag_precheck().is_ok());
    assert_eq!(s.write_tag_after_lookup(Ok(true)).unwrap(), true);
    let e = s.write_tag_after_lookup(Ok(false)).unwrap_err();
    assert_eq!((e.status, e.message.as_str()), (404, "Spool not found"));
    let e = s.write_tag_after_lookup(Err("database is locked".to_string())).unwrap_err();
    assert_eq!((e.status, e.message.as_str()), (500, "database is locked"));
}

#[test]
fn api_errors() {
    let e = not_found("Spool", "abc-123");
    assert_eq!((e.status, e.message.as_str()), (404, "Spool abc-123 not found"));
    let e = not_found("Printer", "01S00A");
    assert_eq!(e.message, "Printer 01S00A not found");
    let e = internal_error("boom".to_string());
    assert_eq!((e.status, e.message.as_str()), (500, "boom"));
    assert_eq!(found_or_not_found(Some(5), "Spool", "x").unwrap(), 5);
    let e = found_or_not_found::<u8>(None, "Spool", "x").unwrap_err();
    assert_eq!((e.status, e.message.as_str()), (404, "Spool x not found"));
    assert!(require_rows_affected(1, "Spool", "y").is_ok());
    let e = require_rows_affected(0, "Spool", "y").unwrap_err();
    assert_eq!((e.status, e.message.as_str()), (404, "Spool y not found"));
}

#[test]
fn list_query_without_filters() {
    let (sql, bindings) = build_list_query(&ListQuery { material: None, brand: None, search: None });
    assert_eq!(sql, "SELECT * FROM spools WHERE 1=1 ORDER BY updated_at DESC");
    assert!(bindings.is_empty());
}

#[test]
fn list_query_with_all_filters() {
    let q = ListQuery {
        material: Some("PLA".to_string()),
        brand: Some("Bambu Lab".to_string()),
        search: Some("blue".to_string()),
    };
    let (sql, bindings) = build_list_query(&q);
    assert_eq!(
        sql,
        "SELECT * FROM spools WHERE 1=1 AND material = ? AND brand = ? AND (color_name LIKE ? OR brand LIKE ? OR material LIKE ?) ORDER BY updated_at DESC"
    );
    assert_eq!(bindings, vec!["PLA", "Bambu Lab", "%blue%", "%blue%", "%blue%"]);
    assert_eq!(sql.matches('?').count(), bindings.len());
}

#[test]
fn list_query_placeholders_match_bindings() {
    for mask in 0..8u8 {
        let q = ListQuery {
            material: (mask & 1 != 0).then(|| "PETG?".to_string()),
            brand: (mask & 2 != 0).then(|| "Poly?".to_string()),
            search: (mask & 4 != 0).then(|| "?".to_string()),
        };
        let (sql, bindings) = build_list_query(&q);
        assert_eq!(sql.matches('?').count(), bindings.len());
    }
    let (sql, bindings) =
        build_list_query(&ListQuery { material: None, brand: Some("X".to_string()), search: None });
    assert_eq!(sql, "SELECT * FROM spools WHERE 1=1 AND brand = ? ORDER BY updated_at DESC");
    assert_eq!(bindings, vec!["X"]);
}

#[test]
fn commands_become_device_messages() {
    assert!(matches!(server_message::<()>(DeviceCommand::TareScale), ServerMessage::TareScale));
    let w = 500.0f64.to_bits();
    assert!(matches!(
        server_message::<()>(DeviceCommand::CalibrateScale { known_weight: w }),
        ServerMessage::CalibrateScale { known_weight } if known_weight == w
    ));
    let first = server_message(DeviceCommand::WriteTag { spool: "spool-7" });
    let second = server_message(DeviceCommand::WriteTag { spool: "spool-7" });
    let (ServerMessage::WriteTag { request_id: a, data }, ServerMessage::WriteTag { request_id: b, .. }) =
        (first, second)
    else {
        panic!("write-tag command must become a write-tag message");
    };
    assert_eq!(data, "spool-7");
    assert_ne!(a, b);
    for id in [&a, &b] {
        assert_eq!(id.len(), 36);
        let chars: Vec<char> = id.chars().collect();
        for (i, c) in chars.iter().enumerate() {
            if [8, 13, 18, 23].contains(&i) {
                assert_eq!(*c, '-');
            } else {
                assert!(c.is_ascii_hexdigit() && !c.is_ascii_uppercase());
            }
        }
        assert_eq!(chars[14], '4');
        assert!(['8', '9', 'a', 'b'].contains(&chars[19]));
        assert_eq!(uuid::Uuid::parse_str(id).unwrap().get_version_num(), 4);
    }
}
