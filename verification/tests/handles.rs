use safe_monitor::{EnumerationError, Field, FieldReadings, SafeMonitor};

fn complete_readings(id: u32, width: u32, height: u32, name: &str, is_primary: bool) -> FieldReadings {
    FieldReadings {
        id: Ok(id),
        width: Ok(width),
        height: Ok(height),
        name: Ok(name.to_string()),
        is_primary: Ok(is_primary),
    }
}

#[test]
fn new_complete_readings_builds_handle() {
    let readings = complete_readings(7, 1920, 1080, "Main Display", true);
    let m = SafeMonitor::new(&readings).unwrap();
    assert_eq!(m.id(), 7);
    assert_eq!(m.dimensions(), (1920, 1080));
    assert_eq!(m.width(), 1920);
    assert_eq!(m.height(), 1080);
    assert_eq!(m.name(), "Main Display");
    assert!(m.is_primary());
    let info = m.get_info();
    assert_eq!(info.width, 1920);
    assert_eq!(info.height, 1080);
    assert_eq!(info.name, "Main Display");
    assert!(info.is_primary);
}

#[test]
fn new_fails_on_id_error() {
    let readings = FieldReadings {
        id: Err("no identity".to_string()),
        width: Ok(1920),
        height: Ok(1080),
        name: Ok("a".to_string()),
        is_primary: Ok(false),
    };
    match SafeMonitor::new(&readings) {
        Err(EnumerationError::FieldQuery { identity, field, message }) => {
            assert_eq!(identity, None);
            assert_eq!(field, Field::Id);
            assert_eq!(message, "no identity");
        },
        other => panic!("expected an identity field failure, got {:?}", other),
    }
}

#[test]
fn new_fails_on_width_error() {
    let readings = FieldReadings {
        id: Ok(9),
        width: Err("width query failed".to_string()),
        height: Ok(1080),
        name: Ok("a".to_string()),
        is_primary: Ok(false),
    };
    match SafeMonitor::new(&readings) {
        Err(EnumerationError::FieldQuery { identity, field, message }) => {
            assert_eq!(identity, Some(9));
            assert_eq!(field, Field::Width);
            assert_eq!(message, "width query failed");
        },
        other => panic!("expected a width field failure, got {:?}", other),
    }
}

#[test]
fn new_reports_first_failed_field_in_query_order() {
    let readings = FieldReadings {
        id: Ok(3),
        width: Ok(800),
        height: Err("height gone".to_string()),
        name: Err("name gone".to_string()),
        is_primary: Err("flag gone".to_string()),
    };
    match SafeMonitor::new(&readings) {
        Err(EnumerationError::FieldQuery { identity, field, message }) => {
            assert_eq!(identity, Some(3));
            assert_eq!(field, Field::Height);
            assert_eq!(message, "height gone");
        },
        other => panic!("expected a height field failure, got {:?}", other),
    }
}

#[test]
fn new_fails_on_name_error() {
    let readings = FieldReadings {
        id: Ok(4),
        width: Ok(800),
        height: Ok(600),
        name: Err("unreadable".to_string()),
        is_primary: Ok(true),
    };
    match SafeMonitor::new(&readings) {
        Err(EnumerationError::FieldQuery { identity, field, message }) => {
            assert_eq!(identity, Some(4));
            assert_eq!(field, Field::Name);
            assert_eq!(message, "unreadable");
        },
        other => panic!("expected a name field failure, got {:?}", other),
    }
}

#[test]
fn new_fails_on_is_primary_error() {
    let readings = FieldReadings {
        id: Ok(5),
        width: Ok(800),
        height: Ok(600),
        name: Ok("b".to_string()),
        is_primary: Err("flag unavailable".to_string()),
    };
    match SafeMonitor::new(&readings) {
        Err(EnumerationError::FieldQuery { identity, field, message }) => {
            assert_eq!(identity, Some(5));
            assert_eq!(field, Field::IsPrimary);
            assert_eq!(message, "flag unavailable");
        },
        other => panic!("expected a primary-flag field failure, got {:?}", other),
    }
}

#[test]
fn clone_observes_identical_values() {
    let readings = complete_readings(11, 2560, 1440, "Side", false);
    let m = SafeMonitor::new(&readings).unwrap();
    let c = m.clone();
    assert_eq!(c.id(), m.id());
    assert_eq!(c.dimensions(), m.dimensions());
    assert_eq!(c.name(), m.name());
    assert_eq!(c.width(), m.width());
    assert_eq!(c.height(), m.height());
    assert_eq!(c.is_primary(), m.is_primary());
    let a = m.get_info();
    let b = c.get_info();
    assert_eq!(a.width, b.width);
    assert_eq!(a.height, b.height);
    assert_eq!(a.name, b.name);
    assert_eq!(a.is_primary, b.is_primary);
}

#[test]
fn dimensions_equal_recorded_snapshot() {
    let readings = complete_readings(2, 640, 480, "c", false);
    let m = SafeMonitor::new(&readings).unwrap();
    let info = m.get_info();
    assert_eq!(m.dimensions(), (info.width, info.height));
}
