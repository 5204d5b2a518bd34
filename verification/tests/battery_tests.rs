use corsair_void::battery::render_level;
use corsair_void::battery::render_state;
use corsair_void::battery::BatteryActionStatus;
use corsair_void::battery::BatteryStatus;

#[test]
fn charge_state_labels_round_trip() {
    let states = [
        BatteryActionStatus::Charging,
        BatteryActionStatus::Discharging,
        BatteryActionStatus::Full,
        BatteryActionStatus::Empty,
    ];
    for state in states {
        let label = state.label();
        let parsed = BatteryActionStatus::parse(Some(label.clone()));
        assert_eq!(parsed, Some(state));
        let expected = match state {
            BatteryActionStatus::Charging => "Charging",
            BatteryActionStatus::Discharging => "Discharging",
            BatteryActionStatus::Full => "Full",
            BatteryActionStatus::Empty => "Empty",
        };
        assert_eq!(label, expected);
    }
}

#[test]
fn charge_state_parse_rejects_other_text() {
    assert_eq!(BatteryActionStatus::parse(None), None);
    assert_eq!(BatteryActionStatus::parse(Some(String::new())), None);
    assert_eq!(BatteryActionStatus::parse(Some("charging".to_string())), None);
    assert_eq!(BatteryActionStatus::parse(Some("FULL".to_string())), None);
    assert_eq!(BatteryActionStatus::parse(Some("Charging ".to_string())), None);
}

#[test]
fn battery_status_needs_both_inputs() {
    assert_eq!(BatteryStatus::parse(None, None), None);
    assert_eq!(BatteryStatus::parse(None, Some(40)), None);
    assert_eq!(BatteryStatus::parse(Some("Charging".to_string()), None), None);
    assert_eq!(BatteryStatus::parse(Some("Sleeping".to_string()), Some(40)), None);
    assert_eq!(BatteryStatus::parse(Some(String::new()), Some(40)), None);
}

#[test]
fn battery_status_keeps_both_fields() {
    let status = BatteryStatus::parse(Some("Discharging".to_string()), Some(73)).unwrap();
    assert_eq!(status.status(), BatteryActionStatus::Discharging);
    assert_eq!(status.level(), 73);
}

#[test]
fn battery_rendering_present_and_absent() {
    let status = BatteryStatus::parse(Some("Full".to_string()), Some(100));
    assert_eq!(render_state(&status), "Full");
    assert_eq!(render_level(&status), "100%");
    assert_eq!(render_state(&None), "Unknown");
    assert_eq!(render_level(&None), "Disconnected");
}
