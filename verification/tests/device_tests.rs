use corsair_void::battery::BatteryActionStatus;
use corsair_void::device::CorsairVoidDevice;
use corsair_void::device::CorsairVoidInfo;
use corsair_void::device::DeviceAttributes;
use corsair_void::device::DeviceEntry;

fn attrs(
    receiver: Option<&str>,
    headset: Option<&str>,
    sidetone_max: Option<&str>,
    microphone: Option<&str>,
    battery_status: Option<&str>,
    battery_capacity: Option<&str>,
) -> DeviceAttributes {
    DeviceAttributes {
        fw_version_receiver: receiver.map(str::to_string),
        fw_version_headset: headset.map(str::to_string),
        sidetone_max: sidetone_max.map(str::to_string),
        microphone_up: microphone.map(str::to_string),
        battery_status: battery_status.map(str::to_string),
        battery_capacity: battery_capacity.map(str::to_string),
    }
}

fn full_attrs() -> DeviceAttributes {
    attrs(Some("1.2"), Some("0.9"), Some("80"), Some("1"), Some("Charging"), Some("55"))
}

#[test]
fn build_full_snapshot() {
    let device = CorsairVoidDevice::from_device_path(Some("dev1".to_string()), full_attrs())
        .expect("device should build");
    assert_eq!(device.id, "dev1");
    assert_eq!(device.fw_version_receiver, "1.2");
    assert_eq!(device.fw_version_headset.as_deref(), Some("0.9"));
    assert_eq!(device.max_sidetone, 80);
    assert_eq!(device.microphone_up, Some(true));
    let battery = device.battery_status.expect("battery should be present");
    assert_eq!(battery.status(), BatteryActionStatus::Charging);
    assert_eq!(battery.level(), 55);
}

#[test]
fn build_fails_without_id() {
    assert!(CorsairVoidDevice::from_device_path(None, full_attrs()).is_none());
}

#[test]
fn build_fails_without_receiver_firmware() {
    let a = attrs(None, Some("0.9"), Some("80"), Some("1"), Some("Charging"), Some("55"));
    assert!(CorsairVoidDevice::from_device_path(Some("dev1".to_string()), a).is_none());
}

#[test]
fn build_fails_without_usable_sidetone_max() {
    let missing = attrs(Some("1.2"), None, None, None, None, None);
    assert!(CorsairVoidDevice::from_device_path(Some("dev1".to_string()), missing).is_none());
    let unparsable = attrs(Some("1.2"), None, Some("lots"), None, None, None);
    assert!(CorsairVoidDevice::from_device_path(Some("dev1".to_string()), unparsable).is_none());
    let too_large = attrs(Some("1.2"), None, Some("300"), None, None, None);
    assert!(CorsairVoidDevice::from_device_path(Some("dev1".to_string()), too_large).is_none());
}

#[test]
fn microphone_text_mapping() {
    let cases = [
        (Some("1"), Some(true)),
        (Some("0"), Some(false)),
        (Some("2"), Some(false)),
        (Some("abc"), Some(false)),
        (Some(""), None),
        (None, None),
    ];
    for (text, expected) in cases {
        let a = attrs(Some("1.2"), None, Some("80"), text, None, None);
        let device = CorsairVoidDevice::from_device_path(Some("dev1".to_string()), a).unwrap();
        assert_eq!(device.microphone_up, expected, "microphone text {:?}", text);
    }
}

#[test]
fn headset_firmware_empty_and_missing_agree() {
    let with_empty = attrs(Some("1.2"), Some(""), Some("80"), Some("1"), Some("Charging"), Some("55"));
    let with_missing = attrs(Some("1.2"), None, Some("80"), Some("1"), Some("Charging"), Some("55"));
    let a = CorsairVoidDevice::from_device_path(Some("dev1".to_string()), with_empty).unwrap();
    let b = CorsairVoidDevice::from_device_path(Some("dev1".to_string()), with_missing).unwrap();
    assert_eq!(a.fw_version_headset, None);
    assert_eq!(b.fw_version_headset, None);
    assert_eq!(a.id, b.id);
    assert_eq!(a.fw_version_receiver, b.fw_version_receiver);
    assert_eq!(a.max_sidetone, b.max_sidetone);
    assert_eq!(a.microphone_up, b.microphone_up);
    assert_eq!(a.battery_status, b.battery_status);
    assert_eq!(a.render(), b.render());
}

#[test]
fn half_known_battery_is_absent() {
    let status_only = attrs(Some("1.2"), None, Some("80"), None, Some("Charging"), None);
    let device = CorsairVoidDevice::from_device_path(Some("dev1".to_string()), status_only).unwrap();
    assert!(device.battery_status.is_none());
    let capacity_only = attrs(Some("1.2"), None, Some("80"), None, None, Some("55"));
    let device = CorsairVoidDevice::from_device_path(Some("dev1".to_string()), capacity_only).unwrap();
    assert!(device.battery_status.is_none());
}

#[test]
fn render_reports_every_field() {
    let device =
        CorsairVoidDevice::from_device_path(Some("dev1".to_string()), full_attrs()).unwrap();
    let report = device.render();
    assert_eq!(
        report,
        "Corsair Void device ID: dev1\n\
         \tMax sidetone: 80\n\
         \tReceiver firmware version: 1.2\n\
         \tHeadset firmware version: 0.9\n\
         \tMicrophone is up\n\
         \tBattery Charging\n\
         \tBattery level: 55%\n"
    );
}

#[test]
fn render_words_absent_fields() {
    let a = attrs(Some("1.2"), None, Some("80"), None, None, None);
    let device = CorsairVoidDevice::from_device_path(Some("dev1".to_string()), a).unwrap();
    let report = device.render();
    assert!(report.contains("\tHeadset firmware version: Disconnected\n"));
    assert!(report.contains("\tMicrophone is Disconnected\n"));
    assert!(report.contains("\tBattery Unknown\n"));
    assert!(report.contains("\tBattery level: Disconnected\n"));
}

#[test]
fn enumeration_builds_one_device_from_full_directory() {
    let entries = vec![DeviceEntry { id: Some("dev1".to_string()), attributes: full_attrs() }];
    let info = CorsairVoidInfo::get_available_devices(entries);
    assert_eq!(info.devices.len(), 1);
    let report = info.devices[0].render();
    assert!(report.contains("Receiver firmware version: 1.2"));
    assert!(report.contains("Microphone is up"));
    assert!(report.contains("Battery Charging"));
    assert!(report.contains("Battery level: 55%"));
}

#[test]
fn enumeration_drops_directory_without_receiver_firmware() {
    let a = attrs(None, Some("0.9"), Some("80"), Some("1"), Some("Charging"), Some("55"));
    let entries = vec![DeviceEntry { id: Some("dev1".to_string()), attributes: a }];
    let info = CorsairVoidInfo::get_available_devices(entries);
    assert_eq!(info.devices.len(), 0);
}

#[test]
fn enumeration_of_empty_directory_is_empty() {
    let info = CorsairVoidInfo::get_available_devices(Vec::new());
    assert_eq!(info.devices.len(), 0);
}

#[test]
fn enumeration_keeps_listing_order_and_skips_bad_entries() {
    let entries = vec![
        DeviceEntry { id: Some("dev1".to_string()), attributes: full_attrs() },
        DeviceEntry {
            id: Some("bad".to_string()),
            attributes: attrs(None, None, Some("80"), None, None, None),
        },
        DeviceEntry {
            id: Some("dev2".to_string()),
            attributes: attrs(Some("2.0"), None, Some("64"), None, None, None),
        },
    ];
    let info = CorsairVoidInfo::get_available_devices(entries);
    assert_eq!(info.devices.len(), 2);
    assert_eq!(info.devices[0].id, "dev1");
    assert_eq!(info.devices[1].id, "dev2");
}
