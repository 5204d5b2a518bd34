//! Command planning: turning a requested operation and the discovered device
//! list into the exact attribute writes to perform, with the range checks the
//! firmware demands done before anything is touched.

use crate::battery::label_of;
use crate::battery::BatteryStatus;
use crate::device::device_views;
use crate::device::CorsairVoidDevice;
use crate::device::DeviceRecordView;
use crate::text::dec_of;
use crate::text::u8_to_string;
use vstd::prelude::*;

verus! {

/// One pending write of a decimal value to an attribute file of one device.
/// Which attribute is written is fixed by the command that planned it.
pub struct WriteAction {
    pub device_id: String,
    pub value: u8,
}

/// The planned writes mirror the device list: one action per device, in
/// order, carrying that device's identifier and the requested value.
pub open spec fn actions_match(
    actions: Seq<WriteAction>,
    devices: Seq<DeviceRecordView>,
    value: u8,
) -> bool {
    &&& actions.len() == devices.len()
    &&& forall|i: int|
        0 <= i < devices.len() ==> (#[trigger] actions[i]).device_id@ == devices[i].id
            && actions[i].value == value
}

/// Plans the alert command: the firmware only recognises the two alert codes
/// zero and one, so any other value is rejected before any device is touched;
/// an accepted value is written to every discovered device.
pub fn plan_send_alert(devices: &Vec<CorsairVoidDevice>, alert: u8) -> (r: Option<
    Vec<WriteAction>,
>)
    ensures
        r is Some <==> alert <= 1,
        r matches Some(actions) ==> actions_match(actions@, device_views(devices@), alert),
{
    if alert > 1 {
        return None;
    }
    let mut actions: Vec<WriteAction> = Vec::new();
    let mut i: usize = 0;
    while i < devices.len()
        invariant
            i <= devices.len(),
            actions@.len() == i,
            forall|j: int|
                0 <= j < i ==> (#[trigger] actions@[j]).device_id@ == device_views(devices@)[j].id
                    && actions@[j].value == alert,
        decreases devices.len() - i,
    {
        let action = WriteAction { device_id: devices[i].id.clone(), value: alert };
        actions.push(action);
        i += 1;
    }
    Some(actions)
}

/// Plans the sidetone command: each device bounds the value by its own
/// `max_sidetone`, and the first device whose bound is exceeded aborts the
/// whole command — nothing is written, not even to the devices before or
/// after it. On success one write per device is planned. A rejection carries
/// the bound of the first offending device, for the diagnostic.
pub fn plan_set_sidetone(devices: &Vec<CorsairVoidDevice>, sidetone: u8) -> (r: Result<
    Vec<WriteAction>,
    u8,
>)
    ensures
        r is Ok <==> forall|i: int|
            0 <= i < devices@.len() ==> sidetone <= (#[trigger] device_views(
                devices@,
            )[i]).max_sidetone,
        r matches Ok(actions) ==> actions_match(actions@, device_views(devices@), sidetone),
        r matches Err(max) ==> exists|i: int|
            0 <= i < devices@.len() && sidetone > (#[trigger] device_views(
                devices@,
            )[i]).max_sidetone && max == device_views(devices@)[i].max_sidetone && (forall|j: int|
                0 <= j < i ==> sidetone <= (#[trigger] device_views(devices@)[j]).max_sidetone),
{
    let mut i: usize = 0;
    while i < devices.len()
        invariant
            i <= devices.len(),
            forall|j: int|
                0 <= j < i ==> sidetone <= (#[trigger] device_views(devices@)[j]).max_sidetone,
        decreases devices.len() - i,
    {
        if sidetone > devices[i].max_sidetone {
            proof {
                assert(device_views(devices@)[i as int] == devices@[i as int]@);
                assert(sidetone > device_views(devices@)[i as int].max_sidetone);
            }
            return Err(devices[i].max_sidetone);
        }
        i += 1;
    }
    let mut actions: Vec<WriteAction> = Vec::new();
    let mut k: usize = 0;
    while k < devices.len()
        invariant
            k <= devices.len(),
            actions@.len() == k,
            forall|j: int|
                0 <= j < k ==> (#[trigger] actions@[j]).device_id@ == device_views(devices@)[j].id
                    && actions@[j].value == sidetone,
        decreases devices.len() - k,
    {
        let action = WriteAction { device_id: devices[k].id.clone(), value: sidetone };
        actions.push(action);
        k += 1;
    }
    Ok(actions)
}

/// The battery statuses of the devices that have one, in device order;
/// devices without a battery status are left out rather than given a
/// placeholder.
pub open spec fn spec_battery_statuses(ds: Seq<DeviceRecordView>) -> Seq<BatteryStatus>
    decreases ds.len(),
{
    if ds.len() == 0 {
        Seq::empty()
    } else {
        spec_battery_statuses(ds.drop_last()) + (match ds.last().battery_status {
            Some(b) => seq![b],
            None => Seq::empty(),
        })
    }
}

/// Collects the battery statuses of the devices that have one, exactly as
/// `spec_battery_statuses` says.
pub fn battery_statuses(devices: &Vec<CorsairVoidDevice>) -> (r: Vec<BatteryStatus>)
    ensures
        r@ == spec_battery_statuses(device_views(devices@)),
{
    let mut out: Vec<BatteryStatus> = Vec::new();
    let mut i: usize = 0;
    proof {
        assert(device_views(devices@).take(0) =~= Seq::<DeviceRecordView>::empty());
    }
    while i < devices.len()
        invariant
            i <= devices.len(),
            devices@.len() == device_views(devices@).len(),
            out@ == spec_battery_statuses(device_views(devices@).take(i as int)),
        decreases devices.len() - i,
    {
        let ghost views = device_views(devices@);
        proof {
            assert(views.take(i + 1).drop_last() =~= views.take(i as int));
            assert(views.take(i + 1).last() == views[i as int]);
        }
        match &devices[i].battery_status {
            Some(b) => {
                out.push(*b);
                proof {
                    assert(out@ =~= spec_battery_statuses(views.take(i as int)) + seq![
                        views[i as int].battery_status.unwrap(),
                    ]);
                }
            },
            None => {
                proof {
                    assert(out@ =~= spec_battery_statuses(views.take(i as int))
                        + Seq::<BatteryStatus>::empty());
                }
            },
        }
        i += 1;
    }
    proof {
        assert(device_views(devices@).take(devices@.len() as int) =~= device_views(devices@));
    }
    out
}

/// The plain-text battery report: for each device that has a battery status,
/// in device order, a status line with the charge-state label and a level
/// line with the percentage.
pub open spec fn spec_battery_report(ds: Seq<DeviceRecordView>) -> Seq<char>
    decreases ds.len(),
{
    if ds.len() == 0 {
        Seq::empty()
    } else {
        spec_battery_report(ds.drop_last()) + (match ds.last().battery_status {
            Some(b) => "Battery status: "@ + label_of(b.spec_status()) + "\n"@
                + "Battery level: "@ + dec_of(b.spec_level() as nat) + "%"@ + "\n"@,
            None => Seq::<char>::empty(),
        })
    }
}

/// Renders the plain-text battery report, exactly as `spec_battery_report`
/// says.
pub fn render_battery_report(devices: &Vec<CorsairVoidDevice>) -> (r: String)
    ensures
        r@ == spec_battery_report(device_views(devices@)),
{
    let mut out = String::new();
    let mut i: usize = 0;
    proof {
        assert(device_views(devices@).take(0) =~= Seq::<DeviceRecordView>::empty());
    }
    while i < devices.len()
        invariant
            i <= devices.len(),
            devices@.len() == device_views(devices@).len(),
            out@ == spec_battery_report(device_views(devices@).take(i as int)),
        decreases devices.len() - i,
    {
        let ghost views = device_views(devices@);
        proof {
            assert(views.take(i + 1).drop_last() =~= views.take(i as int));
            assert(views.take(i + 1).last() == views[i as int]);
        }
        match &devices[i].battery_status {
            Some(b) => {
                out.append("Battery status: ");
                let state_text = b.status().label();
                out.append(state_text.as_str());
                out.append("\n");
                out.append("Battery level: ");
                let level_text = u8_to_string(b.level());
                out.append(level_text.as_str());
                out.append("%");
                out.append("\n");
            },
            None => {
                proof {
                    assert(out@ =~= out@ + Seq::<char>::empty());
                }
            },
        }
        i += 1;
    }
    proof {
        assert(device_views(devices@).take(devices@.len() as int) =~= device_views(devices@));
    }
    out
}

} // verus!
