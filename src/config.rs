use vstd::prelude::*;

verus! {

/// The substring that the target keyboard's advertised name contains.
pub const DEVICE_NAME: &'static str = "Yolk-Keyboard";

/// The GATT UUIDs of the target keyboard, in their hyphenated lower-case form.
pub struct HidUuid {
    pub yolk_hid_service_uuid: String,
    pub report_uuid: String,
    pub _protocol_mode_uuid: String,
    pub _report_map_uuid: String,
    pub _control_point_uuid: String,
}

impl HidUuid {
    pub fn new() -> (r: Self)
        ensures
            r.yolk_hid_service_uuid@ == "000066d3-0000-1000-8000-00805f9b34fb"@,
            r.report_uuid@ == "00002a4d-0000-1000-8000-00805f9b34fb"@,
            r._protocol_mode_uuid@ == "00002a4e-0000-1000-8000-00805f9b34fb"@,
            r._report_map_uuid@ == "00002a4b-0000-1000-8000-00805f9b34fb"@,
            r._control_point_uuid@ == "00002a4c-0000-1000-8000-00805f9b34fb"@,
    {
        HidUuid {
            yolk_hid_service_uuid: "000066d3-0000-1000-8000-00805f9b34fb".to_owned(),
            report_uuid: "00002a4d-0000-1000-8000-00805f9b34fb".to_owned(),
            _protocol_mode_uuid: "00002a4e-0000-1000-8000-00805f9b34fb".to_owned(),
            _report_map_uuid: "00002a4b-0000-1000-8000-00805f9b34fb".to_owned(),
            _control_point_uuid: "00002a4c-0000-1000-8000-00805f9b34fb".to_owned(),
        }
    }
}

} // verus!
