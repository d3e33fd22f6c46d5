//! Identity strings read from a device's generic GATT characteristics.

use vstd::prelude::*;

use crate::display::eq_repeat;
use crate::display::grapheme_count;
use crate::display::grapheme_count_of;
use crate::display::spec_eq_repeat;

verus! {

/// The identity strings a device reports: its advertised name and the
/// values of the generic GATT device-information characteristics.  The
/// transport layer reads the strings; this type only carries and renders
/// them.
#[derive(Debug, Clone, PartialEq, Eq)]
pub struct DeviceInfo {
    pub device_name: String,
    pub model_number: String,
    pub serial_number: String,
    pub hardware_revision: String,
    pub software_revision: String,
    pub manufacturer_name: String,
    pub firmware_revision: String,
}

/// A device's identity rendered for people: the name, an underline as wide
/// as the name reads, and one line per characteristic.
pub open spec fn spec_device_info_display(info: DeviceInfo) -> Seq<char> {
    info.device_name@ + "\n"@ + spec_eq_repeat(grapheme_count_of(info.device_name@))
        + "\nModel number: "@ + info.model_number@ + "\nSerial number: "@ + info.serial_number@
        + "\nHardware revision: "@ + info.hardware_revision@ + "\nSoftware revision: "@
        + info.software_revision@ + "\nManufacturer name: "@ + info.manufacturer_name@
        + "\nFirmware revision: "@ + info.firmware_revision@
}

impl DeviceInfo {
    pub fn new(
        device_name: String,
        model_number: String,
        serial_number: String,
        hardware_revision: String,
        software_revision: String,
        manufacturer_name: String,
        firmware_revision: String,
    ) -> (info: DeviceInfo)
        ensures
            info.device_name@ == device_name@,
            info.model_number@ == model_number@,
            info.serial_number@ == serial_number@,
            info.hardware_revision@ == hardware_revision@,
            info.software_revision@ == software_revision@,
            info.manufacturer_name@ == manufacturer_name@,
            info.firmware_revision@ == firmware_revision@,
    {
        DeviceInfo {
            device_name,
            model_number,
            serial_number,
            hardware_revision,
            software_revision,
            manufacturer_name,
            firmware_revision,
        }
    }

    /// The identity rendered for people, one line per characteristic.
    pub fn display_string(&self) -> (s: String)
        ensures
            s@ == spec_device_info_display(*self),
    {
        let mut s = self.device_name.clone();
        s.append("\n");
        let count = grapheme_count(self.device_name.as_str());
        let eqs = eq_repeat(count);
        s.append(eqs.as_str());
        s.append("\nModel number: ");
        s.append(self.model_number.as_str());
        s.append("\nSerial number: ");
        s.append(self.serial_number.as_str());
        s.append("\nHardware revision: ");
        s.append(self.hardware_revision.as_str());
        s.append("\nSoftware revision: ");
        s.append(self.software_revision.as_str());
        s.append("\nManufacturer name: ");
        s.append(self.manufacturer_name.as_str());
        s.append("\nFirmware revision: ");
        s.append(self.firmware_revision.as_str());
        assert(s@ =~= spec_device_info_display(*self));
        s
    }
}

} // verus!
