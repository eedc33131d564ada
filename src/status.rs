//! The gateway's general device information.

use vstd::prelude::*;
use crate::json::{Json, lookup, text_field, u32_field, bool_field, str_eq, get_text, get_u32, get_bool};

verus! {

/// General information on the gateway, as `DeviceInfo/get` reports it.
///
/// On the wire each field is named in leading capitals (`ModelName`), with
/// acronyms kept whole (`ManufacturerOUI`, `BaseMAC`).
#[derive(Debug, Clone, PartialEq, Eq)]
pub struct Status {
    pub manufacturer: String,
    pub manufacturer_oui: String,
    pub model_name: String,
    pub description: String,
    pub product_class: String,
    pub serial_number: String,
    pub hardware_version: String,
    pub software_version: String,
    pub rescue_version: String,
    pub modem_firmware_version: String,
    pub enabled_options: String,
    pub additional_hardware_version: String,
    pub additional_software_version: String,
    pub spec_version: String,
    pub provisioning_code: String,
    pub up_time: u32,
    pub first_use_date: String,
    pub device_log: String,
    pub vendor_config_file_number_of_entries: u32,
    pub manufacturer_url: String,
    pub country: String,
    pub external_ip_address: String,
    pub device_status: String,
    pub number_of_reboots: u32,
    pub upgrade_occurred: bool,
    pub reset_occurred: bool,
    pub restore_occurred: bool,
    pub standby_occurred: bool,
    pub softathome_additional_software_versions: String,
    pub base_mac: String,
}

/// `k` is the wire name of a field of [`Status`].
pub open spec fn is_status_key(k: Seq<char>) -> bool {
    k == "Manufacturer"@
        || k == "ManufacturerOUI"@
        || k == "ModelName"@
        || k == "Description"@
        || k == "ProductClass"@
        || k == "SerialNumber"@
        || k == "HardwareVersion"@
        || k == "SoftwareVersion"@
        || k == "RescueVersion"@
        || k == "ModemFirmwareVersion"@
        || k == "EnabledOptions"@
        || k == "AdditionalHardwareVersion"@
        || k == "AdditionalSoftwareVersion"@
        || k == "SpecVersion"@
        || k == "ProvisioningCode"@
        || k == "UpTime"@
        || k == "FirstUseDate"@
        || k == "DeviceLog"@
        || k == "VendorConfigFileNumberOfEntries"@
        || k == "ManufacturerURL"@
        || k == "Country"@
        || k == "ExternalIPAddress"@
        || k == "DeviceStatus"@
        || k == "NumberOfReboots"@
        || k == "UpgradeOccurred"@
        || k == "ResetOccurred"@
        || k == "RestoreOccurred"@
        || k == "StandbyOccurred"@
        || k == "X_SOFTATHOME-COM_AdditionalSoftwareVersions"@
        || k == "BaseMAC"@
}

/// The [`Status`] that the JSON node `j` encodes: `j` is an object, every key
/// of it names a field, and every field is there with a value of its type.
pub open spec fn status_of(j: Json) -> Option<Status> {
    match j {
        Json::Object(o) => {
            let e = o@;
            if (forall|i: int| 0 <= i < e.len() ==> is_status_key(#[trigger] e[i].0@))
                && text_field(e, "Manufacturer"@) is Some
                && text_field(e, "ManufacturerOUI"@) is Some
                && text_field(e, "ModelName"@) is Some
                && text_field(e, "Description"@) is Some
                && text_field(e, "ProductClass"@) is Some
                && text_field(e, "SerialNumber"@) is Some
                && text_field(e, "HardwareVersion"@) is Some
                && text_field(e, "SoftwareVersion"@) is Some
                && text_field(e, "RescueVersion"@) is Some
                && text_field(e, "ModemFirmwareVersion"@) is Some
                && text_field(e, "EnabledOptions"@) is Some
                && text_field(e, "AdditionalHardwareVersion"@) is Some
                && text_field(e, "AdditionalSoftwareVersion"@) is Some
                && text_field(e, "SpecVersion"@) is Some
                && text_field(e, "ProvisioningCode"@) is Some
                && u32_field(e, "UpTime"@) is Some
                && text_field(e, "FirstUseDate"@) is Some
                && text_field(e, "DeviceLog"@) is Some
                && u32_field(e, "VendorConfigFileNumberOfEntries"@) is Some
                && text_field(e, "ManufacturerURL"@) is Some
                && text_field(e, "Country"@) is Some
                && text_field(e, "ExternalIPAddress"@) is Some
                && text_field(e, "DeviceStatus"@) is Some
                && u32_field(e, "NumberOfReboots"@) is Some
                && bool_field(e, "UpgradeOccurred"@) is Some
                && bool_field(e, "ResetOccurred"@) is Some
                && bool_field(e, "RestoreOccurred"@) is Some
                && bool_field(e, "StandbyOccurred"@) is Some
                && text_field(e, "X_SOFTATHOME-COM_AdditionalSoftwareVersions"@) is Some
                && text_field(e, "BaseMAC"@) is Some
            {
                Some(Status {
                    manufacturer: text_field(e, "Manufacturer"@)->0,
                    manufacturer_oui: text_field(e, "ManufacturerOUI"@)->0,
                    model_name: text_field(e, "ModelName"@)->0,
                    description: text_field(e, "Description"@)->0,
                    product_class: text_field(e, "ProductClass"@)->0,
                    serial_number: text_field(e, "SerialNumber"@)->0,
                    hardware_version: text_field(e, "HardwareVersion"@)->0,
                    software_version: text_field(e, "SoftwareVersion"@)->0,
                    rescue_version: text_field(e, "RescueVersion"@)->0,
                    modem_firmware_version: text_field(e, "ModemFirmwareVersion"@)->0,
                    enabled_options: text_field(e, "EnabledOptions"@)->0,
                    additional_hardware_version: text_field(e, "AdditionalHardwareVersion"@)->0,
                    additional_software_version: text_field(e, "AdditionalSoftwareVersion"@)->0,
                    spec_version: text_field(e, "SpecVersion"@)->0,
                    provisioning_code: text_field(e, "ProvisioningCode"@)->0,
                    up_time: u32_field(e, "UpTime"@)->0,
                    first_use_date: text_field(e, "FirstUseDate"@)->0,
                    device_log: text_field(e, "DeviceLog"@)->0,
                    vendor_config_file_number_of_entries: u32_field(e, "VendorConfigFileNumberOfEntries"@)->0,
                    manufacturer_url: text_field(e, "ManufacturerURL"@)->0,
                    country: text_field(e, "Country"@)->0,
                    external_ip_address: text_field(e, "ExternalIPAddress"@)->0,
                    device_status: text_field(e, "DeviceStatus"@)->0,
                    number_of_reboots: u32_field(e, "NumberOfReboots"@)->0,
                    upgrade_occurred: bool_field(e, "UpgradeOccurred"@)->0,
                    reset_occurred: bool_field(e, "ResetOccurred"@)->0,
                    restore_occurred: bool_field(e, "RestoreOccurred"@)->0,
                    standby_occurred: bool_field(e, "StandbyOccurred"@)->0,
                    softathome_additional_software_versions: text_field(e, "X_SOFTATHOME-COM_AdditionalSoftwareVersions"@)->0,
                    base_mac: text_field(e, "BaseMAC"@)->0,
                })
            } else {
                None
            }
        },
        _ => None,
    }
}

fn is_status_key_exec(k: &str) -> (r: bool)
    ensures
        r == is_status_key(k@),
{
    str_eq(k, "Manufacturer")
        || str_eq(k, "ManufacturerOUI")
        || str_eq(k, "ModelName")
        || str_eq(k, "Description")
        || str_eq(k, "ProductClass")
        || str_eq(k, "SerialNumber")
        || str_eq(k, "HardwareVersion")
        || str_eq(k, "SoftwareVersion")
        || str_eq(k, "RescueVersion")
        || str_eq(k, "ModemFirmwareVersion")
        || str_eq(k, "EnabledOptions")
        || str_eq(k, "AdditionalHardwareVersion")
        || str_eq(k, "AdditionalSoftwareVersion")
        || str_eq(k, "SpecVersion")
        || str_eq(k, "ProvisioningCode")
        || str_eq(k, "UpTime")
        || str_eq(k, "FirstUseDate")
        || str_eq(k, "DeviceLog")
        || str_eq(k, "VendorConfigFileNumberOfEntries")
        || str_eq(k, "ManufacturerURL")
        || str_eq(k, "Country")
        || str_eq(k, "ExternalIPAddress")
        || str_eq(k, "DeviceStatus")
        || str_eq(k, "NumberOfReboots")
        || str_eq(k, "UpgradeOccurred")
        || str_eq(k, "ResetOccurred")
        || str_eq(k, "RestoreOccurred")
        || str_eq(k, "StandbyOccurred")
        || str_eq(k, "X_SOFTATHOME-COM_AdditionalSoftwareVersions")
        || str_eq(k, "BaseMAC")
}

impl Status {
    /// Reads a [`Status`] from the JSON node `j`. The schema is strict: a key
    /// that names no field, a missing field or a value of the wrong type gives
    /// `None`.
    pub fn decode(j: &Json) -> (r: Option<Status>)
        ensures
            r == status_of(*j),
    {
        let e = match j {
            Json::Object(e) => e,
            _ => return None,
        };
        let mut i: usize = 0;
        while i < e.len()
            invariant
                *j == Json::Object(*e),
                i <= e@.len(),
                forall|m: int| 0 <= m < i ==> is_status_key(#[trigger] e@[m].0@),
            decreases e@.len() - i,
        {
            if !is_status_key_exec(e[i].0.as_str()) {
                assert(!is_status_key(e@[i as int].0@));
                return None;
            }
            i = i + 1;
        }
        let manufacturer = match get_text(e, "Manufacturer") {
            Some(v) => v,
            None => return None,
        };
        let manufacturer_oui = match get_text(e, "ManufacturerOUI") {
            Some(v) => v,
            None => return None,
        };
        let model_name = match get_text(e, "ModelName") {
            Some(v) => v,
            None => return None,
        };
        let description = match get_text(e, "Description") {
            Some(v) => v,
            None => return None,
        };
        let product_class = match get_text(e, "ProductClass") {
            Some(v) => v,
            None => return None,
        };
        let serial_number = match get_text(e, "SerialNumber") {
            Some(v) => v,
            None => return None,
        };
        let hardware_version = match get_text(e, "HardwareVersion") {
            Some(v) => v,
            None => return None,
        };
        let software_version = match get_text(e, "SoftwareVersion") {
            Some(v) => v,
            None => return None,
        };
        let rescue_version = match get_text(e, "RescueVersion") {
            Some(v) => v,
            None => return None,
        };
        let modem_firmware_version = match get_text(e, "ModemFirmwareVersion") {
            Some(v) => v,
            None => return None,
        };
        let enabled_options = match get_text(e, "EnabledOptions") {
            Some(v) => v,
            None => return None,
        };
        let additional_hardware_version = match get_text(e, "AdditionalHardwareVersion") {
            Some(v) => v,
            None => return None,
        };
        let additional_software_version = match get_text(e, "AdditionalSoftwareVersion") {
            Some(v) => v,
            None => return None,
        };
        let spec_version = match get_text(e, "SpecVersion") {
            Some(v) => v,
            None => return None,
        };
        let provisioning_code = match get_text(e, "ProvisioningCode") {
            Some(v) => v,
            None => return None,
        };
        let up_time = match get_u32(e, "UpTime") {
            Some(v) => v,
            None => return None,
        };
        let first_use_date = match get_text(e, "FirstUseDate") {
            Some(v) => v,
            None => return None,
        };
        let device_log = match get_text(e, "DeviceLog") {
            Some(v) => v,
            None => return None,
        };
        let vendor_config_file_number_of_entries = match get_u32(e, "VendorConfigFileNumberOfEntries") {
            Some(v) => v,
            None => return None,
        };
        let manufacturer_url = match get_text(e, "ManufacturerURL") {
            Some(v) => v,
            None => return None,
        };
        let country = match get_text(e, "Country") {
            Some(v) => v,
            None => return None,
        };
        let external_ip_address = match get_text(e, "ExternalIPAddress") {
            Some(v) => v,
            None => return None,
        };
        let device_status = match get_text(e, "DeviceStatus") {
            Some(v) => v,
            None => return None,
        };
        let number_of_reboots = match get_u32(e, "NumberOfReboots") {
            Some(v) => v,
            None => return None,
        };
        let upgrade_occurred = match get_bool(e, "UpgradeOccurred") {
            Some(v) => v,
            None => return None,
        };
        let reset_occurred = match get_bool(e, "ResetOccurred") {
            Some(v) => v,
            None => return None,
        };
        let restore_occurred = match get_bool(e, "RestoreOccurred") {
            Some(v) => v,
            None => return None,
        };
        let standby_occurred = match get_bool(e, "StandbyOccurred") {
            Some(v) => v,
            None => return None,
        };
        let softathome_additional_software_versions = match get_text(e, "X_SOFTATHOME-COM_AdditionalSoftwareVersions") {
            Some(v) => v,
            None => return None,
        };
        let base_mac = match get_text(e, "BaseMAC") {
            Some(v) => v,
            None => return None,
        };
        Some(Status {
            manufacturer,
            manufacturer_oui,
            model_name,
            description,
            product_class,
            serial_number,
            hardware_version,
            software_version,
            rescue_version,
            modem_firmware_version,
            enabled_options,
            additional_hardware_version,
            additional_software_version,
            spec_version,
            provisioning_code,
            up_time,
            first_use_date,
            device_log,
            vendor_config_file_number_of_entries,
            manufacturer_url,
            country,
            external_ip_address,
            device_status,
            number_of_reboots,
            upgrade_occurred,
            reset_occurred,
            restore_occurred,
            standby_occurred,
            softathome_additional_software_versions,
            base_mac,
        })
    }
}

/// An object with a key that names no field of [`Status`] encodes no
/// [`Status`], whatever else it holds.
pub proof fn lemma_status_rejects_unknown_key(e: Vec<(String, Json)>, i: int)
    requires
        0 <= i < e@.len(),
        !is_status_key(e@[i].0@),
    ensures
        status_of(Json::Object(e)) is None,
{
}

/// An entry whose key no earlier entry has is what `lookup` finds.
proof fn lemma_lookup_at(e: Seq<(String, Json)>, i: int)
    requires
        0 <= i < e.len(),
        forall|m: int| 0 <= m < i ==> (#[trigger] e[m]).0@ != e[i].0@,
    ensures
        lookup(e, e[i].0@) == Some(e[i].1),
    decreases i,
{
    if i > 0 {
        let d = e.drop_first();
        assert forall|m: int| 0 <= m < i - 1 implies (#[trigger] d[m]).0@ != d[i - 1].0@ by {
            assert(d[m] == e[m + 1]);
        }
        lemma_lookup_at(d, i - 1);
    }
}

/// In entries keyed by the wire names of [`Status`], in order, each name
/// finds its own entry.
proof fn lemma_status_lookups(e: Seq<(String, Json)>)
    requires
        e.len() == 30,
        e[0].0@ == "Manufacturer"@,
        e[1].0@ == "ManufacturerOUI"@,
        e[2].0@ == "ModelName"@,
        e[3].0@ == "Description"@,
        e[4].0@ == "ProductClass"@,
        e[5].0@ == "SerialNumber"@,
        e[6].0@ == "HardwareVersion"@,
        e[7].0@ == "SoftwareVersion"@,
        e[8].0@ == "RescueVersion"@,
        e[9].0@ == "ModemFirmwareVersion"@,
        e[10].0@ == "EnabledOptions"@,
        e[11].0@ == "AdditionalHardwareVersion"@,
        e[12].0@ == "AdditionalSoftwareVersion"@,
        e[13].0@ == "SpecVersion"@,
        e[14].0@ == "ProvisioningCode"@,
        e[15].0@ == "UpTime"@,
        e[16].0@ == "FirstUseDate"@,
        e[17].0@ == "DeviceLog"@,
        e[18].0@ == "VendorConfigFileNumberOfEntries"@,
        e[19].0@ == "ManufacturerURL"@,
        e[20].0@ == "Country"@,
        e[21].0@ == "ExternalIPAddress"@,
        e[22].0@ == "DeviceStatus"@,
        e[23].0@ == "NumberOfReboots"@,
        e[24].0@ == "UpgradeOccurred"@,
        e[25].0@ == "ResetOccurred"@,
        e[26].0@ == "RestoreOccurred"@,
        e[27].0@ == "StandbyOccurred"@,
        e[28].0@ == "X_SOFTATHOME-COM_AdditionalSoftwareVersions"@,
        e[29].0@ == "BaseMAC"@,
    ensures
        lookup(e, "Manufacturer"@) == Some(e[0].1),
        lookup(e, "ManufacturerOUI"@) == Some(e[1].1),
        lookup(e, "ModelName"@) == Some(e[2].1),
        lookup(e, "Description"@) == Some(e[3].1),
        lookup(e, "ProductClass"@) == Some(e[4].1),
        lookup(e, "SerialNumber"@) == Some(e[5].1),
        lookup(e, "HardwareVersion"@) == Some(e[6].1),
        lookup(e, "SoftwareVersion"@) == Some(e[7].1),
        lookup(e, "RescueVersion"@) == Some(e[8].1),
        lookup(e, "ModemFirmwareVersion"@) == Some(e[9].1),
        lookup(e, "EnabledOptions"@) == Some(e[10].1),
        lookup(e, "AdditionalHardwareVersion"@) == Some(e[11].1),
        lookup(e, "AdditionalSoftwareVersion"@) == Some(e[12].1),
        lookup(e, "SpecVersion"@) == Some(e[13].1),
        lookup(e, "ProvisioningCode"@) == Some(e[14].1),
        lookup(e, "UpTime"@) == Some(e[15].1),
        lookup(e, "FirstUseDate"@) == Some(e[16].1),
        lookup(e, "DeviceLog"@) == Some(e[17].1),
        lookup(e, "VendorConfigFileNumberOfEntries"@) == Some(e[18].1),
        lookup(e, "ManufacturerURL"@) == Some(e[19].1),
        lookup(e, "Country"@) == Some(e[20].1),
        lookup(e, "ExternalIPAddress"@) == Some(e[21].1),
        lookup(e, "DeviceStatus"@) == Some(e[22].1),
        lookup(e, "NumberOfReboots"@) == Some(e[23].1),
        lookup(e, "UpgradeOccurred"@) == Some(e[24].1),
        lookup(e, "ResetOccurred"@) == Some(e[25].1),
        lookup(e, "RestoreOccurred"@) == Some(e[26].1),
        lookup(e, "StandbyOccurred"@) == Some(e[27].1),
        lookup(e, "X_SOFTATHOME-COM_AdditionalSoftwareVersions"@) == Some(e[28].1),
        lookup(e, "BaseMAC"@) == Some(e[29].1),
{
    reveal_strlit("Manufacturer");
    reveal_strlit("ManufacturerOUI");
    reveal_strlit("ModelName");
    reveal_strlit("Description");
    reveal_strlit("ProductClass");
    reveal_strlit("SerialNumber");
    reveal_strlit("HardwareVersion");
    reveal_strlit("SoftwareVersion");
    reveal_strlit("RescueVersion");
    reveal_strlit("ModemFirmwareVersion");
    reveal_strlit("EnabledOptions");
    reveal_strlit("AdditionalHardwareVersion");
    reveal_strlit("AdditionalSoftwareVersion");
    reveal_strlit("SpecVersion");
    reveal_strlit("ProvisioningCode");
    reveal_strlit("UpTime");
    reveal_strlit("FirstUseDate");
    reveal_strlit("DeviceLog");
    reveal_strlit("VendorConfigFileNumberOfEntries");
    reveal_strlit("ManufacturerURL");
    reveal_strlit("Country");
    reveal_strlit("ExternalIPAddress");
    reveal_strlit("DeviceStatus");
    reveal_strlit("NumberOfReboots");
    reveal_strlit("UpgradeOccurred");
    reveal_strlit("ResetOccurred");
    reveal_strlit("RestoreOccurred");
    reveal_strlit("StandbyOccurred");
    reveal_strlit("X_SOFTATHOME-COM_AdditionalSoftwareVersions");
    reveal_strlit("BaseMAC");
    assert("Manufacturer"@.len() == 12);
    assert("ManufacturerOUI"@.len() == 15);
    assert("ModelName"@.len() == 9);
    assert("Description"@.len() == 11);
    assert("ProductClass"@.len() == 12);
    assert("SerialNumber"@.len() == 12);
    assert("HardwareVersion"@.len() == 15);
    assert("SoftwareVersion"@.len() == 15);
    assert("RescueVersion"@.len() == 13);
    assert("ModemFirmwareVersion"@.len() == 20);
    assert("EnabledOptions"@.len() == 14);
    assert("AdditionalHardwareVersion"@.len() == 25);
    assert("AdditionalSoftwareVersion"@.len() == 25);
    assert("SpecVersion"@.len() == 11);
    assert("ProvisioningCode"@.len() == 16);
    assert("UpTime"@.len() == 6);
    assert("FirstUseDate"@.len() == 12);
    assert("DeviceLog"@.len() == 9);
    assert("VendorConfigFileNumberOfEntries"@.len() == 31);
    assert("ManufacturerURL"@.len() == 15);
    assert("Country"@.len() == 7);
    assert("ExternalIPAddress"@.len() == 17);
    assert("DeviceStatus"@.len() == 12);
    assert("NumberOfReboots"@.len() == 15);
    assert("UpgradeOccurred"@.len() == 15);
    assert("ResetOccurred"@.len() == 13);
    assert("RestoreOccurred"@.len() == 15);
    assert("StandbyOccurred"@.len() == 15);
    assert("X_SOFTATHOME-COM_AdditionalSoftwareVersions"@.len() == 43);
    assert("BaseMAC"@.len() == 7);
    assert("Manufacturer"@[0] != "ProductClass"@[0]);
    assert("Manufacturer"@[0] != "SerialNumber"@[0]);
    assert("Manufacturer"@[0] != "FirstUseDate"@[0]);
    assert("Manufacturer"@[0] != "DeviceStatus"@[0]);
    assert("ProductClass"@[0] != "SerialNumber"@[0]);
    assert("ProductClass"@[0] != "FirstUseDate"@[0]);
    assert("ProductClass"@[0] != "DeviceStatus"@[0]);
    assert("SerialNumber"@[0] != "FirstUseDate"@[0]);
    assert("SerialNumber"@[0] != "DeviceStatus"@[0]);
    assert("FirstUseDate"@[0] != "DeviceStatus"@[0]);
    assert("ManufacturerOUI"@[0] != "HardwareVersion"@[0]);
    assert("ManufacturerOUI"@[0] != "SoftwareVersion"@[0]);
    assert("ManufacturerOUI"@[12] != "ManufacturerURL"@[12]);
    assert("ManufacturerOUI"@[0] != "NumberOfReboots"@[0]);
    assert("ManufacturerOUI"@[0] != "UpgradeOccurred"@[0]);
    assert("ManufacturerOUI"@[0] != "RestoreOccurred"@[0]);
    assert("ManufacturerOUI"@[0] != "StandbyOccurred"@[0]);
    assert("HardwareVersion"@[0] != "SoftwareVersion"@[0]);
    assert("HardwareVersion"@[0] != "ManufacturerURL"@[0]);
    assert("HardwareVersion"@[0] != "NumberOfReboots"@[0]);
    assert("HardwareVersion"@[0] != "UpgradeOccurred"@[0]);
    assert("HardwareVersion"@[0] != "RestoreOccurred"@[0]);
    assert("HardwareVersion"@[0] != "StandbyOccurred"@[0]);
    assert("SoftwareVersion"@[0] != "ManufacturerURL"@[0]);
    assert("SoftwareVersion"@[0] != "NumberOfReboots"@[0]);
    assert("SoftwareVersion"@[0] != "UpgradeOccurred"@[0]);
    assert("SoftwareVersion"@[0] != "RestoreOccurred"@[0]);
    assert("SoftwareVersion"@[1] != "StandbyOccurred"@[1]);
    assert("ManufacturerURL"@[0] != "NumberOfReboots"@[0]);
    assert("ManufacturerURL"@[0] != "UpgradeOccurred"@[0]);
    assert("ManufacturerURL"@[0] != "RestoreOccurred"@[0]);
    assert("ManufacturerURL"@[0] != "StandbyOccurred"@[0]);
    assert("NumberOfReboots"@[0] != "UpgradeOccurred"@[0]);
    assert("NumberOfReboots"@[0] != "RestoreOccurred"@[0]);
    assert("NumberOfReboots"@[0] != "StandbyOccurred"@[0]);
    assert("UpgradeOccurred"@[0] != "RestoreOccurred"@[0]);
    assert("UpgradeOccurred"@[0] != "StandbyOccurred"@[0]);
    assert("RestoreOccurred"@[0] != "StandbyOccurred"@[0]);
    assert("ModelName"@[0] != "DeviceLog"@[0]);
    assert("Description"@[0] != "SpecVersion"@[0]);
    assert("RescueVersion"@[3] != "ResetOccurred"@[3]);
    assert("AdditionalHardwareVersion"@[10] != "AdditionalSoftwareVersion"@[10]);
    assert("Country"@[0] != "BaseMAC"@[0]);
    lemma_lookup_at(e, 0);
    assert forall|m: int| 0 <= m < 1 implies (#[trigger] e[m]).0@ != e[1].0@ by {
        assert(m == 0);
    }
    lemma_lookup_at(e, 1);
    assert forall|m: int| 0 <= m < 2 implies (#[trigger] e[m]).0@ != e[2].0@ by {
        assert(m == 0 || m == 1);
    }
    lemma_lookup_at(e, 2);
    assert forall|m: int| 0 <= m < 3 implies (#[trigger] e[m]).0@ != e[3].0@ by {
        assert(m == 0 || m == 1 || m == 2);
    }
    lemma_lookup_at(e, 3);
    assert forall|m: int| 0 <= m < 4 implies (#[trigger] e[m]).0@ != e[4].0@ by {
        assert(m == 0 || m == 1 || m == 2 || m == 3);
    }
    lemma_lookup_at(e, 4);
    assert forall|m: int| 0 <= m < 5 implies (#[trigger] e[m]).0@ != e[5].0@ by {
        assert(m == 0 || m == 1 || m == 2 || m == 3 || m == 4);
    }
    lemma_lookup_at(e, 5);
    assert forall|m: int| 0 <= m < 6 implies (#[trigger] e[m]).0@ != e[6].0@ by {
        assert(m == 0 || m == 1 || m == 2 || m == 3 || m == 4 || m == 5);
    }
    lemma_lookup_at(e, 6);
    assert forall|m: int| 0 <= m < 7 implies (#[trigger] e[m]).0@ != e[7].0@ by {
        assert(m == 0 || m == 1 || m == 2 || m == 3 || m == 4 || m == 5 || m == 6);
    }
    lemma_lookup_at(e, 7);
    assert forall|m: int| 0 <= m < 8 implies (#[trigger] e[m]).0@ != e[8].0@ by {
        assert(m == 0 || m == 1 || m == 2 || m == 3 || m == 4 || m == 5 || m == 6 || m == 7);
    }
    lemma_lookup_at(e, 8);
    assert forall|m: int| 0 <= m < 9 implies (#[trigger] e[m]).0@ != e[9].0@ by {
        assert(m == 0 || m == 1 || m == 2 || m == 3 || m == 4 || m == 5 || m == 6 || m == 7 || m == 8);
    }
    lemma_lookup_at(e, 9);
    assert forall|m: int| 0 <= m < 10 implies (#[trigger] e[m]).0@ != e[10].0@ by {
        assert(m == 0 || m == 1 || m == 2 || m == 3 || m == 4 || m == 5 || m == 6 || m == 7 || m == 8 || m == 9);
    }
    lemma_lookup_at(e, 10);
    assert forall|m: int| 0 <= m < 11 implies (#[trigger] e[m]).0@ != e[11].0@ by {
        assert(m == 0 || m == 1 || m == 2 || m == 3 || m == 4 || m == 5 || m == 6 || m == 7 || m == 8 || m == 9 || m == 10);
    }
    lemma_lookup_at(e, 11);
    assert forall|m: int| 0 <= m < 12 implies (#[trigger] e[m]).0@ != e[12].0@ by {
        assert(m == 0 || m == 1 || m == 2 || m == 3 || m == 4 || m == 5 || m == 6 || m == 7 || m == 8 || m == 9 || m == 10 || m == 11);
    }
    lemma_lookup_at(e, 12);
    assert forall|m: int| 0 <= m < 13 implies (#[trigger] e[m]).0@ != e[13].0@ by {
        assert(m == 0 || m == 1 || m == 2 || m == 3 || m == 4 || m == 5 || m == 6 || m == 7 || m == 8 || m == 9 || m == 10 || m == 11 || m == 12);
    }
    lemma_lookup_at(e, 13);
    assert forall|m: int| 0 <= m < 14 implies (#[trigger] e[m]).0@ != e[14].0@ by {
        assert(m == 0 || m == 1 || m == 2 || m == 3 || m == 4 || m == 5 || m == 6 || m == 7 || m == 8 || m == 9 || m == 10 || m == 11 || m == 12 || m == 13);
    }
    lemma_lookup_at(e, 14);
    assert forall|m: int| 0 <= m < 15 implies (#[trigger] e[m]).0@ != e[15].0@ by {
        assert(m == 0 || m == 1 || m == 2 || m == 3 || m == 4 || m == 5 || m == 6 || m == 7 || m == 8 || m == 9 || m == 10 || m == 11 || m == 12 || m == 13 || m == 14);
    }
    lemma_lookup_at(e, 15);
    assert forall|m: int| 0 <= m < 16 implies (#[trigger] e[m]).0@ != e[16].0@ by {
        assert(m == 0 || m == 1 || m == 2 || m == 3 || m == 4 || m == 5 || m == 6 || m == 7 || m == 8 || m == 9 || m == 10 || m == 11 || m == 12 || m == 13 || m == 14 || m == 15);
    }
    lemma_lookup_at(e, 16);
    assert forall|m: int| 0 <= m < 17 implies (#[trigger] e[m]).0@ != e[17].0@ by {
        assert(m == 0 || m == 1 || m == 2 || m == 3 || m == 4 || m == 5 || m == 6 || m == 7 || m == 8 || m == 9 || m == 10 || m == 11 || m == 12 || m == 13 || m == 14 || m == 15 || m == 16);
    }
    lemma_lookup_at(e, 17);
    assert forall|m: int| 0 <= m < 18 implies (#[trigger] e[m]).0@ != e[18].0@ by {
        assert(m == 0 || m == 1 || m == 2 || m == 3 || m == 4 || m == 5 || m == 6 || m == 7 || m == 8 || m == 9 || m == 10 || m == 11 || m == 12 || m == 13 || m == 14 || m == 15 || m == 16 || m == 17);
    }
    lemma_lookup_at(e, 18);
    assert forall|m: int| 0 <= m < 19 implies (#[trigger] e[m]).0@ != e[19].0@ by {
        assert(m == 0 || m == 1 || m == 2 || m == 3 || m == 4 || m == 5 || m == 6 || m == 7 || m == 8 || m == 9 || m == 10 || m == 11 || m == 12 || m == 13 || m == 14 || m == 15 || m == 16 || m == 17 || m == 18);
    }
    lemma_lookup_at(e, 19);
    assert forall|m: int| 0 <= m < 20 implies (#[trigger] e[m]).0@ != e[20].0@ by {
        assert(m == 0 || m == 1 || m == 2 || m == 3 || m == 4 || m == 5 || m == 6 || m == 7 || m == 8 || m == 9 || m == 10 || m == 11 || m == 12 || m == 13 || m == 14 || m == 15 || m == 16 || m == 17 || m == 18 || m == 19);
    }
    lemma_lookup_at(e, 20);
    assert forall|m: int| 0 <= m < 21 implies (#[trigger] e[m]).0@ != e[21].0@ by {
        assert(m == 0 || m == 1 || m == 2 || m == 3 || m == 4 || m == 5 || m == 6 || m == 7 || m == 8 || m == 9 || m == 10 || m == 11 || m == 12 || m == 13 || m == 14 || m == 15 || m == 16 || m == 17 || m == 18 || m == 19 || m == 20);
    }
    lemma_lookup_at(e, 21);
    assert forall|m: int| 0 <= m < 22 implies (#[trigger] e[m]).0@ != e[22].0@ by {
        assert(m == 0 || m == 1 || m == 2 || m == 3 || m == 4 || m == 5 || m == 6 || m == 7 || m == 8 || m == 9 || m == 10 || m == 11 || m == 12 || m == 13 || m == 14 || m == 15 || m == 16 || m == 17 || m == 18 || m == 19 || m == 20 || m == 21);
    }
    lemma_lookup_at(e, 22);
    assert forall|m: int| 0 <= m < 23 implies (#[trigger] e[m]).0@ != e[23].0@ by {
        assert(m == 0 || m == 1 || m == 2 || m == 3 || m == 4 || m == 5 || m == 6 || m == 7 || m == 8 || m == 9 || m == 10 || m == 11 || m == 12 || m == 13 || m == 14 || m == 15 || m == 16 || m == 17 || m == 18 || m == 19 || m == 20 || m == 21 || m == 22);
    }
    lemma_lookup_at(e, 23);
    assert forall|m: int| 0 <= m < 24 implies (#[trigger] e[m]).0@ != e[24].0@ by {
        assert(m == 0 || m == 1 || m == 2 || m == 3 || m == 4 || m == 5 || m == 6 || m == 7 || m == 8 || m == 9 || m == 10 || m == 11 || m == 12 || m == 13 || m == 14 || m == 15 || m == 16 || m == 17 || m == 18 || m == 19 || m == 20 || m == 21 || m == 22 || m == 23);
    }
    lemma_lookup_at(e, 24);
    assert forall|m: int| 0 <= m < 25 implies (#[trigger] e[m]).0@ != e[25].0@ by {
        assert(m == 0 || m == 1 || m == 2 || m == 3 || m == 4 || m == 5 || m == 6 || m == 7 || m == 8 || m == 9 || m == 10 || m == 11 || m == 12 || m == 13 || m == 14 || m == 15 || m == 16 || m == 17 || m == 18 || m == 19 || m == 20 || m == 21 || m == 22 || m == 23 || m == 24);
    }
    lemma_lookup_at(e, 25);
    assert forall|m: int| 0 <= m < 26 implies (#[trigger] e[m]).0@ != e[26].0@ by {
        assert(m == 0 || m == 1 || m == 2 || m == 3 || m == 4 || m == 5 || m == 6 || m == 7 || m == 8 || m == 9 || m == 10 || m == 11 || m == 12 || m == 13 || m == 14 || m == 15 || m == 16 || m == 17 || m == 18 || m == 19 || m == 20 || m == 21 || m == 22 || m == 23 || m == 24 || m == 25);
    }
    lemma_lookup_at(e, 26);
    assert forall|m: int| 0 <= m < 27 implies (#[trigger] e[m]).0@ != e[27].0@ by {
        assert(m == 0 || m == 1 || m == 2 || m == 3 || m == 4 || m == 5 || m == 6 || m == 7 || m == 8 || m == 9 || m == 10 || m == 11 || m == 12 || m == 13 || m == 14 || m == 15 || m == 16 || m == 17 || m == 18 || m == 19 || m == 20 || m == 21 || m == 22 || m == 23 || m == 24 || m == 25 || m == 26);
    }
    lemma_lookup_at(e, 27);
    assert forall|m: int| 0 <= m < 28 implies (#[trigger] e[m]).0@ != e[28].0@ by {
        assert(m == 0 || m == 1 || m == 2 || m == 3 || m == 4 || m == 5 || m == 6 || m == 7 || m == 8 || m == 9 || m == 10 || m == 11 || m == 12 || m == 13 || m == 14 || m == 15 || m == 16 || m == 17 || m == 18 || m == 19 || m == 20 || m == 21 || m == 22 || m == 23 || m == 24 || m == 25 || m == 26 || m == 27);
    }
    lemma_lookup_at(e, 28);
    assert forall|m: int| 0 <= m < 29 implies (#[trigger] e[m]).0@ != e[29].0@ by {
        assert(m == 0 || m == 1 || m == 2 || m == 3 || m == 4 || m == 5 || m == 6 || m == 7 || m == 8 || m == 9 || m == 10 || m == 11 || m == 12 || m == 13 || m == 14 || m == 15 || m == 16 || m == 17 || m == 18 || m == 19 || m == 20 || m == 21 || m == 22 || m == 23 || m == 24 || m == 25 || m == 26 || m == 27 || m == 28);
    }
    lemma_lookup_at(e, 29);
}

impl Status {
    /// This status as the JSON object that the gateway sends, every field
    /// under its wire name.
    pub fn to_json(&self) -> (r: Json)
        ensures
            status_of(r) == Some(*self),
    {
        let e: Vec<(String, Json)> = vec![
            (String::from_str("Manufacturer"), Json::Text(self.manufacturer.clone())),
            (String::from_str("ManufacturerOUI"), Json::Text(self.manufacturer_oui.clone())),
            (String::from_str("ModelName"), Json::Text(self.model_name.clone())),
            (String::from_str("Description"), Json::Text(self.description.clone())),
            (String::from_str("ProductClass"), Json::Text(self.product_class.clone())),
            (String::from_str("SerialNumber"), Json::Text(self.serial_number.clone())),
            (String::from_str("HardwareVersion"), Json::Text(self.hardware_version.clone())),
            (String::from_str("SoftwareVersion"), Json::Text(self.software_version.clone())),
            (String::from_str("RescueVersion"), Json::Text(self.rescue_version.clone())),
            (String::from_str("ModemFirmwareVersion"), Json::Text(self.modem_firmware_version.clone())),
            (String::from_str("EnabledOptions"), Json::Text(self.enabled_options.clone())),
            (String::from_str("AdditionalHardwareVersion"), Json::Text(self.additional_hardware_version.clone())),
            (String::from_str("AdditionalSoftwareVersion"), Json::Text(self.additional_software_version.clone())),
            (String::from_str("SpecVersion"), Json::Text(self.spec_version.clone())),
            (String::from_str("ProvisioningCode"), Json::Text(self.provisioning_code.clone())),
            (String::from_str("UpTime"), Json::Number(Some(self.up_time as u64))),
            (String::from_str("FirstUseDate"), Json::Text(self.first_use_date.clone())),
            (String::from_str("DeviceLog"), Json::Text(self.device_log.clone())),
            (String::from_str("VendorConfigFileNumberOfEntries"), Json::Number(Some(self.vendor_config_file_number_of_entries as u64))),
            (String::from_str("ManufacturerURL"), Json::Text(self.manufacturer_url.clone())),
            (String::from_str("Country"), Json::Text(self.country.clone())),
            (String::from_str("ExternalIPAddress"), Json::Text(self.external_ip_address.clone())),
            (String::from_str("DeviceStatus"), Json::Text(self.device_status.clone())),
            (String::from_str("NumberOfReboots"), Json::Number(Some(self.number_of_reboots as u64))),
            (String::from_str("UpgradeOccurred"), Json::Bool(self.upgrade_occurred)),
            (String::from_str("ResetOccurred"), Json::Bool(self.reset_occurred)),
            (String::from_str("RestoreOccurred"), Json::Bool(self.restore_occurred)),
            (String::from_str("StandbyOccurred"), Json::Bool(self.standby_occurred)),
            (String::from_str("X_SOFTATHOME-COM_AdditionalSoftwareVersions"), Json::Text(self.softathome_additional_software_versions.clone())),
            (String::from_str("BaseMAC"), Json::Text(self.base_mac.clone())),
        ];
        proof {
            lemma_status_lookups(e@);
            assert forall|i: int| 0 <= i < e@.len() implies is_status_key(#[trigger] e@[i].0@) by {}
        }
        Json::Object(e)
    }
}

} // verus!
