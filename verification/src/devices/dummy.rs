use vstd::prelude::*;

use crate::config::CallAction;
use crate::devices::{
    BatteryLevel, BluetoothConfig, ChatMix, Device, DeviceModel, DeviceStrings, Equalizer, InactiveTime,
    MicrophoneLight, MicrophoneVolume, SideTone, SupportedDevice, VolumeLimiter,
};

verus! {

/// The names of the dummy device.
pub fn dummy_strings() -> (r: DeviceStrings)
    ensures
        r.name@ == "DummyDevice"@,
        r.manufacturer@ == "DummyCorp"@,
        r.product@ == "DummyDevice"@,
{
    DeviceStrings::new("DummyDevice", "DummyCorp", "DummyDevice")
}

/// The dummy model: it needs no interface.
pub fn dummy_supported_device() -> (r: SupportedDevice)
    ensures
        r.strings.name@ == "DummyDevice"@,
        r.strings.manufacturer@ == "DummyCorp"@,
        r.strings.product@ == "DummyDevice"@,
        r.required_interfaces@.len() == 0,
        r.model == DeviceModel::Dummy,
{
    SupportedDevice {
        strings: dummy_strings(),
        required_interfaces: Vec::new(),
        model: DeviceModel::Dummy,
    }
}

/// A device that has every feature, is always connected and ignores every
/// setting; useful without hardware.
#[derive(Debug, Copy, Clone, Eq, PartialEq)]
pub struct DummyDevice;

impl Device for DummyDevice {
    fn strings(&self) -> (r: DeviceStrings)
        ensures
            r.name@ == "DummyDevice"@,
            r.manufacturer@ == "DummyCorp"@,
            r.product@ == "DummyDevice"@,
    {
        dummy_strings()
    }

    fn is_connected(&self) -> (r: bool)
        ensures
            r,
    {
        true
    }

    fn get_battery_status(&self) -> (r: Option<BatteryLevel>)
        ensures
            r == Some(BatteryLevel::Charging),
    {
        Some(BatteryLevel::Charging)
    }

    fn get_chat_mix(&self) -> (r: Option<ChatMix>)
        ensures
            r == Some(ChatMix { game: 100, chat: 100 }),
    {
        Some(ChatMix::default())
    }

    fn get_side_tone(&self) -> (r: Option<&dyn SideTone>)
        ensures
            r is Some,
    {
        Some(self)
    }

    fn get_mic_volume(&self) -> (r: Option<&dyn MicrophoneVolume>)
        ensures
            r is Some,
    {
        Some(self)
    }

    fn get_volume_limiter(&self) -> (r: Option<&dyn VolumeLimiter>)
        ensures
            r is Some,
    {
        Some(self)
    }

    fn get_equalizer(&self) -> (r: Option<&dyn Equalizer>)
        ensures
            r is Some,
    {
        Some(self)
    }

    fn get_bluetooth_config(&self) -> (r: Option<&dyn BluetoothConfig>)
        ensures
            r is Some,
    {
        Some(self)
    }

    fn get_inactive_time(&self) -> (r: Option<&dyn InactiveTime>)
        ensures
            r is Some,
    {
        Some(self)
    }

    fn get_mic_light(&self) -> (r: Option<&dyn MicrophoneLight>)
        ensures
            r is Some,
    {
        Some(self)
    }
}

impl SideTone for DummyDevice {
    fn levels(&self) -> u8
        returns
            6u8,
    {
        6
    }

    fn set_level(&self, level: u8) {
    }
}

impl MicrophoneVolume for DummyDevice {
    fn levels(&self) -> u8
        returns
            12u8,
    {
        12
    }

    fn set_level(&self, level: u8) {
    }
}

impl MicrophoneLight for DummyDevice {
    fn levels(&self) -> u8
        returns
            2u8,
    {
        2
    }

    fn set_light_strength(&self, level: u8) {
    }
}

impl Equalizer for DummyDevice {
    fn bands(&self) -> (r: u8)
        ensures
            r == 13,
    {
        13
    }

    fn base_level(&self) -> (r: u8)
        ensures
            r == 8,
    {
        8
    }

    fn variance(&self) -> (r: u8)
        ensures
            r == 3,
    {
        3
    }

    fn presets(&self) -> (r: &[(&str, &[u8])])
        ensures
            r@.len() == 1,
            r@[0].0@ == "Default"@,
            r@[0].1@ == Seq::new(13, |i: int| 8u8),
    {
        let r: &[(&str, &[u8])] = &[("Default", &[8u8, 8, 8, 8, 8, 8, 8, 8, 8, 8, 8, 8, 8])];
        assert(r@[0].1@ =~= Seq::new(13, |i: int| 8u8));
        r
    }

    fn set_levels(&self, levels: &[u8]) {
    }
}

impl VolumeLimiter for DummyDevice {
    fn set_enabled(&self, enabled: bool) {
    }
}

impl BluetoothConfig for DummyDevice {
    fn set_call_action(&self, action: CallAction) {
    }

    fn set_auto_enabled(&self, enabled: bool) {
    }
}

impl InactiveTime for DummyDevice {
    fn set_inactive_time(&self, minutes: u8) {
    }
}

} // verus!
