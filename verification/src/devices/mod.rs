pub mod arctis_nova_7;
pub mod dummy;

use async_hid::HidError;
use vstd::prelude::*;

use crate::config::CallAction;
use crate::text::{decimal, push_decimal};

verus! {

/// The charge state a headset reports.
#[derive(Debug, Clone, Copy, PartialEq, Eq, Structural)]
pub enum BatteryLevel {
    Unknown,
    Charging,
    Level(u8),
}

/// What `display_string` shows for a battery state.
pub open spec fn battery_text(b: BatteryLevel) -> Seq<char> {
    match b {
        BatteryLevel::Unknown => "Error"@,
        BatteryLevel::Charging => "Charging"@,
        BatteryLevel::Level(level) => decimal(level as nat) + "%"@,
    }
}

impl Default for BatteryLevel {
    fn default() -> (r: Self)
        ensures
            r == BatteryLevel::Unknown,
    {
        BatteryLevel::Unknown
    }
}

impl BatteryLevel {
    /// The text shown for this state: "Error", "Charging", or the level
    /// followed by a percent sign.
    pub fn display_string(&self) -> (r: String)
        ensures
            r@ == battery_text(*self),
    {
        let mut s = String::new();
        match self {
            BatteryLevel::Unknown => s.append("Error"),
            BatteryLevel::Charging => s.append("Charging"),
            BatteryLevel::Level(level) => {
                push_decimal(&mut s, *level);
                s.append("%");
            },
        }
        s
    }
}

/// The split between game and chat audio, each in percent.
#[derive(Debug, Clone, Copy, PartialEq, Eq, Structural)]
pub struct ChatMix {
    pub game: u8,
    pub chat: u8,
}

impl Default for ChatMix {
    fn default() -> (r: Self)
        ensures
            r == (ChatMix { game: 100, chat: 100 }),
    {
        Self { game: 100, chat: 100 }
    }
}

/// One HID interface of a device.
#[derive(Debug, Clone, Copy, PartialEq, Eq, Hash, Structural)]
pub struct Interface {
    pub product_id: u16,
    pub vendor_id: u16,
    pub usage_id: u16,
    pub usage_page: u16,
}

impl Interface {
    pub fn new(usage_page: u16, usage_id: u16, vendor_id: u16, product_id: u16) -> (r: Self)
        ensures
            r == (Interface { product_id, vendor_id, usage_id, usage_page }),
    {
        Self { product_id, vendor_id, usage_id, usage_page }
    }
}

/// The names under which a device is shown.
#[derive(Debug, Clone, Copy, PartialEq, Eq)]
pub struct DeviceStrings {
    pub name: &'static str,
    pub manufacturer: &'static str,
    pub product: &'static str,
}

impl DeviceStrings {
    pub fn new(name: &'static str, manufacturer: &'static str, product: &'static str) -> (r: Self)
        ensures
            r.name == name,
            r.manufacturer == manufacturer,
            r.product == product,
    {
        Self { name, manufacturer, product }
    }
}

/// Which implementation opens a device.
#[derive(Debug, Clone, Copy, PartialEq, Eq, Structural)]
pub enum DeviceModel {
    ArctisNova7 { product_id: u16 },
    Dummy,
}

/// A device model the application knows: its names, the HID interfaces
/// that must all be present for it to be usable, and which implementation
/// opens it.
#[derive(Debug, Clone)]
pub struct SupportedDevice {
    pub strings: DeviceStrings,
    pub required_interfaces: Vec<Interface>,
    pub model: DeviceModel,
}

impl SupportedDevice {
    pub fn name(&self) -> (r: &'static str)
        ensures
            r == self.strings.name,
    {
        self.strings.name
    }
}

/// The known models, in order of preference; the dummy device last when
/// it is enabled.
pub fn supported_devices(dummy_enabled: bool) -> (r: Vec<SupportedDevice>)
    ensures
        r@.len() == if dummy_enabled {
            4int
        } else {
            3int
        },
        arctis_nova_7::is_model(r@[0], "Steelseries Arctis Nova 7"@, arctis_nova_7::PID_ARCTIS_NOVA_7),
        arctis_nova_7::is_model(r@[1], "Steelseries Arctis Nova 7X"@, arctis_nova_7::PID_ARCTIS_NOVA_7X),
        arctis_nova_7::is_model(r@[2], "Steelseries Arctis Nova 7P"@, arctis_nova_7::PID_ARCTIS_NOVA_7P),
        dummy_enabled ==> r@[3].strings.name@ == "DummyDevice"@ && r@[3].required_interfaces@.len()
            == 0 && r@[3].model == DeviceModel::Dummy,
{
    let mut r = Vec::new();
    r.push(arctis_nova_7::arctis_nova_7());
    r.push(arctis_nova_7::arctis_nova_7x());
    r.push(arctis_nova_7::arctis_nova_7p());
    if dummy_enabled {
        r.push(dummy::dummy_supported_device());
    }
    r
}

/// Every interface that `device` requires is in `present`.
pub open spec fn all_present(device: SupportedDevice, present: Seq<Interface>) -> bool {
    forall|j: int|
        0 <= j < device.required_interfaces@.len() ==> present.contains(
            #[trigger] device.required_interfaces@[j],
        )
}

fn contains_interface(present: &Vec<Interface>, i: Interface) -> (r: bool)
    ensures
        r == present@.contains(i),
{
    let mut k: usize = 0;
    while k < present.len()
        invariant
            k <= present@.len(),
            forall|m: int| 0 <= m < k ==> present@[m] != i,
        decreases present@.len() - k,
    {
        if present[k] == i {
            return true;
        }
        k = k + 1;
    }
    false
}

fn has_all_interfaces(device: &SupportedDevice, present: &Vec<Interface>) -> (r: bool)
    ensures
        r == all_present(*device, present@),
{
    let mut j: usize = 0;
    while j < device.required_interfaces.len()
        invariant
            j <= device.required_interfaces@.len(),
            forall|m: int|
                0 <= m < j ==> present@.contains(#[trigger] device.required_interfaces@[m]),
        decreases device.required_interfaces@.len() - j,
    {
        if !contains_interface(present, device.required_interfaces[j]) {
            return false;
        }
        j = j + 1;
    }
    true
}

/// The positions in `devices` of the models whose required interfaces are
/// all present, in their order.
pub fn available_devices(devices: &Vec<SupportedDevice>, present: &Vec<Interface>) -> (r: Vec<
    usize,
>)
    ensures
        forall|k: int| 0 <= k < r@.len() ==> #[trigger] r@[k] < devices@.len(),
        forall|k: int|
            0 <= k < r@.len() ==> all_present(devices@[#[trigger] r@[k] as int], present@),
        forall|k: int, m: int| 0 <= k < m < r@.len() ==> #[trigger] r@[k] < #[trigger] r@[m],
        forall|i: int|
            0 <= i < devices@.len() && all_present(#[trigger] devices@[i], present@) ==> r@.contains(
                i as usize,
            ),
{
    let mut r: Vec<usize> = Vec::new();
    let mut i: usize = 0;
    while i < devices.len()
        invariant
            i <= devices@.len(),
            forall|k: int| 0 <= k < r@.len() ==> #[trigger] r@[k] < i,
            forall|k: int|
                0 <= k < r@.len() ==> all_present(devices@[#[trigger] r@[k] as int], present@),
            forall|k: int, m: int| 0 <= k < m < r@.len() ==> #[trigger] r@[k] < #[trigger] r@[m],
            forall|x: int|
                0 <= x < i && all_present(#[trigger] devices@[x], present@) ==> r@.contains(
                    x as usize,
                ),
        decreases devices@.len() - i,
    {
        let ghost old_r = r@;
        if has_all_interfaces(&devices[i], present) {
            r.push(i);
            assert(r@[r@.len() - 1] == i);
        }
        proof {
            assert forall|x: int|
                0 <= x < i + 1 && all_present(#[trigger] devices@[x], present@) implies r@.contains(
                x as usize,
            ) by {
                if x == i {
                    assert(r@[r@.len() - 1] == i);
                } else {
                    assert(old_r.contains(x as usize));
                    let k = choose|k: int| 0 <= k < old_r.len() && old_r[k] == x as usize;
                    assert(r@[k] == x as usize);
                }
            }
        }
        i = i + 1;
    }
    r
}

/// The devices named `preference` (in their order), then every device
/// (in order): the order in which opening them is tried.
pub open spec fn preferred_order_spec(names: Seq<Seq<char>>, preference: Option<Seq<char>>) -> Seq<
    usize,
> {
    let all = Seq::new(names.len(), |i: int| i as usize);
    match preference {
        Some(p) => all.filter(name_is(names, p)) + all,
        None => all,
    }
}

/// The positions whose name is `p`.
pub open spec fn name_is(names: Seq<Seq<char>>, p: Seq<char>) -> spec_fn(usize) -> bool {
    |i: usize| names[i as int] == p
}

/// The order in which to try opening the devices: those named
/// `preference` first, then all of them.
pub fn preferred_order(devices: &Vec<SupportedDevice>, preference: &Option<String>) -> (r: Vec<
    usize,
>)
    ensures
        r@ == preferred_order_spec(
            devices@.map_values(|d: SupportedDevice| d.strings.name@),
            match preference {
                Some(p) => Some(p@),
                None => None,
            },
        ),
{
    let ghost names = devices@.map_values(|d: SupportedDevice| d.strings.name@);
    let ghost all = Seq::new(names.len(), |i: int| i as usize);
    let mut r: Vec<usize> = Vec::new();
    match preference {
        Some(p) => {
            let mut i: usize = 0;
            while i < devices.len()
                invariant
                    i <= devices@.len(),
                    names == devices@.map_values(|d: SupportedDevice| d.strings.name@),
                    all == Seq::new(names.len(), |i: int| i as usize),
                    r@ == all.take(i as int).filter(name_is(names, p@)),
                decreases devices@.len() - i,
            {
                let name = String::from_str(devices[i].strings.name);
                proof {
                    assert(all.take(i + 1).drop_last() =~= all.take(i as int));
                    reveal_with_fuel(Seq::<_>::filter, 1);
                }
                if name == *p {
                    r.push(i);
                }
                i = i + 1;
            }
            assert(all.take(devices@.len() as int) =~= all);
        },
        None => {},
    }
    let ghost prefix = r@;
    let mut i: usize = 0;
    while i < devices.len()
        invariant
            i <= devices@.len(),
            names.len() == devices@.len(),
            all == Seq::new(names.len(), |i: int| i as usize),
            r@ == prefix + all.take(i as int),
        decreases devices@.len() - i,
    {
        r.push(i);
        i = i + 1;
        assert(r@ =~= prefix + all.take(i as int));
    }
    assert(all.take(devices@.len() as int) =~= all);
    r
}

/// The (vendor id, product id) pairs of `interfaces`, each once, in the
/// order of their first occurrence.
pub open spec fn unique_codes(interfaces: Seq<Interface>) -> Seq<(u16, u16)>
    decreases interfaces.len(),
{
    if interfaces.len() == 0 {
        Seq::empty()
    } else {
        let rest = unique_codes(interfaces.drop_last());
        let code = (interfaces.last().vendor_id, interfaces.last().product_id);
        if rest.contains(code) {
            rest
        } else {
            rest.push(code)
        }
    }
}

/// One udev rule that grants access to the hidraw nodes of a device.
pub open spec fn udev_rule(code: (u16, u16)) -> Seq<char> {
    "KERNEL==\"hidraw*\", ATTRS{idVendor}==\""@ + crate::text::hex4(code.0)
        + "\", ATTRS{idProduct}==\""@ + crate::text::hex4(code.1) + "\", TAG+=\"uaccess\"\n"@
}

/// The rules for a list of (vendor, product) pairs, one line each.
pub open spec fn udev_rules_for(codes: Seq<(u16, u16)>) -> Seq<char>
    decreases codes.len(),
{
    if codes.len() == 0 {
        Seq::empty()
    } else {
        udev_rules_for(codes.drop_last()) + udev_rule(codes.last())
    }
}

/// The section for one device: a comment with its name, its rules, an empty line.
pub open spec fn udev_section(device: SupportedDevice) -> Seq<char> {
    "# "@ + device.strings.name@ + "\n"@ + udev_rules_for(
        unique_codes(device.required_interfaces@),
    ) + "\n"@
}

/// The sections of a list of devices, in order.
pub open spec fn udev_sections(devices: Seq<SupportedDevice>) -> Seq<char>
    decreases devices.len(),
{
    if devices.len() == 0 {
        Seq::empty()
    } else {
        udev_sections(devices.drop_last()) + udev_section(devices.last())
    }
}

/// The whole rules file for `devices`.
pub open spec fn udev_file(devices: Seq<SupportedDevice>) -> Seq<char> {
    "ACTION!=\"add|change\", GOTO=\"headsets_end\"\n"@ + "\n"@ + udev_sections(devices)
        + "LABEL=\"headsets_end\"\n"@
}

fn contains_code(codes: &Vec<(u16, u16)>, code: (u16, u16)) -> (r: bool)
    ensures
        r == codes@.contains(code),
{
    let mut k: usize = 0;
    while k < codes.len()
        invariant
            k <= codes@.len(),
            forall|m: int| 0 <= m < k ==> codes@[m] != code,
        decreases codes@.len() - k,
    {
        if codes[k].0 == code.0 && codes[k].1 == code.1 {
            return true;
        }
        k = k + 1;
    }
    false
}

fn device_codes(interfaces: &Vec<Interface>) -> (r: Vec<(u16, u16)>)
    ensures
        r@ == unique_codes(interfaces@),
{
    let mut r: Vec<(u16, u16)> = Vec::new();
    let mut i: usize = 0;
    while i < interfaces.len()
        invariant
            i <= interfaces@.len(),
            r@ == unique_codes(interfaces@.take(i as int)),
        decreases interfaces@.len() - i,
    {
        let code = (interfaces[i].vendor_id, interfaces[i].product_id);
        proof {
            assert(interfaces@.take(i + 1).drop_last() =~= interfaces@.take(i as int));
            assert(interfaces@.take(i + 1).last() == interfaces@[i as int]);
        }
        if !contains_code(&r, code) {
            r.push(code);
        }
        i = i + 1;
    }
    assert(interfaces@.take(interfaces@.len() as int) =~= interfaces@);
    r
}

/// Appends the udev section of `device` to `s`.
fn push_udev_section(s: &mut String, device: &SupportedDevice)
    ensures
        final(s)@ == old(s)@ + udev_section(*device),
{
    let ghost s0 = s@;
    s.append("# ");
    s.append(device.strings.name);
    s.append("\n");
    let codes = device_codes(&device.required_interfaces);
    let ghost s1 = s@;
    let mut k: usize = 0;
    while k < codes.len()
        invariant
            k <= codes@.len(),
            s@ == s1 + udev_rules_for(codes@.take(k as int)),
        decreases codes@.len() - k,
    {
        let ghost before = s@;
        s.append("KERNEL==\"hidraw*\", ATTRS{idVendor}==\"");
        crate::text::push_hex4(s, codes[k].0);
        s.append("\", ATTRS{idProduct}==\"");
        crate::text::push_hex4(s, codes[k].1);
        s.append("\", TAG+=\"uaccess\"\n");
        proof {
            assert(codes@.take(k + 1).drop_last() =~= codes@.take(k as int));
            assert(codes@.take(k + 1).last() == codes@[k as int]);
            assert(s@ =~= before + udev_rule(codes@[k as int]));
        }
        k = k + 1;
    }
    assert(codes@.take(codes@.len() as int) =~= codes@);
    s.append("\n");
    assert(s@ =~= s0 + udev_section(*device));
}

/// The udev rules that give the logged-in user access to the given devices.
pub fn udev_rules_for_devices(devices: &Vec<SupportedDevice>) -> (r: String)
    ensures
        r@ == udev_file(devices@),
{
    let mut s = String::new();
    s.append("ACTION!=\"add|change\", GOTO=\"headsets_end\"\n");
    s.append("\n");
    let ghost s1 = s@;
    let mut i: usize = 0;
    while i < devices.len()
        invariant
            i <= devices@.len(),
            s@ == s1 + udev_sections(devices@.take(i as int)),
        decreases devices@.len() - i,
    {
        push_udev_section(&mut s, &devices[i]);
        proof {
            assert(devices@.take(i + 1).drop_last() =~= devices@.take(i as int));
            assert(devices@.take(i + 1).last() == devices@[i as int]);
        }
        i = i + 1;
    }
    assert(devices@.take(devices@.len() as int) =~= devices@);
    s.append("LABEL=\"headsets_end\"\n");
    s
}

/// The udev rules for the supported headsets (without the dummy device).
pub fn generate_udev_rules() -> (r: String)
    ensures
        exists|devices: Seq<SupportedDevice>|
            #![trigger udev_file(devices)]
            devices.len() == 3 && arctis_nova_7::is_model(devices[0], "Steelseries Arctis Nova 7"@, arctis_nova_7::PID_ARCTIS_NOVA_7)
                && arctis_nova_7::is_model(devices[1], "Steelseries Arctis Nova 7X"@, arctis_nova_7::PID_ARCTIS_NOVA_7X)
                && arctis_nova_7::is_model(devices[2], "Steelseries Arctis Nova 7P"@, arctis_nova_7::PID_ARCTIS_NOVA_7P)
                && r@ == udev_file(devices),
{
    let devices = supported_devices(false);
    udev_rules_for_devices(&devices)
}

#[verifier::external_type_specification]
#[verifier::external_body]
pub struct ExHidError(HidError);

/// Whether a notification report is long enough to be read by
/// `parse_status_update`.
pub fn status_report_readable(data: &[u8]) -> (r: bool)
    ensures
        r == arctis_nova_7::status_report_long_enough(data@),
{
    if data.len() == 0 {
        false
    } else if data[0] == arctis_nova_7::CHAT_MIX_CHANGED {
        data.len() >= 3
    } else if data[0] == arctis_nova_7::POWER_STATE_CHANGED || data[0] == arctis_nova_7::BATTERY_LEVEL_CHANGED {
        data.len() >= 2
    } else {
        true
    }
}

/// A notification from a device's background task.
#[derive(Debug)]
pub enum DeviceUpdate {
    ConnectionChanged,
    ChatMixChanged,
    BatteryLevel,
    DeviceError(HidError),
}

/// A setting change to be sent to a device.
#[derive(Debug, Clone)]
pub enum ConfigAction {
    SetSideTone(u8),
    EnableVolumeLimiter(bool),
    SetMicrophoneVolume(u8),
    SetEqualizerLevels(Vec<u8>),
    SetBluetoothCallAction(CallAction),
    EnableAutoBluetoothActivation(bool),
    SetMicrophoneLightStrength(u8),
    SetInactiveTime(u8),
}

/// The band levels of each preset, in order.
pub open spec fn preset_levels_of(presets: Seq<(&str, &[u8])>) -> Seq<Seq<u8>> {
    presets.map_values(|p: (&str, &[u8])| p.1@)
}

/// A headset the application can show and configure.
pub trait Device {
    fn strings(&self) -> DeviceStrings;

    fn is_connected(&self) -> bool;

    fn name(&self) -> &'static str {
        self.strings().name
    }

    fn get_battery_status(&self) -> (r: Option<BatteryLevel>)
        default_ensures
            r is None,
    {
        None
    }

    fn get_chat_mix(&self) -> (r: Option<ChatMix>)
        default_ensures
            r is None,
    {
        None
    }

    fn get_side_tone(&self) -> (r: Option<&dyn SideTone>)
        default_ensures
            r is None,
    {
        None
    }

    fn get_mic_volume(&self) -> (r: Option<&dyn MicrophoneVolume>)
        default_ensures
            r is None,
    {
        None
    }

    fn get_volume_limiter(&self) -> (r: Option<&dyn VolumeLimiter>)
        default_ensures
            r is None,
    {
        None
    }

    fn get_equalizer(&self) -> (r: Option<&dyn Equalizer>)
        default_ensures
            r is None,
    {
        None
    }

    fn get_bluetooth_config(&self) -> (r: Option<&dyn BluetoothConfig>)
        default_ensures
            r is None,
    {
        None
    }

    fn get_inactive_time(&self) -> (r: Option<&dyn InactiveTime>)
        default_ensures
            r is None,
    {
        None
    }

    fn get_mic_light(&self) -> (r: Option<&dyn MicrophoneLight>)
        default_ensures
            r is None,
    {
        None
    }
}

pub trait SideTone {
    fn levels(&self) -> u8;

    fn set_level(&self, level: u8);
}

pub trait VolumeLimiter {
    fn set_enabled(&self, enabled: bool);
}

pub trait MicrophoneVolume {
    fn levels(&self) -> u8;

    fn set_level(&self, level: u8);
}

pub trait Equalizer {
    fn bands(&self) -> u8;

    fn base_level(&self) -> u8;

    fn variance(&self) -> u8;

    fn presets(&self) -> &[(&str, &[u8])];

    fn set_levels(&self, levels: &[u8]);
}

pub trait BluetoothConfig {
    fn set_call_action(&self, action: CallAction);

    fn set_auto_enabled(&self, enabled: bool);
}

pub trait MicrophoneLight {
    fn levels(&self) -> u8;

    fn set_light_strength(&self, level: u8);
}

pub trait InactiveTime {
    fn set_inactive_time(&self, minutes: u8);
}

} // verus!
