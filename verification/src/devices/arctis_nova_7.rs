use vstd::prelude::*;

use crate::config::CallAction;
use crate::devices::{
    BatteryLevel, ChatMix, ConfigAction, DeviceModel, DeviceStrings, DeviceUpdate, Interface,
    SupportedDevice,
};

verus! {

pub const VID_STEELSERIES: u16 = 0x1038;

pub const PID_ARCTIS_NOVA_7: u16 = 0x2202;

pub const PID_ARCTIS_NOVA_7X: u16 = 0x2206;

pub const PID_ARCTIS_NOVA_7P: u16 = 0x220a;

pub const USAGE_ID: u16 = 0x1;

pub const NOTIFICATION_USAGE_PAGE: u16 = 0xFF00;

pub const CONFIGURATION_USAGE_PAGE: u16 = 0xFFC0;

/// The size of a status report.
pub const STATUS_BUF_SIZE: usize = 8;

/// The number of side tone levels.
pub const SIDE_TONE_LEVELS: u8 = 4;

/// The number of microphone volume levels.
pub const MIC_VOLUME_LEVELS: u8 = 8;

/// The number of microphone light levels.
pub const MIC_LIGHT_LEVELS: u8 = 4;

/// The number of equalizer bands.
pub const EQUALIZER_BANDS: u8 = 10;

/// The neutral level of an equalizer band.
pub const EQUALIZER_BASE_LEVEL: u8 = 0x14;

/// How far a band may move away from the neutral level.
pub const EQUALIZER_VARIANCE: u8 = 0x14;

/// The two interfaces (notification, configuration) of the model with
/// product id `pid`.
pub open spec fn model_interfaces(pid: u16) -> Seq<Interface> {
    seq![
            Interface {
                product_id: pid,
                vendor_id: VID_STEELSERIES,
                usage_id: USAGE_ID,
                usage_page: NOTIFICATION_USAGE_PAGE,
            },
            Interface {
                product_id: pid,
                vendor_id: VID_STEELSERIES,
                usage_id: USAGE_ID,
                usage_page: CONFIGURATION_USAGE_PAGE,
            },
        ]
}

/// `d` is the model called `name` with product id `pid`.
pub open spec fn is_model(d: SupportedDevice, name: Seq<char>, pid: u16) -> bool {
    &&& d.strings.name@ == name
    &&& d.required_interfaces@ == model_interfaces(pid)
    &&& d.model == (DeviceModel::ArctisNova7 { product_id: pid })
}

/// The interfaces of the model with product id `pid`.
pub fn interfaces_of(pid: u16) -> (r: Vec<Interface>)
    ensures
        r@ == model_interfaces(pid),
{
    let mut r = Vec::new();
    r.push(Interface::new(NOTIFICATION_USAGE_PAGE, USAGE_ID, VID_STEELSERIES, pid));
    r.push(Interface::new(CONFIGURATION_USAGE_PAGE, USAGE_ID, VID_STEELSERIES, pid));
    r
}

/// The configuration interface of the model with product id `pid`.
pub fn configuration_interface(pid: u16) -> (r: Interface)
    ensures
        r == (Interface {
            product_id: pid,
            vendor_id: VID_STEELSERIES,
            usage_id: USAGE_ID,
            usage_page: CONFIGURATION_USAGE_PAGE,
        }),
{
    Interface::new(CONFIGURATION_USAGE_PAGE, USAGE_ID, VID_STEELSERIES, pid)
}

/// The notification interface of the model with product id `pid`.
pub fn notification_interface(pid: u16) -> (r: Interface)
    ensures
        r == (Interface {
            product_id: pid,
            vendor_id: VID_STEELSERIES,
            usage_id: USAGE_ID,
            usage_page: NOTIFICATION_USAGE_PAGE,
        }),
{
    Interface::new(NOTIFICATION_USAGE_PAGE, USAGE_ID, VID_STEELSERIES, pid)
}

/// The PC model.
pub fn arctis_nova_7() -> (r: SupportedDevice)
    ensures
        r.strings.name@ == "Steelseries Arctis Nova 7"@,
        r.strings.manufacturer@ == "Steelseries"@,
        r.strings.product@ == "Arctis Nova 7"@,
        r.required_interfaces@ == model_interfaces(PID_ARCTIS_NOVA_7),
        r.model == (DeviceModel::ArctisNova7 { product_id: PID_ARCTIS_NOVA_7 }),
{
    SupportedDevice {
        strings: DeviceStrings::new("Steelseries Arctis Nova 7", "Steelseries", "Arctis Nova 7"),
        required_interfaces: interfaces_of(PID_ARCTIS_NOVA_7),
        model: DeviceModel::ArctisNova7 { product_id: PID_ARCTIS_NOVA_7 },
    }
}

/// The Xbox model.
pub fn arctis_nova_7x() -> (r: SupportedDevice)
    ensures
        r.strings.name@ == "Steelseries Arctis Nova 7X"@,
        r.strings.manufacturer@ == "Steelseries"@,
        r.strings.product@ == "Arctis Nova 7X"@,
        r.required_interfaces@ == model_interfaces(PID_ARCTIS_NOVA_7X),
        r.model == (DeviceModel::ArctisNova7 { product_id: PID_ARCTIS_NOVA_7X }),
{
    SupportedDevice {
        strings: DeviceStrings::new(
            "Steelseries Arctis Nova 7X",
            "Steelseries",
            "Arctis Nova 7X",
        ),
        required_interfaces: interfaces_of(PID_ARCTIS_NOVA_7X),
        model: DeviceModel::ArctisNova7 { product_id: PID_ARCTIS_NOVA_7X },
    }
}

/// The PlayStation model.
pub fn arctis_nova_7p() -> (r: SupportedDevice)
    ensures
        r.strings.name@ == "Steelseries Arctis Nova 7P"@,
        r.strings.manufacturer@ == "Steelseries"@,
        r.strings.product@ == "Arctis Nova 7P"@,
        r.required_interfaces@ == model_interfaces(PID_ARCTIS_NOVA_7P),
        r.model == (DeviceModel::ArctisNova7 { product_id: PID_ARCTIS_NOVA_7P }),
{
    SupportedDevice {
        strings: DeviceStrings::new(
            "Steelseries Arctis Nova 7P",
            "Steelseries",
            "Arctis Nova 7P",
        ),
        required_interfaces: interfaces_of(PID_ARCTIS_NOVA_7P),
        model: DeviceModel::ArctisNova7 { product_id: PID_ARCTIS_NOVA_7P },
    }
}

/// Whether the headset is switched off, charging or running on battery.
#[derive(Debug, Copy, Clone, Eq, PartialEq, Structural)]
pub enum PowerState {
    Offline,
    Charging,
    Discharging,
}

impl Default for PowerState {
    fn default() -> (r: Self)
        ensures
            r == PowerState::Offline,
    {
        PowerState::Offline
    }
}

/// The power state that a status byte stands for: 0 offline, 1 charging,
/// 3 discharging; anything else reads as offline.
pub open spec fn power_state_of(byte: u8) -> PowerState {
    if byte == 1 {
        PowerState::Charging
    } else if byte == 3 {
        PowerState::Discharging
    } else {
        PowerState::Offline
    }
}

impl PowerState {
    pub fn from_u8(byte: u8) -> (r: Self)
        ensures
            r == power_state_of(byte),
    {
        match byte {
            0x0 => Self::Offline,
            0x1 => Self::Charging,
            0x3 => Self::Discharging,
            _ => Self::default(),
        }
    }
}

/// What is known of the headset.
#[derive(Debug, Default, Copy, Clone, Eq, PartialEq, Structural)]
pub struct State {
    pub power_state: PowerState,
    pub battery: u8,
    pub chat_mix: ChatMix,
}

/// The battery state shown for a headset state.
pub open spec fn battery_of(s: State) -> BatteryLevel {
    match s.power_state {
        PowerState::Offline => BatteryLevel::Unknown,
        PowerState::Charging => BatteryLevel::Charging,
        PowerState::Discharging => BatteryLevel::Level(s.battery),
    }
}

/// A change the headset reports on its notification interface.
#[derive(Debug, Copy, Clone, PartialEq, Eq, Structural)]
pub enum StatusUpdate {
    PowerState(PowerState),
    Battery(u8),
    ChatMix(ChatMix),
}

/// The state after `u` is applied to `s`.
pub open spec fn state_after(s: State, u: StatusUpdate) -> State {
    match u {
        StatusUpdate::PowerState(ps) => State { power_state: ps, ..s },
        StatusUpdate::Battery(level) => State { battery: level, ..s },
        StatusUpdate::ChatMix(mix) => State { chat_mix: mix, ..s },
    }
}

impl State {
    /// The headset counts as connected unless it is offline.
    pub fn is_connected(self) -> (r: bool)
        ensures
            r == (self.power_state != PowerState::Offline),
    {
        self.power_state != PowerState::Offline
    }

    pub fn battery(self) -> (r: BatteryLevel)
        ensures
            r == battery_of(self),
    {
        match self.power_state {
            PowerState::Offline => BatteryLevel::Unknown,
            PowerState::Charging => BatteryLevel::Charging,
            PowerState::Discharging => BatteryLevel::Level(self.battery),
        }
    }

    /// Applies a reported change.
    pub fn apply(&mut self, update: StatusUpdate)
        ensures
            *final(self) == state_after(*old(self), update),
    {
        match update {
            StatusUpdate::PowerState(ps) => self.power_state = ps,
            StatusUpdate::Battery(level) => self.battery = level,
            StatusUpdate::ChatMix(mix) => self.chat_mix = mix,
        }
    }
}

/// The battery percentage for a raw level: the raw value is held to 0..=4
/// and scaled by 25.
pub open spec fn battery_percent(byte: u8) -> u8 {
    if byte > 4 {
        100
    } else {
        (byte * 25) as u8
    }
}

pub fn normalize_battery_level(byte: u8) -> (r: u8)
    ensures
        r == battery_percent(byte),
        r <= 100,
{
    let level = if byte > 4 {
        4
    } else {
        byte
    };
    level * 25
}

/// The message kind of a power state change.
pub const POWER_STATE_CHANGED: u8 = 0xbb;

/// The message kind of a battery level change.
pub const BATTERY_LEVEL_CHANGED: u8 = 0xb7;

/// The message kind of a chat mix change.
pub const CHAT_MIX_CHANGED: u8 = 0x45;

/// `data` is long enough for the message its first byte announces.
pub open spec fn status_report_long_enough(data: Seq<u8>) -> bool {
    &&& data.len() >= 1
    &&& data[0] == CHAT_MIX_CHANGED ==> data.len() >= 3
    &&& (data[0] == POWER_STATE_CHANGED || data[0] == BATTERY_LEVEL_CHANGED) ==> data.len() >= 2
}

/// What a notification report means.
pub open spec fn status_update_of(data: Seq<u8>) -> Option<StatusUpdate> {
    if data[0] == CHAT_MIX_CHANGED {
        Some(StatusUpdate::ChatMix(ChatMix { game: data[1], chat: data[2] }))
    } else if data[0] == POWER_STATE_CHANGED {
        Some(StatusUpdate::PowerState(power_state_of(data[1])))
    } else if data[0] == BATTERY_LEVEL_CHANGED {
        Some(StatusUpdate::Battery(battery_percent(data[1])))
    } else {
        None
    }
}

/// Reads a report from the notification interface.
pub fn parse_status_update(data: &[u8]) -> (r: Option<StatusUpdate>)
    requires
        status_report_long_enough(data@),
    ensures
        r == status_update_of(data@),
{
    if data[0] == CHAT_MIX_CHANGED {
        Some(StatusUpdate::ChatMix(ChatMix { game: data[1], chat: data[2] }))
    } else if data[0] == POWER_STATE_CHANGED {
        Some(StatusUpdate::PowerState(PowerState::from_u8(data[1])))
    } else if data[0] == BATTERY_LEVEL_CHANGED {
        Some(StatusUpdate::Battery(normalize_battery_level(data[1])))
    } else {
        None
    }
}

/// The notification that a report gives rise to.
pub fn update_notification(update: StatusUpdate) -> (r: DeviceUpdate)
    ensures
        match update {
            StatusUpdate::PowerState(_) => r is ConnectionChanged,
            StatusUpdate::Battery(_) => r is BatteryLevel,
            StatusUpdate::ChatMix(_) => r is ChatMixChanged,
        },
{
    match update {
        StatusUpdate::PowerState(_) => DeviceUpdate::ConnectionChanged,
        StatusUpdate::Battery(_) => DeviceUpdate::BatteryLevel,
        StatusUpdate::ChatMix(_) => DeviceUpdate::ChatMixChanged,
    }
}

/// The request that asks the configuration interface for its status.
pub fn status_request() -> (r: Vec<u8>)
    ensures
        r@ == seq![0x00u8, 0xb0u8],
{
    vec![0x00, 0xb0]
}

/// The state that an answer to the status request describes: power state
/// from byte 3, battery level from byte 2 (only when discharging, else 0),
/// chat mix from bytes 4 and 5 (only when not offline, else the default).
pub open spec fn state_of_report(buffer: Seq<u8>) -> State {
    let ps = power_state_of(buffer[3]);
    State {
        power_state: ps,
        battery: if ps == PowerState::Discharging {
            battery_percent(buffer[2])
        } else {
            0
        },
        chat_mix: if ps != PowerState::Offline {
            ChatMix { game: buffer[4], chat: buffer[5] }
        } else {
            ChatMix { game: 100, chat: 100 }
        },
    }
}

/// Reads the answer to the status request.
pub fn state_from_report(buffer: &[u8]) -> (r: State)
    requires
        buffer@.len() >= 6,
    ensures
        r == state_of_report(buffer@),
{
    let power_state = PowerState::from_u8(buffer[3]);
    let battery = if power_state == PowerState::Discharging {
        normalize_battery_level(buffer[2])
    } else {
        0
    };
    let chat_mix = if power_state != PowerState::Offline {
        ChatMix { game: buffer[4], chat: buffer[5] }
    } else {
        ChatMix::default()
    };
    State { power_state, battery, chat_mix }
}

/// The byte by which the headset encodes a call action.
pub open spec fn call_action_byte(a: CallAction) -> u8 {
    match a {
        CallAction::Nothing => 0x00,
        CallAction::ReduceVolume => 0x01,
        CallAction::Mute => 0x02,
    }
}

/// The output report that carries `action` to the configuration interface.
pub open spec fn config_report(action: ConfigAction) -> Seq<u8> {
    match action {
        ConfigAction::SetSideTone(level) => seq![0x00, 0x39, level],
        ConfigAction::SetMicrophoneVolume(level) => seq![0x00, 0x37, level],
        ConfigAction::EnableVolumeLimiter(enabled) => seq![
            0x00,
            0x3a,
            if enabled {
                1u8
            } else {
                0u8
            },
        ],
        ConfigAction::SetEqualizerLevels(levels) => seq![0x00u8, 0x33u8] + levels@,
        ConfigAction::SetBluetoothCallAction(a) => seq![0x00, 0xb3, call_action_byte(a)],
        ConfigAction::EnableAutoBluetoothActivation(enabled) => seq![
            0x00,
            0xb2,
            if enabled {
                1u8
            } else {
                0u8
            },
        ],
        ConfigAction::SetMicrophoneLightStrength(level) => seq![0x00, 0xae, level],
        ConfigAction::SetInactiveTime(minutes) => seq![0x00, 0xa3, minutes],
    }
}

/// Encodes a setting change as an output report.
pub fn encode_config_action(action: ConfigAction) -> (r: Vec<u8>)
    ensures
        r@ == config_report(action),
{
    match action {
        ConfigAction::SetSideTone(level) => vec![0x00, 0x39, level],
        ConfigAction::SetMicrophoneVolume(level) => vec![0x00, 0x37, level],
        ConfigAction::EnableVolumeLimiter(enabled) => vec![0x00, 0x3a, if enabled { 1 } else { 0 }],
        ConfigAction::SetEqualizerLevels(levels) => {
            let mut levels = levels;
            crate::util::prepend(&mut levels, &[0x00, 0x33]);
            levels
        },
        ConfigAction::SetBluetoothCallAction(action) => {
            let v: u8 = match action {
                CallAction::Nothing => 0x00,
                CallAction::ReduceVolume => 0x01,
                CallAction::Mute => 0x02,
            };
            vec![0x00, 0xb3, v]
        },
        ConfigAction::EnableAutoBluetoothActivation(enabled) => vec![
            0x00,
            0xb2,
            if enabled { 1 } else { 0 },
        ],
        ConfigAction::SetMicrophoneLightStrength(level) => vec![0x00, 0xae, level],
        ConfigAction::SetInactiveTime(minutes) => vec![0x00, 0xa3, minutes],
    }
}

/// How long the configuration interface may stay idle before it is closed,
/// in seconds: twenty while it is open, no limit while it is closed.
pub fn idle_timeout_secs(connected: bool) -> (r: Option<u64>)
    ensures
        connected ==> r == Some(20u64),
        !connected ==> r is None,
{
    if connected {
        Some(20)
    } else {
        None
    }
}

/// The side tone setting for `level`.
pub fn side_tone_action(level: u8) -> (r: ConfigAction)
    requires
        level < SIDE_TONE_LEVELS,
    ensures
        r == ConfigAction::SetSideTone(level),
{
    ConfigAction::SetSideTone(level)
}

/// The microphone volume setting for `level`.
pub fn microphone_volume_action(level: u8) -> (r: ConfigAction)
    requires
        level < MIC_VOLUME_LEVELS,
    ensures
        r == ConfigAction::SetMicrophoneVolume(level),
{
    ConfigAction::SetMicrophoneVolume(level)
}

/// The microphone light setting for `level`.
pub fn microphone_light_action(level: u8) -> (r: ConfigAction)
    requires
        level < MIC_LIGHT_LEVELS,
    ensures
        r == ConfigAction::SetMicrophoneLightStrength(level),
{
    ConfigAction::SetMicrophoneLightStrength(level)
}

/// `levels` has one level per band, each within the variance around the
/// neutral level.
pub open spec fn valid_equalizer_levels(levels: Seq<u8>) -> bool {
    &&& levels.len() == EQUALIZER_BANDS
    &&& forall|i: int|
        0 <= i < levels.len() ==> EQUALIZER_BASE_LEVEL - EQUALIZER_VARIANCE <= #[trigger] levels[i]
            <= EQUALIZER_BASE_LEVEL + EQUALIZER_VARIANCE
}

/// Whether `levels` may be sent to the equalizer.
pub fn equalizer_levels_valid(levels: &[u8]) -> (r: bool)
    ensures
        r == valid_equalizer_levels(levels@),
{
    if levels.len() != EQUALIZER_BANDS as usize {
        return false;
    }
    let mut i: usize = 0;
    while i < levels.len()
        invariant
            i <= levels@.len(),
            forall|j: int|
                0 <= j < i ==> EQUALIZER_BASE_LEVEL - EQUALIZER_VARIANCE <= #[trigger] levels@[j]
                    <= EQUALIZER_BASE_LEVEL + EQUALIZER_VARIANCE,
        decreases levels@.len() - i,
    {
        if levels[i] > EQUALIZER_BASE_LEVEL + EQUALIZER_VARIANCE {
            return false;
        }
        i = i + 1;
    }
    true
}

/// The equalizer setting for `levels`.
pub fn equalizer_action(levels: &[u8]) -> (r: ConfigAction)
    requires
        valid_equalizer_levels(levels@),
    ensures
        r matches ConfigAction::SetEqualizerLevels(v) && v@ == levels@,
{
    let mut v: Vec<u8> = Vec::new();
    let mut i: usize = 0;
    while i < levels.len()
        invariant
            i <= levels@.len(),
            v@ == levels@.take(i as int),
        decreases levels@.len() - i,
    {
        v.push(levels[i]);
        i = i + 1;
    }
    assert(levels@.take(levels@.len() as int) =~= levels@);
    ConfigAction::SetEqualizerLevels(v)
}

/// The request that sets the time (in minutes, at least one) after which
/// the headset turns itself off when idle.
pub fn inactive_time_action(minutes: u8) -> (r: ConfigAction)
    requires
        minutes > 0,
    ensures
        r == ConfigAction::SetInactiveTime(minutes),
{
    ConfigAction::SetInactiveTime(minutes)
}

/// The equalizer presets: name and band levels.
pub fn presets() -> (r: &'static [(&'static str, &'static [u8])])
    ensures
        r@.len() == 4,
        r@[0].0@ == "Flat"@,
        r@[0].1@ == seq![0x14u8, 0x14, 0x14, 0x14, 0x14, 0x14, 0x14, 0x14, 0x14, 0x14],
        r@[1].0@ == "Bass"@,
        r@[1].1@ == seq![0x1bu8, 0x1f, 0x1c, 0x16, 0x11, 0x11, 0x12, 0x12, 0x12, 0x12],
        r@[2].0@ == "Focus"@,
        r@[2].1@ == seq![0x0au8, 0x0d, 0x12, 0x0d, 0x0f, 0x1c, 0x20, 0x1b, 0x0d, 0x14],
        r@[3].0@ == "Smiley"@,
        r@[3].1@ == seq![0x1au8, 0x1b, 0x17, 0x11, 0x0c, 0x0c, 0x0f, 0x17, 0x1a, 0x1c],
{
    &[
        ("Flat", &[0x14, 0x14, 0x14, 0x14, 0x14, 0x14, 0x14, 0x14, 0x14, 0x14]),
        ("Bass", &[0x1b, 0x1f, 0x1c, 0x16, 0x11, 0x11, 0x12, 0x12, 0x12, 0x12]),
        ("Focus", &[0x0a, 0x0d, 0x12, 0x0d, 0x0f, 0x1c, 0x20, 0x1b, 0x0d, 0x14]),
        ("Smiley", &[0x1a, 0x1b, 0x17, 0x11, 0x0c, 0x0c, 0x0f, 0x17, 0x1a, 0x1c]),
    ]
}

} // verus!
