use vstd::prelude::*;

use crate::config::{
    is_new_profile, same_headset_settings, selected_index, CallAction, EqualizerConfig, HeadsetConfig,
};
use crate::debouncer::Action;
use crate::devices::{
    preset_levels_of, BatteryLevel, BluetoothConfig, Device, Equalizer, InactiveTime, MicrophoneLight,
    MicrophoneVolume, SideTone, VolumeLimiter,
};

verus! {

/// The actions whose device setting is stored in the selected profile.
pub open spec fn reads_profile(action: Action) -> bool {
    action == Action::UpdateSideTone || action == Action::UpdateEqualizer || action
        == Action::UpdateMicrophoneVolume || action == Action::UpdateVolumeLimit
}

/// `after` is `before` with its profile selection repaired the way
/// `HeadsetConfig::selected_profile` repairs it.
pub open spec fn selection_repaired(before: HeadsetConfig, after: HeadsetConfig) -> bool {
    &&& same_headset_settings(after, before)
    &&& after.selected_profile_index == selected_index(before)
    &&& before.profiles@.len() > 0 ==> after.profiles@ == before.profiles@
    &&& before.profiles@.len() == 0 ==> after.profiles@.len() == 1 && is_new_profile(
        after.profiles@[0],
        "Default"@,
    )
}

/// `after` is `before`, or `before` with its profile selection repaired the
/// way `HeadsetConfig::selected_profile` repairs it.
pub open spec fn unchanged_or_selection_repaired(before: HeadsetConfig, after: HeadsetConfig) -> bool {
    ||| after == before
    ||| selection_repaired(before, after)
}

/// The band levels an equalizer setting stands for: a preset's levels or
/// the custom levels; `None` for a preset index the device does not have.
pub open spec fn equalizer_levels_spec(conf: EqualizerConfig, presets: Seq<Seq<u8>>) -> Option<
    Seq<u8>,
> {
    match conf {
        EqualizerConfig::Preset(i) => if i < presets.len() {
            Some(presets[i as int])
        } else {
            None
        },
        EqualizerConfig::Custom(levels) => Some(levels@),
    }
}

/// The band levels for an equalizer setting, given the device's presets.
pub fn equalizer_levels(conf: &EqualizerConfig, presets: &[(&str, &[u8])]) -> (r: Option<Vec<u8>>)
    ensures
        match r {
            Some(v) => equalizer_levels_spec(
                *conf,
                presets@.map_values(|p: (&str, &[u8])| p.1@),
            ) == Some(v@),
            None => equalizer_levels_spec(
                *conf,
                presets@.map_values(|p: (&str, &[u8])| p.1@),
            ) is None,
        },
{
    match conf {
        EqualizerConfig::Preset(i) => {
            if (*i as usize) < presets.len() {
                Some(crate::util::copied(presets[*i as usize].1))
            } else {
                None
            }
        },
        EqualizerConfig::Custom(levels) => Some(crate::util::copied(levels.as_slice())),
    }
}

/// A setting as it is handed to a device.
#[derive(Debug, Clone)]
pub enum DeviceSetting {
    SideTone(u8),
    EqualizerLevels(Vec<u8>),
    MicrophoneVolume(u8),
    VolumeLimiter(bool),
    InactiveTime(u8),
    MicrophoneLight(u8),
    AutoBluetooth(bool),
    BluetoothCall(CallAction),
}

/// `r` is the setting that `action` stands for in `h`: the selected
/// profile's value for a profile setting, the headset's own value for the
/// others, the band levels for the equalizer (none when its preset is not
/// among `presets`), and none for an action that is no device setting.
pub open spec fn is_setting_for(
    r: Option<DeviceSetting>,
    action: Action,
    h: HeadsetConfig,
    presets: Seq<Seq<u8>>,
) -> bool {
    let p = h.profiles@[h.selected_profile_index as int];
    match action {
        Action::UpdateSideTone => r == Some(DeviceSetting::SideTone(p.side_tone)),
        Action::UpdateEqualizer => match equalizer_levels_spec(p.equalizer, presets) {
            Some(levels) => r matches Some(DeviceSetting::EqualizerLevels(v)) && v@ == levels,
            None => r is None,
        },
        Action::UpdateMicrophoneVolume => r == Some(
            DeviceSetting::MicrophoneVolume(p.microphone_volume),
        ),
        Action::UpdateVolumeLimit => r == Some(DeviceSetting::VolumeLimiter(p.volume_limiter)),
        Action::UpdateInactiveTime => r == Some(DeviceSetting::InactiveTime(h.inactive_time)),
        Action::UpdateMicrophoneLight => r == Some(DeviceSetting::MicrophoneLight(h.mic_light)),
        Action::UpdateAutoBluetooth => r == Some(
            DeviceSetting::AutoBluetooth(h.auto_enable_bluetooth),
        ),
        Action::UpdateBluetoothCall => r == Some(DeviceSetting::BluetoothCall(h.bluetooth_call)),
        _ => r is None,
    }
}

/// The setting that `action` stands for, read from `headset`; `presets` are
/// the device's equalizer presets. A setting stored in the selected profile
/// is read through `selected_profile`, which repairs the profile selection
/// first; for the other actions nothing in `headset` changes.
pub fn device_setting(action: Action, headset: &mut HeadsetConfig, presets: &[(&str, &[u8])]) -> (r:
    Option<DeviceSetting>)
    requires
        old(headset).profiles@.len() <= u32::MAX,
    ensures
        reads_profile(action) ==> selection_repaired(*old(headset), *final(headset)),
        !reads_profile(action) ==> *final(headset) == *old(headset),
        is_setting_for(r, action, *final(headset), preset_levels_of(presets@)),
{
    match action {
        Action::UpdateSideTone => {
            let level = headset.selected_profile().side_tone;
            proof {
                if old(headset).profiles@.len() > 0 {
                    assert(headset.profiles@ =~= old(headset).profiles@);
                }
            }
            Some(DeviceSetting::SideTone(level))
        },
        Action::UpdateEqualizer => {
            let levels = equalizer_levels(&headset.selected_profile().equalizer, presets);
            proof {
                if old(headset).profiles@.len() > 0 {
                    assert(headset.profiles@ =~= old(headset).profiles@);
                }
            }
            match levels {
                Some(levels) => Some(DeviceSetting::EqualizerLevels(levels)),
                None => None,
            }
        },
        Action::UpdateMicrophoneVolume => {
            let level = headset.selected_profile().microphone_volume;
            proof {
                if old(headset).profiles@.len() > 0 {
                    assert(headset.profiles@ =~= old(headset).profiles@);
                }
            }
            Some(DeviceSetting::MicrophoneVolume(level))
        },
        Action::UpdateVolumeLimit => {
            let enabled = headset.selected_profile().volume_limiter;
            proof {
                if old(headset).profiles@.len() > 0 {
                    assert(headset.profiles@ =~= old(headset).profiles@);
                }
            }
            Some(DeviceSetting::VolumeLimiter(enabled))
        },
        Action::UpdateInactiveTime => Some(DeviceSetting::InactiveTime(headset.inactive_time)),
        Action::UpdateMicrophoneLight => Some(DeviceSetting::MicrophoneLight(headset.mic_light)),
        Action::UpdateAutoBluetooth => Some(
            DeviceSetting::AutoBluetooth(headset.auto_enable_bluetooth),
        ),
        Action::UpdateBluetoothCall => Some(DeviceSetting::BluetoothCall(headset.bluetooth_call)),
        _ => None,
    }
}

/// The actions that stand for a device setting.
pub open spec fn is_device_setting(action: Action) -> bool {
    ||| reads_profile(action)
    ||| action == Action::UpdateInactiveTime
    ||| action == Action::UpdateMicrophoneLight
    ||| action == Action::UpdateAutoBluetooth
    ||| action == Action::UpdateBluetoothCall
}

/// `c` is an answer `device` gives when asked whether it is connected.
pub open spec fn answers_connected<D: Device + ?Sized>(device: &D, c: bool) -> bool {
    call_ensures(D::is_connected, (device,), c)
}

/// `present` says whether an answer `device` gives when asked for the
/// feature that `action` sets is one; for an action that is no device
/// setting, `present` is false.
pub open spec fn answers_feature<D: Device + ?Sized>(device: &D, action: Action, present: bool) -> bool {
    match action {
        Action::UpdateSideTone => exists|ret: Option<&dyn SideTone>|
            #[trigger] call_ensures(D::get_side_tone, (device,), ret) && (ret is Some <==> present),
        Action::UpdateEqualizer => exists|ret: Option<&dyn Equalizer>|
            #[trigger] call_ensures(D::get_equalizer, (device,), ret) && (ret is Some <==> present),
        Action::UpdateMicrophoneVolume => exists|ret: Option<&dyn MicrophoneVolume>|
            #[trigger] call_ensures(D::get_mic_volume, (device,), ret) && (ret is Some <==> present),
        Action::UpdateVolumeLimit => exists|ret: Option<&dyn VolumeLimiter>|
            #[trigger] call_ensures(D::get_volume_limiter, (device,), ret) && (ret is Some <==> present),
        Action::UpdateInactiveTime => exists|ret: Option<&dyn InactiveTime>|
            #[trigger] call_ensures(D::get_inactive_time, (device,), ret) && (ret is Some <==> present),
        Action::UpdateMicrophoneLight => exists|ret: Option<&dyn MicrophoneLight>|
            #[trigger] call_ensures(D::get_mic_light, (device,), ret) && (ret is Some <==> present),
        Action::UpdateAutoBluetooth => exists|ret: Option<&dyn BluetoothConfig>|
            #[trigger] call_ensures(D::get_bluetooth_config, (device,), ret) && (ret is Some <==> present),
        Action::UpdateBluetoothCall => exists|ret: Option<&dyn BluetoothConfig>|
            #[trigger] call_ensures(D::get_bluetooth_config, (device,), ret) && (ret is Some <==> present),
        _ => !present,
    }
}

/// `presets` are the band levels of the presets that `equalizer` answers with.
pub open spec fn answers_presets<E: Equalizer + ?Sized>(equalizer: &E, presets: Seq<Seq<u8>>) -> bool {
    exists|p: &[(&str, &[u8])]|
        #[trigger] call_ensures(E::presets, (equalizer,), p) && preset_levels_of(p@) == presets
}

/// `presets` are the band levels of the presets that an equalizer `device`
/// answers with gives.
pub open spec fn answers_equalizer_presets<D: Device + ?Sized>(device: &D, presets: Seq<Seq<u8>>) -> bool {
    exists|ret: Option<&dyn Equalizer>|
        #[trigger] call_ensures(D::get_equalizer, (device,), ret) && (ret matches Some(e)
            && answers_presets(e, presets))
}

/// What applying an action to a device comes to, with the device's answers
/// it rests on.
pub struct Applied {
    /// The device answered that it is connected.
    pub connected: bool,
    /// The device answered that it has the feature the action sets; false
    /// where it was not asked (not connected, or no device setting).
    pub has_feature: bool,
    /// The band levels of the presets the device's equalizer answered with;
    /// empty where it was not asked.
    pub presets: Ghost<Seq<Seq<u8>>>,
    /// The setting to hand to that feature, if any.
    pub sent: Option<DeviceSetting>,
}

/// Works out what applying `action` to `device` sends, taken from
/// `headset`: the device is asked whether it is connected and, if so,
/// whether it has the feature the action sets (for the equalizer, also for
/// its presets); the setting is then the one `device_setting` gives. A
/// setting stored in the selected profile is read through
/// `selected_profile`, which may repair the profile selection first;
/// nothing else in `headset` changes. A disconnected device, or one without
/// the feature, is left alone and `headset` is unchanged. The caller hands
/// `sent` to the feature.
pub fn apply_config_to_device(action: Action, device: &dyn Device, headset: &mut HeadsetConfig) -> (r:
    Applied)
    requires
        old(headset).profiles@.len() <= u32::MAX,
    ensures
        !r.connected ==> !r.has_feature && r.sent is None && *final(headset) == *old(headset),
        !is_device_setting(action) ==> !r.has_feature && r.sent is None && *final(headset) == *old(
            headset,
        ),
        !r.has_feature ==> r.sent is None && *final(headset) == *old(headset),
        r.has_feature ==> {
            &&& r.connected
            &&& is_device_setting(action)
            &&& reads_profile(action) ==> selection_repaired(*old(headset), *final(headset))
            &&& !reads_profile(action) ==> *final(headset) == *old(headset)
            &&& is_setting_for(r.sent, action, *final(headset), r.presets@)
        },
        action != Action::UpdateEqualizer ==> r.presets@ == Seq::<Seq<u8>>::empty(),
        answers_connected(device, r.connected),
        r.connected ==> answers_feature(device, action, r.has_feature),
        action == Action::UpdateEqualizer && r.has_feature ==> answers_equalizer_presets(
            device,
            r.presets@,
        ),
{
    let nothing = Applied { connected: false, has_feature: false, presets: Ghost(Seq::empty()), sent: None };
    if !device.is_connected() {
        return nothing;
    }
    let not_there = Applied { connected: true, has_feature: false, presets: Ghost(Seq::empty()), sent: None };
    if let Action::UpdateEqualizer = action {
        return match device.get_equalizer() {
            Some(equalizer) => {
                let presets = equalizer.presets();
                let sent = device_setting(action, headset, presets);
                Applied {
                    connected: true,
                    has_feature: true,
                    presets: Ghost(preset_levels_of(presets@)),
                    sent,
                }
            },
            None => not_there,
        };
    }
    let has_feature = match action {
        Action::UpdateSideTone => device.get_side_tone().is_some(),
        Action::UpdateMicrophoneVolume => device.get_mic_volume().is_some(),
        Action::UpdateVolumeLimit => device.get_volume_limiter().is_some(),
        Action::UpdateInactiveTime => device.get_inactive_time().is_some(),
        Action::UpdateMicrophoneLight => device.get_mic_light().is_some(),
        Action::UpdateAutoBluetooth => device.get_bluetooth_config().is_some(),
        Action::UpdateBluetoothCall => device.get_bluetooth_config().is_some(),
        _ => false,
    };
    if !has_feature {
        return not_there;
    }
    let no_presets: Vec<(&str, &[u8])> = Vec::new();
    let sent = device_setting(action, headset, no_presets.as_slice());
    Applied { connected: true, has_feature: true, presets: Ghost(Seq::empty()), sent }
}

/// An action for the debouncer: start its timeout, or skip it.
#[derive(Debug, Clone, Copy, PartialEq, Eq, Structural)]
pub enum Submission {
    Submit(Action),
    Force(Action),
}

/// What the worker remembers of the device between two status checks.
#[derive(Debug, Clone, Copy, PartialEq, Eq, Structural)]
pub struct StatusTracker {
    pub last_connected: bool,
    pub last_battery: Option<BatteryLevel>,
}

/// What a fresh device status asks to redo, compared with the remembered
/// one: a change of connection updates the system audio (at once) and the
/// tray tooltip; a change of battery state updates the tooltip.
pub open spec fn status_submissions(
    last: StatusTracker,
    connected: bool,
    battery: Option<BatteryLevel>,
) -> Seq<Submission> {
    (if connected != last.last_connected {
        seq![
            Submission::Submit(Action::UpdateSystemAudio),
            Submission::Submit(Action::UpdateTrayTooltip),
            Submission::Force(Action::UpdateSystemAudio),
        ]
    } else {
        Seq::empty()
    }) + (if battery != last.last_battery {
        seq![Submission::Submit(Action::UpdateTrayTooltip)]
    } else {
        Seq::empty()
    })
}

impl StatusTracker {
    /// Nothing seen yet: not connected, no battery state.
    pub fn new() -> (r: Self)
        ensures
            !r.last_connected,
            r.last_battery is None,
    {
        Self { last_connected: false, last_battery: None }
    }

    /// Compares a fresh device status with the remembered one and says what
    /// to redo: a change of connection updates the system audio (at once)
    /// and the tray tooltip; a change of battery state updates the tooltip.
    pub fn observe(&mut self, connected: bool, battery: Option<BatteryLevel>) -> (r: Vec<Submission>)
        ensures
            final(self).last_connected == connected,
            final(self).last_battery == battery,
            r@ == status_submissions(*old(self), connected, battery),
    {
        let mut r: Vec<Submission> = Vec::new();
        if connected != self.last_connected {
            r.push(Submission::Submit(Action::UpdateSystemAudio));
            r.push(Submission::Submit(Action::UpdateTrayTooltip));
            r.push(Submission::Force(Action::UpdateSystemAudio));
            self.last_connected = connected;
        }
        let changed = match (self.last_battery, battery) {
            (None, None) => false,
            (Some(a), Some(b)) => a != b,
            _ => true,
        };
        if changed {
            r.push(Submission::Submit(Action::UpdateTrayTooltip));
            self.last_battery = battery;
        }
        assert(r@ =~= status_submissions(*old(self), connected, battery));
        r
    }
}

/// The work the background worker does for an action.
#[derive(Debug, Clone, Copy, PartialEq, Eq, Structural)]
pub enum WorkerStep {
    CheckDeviceStatus,
    RefreshDeviceList,
    SwitchDevice,
    UpdateSystemAudio,
    SaveConfig,
    UpdateTray,
    UpdateTrayTooltip,
    ApplyToDevice(Action),
}

/// The work for `action`; every action that is none of the above is a
/// device setting.
pub fn worker_step(action: Action) -> (r: WorkerStep)
    ensures
        r == match action {
            Action::UpdateDeviceStatus => WorkerStep::CheckDeviceStatus,
            Action::RefreshDeviceList => WorkerStep::RefreshDeviceList,
            Action::SwitchDevice => WorkerStep::SwitchDevice,
            Action::UpdateSystemAudio => WorkerStep::UpdateSystemAudio,
            Action::SaveConfig => WorkerStep::SaveConfig,
            Action::UpdateTray => WorkerStep::UpdateTray,
            Action::UpdateTrayTooltip => WorkerStep::UpdateTrayTooltip,
            _ => WorkerStep::ApplyToDevice(action),
        },
{
    match action {
        Action::UpdateDeviceStatus => WorkerStep::CheckDeviceStatus,
        Action::RefreshDeviceList => WorkerStep::RefreshDeviceList,
        Action::SwitchDevice => WorkerStep::SwitchDevice,
        Action::UpdateSystemAudio => WorkerStep::UpdateSystemAudio,
        Action::SaveConfig => WorkerStep::SaveConfig,
        Action::UpdateTray => WorkerStep::UpdateTray,
        Action::UpdateTrayTooltip => WorkerStep::UpdateTrayTooltip,
        _ => WorkerStep::ApplyToDevice(action),
    }
}

/// The actions the worker submits when it starts.
pub fn startup_actions() -> (r: Vec<Action>)
    ensures
        r@ == seq![
            Action::UpdateSystemAudio,
            Action::UpdateTrayTooltip,
            Action::UpdateTray,
            Action::RefreshDeviceList,
            Action::SwitchDevice,
        ],
{
    vec![
        Action::UpdateSystemAudio,
        Action::UpdateTrayTooltip,
        Action::UpdateTray,
        Action::RefreshDeviceList,
        Action::SwitchDevice,
    ]
}

/// The view of an optional name.
pub open spec fn opt_view(s: Option<String>) -> Option<Seq<char>> {
    match s {
        Some(s) => Some(s@),
        None => None,
    }
}

/// A device switch is needed when the preferred device is not the one in use.
pub fn needs_device_switch(preferred: &Option<String>, current: &Option<String>) -> (r: bool)
    ensures
        r == (opt_view(*preferred) != opt_view(*current)),
{
    match (preferred, current) {
        (Some(p), Some(c)) => !(*p == *c),
        (None, None) => false,
        _ => true,
    }
}

/// The actions submitted after the device was switched.
pub fn after_switch_actions() -> (r: Vec<Action>)
    ensures
        r@ == seq![Action::UpdateTray, Action::UpdateTrayTooltip],
{
    vec![Action::UpdateTray, Action::UpdateTrayTooltip]
}

} // verus!
