use std::cell::RefCell;

use headset_controller::audio::{find_device, initial_device_name, os_audio_options, plan_audio, AudioPlan, OsAudio};
use headset_controller::config::{CallAction, EqualizerConfig, HeadsetConfig, Profile};
use headset_controller::control::{
    after_switch_actions, apply_config_to_device, device_setting, equalizer_levels, needs_device_switch,
    startup_actions, DeviceSetting,
    worker_step, StatusTracker, Submission, WorkerStep,
};
use headset_controller::debouncer::Action;
use headset_controller::devices::dummy::DummyDevice;
use headset_controller::devices::{
    BatteryLevel, BluetoothConfig, Device, DeviceStrings, Equalizer, InactiveTime, MicrophoneLight,
    MicrophoneVolume, SideTone, VolumeLimiter,
};
use headset_controller::framework::{
    choose_backend, loop_control, names_match, should_send_wakeup, ComObj, GraphicsBackend, LoopControl,
};
use headset_controller::text::{push_decimal, push_hex4};
use headset_controller::tray::{
    profile_menu_entries, profile_selected_actions, select_profile, tray_tooltip, ProfileSelection, TrayMenuEvent,
};
use headset_controller::ui::{
    add_profile, call_action_at, call_action_index, call_action_label, delete_profile, device_chosen_actions,
    equalizer_config_from, equalizer_range, equalizer_selection, is_preferred_device,
    profile_list_changed_actions, refresh_actions, response_submissions,
};
use headset_controller::util::{copied, prepend, CopySlice, PeekExt, VecExt};

#[test]
fn status_tracker_reports_changes() {
    let mut t = StatusTracker::new();
    let r = t.observe(true, Some(BatteryLevel::Level(50)));
    assert_eq!(
        r,
        vec![
            Submission::Submit(Action::UpdateSystemAudio),
            Submission::Submit(Action::UpdateTrayTooltip),
            Submission::Force(Action::UpdateSystemAudio),
            Submission::Submit(Action::UpdateTrayTooltip),
        ]
    );
    assert_eq!(t.observe(true, Some(BatteryLevel::Level(50))), vec![]);
    assert_eq!(t.observe(true, Some(BatteryLevel::Level(25))), vec![Submission::Submit(Action::UpdateTrayTooltip)]);
    assert_eq!(t.observe(false, Some(BatteryLevel::Level(25))).len(), 3);
}

#[test]
fn worker_steps() {
    assert_eq!(worker_step(Action::UpdateDeviceStatus), WorkerStep::CheckDeviceStatus);
    assert_eq!(worker_step(Action::SaveConfig), WorkerStep::SaveConfig);
    assert_eq!(worker_step(Action::SwitchDevice), WorkerStep::SwitchDevice);
    assert_eq!(worker_step(Action::UpdateSideTone), WorkerStep::ApplyToDevice(Action::UpdateSideTone));
    assert_eq!(startup_actions().len(), 5);
    assert_eq!(after_switch_actions(), vec![Action::UpdateTray, Action::UpdateTrayTooltip]);
}

#[test]
fn device_switch_needed() {
    let a = Some(String::from("A"));
    let b = Some(String::from("B"));
    assert!(!needs_device_switch(&a, &a.clone()));
    assert!(needs_device_switch(&a, &b));
    assert!(needs_device_switch(&None, &a));
    assert!(!needs_device_switch(&None, &None));
}

#[test]
fn equalizer_levels_from_presets() {
    let presets: &[(&str, &[u8])] = &[("Flat", &[1, 1]), ("Bass", &[2, 3])];
    assert_eq!(equalizer_levels(&EqualizerConfig::Preset(1), presets), Some(vec![2, 3]));
    assert_eq!(equalizer_levels(&EqualizerConfig::Preset(2), presets), None);
    assert_eq!(equalizer_levels(&EqualizerConfig::Custom(vec![9]), presets), Some(vec![9]));
}

#[derive(Default)]
struct Probe {
    connected: bool,
    log: RefCell<Vec<String>>,
}

impl Device for Probe {
    fn strings(&self) -> DeviceStrings {
        DeviceStrings::new("Probe", "Test", "Probe")
    }
    fn is_connected(&self) -> bool {
        self.connected
    }
    fn get_side_tone(&self) -> Option<&dyn SideTone> {
        Some(self)
    }
    fn get_equalizer(&self) -> Option<&dyn Equalizer> {
        Some(self)
    }
    fn get_mic_light(&self) -> Option<&dyn MicrophoneLight> {
        Some(self)
    }
    fn get_bluetooth_config(&self) -> Option<&dyn BluetoothConfig> {
        Some(self)
    }
}

impl SideTone for Probe {
    fn levels(&self) -> u8 {
        4
    }
    fn set_level(&self, level: u8) {
        self.log.borrow_mut().push(format!("sidetone {level}"));
    }
}

impl MicrophoneLight for Probe {
    fn levels(&self) -> u8 {
        4
    }
    fn set_light_strength(&self, level: u8) {
        self.log.borrow_mut().push(format!("light {level}"));
    }
}

impl Equalizer for Probe {
    fn bands(&self) -> u8 {
        2
    }
    fn base_level(&self) -> u8 {
        5
    }
    fn variance(&self) -> u8 {
        5
    }
    fn presets(&self) -> &[(&str, &[u8])] {
        &[("Flat", &[5, 5]), ("Other", &[1, 9])]
    }
    fn set_levels(&self, levels: &[u8]) {
        self.log.borrow_mut().push(format!("eq {levels:?}"));
    }
}

impl BluetoothConfig for Probe {
    fn set_call_action(&self, action: CallAction) {
        self.log.borrow_mut().push(format!("call {action:?}"));
    }
    fn set_auto_enabled(&self, enabled: bool) {
        self.log.borrow_mut().push(format!("auto {enabled}"));
    }
}

fn sent_of(action: Action, device: &dyn Device, headset: &mut HeadsetConfig) -> Option<DeviceSetting> {
    let applied = apply_config_to_device(action, device, headset);
    assert!(applied.connected || !applied.has_feature);
    applied.sent
}

#[test]
fn apply_config_sends_settings() {
    let probe = Probe { connected: true, ..Default::default() };
    let mut headset = HeadsetConfig::default();
    headset.profiles[0].side_tone = 2;
    headset.profiles[0].equalizer = EqualizerConfig::Preset(1);
    headset.mic_light = 3;
    headset.bluetooth_call = CallAction::Mute;
    assert!(matches!(sent_of(Action::UpdateSideTone, &probe, &mut headset), Some(DeviceSetting::SideTone(2))));
    match sent_of(Action::UpdateEqualizer, &probe, &mut headset) {
        Some(DeviceSetting::EqualizerLevels(levels)) => assert_eq!(levels, vec![1, 9]),
        other => panic!("unexpected {:?}", other),
    }
    assert!(matches!(sent_of(Action::UpdateMicrophoneLight, &probe, &mut headset), Some(DeviceSetting::MicrophoneLight(3))));
    assert!(matches!(
        sent_of(Action::UpdateBluetoothCall, &probe, &mut headset),
        Some(DeviceSetting::BluetoothCall(CallAction::Mute))
    ));
    assert!(matches!(sent_of(Action::UpdateAutoBluetooth, &probe, &mut headset), Some(DeviceSetting::AutoBluetooth(false))));
    let no_mic = apply_config_to_device(Action::UpdateMicrophoneVolume, &probe, &mut headset);
    assert!(no_mic.connected && !no_mic.has_feature && no_mic.sent.is_none());
    let other = apply_config_to_device(Action::SaveConfig, &probe, &mut headset);
    assert!(other.connected && !other.has_feature && other.sent.is_none());
    assert!(probe.log.borrow().is_empty());
}

#[test]
fn device_setting_values() {
    let presets: &[(&str, &[u8])] = &[("Flat", &[5, 5]), ("Bass", &[9, 1])];
    let mut headset = HeadsetConfig::default();
    headset.profiles[0].side_tone = 3;
    headset.profiles[0].microphone_volume = 4;
    headset.profiles[0].volume_limiter = false;
    headset.profiles[0].equalizer = EqualizerConfig::Preset(1);
    headset.inactive_time = 45;
    headset.mic_light = 1;
    headset.auto_enable_bluetooth = true;
    headset.bluetooth_call = CallAction::ReduceVolume;
    headset.selected_profile_index = 7;
    assert!(matches!(device_setting(Action::UpdateInactiveTime, &mut headset, presets), Some(DeviceSetting::InactiveTime(45))));
    assert_eq!(headset.selected_profile_index, 7);
    assert!(matches!(device_setting(Action::UpdateSideTone, &mut headset, presets), Some(DeviceSetting::SideTone(3))));
    assert_eq!(headset.selected_profile_index, 0);
    assert!(matches!(device_setting(Action::UpdateMicrophoneVolume, &mut headset, presets), Some(DeviceSetting::MicrophoneVolume(4))));
    assert!(matches!(device_setting(Action::UpdateVolumeLimit, &mut headset, presets), Some(DeviceSetting::VolumeLimiter(false))));
    match device_setting(Action::UpdateEqualizer, &mut headset, presets) {
        Some(DeviceSetting::EqualizerLevels(levels)) => assert_eq!(levels, vec![9, 1]),
        other => panic!("unexpected {:?}", other),
    }
    assert!(matches!(device_setting(Action::UpdateMicrophoneLight, &mut headset, presets), Some(DeviceSetting::MicrophoneLight(1))));
    assert!(matches!(device_setting(Action::UpdateAutoBluetooth, &mut headset, presets), Some(DeviceSetting::AutoBluetooth(true))));
    assert!(matches!(device_setting(Action::UpdateBluetoothCall, &mut headset, presets), Some(DeviceSetting::BluetoothCall(CallAction::ReduceVolume))));
    assert!(device_setting(Action::SaveConfig, &mut headset, presets).is_none());
    headset.profiles[0].equalizer = EqualizerConfig::Preset(2);
    assert!(device_setting(Action::UpdateEqualizer, &mut headset, presets).is_none());
}

#[test]
fn apply_config_skips_disconnected() {
    let probe = Probe::default();
    let mut headset = HeadsetConfig::default();
    headset.selected_profile_index = 5;
    let applied = apply_config_to_device(Action::UpdateSideTone, &probe, &mut headset);
    assert!(!applied.connected && !applied.has_feature && applied.sent.is_none());
    assert!(probe.log.borrow().is_empty());
    assert_eq!(headset.selected_profile_index, 5);
}

#[test]
fn apply_config_repairs_selection() {
    let probe = Probe { connected: true, ..Default::default() };
    let mut headset = HeadsetConfig::default();
    headset.selected_profile_index = 5;
    apply_config_to_device(Action::UpdateSideTone, &probe, &mut headset);
    assert_eq!(headset.selected_profile_index, 0);
}

#[test]
fn apply_config_to_dummy() {
    let mut headset = HeadsetConfig::default();
    let sent = sent_of(Action::UpdateEqualizer, &DummyDevice, &mut headset);
    assert_eq!(headset.profiles.len(), 1);
    match sent {
        Some(DeviceSetting::EqualizerLevels(levels)) => assert_eq!(levels, vec![8; 13]),
        other => panic!("unexpected {:?}", other),
    }
}

#[test]
fn apply_config_repairs_then_sends_side_tone() {
    let mut headset = HeadsetConfig::default();
    headset.profiles[0].side_tone = 1;
    let mut second = Profile::new(String::from("B"));
    second.side_tone = 3;
    headset.profiles.push(second);
    headset.selected_profile_index = 7;
    let sent = sent_of(Action::UpdateSideTone, &DummyDevice, &mut headset);
    assert!(matches!(sent, Some(DeviceSetting::SideTone(3))));
    assert_eq!(headset.selected_profile_index, 1);
    assert_eq!(headset.profiles.len(), 2);
    assert!(sent_of(Action::SaveConfig, &DummyDevice, &mut headset).is_none());
    let probe = Probe::default();
    assert!(sent_of(Action::UpdateSideTone, &probe, &mut headset).is_none());
    assert!(probe.log.borrow().is_empty());
}

#[test]
fn tray_menu_profiles() {
    let mut headset = HeadsetConfig::default();
    headset.profiles.push(Profile::new(String::from("Music")));
    headset.selected_profile_index = 1;
    let entries = profile_menu_entries(Some(&headset));
    assert_eq!(entries.len(), 2);
    assert_eq!(entries[0].name, "Default");
    assert_eq!(entries[1].event, TrayMenuEvent::Profile(1));
    assert!(!entries[0].checked && entries[1].checked);
    assert!(profile_menu_entries(None).is_empty());
}

#[test]
fn tray_profile_selection() {
    let mut headset = HeadsetConfig::default();
    headset.profiles.push(Profile::new(String::from("Music")));
    assert_eq!(select_profile(&mut headset, 0), ProfileSelection::AlreadySelected);
    assert_eq!(select_profile(&mut headset, 2), ProfileSelection::OutOfRange);
    assert_eq!(headset.selected_profile_index, 0);
    assert_eq!(select_profile(&mut headset, 1), ProfileSelection::Selected);
    assert_eq!(headset.selected_profile_index, 1);
    assert_eq!(profile_selected_actions(), vec![Action::SaveConfig, Action::UpdateTray]);
    assert_eq!(tray_tooltip(None), "Disconnected");
    assert_eq!(tray_tooltip(Some("X")), "X");
}

#[test]
fn response_submission_rules() {
    assert_eq!(response_submissions(false, false, true, Action::UpdateSideTone), vec![]);
    assert_eq!(
        response_submissions(true, false, false, Action::UpdateSideTone),
        vec![Submission::Submit(Action::SaveConfig)]
    );
    assert_eq!(
        response_submissions(true, true, true, Action::UpdateSideTone),
        vec![
            Submission::Submit(Action::SaveConfig),
            Submission::Submit(Action::UpdateSideTone),
            Submission::Force(Action::UpdateSideTone),
        ]
    );
    assert_eq!(
        response_submissions(false, true, false, Action::UpdateEqualizer),
        vec![Submission::Force(Action::UpdateEqualizer)]
    );
}

#[test]
fn profile_add_and_delete() {
    let mut h = HeadsetConfig::default();
    add_profile(&mut h);
    add_profile(&mut h);
    assert_eq!(h.profiles.len(), 3);
    assert_eq!(h.profiles[2].name, "New Profile");
    h.selected_profile_index = 2;
    delete_profile(&mut h, 0);
    assert_eq!(h.profiles.len(), 2);
    assert_eq!(h.selected_profile_index, 1);
    delete_profile(&mut h, 1);
    assert_eq!(h.selected_profile_index, 0);
    add_profile(&mut h);
    delete_profile(&mut h, 1);
    assert_eq!(h.selected_profile_index, 0);
}

#[test]
fn call_action_choices() {
    for a in [CallAction::Nothing, CallAction::ReduceVolume, CallAction::Mute] {
        assert_eq!(call_action_at(call_action_index(a)), a);
    }
    assert_eq!(call_action_label(CallAction::ReduceVolume), "Reduce Volume");
    assert_eq!(call_action_index(CallAction::Mute), 2);
}

#[test]
fn equalizer_choices() {
    let presets: &[(&str, &[u8])] = &[("Flat", &[1, 1]), ("Bass", &[2, 3])];
    assert_eq!(equalizer_selection(&EqualizerConfig::Preset(1), presets), (1, vec![2, 3]));
    assert_eq!(equalizer_selection(&EqualizerConfig::Custom(vec![7, 8]), presets), (2, vec![7, 8]));
    assert!(matches!(equalizer_config_from(2, 2, vec![1]), EqualizerConfig::Custom(_)));
    assert!(matches!(equalizer_config_from(0, 2, vec![1]), EqualizerConfig::Preset(0)));
    assert_eq!(equalizer_range(0x14, 0x14), (0, 0x28));
}

#[test]
fn preferred_device_marker() {
    assert!(is_preferred_device(&Some(String::from("A")), "A"));
    assert!(!is_preferred_device(&Some(String::from("A")), "B"));
    assert!(!is_preferred_device(&None, "A"));
    assert_eq!(device_chosen_actions(), vec![Action::SaveConfig, Action::SwitchDevice]);
    assert_eq!(refresh_actions(), vec![Action::RefreshDeviceList, Action::SwitchDevice]);
    assert_eq!(profile_list_changed_actions(), vec![Action::SaveConfig, Action::UpdateTray]);
}

#[test]
fn audio_plans() {
    let names = vec![String::from("Speakers"), String::from("Headset"), String::from("Speakers")];
    let change = OsAudio::ChangeDefault { on_connect: String::from("Headset"), on_disconnect: String::from("Speakers") };
    assert_eq!(plan_audio(&change, true, &names, Some(0)), AudioPlan::SetDefault(1));
    assert_eq!(plan_audio(&change, true, &names, Some(1)), AudioPlan::AlreadyDefault(1));
    assert_eq!(plan_audio(&change, false, &names, Some(1)), AudioPlan::SetDefault(0));
    assert_eq!(plan_audio(&change, false, &vec![], None), AudioPlan::Nothing);
    let route = OsAudio::RouteAudio { src: String::from("Headset"), dst: String::from("Speakers") };
    assert_eq!(plan_audio(&route, true, &names, None), AudioPlan::StopRouting);
    assert_eq!(plan_audio(&route, false, &names, None), AudioPlan::StartRouting(1, 0));
    let missing = OsAudio::RouteAudio { src: String::from("Nope"), dst: String::from("Speakers") };
    assert_eq!(plan_audio(&missing, false, &names, None), AudioPlan::DevicesMissing);
    assert_eq!(plan_audio(&OsAudio::Disabled, true, &names, None), AudioPlan::Nothing);
    assert_eq!(find_device(&names, &String::from("Speakers")), Some(0));
}

#[test]
fn audio_option_names() {
    let dev = String::from("Out");
    let options = os_audio_options(&dev);
    assert_eq!(options[0].name(), "Disabled");
    assert_eq!(options[1].name(), "Change Default Device");
    assert_eq!(options[2].name(), "Route Audio When Disconnected");
    assert!(options[1].same_kind(&OsAudio::ChangeDefault { on_connect: String::new(), on_disconnect: String::new() }));
    assert!(!options[0].same_kind(&options[2]));
    let names = vec![String::from("First")];
    assert_eq!(initial_device_name(Some(&dev), &names), "Out");
    assert_eq!(initial_device_name(None, &names), "First");
    assert_eq!(initial_device_name(None, &vec![]), "<None>");
}

#[test]
fn backend_choice() {
    let all = vec![GraphicsBackend::DirectX, GraphicsBackend::OpenGL];
    assert_eq!(choose_backend(Some("opengl"), &all), Some(GraphicsBackend::OpenGL));
    assert_eq!(choose_backend(Some("DIRECTX"), &all), Some(GraphicsBackend::DirectX));
    assert_eq!(choose_backend(Some("vulkan"), &all), Some(GraphicsBackend::DirectX));
    assert_eq!(choose_backend(None, &vec![GraphicsBackend::OpenGL]), Some(GraphicsBackend::OpenGL));
    assert_eq!(choose_backend(None, &vec![]), None);
    assert!(names_match("OpenGL", "oPENgl"));
    assert!(!names_match("OpenGL", "OpenG"));
}

#[test]
fn event_loop_decisions() {
    assert_eq!(loop_control(true, true, Some(5)), LoopControl::Exit);
    assert_eq!(loop_control(false, true, Some(5)), LoopControl::Poll);
    assert_eq!(loop_control(false, false, Some(5)), LoopControl::WaitUntil(5));
    assert_eq!(loop_control(false, false, None), LoopControl::Wait);
    assert!(should_send_wakeup(false, false));
    assert!(!should_send_wakeup(true, false));
    assert!(!should_send_wakeup(false, true));
    let obj = ComObj::new(42u32);
    assert_eq!(*obj.get(), 42);
}

#[test]
fn util_helpers() {
    let mut v = vec![3u8, 4];
    prepend(&mut v, &[1, 2]);
    assert_eq!(v, vec![1, 2, 3, 4]);
    let mut w = vec![9u8];
    w.prepend(&[0x00, 0x33]);
    assert_eq!(w, vec![0x00, 0x33, 9]);
    let s: &[u8] = &[5, 6];
    assert_eq!(&*s.cloned(), &[5, 6]);
    assert_eq!(copied(&[1u16, 2]), vec![1, 2]);
    let seen = RefCell::new(0);
    let x = Some(7).peek(|v| *seen.borrow_mut() = *v);
    assert_eq!(x, Some(7));
    assert_eq!(*seen.borrow(), 7);
    let y: Option<i32> = None.peek(|_| panic!("not called"));
    assert_eq!(y, None);
}

#[test]
fn text_formatting() {
    let mut s = String::from("x");
    push_hex4(&mut s, 0x0a1f);
    assert_eq!(s, "x0a1f");
    let mut t = String::new();
    push_decimal(&mut t, 109);
    assert_eq!(t, "109");
}

#[test]
fn bare_device_reports_nothing() {
    struct Bare;
    impl Device for Bare {
        fn strings(&self) -> DeviceStrings {
            DeviceStrings::new("Bare", "B", "B")
        }
        fn is_connected(&self) -> bool {
            true
        }
    }
    let b = Bare;
    assert_eq!(b.name(), "Bare");
    assert!(b.get_battery_status().is_none());
    assert!(b.get_chat_mix().is_none());
    let mut headset = HeadsetConfig::default();
    assert!(b.get_side_tone().is_none());
    assert!(b.get_mic_volume().is_none());
    assert!(b.get_volume_limiter().is_none());
    assert!(b.get_equalizer().is_none());
    assert!(b.get_bluetooth_config().is_none());
    assert!(b.get_inactive_time().is_none());
    assert!(b.get_mic_light().is_none());
    let applied = apply_config_to_device(Action::UpdateMicrophoneLight, &b, &mut headset);
    assert!(applied.connected && !applied.has_feature && applied.sent.is_none());
    let _unused: Option<(&dyn MicrophoneVolume, &dyn VolumeLimiter, &dyn InactiveTime)> = None;
}
