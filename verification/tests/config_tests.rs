use headset_controller::config::{CallAction, Config, EqualizerConfig, HeadsetConfig, OutputSwitch, Profile};

#[test]
fn profile_new_has_defaults() {
    let p = Profile::new(String::from("Gaming"));
    assert_eq!(p.name, "Gaming");
    assert_eq!(p.side_tone, 0);
    assert!(p.volume_limiter);
    assert_eq!(p.microphone_volume, 0);
    assert!(matches!(p.equalizer, EqualizerConfig::Preset(0)));
}

#[test]
fn headset_default_values() {
    let h = HeadsetConfig::default();
    assert!(matches!(h.switch_output, OutputSwitch::Disabled));
    assert_eq!(h.mic_light, 0);
    assert_eq!(h.bluetooth_call, CallAction::Nothing);
    assert!(!h.auto_enable_bluetooth);
    assert_eq!(h.inactive_time, 30);
    assert_eq!(h.selected_profile_index, 0);
    assert_eq!(h.profiles.len(), 1);
    assert_eq!(h.profiles[0].name, "Default");
}

#[test]
fn selected_profile_creates_default_when_empty() {
    let mut h = HeadsetConfig::default();
    h.profiles.clear();
    h.selected_profile_index = 7;
    let p = h.selected_profile();
    assert_eq!(p.name, "Default");
    assert_eq!(h.profiles.len(), 1);
    assert_eq!(h.selected_profile_index, 0);
}

#[test]
fn selected_profile_clamps_index() {
    let mut h = HeadsetConfig::default();
    h.profiles.push(Profile::new(String::from("Second")));
    h.profiles.push(Profile::new(String::from("Third")));
    h.selected_profile_index = 10;
    assert_eq!(h.selected_profile().name, "Third");
    assert_eq!(h.selected_profile_index, 2);
}

#[test]
fn selected_profile_keeps_valid_index() {
    let mut h = HeadsetConfig::default();
    h.profiles.push(Profile::new(String::from("Second")));
    h.selected_profile_index = 1;
    h.selected_profile().side_tone = 3;
    assert_eq!(h.selected_profile_index, 1);
    assert_eq!(h.profiles[1].side_tone, 3);
    assert_eq!(h.profiles[0].side_tone, 0);
}

#[test]
fn config_default_is_empty() {
    let c = Config::default();
    assert!(c.auto_apply_changes);
    assert!(c.preferred_device.is_none());
    assert!(c.headset_entries().is_empty());
}

#[test]
fn get_headset_creates_and_keeps() {
    let mut c = Config::default();
    c.get_headset("Arctis").inactive_time = 60;
    assert_eq!(c.headset_entries().len(), 1);
    assert_eq!(c.get_headset("Arctis").inactive_time, 60);
    assert_eq!(c.headset_entries().len(), 1);
    assert_eq!(c.get_headset("Other").inactive_time, 30);
    assert_eq!(c.headset_entries().len(), 2);
    assert_eq!(c.get_headset("Arctis").inactive_time, 60);
}

#[test]
fn insert_headset_replaces() {
    let mut c = Config::new();
    let mut h = HeadsetConfig::default();
    h.mic_light = 2;
    c.insert_headset(String::from("A"), h);
    let mut h2 = HeadsetConfig::default();
    h2.mic_light = 3;
    c.insert_headset(String::from("A"), h2);
    assert_eq!(c.headset_entries().len(), 1);
    assert_eq!(c.get_headset("A").mic_light, 3);
}

#[test]
fn output_switch_default_disabled() {
    assert!(matches!(OutputSwitch::default(), OutputSwitch::Disabled));
}
