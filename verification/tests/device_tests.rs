use headset_controller::config::CallAction;
use headset_controller::devices::arctis_nova_7::{
    arctis_nova_7, arctis_nova_7p, arctis_nova_7x, configuration_interface, encode_config_action, equalizer_action,
    equalizer_levels_valid, idle_timeout_secs, inactive_time_action, microphone_light_action,
    microphone_volume_action, normalize_battery_level, notification_interface, parse_status_update, presets,
    side_tone_action, state_from_report, status_request, update_notification, PowerState, State, StatusUpdate,
    PID_ARCTIS_NOVA_7X,
};
use headset_controller::devices::dummy::{dummy_supported_device, DummyDevice};
use headset_controller::devices::{
    available_devices, generate_udev_rules, preferred_order, supported_devices, udev_rules_for_devices,
    BatteryLevel, ChatMix, ConfigAction, Device, DeviceStrings, DeviceUpdate, Interface,
};

#[test]
fn battery_level_text() {
    assert_eq!(BatteryLevel::Unknown.display_string(), "Error");
    assert_eq!(BatteryLevel::Charging.display_string(), "Charging");
    assert_eq!(BatteryLevel::Level(0).display_string(), "0%");
    assert_eq!(BatteryLevel::Level(75).display_string(), "75%");
    assert_eq!(BatteryLevel::Level(100).display_string(), "100%");
    assert_eq!(BatteryLevel::Level(255).display_string(), "255%");
    assert_eq!(BatteryLevel::default(), BatteryLevel::Unknown);
}

#[test]
fn chat_mix_default_full() {
    assert_eq!(ChatMix::default(), ChatMix { game: 100, chat: 100 });
}

#[test]
fn interface_new_orders_fields() {
    let i = Interface::new(1, 2, 3, 4);
    assert_eq!(i, Interface { usage_page: 1, usage_id: 2, vendor_id: 3, product_id: 4 });
}

#[test]
fn device_strings_new() {
    let s = DeviceStrings::new("a", "b", "c");
    assert_eq!((s.name, s.manufacturer, s.product), ("a", "b", "c"));
}

#[test]
fn power_state_bytes() {
    assert_eq!(PowerState::from_u8(0), PowerState::Offline);
    assert_eq!(PowerState::from_u8(1), PowerState::Charging);
    assert_eq!(PowerState::from_u8(2), PowerState::Offline);
    assert_eq!(PowerState::from_u8(3), PowerState::Discharging);
    assert_eq!(PowerState::from_u8(0xff), PowerState::Offline);
}

#[test]
fn battery_normalization() {
    assert_eq!(normalize_battery_level(0), 0);
    assert_eq!(normalize_battery_level(1), 25);
    assert_eq!(normalize_battery_level(3), 75);
    assert_eq!(normalize_battery_level(4), 100);
    assert_eq!(normalize_battery_level(200), 100);
}

#[test]
fn status_updates_parse() {
    assert_eq!(
        parse_status_update(&[0x45, 30, 70]),
        Some(StatusUpdate::ChatMix(ChatMix { game: 30, chat: 70 }))
    );
    assert_eq!(parse_status_update(&[0xbb, 3]), Some(StatusUpdate::PowerState(PowerState::Discharging)));
    assert_eq!(parse_status_update(&[0xb7, 2]), Some(StatusUpdate::Battery(50)));
    assert_eq!(parse_status_update(&[0x10, 0, 0]), None);
}

#[test]
fn state_applies_updates() {
    let mut s = State::default();
    assert!(!s.is_connected());
    assert_eq!(s.battery(), BatteryLevel::Unknown);
    s.apply(StatusUpdate::PowerState(PowerState::Discharging));
    s.apply(StatusUpdate::Battery(75));
    assert!(s.is_connected());
    assert_eq!(s.battery(), BatteryLevel::Level(75));
    s.apply(StatusUpdate::PowerState(PowerState::Charging));
    assert_eq!(s.battery(), BatteryLevel::Charging);
    s.apply(StatusUpdate::ChatMix(ChatMix { game: 1, chat: 2 }));
    assert_eq!(s.chat_mix, ChatMix { game: 1, chat: 2 });
}

#[test]
fn state_from_status_report() {
    let s = state_from_report(&[0, 0, 2, 3, 40, 60, 0, 0]);
    assert_eq!(s, State { power_state: PowerState::Discharging, battery: 50, chat_mix: ChatMix { game: 40, chat: 60 } });
    let s = state_from_report(&[0, 0, 2, 1, 40, 60]);
    assert_eq!(s, State { power_state: PowerState::Charging, battery: 0, chat_mix: ChatMix { game: 40, chat: 60 } });
    let s = state_from_report(&[0, 0, 2, 0, 40, 60]);
    assert_eq!(s, State { power_state: PowerState::Offline, battery: 0, chat_mix: ChatMix::default() });
}

#[test]
fn notifications_of_updates() {
    assert!(matches!(update_notification(StatusUpdate::Battery(3)), DeviceUpdate::BatteryLevel));
    assert!(matches!(
        update_notification(StatusUpdate::PowerState(PowerState::Offline)),
        DeviceUpdate::ConnectionChanged
    ));
    assert!(matches!(update_notification(StatusUpdate::ChatMix(ChatMix::default())), DeviceUpdate::ChatMixChanged));
}

#[test]
fn config_reports() {
    assert_eq!(status_request(), vec![0x00, 0xb0]);
    assert_eq!(encode_config_action(ConfigAction::SetSideTone(2)), vec![0x00, 0x39, 2]);
    assert_eq!(encode_config_action(ConfigAction::SetMicrophoneVolume(5)), vec![0x00, 0x37, 5]);
    assert_eq!(encode_config_action(ConfigAction::EnableVolumeLimiter(true)), vec![0x00, 0x3a, 1]);
    assert_eq!(encode_config_action(ConfigAction::EnableVolumeLimiter(false)), vec![0x00, 0x3a, 0]);
    assert_eq!(
        encode_config_action(ConfigAction::SetEqualizerLevels(vec![1, 2, 3])),
        vec![0x00, 0x33, 1, 2, 3]
    );
    assert_eq!(
        encode_config_action(ConfigAction::SetBluetoothCallAction(CallAction::ReduceVolume)),
        vec![0x00, 0xb3, 1]
    );
    assert_eq!(
        encode_config_action(ConfigAction::SetBluetoothCallAction(CallAction::Mute)),
        vec![0x00, 0xb3, 2]
    );
    assert_eq!(encode_config_action(ConfigAction::EnableAutoBluetoothActivation(true)), vec![0x00, 0xb2, 1]);
    assert_eq!(encode_config_action(ConfigAction::SetMicrophoneLightStrength(3)), vec![0x00, 0xae, 3]);
    assert_eq!(encode_config_action(ConfigAction::SetInactiveTime(30)), vec![0x00, 0xa3, 30]);
}

#[test]
fn setting_builders() {
    assert!(matches!(side_tone_action(3), ConfigAction::SetSideTone(3)));
    assert!(matches!(microphone_volume_action(7), ConfigAction::SetMicrophoneVolume(7)));
    assert!(matches!(microphone_light_action(0), ConfigAction::SetMicrophoneLightStrength(0)));
    assert!(matches!(inactive_time_action(10), ConfigAction::SetInactiveTime(10)));
    assert_eq!(encode_config_action(inactive_time_action(10)), vec![0x00, 0xa3, 10]);
    assert_eq!(idle_timeout_secs(true), Some(20));
    assert_eq!(idle_timeout_secs(false), None);
}

#[test]
fn equalizer_level_checks() {
    let flat = [0x14u8; 10];
    assert!(equalizer_levels_valid(&flat));
    assert!(equalizer_levels_valid(&[0, 0x28, 0, 0, 0, 0, 0, 0, 0, 0]));
    assert!(!equalizer_levels_valid(&[0x29, 0, 0, 0, 0, 0, 0, 0, 0, 0]));
    assert!(!equalizer_levels_valid(&[0x14; 9]));
    match equalizer_action(&flat) {
        ConfigAction::SetEqualizerLevels(v) => assert_eq!(v, flat.to_vec()),
        _ => panic!("wrong setting"),
    }
    let p = presets();
    assert_eq!(p.len(), 4);
    assert_eq!(p[1].0, "Bass");
    for (_, levels) in p {
        assert!(equalizer_levels_valid(levels));
    }
}

#[test]
fn model_interfaces() {
    let d = arctis_nova_7x();
    assert_eq!(d.name(), "Steelseries Arctis Nova 7X");
    assert_eq!(d.required_interfaces.len(), 2);
    assert_eq!(d.required_interfaces[0], notification_interface(PID_ARCTIS_NOVA_7X));
    assert_eq!(d.required_interfaces[1], configuration_interface(PID_ARCTIS_NOVA_7X));
    assert_eq!(configuration_interface(0x2202), Interface::new(0xFFC0, 1, 0x1038, 0x2202));
}

#[test]
fn supported_device_list() {
    let l = supported_devices(false);
    assert_eq!(l.len(), 3);
    assert_eq!(l[0].name(), "Steelseries Arctis Nova 7");
    assert_eq!(l[2].name(), "Steelseries Arctis Nova 7P");
    let l = supported_devices(true);
    assert_eq!(l.len(), 4);
    assert_eq!(l[3].name(), "DummyDevice");
}

#[test]
fn availability_filter() {
    let devices = vec![arctis_nova_7(), arctis_nova_7x(), arctis_nova_7p(), dummy_supported_device()];
    let present = vec![
        notification_interface(0x2206),
        configuration_interface(0x2206),
        configuration_interface(0x2202),
    ];
    assert_eq!(available_devices(&devices, &present), vec![1, 3]);
    assert_eq!(available_devices(&devices, &vec![]), vec![3]);
}

#[test]
fn preference_order() {
    let devices = supported_devices(true);
    assert_eq!(preferred_order(&devices, &None), vec![0, 1, 2, 3]);
    assert_eq!(
        preferred_order(&devices, &Some(String::from("Steelseries Arctis Nova 7P"))),
        vec![2, 0, 1, 2, 3]
    );
    assert_eq!(preferred_order(&devices, &Some(String::from("Unknown"))), vec![0, 1, 2, 3]);
}

#[test]
fn udev_rules_text() {
    let rules = generate_udev_rules();
    let mut expected = String::new();
    expected.push_str("ACTION!=\"add|change\", GOTO=\"headsets_end\"\n");
    expected.push_str("\n");
    expected.push_str("# Steelseries Arctis Nova 7\n");
    expected.push_str("KERNEL==\"hidraw*\", ATTRS{idVendor}==\"1038\", ATTRS{idProduct}==\"2202\", TAG+=\"uaccess\"\n");
    expected.push_str("\n");
    expected.push_str("# Steelseries Arctis Nova 7X\n");
    expected.push_str("KERNEL==\"hidraw*\", ATTRS{idVendor}==\"1038\", ATTRS{idProduct}==\"2206\", TAG+=\"uaccess\"\n");
    expected.push_str("\n");
    expected.push_str("# Steelseries Arctis Nova 7P\n");
    expected.push_str("KERNEL==\"hidraw*\", ATTRS{idVendor}==\"1038\", ATTRS{idProduct}==\"220a\", TAG+=\"uaccess\"\n");
    expected.push_str("\n");
    expected.push_str("LABEL=\"headsets_end\"\n");
    assert_eq!(rules, expected);
}

#[test]
fn udev_rules_distinct_codes() {
    let mut d = dummy_supported_device();
    d.required_interfaces = vec![Interface::new(1, 1, 0xabcd, 0x0001), Interface::new(2, 1, 0xabcd, 0x0001), Interface::new(2, 1, 0x0002, 0x0f00)];
    let rules = udev_rules_for_devices(&vec![d]);
    assert!(rules.contains("ATTRS{idVendor}==\"abcd\", ATTRS{idProduct}==\"0001\""));
    assert!(rules.contains("ATTRS{idVendor}==\"0002\", ATTRS{idProduct}==\"0f00\""));
    assert_eq!(rules.matches("KERNEL").count(), 2);
}

#[test]
fn dummy_device_features() {
    let d = DummyDevice;
    assert_eq!(d.name(), "DummyDevice");
    assert_eq!(d.strings().manufacturer, "DummyCorp");
    assert!(d.is_connected());
    assert_eq!(d.get_battery_status(), Some(BatteryLevel::Charging));
    assert_eq!(d.get_chat_mix(), Some(ChatMix::default()));
    assert_eq!(d.get_side_tone().unwrap().levels(), 6);
    assert_eq!(d.get_mic_volume().unwrap().levels(), 12);
    assert_eq!(d.get_mic_light().unwrap().levels(), 2);
    let eq = d.get_equalizer().unwrap();
    assert_eq!((eq.bands(), eq.base_level(), eq.variance()), (13, 8, 3));
    assert_eq!(eq.presets().len(), 1);
    assert_eq!(eq.presets()[0].1, &[8u8; 13]);
    assert!(d.get_bluetooth_config().is_some());
    assert!(d.get_inactive_time().is_some());
    assert!(d.get_volume_limiter().is_some());
}
