use headset_controller::debouncer::{
    headset_change_actions, profile_change_actions, saturating_add_i64, saturating_sub_i64, Action, ActionOp,
    ActionSender, ActionTimes, Debouncer, PollOutcome, ACTION_COUNT,
};

#[test]
fn timeouts_in_milliseconds() {
    assert_eq!(Action::SaveConfig.timeout(), 10_000);
    assert_eq!(Action::SwitchDevice.timeout(), 10);
    assert_eq!(Action::RefreshDeviceList.timeout(), 10);
    assert_eq!(Action::UpdateEqualizer.timeout(), 500);
    assert_eq!(Action::UpdateTray.timeout(), 500);
}

#[test]
fn index_roundtrip() {
    for i in 0..ACTION_COUNT {
        assert_eq!(Action::from_index(i).index(), i);
    }
    assert_eq!(Action::SwitchDevice.index(), 14);
}

#[test]
fn submitted_action_waits_for_timeout() {
    let mut t = ActionTimes::new();
    t.submit_at(Action::UpdateSideTone, 1000);
    assert_eq!(t.take_due(1200), None);
    assert_eq!(t.next_deadline(), Some(1500));
    assert_eq!(t.take_due(1500), Some(Action::UpdateSideTone));
    assert_eq!(t.get(Action::UpdateSideTone), None);
    assert_eq!(t.next_deadline(), None);
}

#[test]
fn force_skips_timeout() {
    let mut t = ActionTimes::new();
    t.submit_at(Action::SaveConfig, 1000);
    t.force(Action::SaveConfig);
    assert_eq!(t.get(Action::SaveConfig), Some(-9000));
    assert_eq!(t.take_due(1000), Some(Action::SaveConfig));
}

#[test]
fn force_without_submit_does_nothing() {
    let mut t = ActionTimes::new();
    t.force(Action::UpdateTray);
    assert_eq!(t.get(Action::UpdateTray), None);
    assert_eq!(t.take_due(100000), None);
}

#[test]
fn resubmit_restarts_timeout() {
    let mut t = ActionTimes::new();
    t.submit_at(Action::UpdateTray, 0);
    t.submit_at(Action::UpdateTray, 400);
    assert_eq!(t.take_due(500), None);
    assert_eq!(t.take_due(900), Some(Action::UpdateTray));
}

#[test]
fn future_submission_is_due() {
    let mut t = ActionTimes::new();
    t.submit_at(Action::UpdateTray, 5000);
    assert_eq!(t.take_due(1000), Some(Action::UpdateTray));
}

#[test]
fn first_due_in_declaration_order() {
    let mut t = ActionTimes::new();
    t.submit_at(Action::SwitchDevice, 0);
    t.submit_at(Action::RefreshDeviceList, 0);
    t.submit_at(Action::SaveConfig, 0);
    assert_eq!(t.take_due(20), Some(Action::RefreshDeviceList));
    assert_eq!(t.take_due(20), Some(Action::SwitchDevice));
    assert_eq!(t.take_due(20), None);
    assert_eq!(t.next_deadline(), Some(10_000));
}

#[test]
fn poll_reports_deadline() {
    let mut t = ActionTimes::new();
    assert_eq!(t.poll(0), PollOutcome::WaitUntil(None));
    t.apply(ActionOp::Submit(Action::UpdateEqualizer, 100));
    t.apply(ActionOp::Submit(Action::SaveConfig, 50));
    assert_eq!(t.poll(200), PollOutcome::WaitUntil(Some(600)));
    t.apply(ActionOp::Force(Action::UpdateEqualizer));
    assert_eq!(t.poll(200), PollOutcome::Ready(Action::UpdateEqualizer));
    assert_eq!(t.poll(200), PollOutcome::WaitUntil(Some(10_050)));
}

#[test]
fn saturating_helpers() {
    assert_eq!(saturating_sub_i64(i64::MIN, 10), i64::MIN);
    assert_eq!(saturating_add_i64(i64::MAX, 10), i64::MAX);
    assert_eq!(saturating_sub_i64(5, 10), -5);
}

#[test]
fn debouncer_clock_submission() {
    let mut d = Debouncer::new();
    assert!(d.now() >= 0);
    assert_eq!(d.next_action(), None);
    d.submit(Action::SaveConfig);
    assert!(d.next_action().is_some());
    assert_eq!(d.next(), None);
    d.force(Action::SaveConfig);
    assert_eq!(d.next(), Some(Action::SaveConfig));
    assert_eq!(d.next(), None);
}

#[derive(Default)]
struct Recorder(Vec<(bool, Action)>);

impl ActionSender for Recorder {
    fn submit(&mut self, action: Action) {
        self.0.push((false, action));
    }
    fn force(&mut self, action: Action) {
        self.0.push((true, action));
    }
}

#[test]
fn profile_change_submits_then_forces() {
    let mut r = Recorder::default();
    r.submit_profile_change();
    let actions = profile_change_actions();
    assert_eq!(r.0.len(), 8);
    for (i, a) in actions.iter().enumerate() {
        assert_eq!(r.0[i], (false, *a));
        assert_eq!(r.0[i + 4], (true, *a));
    }
}

#[test]
fn full_change_covers_headset_actions() {
    let mut r = Recorder::default();
    r.submit_full_change();
    assert_eq!(r.0.len(), 18);
    let headset = headset_change_actions();
    for (i, a) in headset.iter().enumerate() {
        assert_eq!(r.0[8 + i], (false, *a));
        assert_eq!(r.0[13 + i], (true, *a));
    }
}

#[test]
fn debouncer_submit_all_and_force_all() {
    let mut d = Debouncer::new();
    d.submit_all(&[Action::UpdateTray, Action::SaveConfig]);
    d.force_all(&[Action::UpdateTray, Action::SaveConfig]);
    let first = d.next();
    let second = d.next();
    assert_eq!(first, Some(Action::SaveConfig));
    assert_eq!(second, Some(Action::UpdateTray));
}
