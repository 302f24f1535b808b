use vstd::prelude::*;

use crate::audio::{first_named, plan_audio_post, switch_target, AudioPlan, OsAudio};
use crate::config::{selected_index, CallAction, HeadsetConfig};
use crate::control::{selection_repaired, status_submissions, StatusTracker, Submission};
use crate::debouncer::{
    action_index, due_time, is_due, pending_due, saturate, taken_at, timeout_ms, Action, Debouncer,
};
use crate::devices::arctis_nova_7::{
    battery_percent, config_report, state_after, state_of_report, status_report_long_enough,
    status_update_of, PowerState, State, StatusUpdate,
};
use crate::devices::{
    preferred_order_spec, unique_codes, BatteryLevel, ChatMix, ConfigAction, Interface,
};
use crate::ui::{call_action_at_spec, index_after_delete};

verus! {

/// An action whose timeout is forced right after it was submitted is due at
/// the moment of submission.
pub proof fn law_force_after_submit_is_due(m: Map<Action, i64>, a: Action, t: i64)
    requires
        t - timeout_ms(a) >= i64::MIN,
    ensures
        ({
            let submitted = m.insert(a, t);
            let forced = submitted.insert(a, saturate(submitted[a] - timeout_ms(a)) as i64);
            pending_due(forced, a, t as int)
        }),
{
}

/// A submitted action is not due before its timeout has passed, and is due
/// once it has.
pub proof fn law_due_exactly_after_timeout(a: Action, t: int, now: int)
    requires
        t <= now,
    ensures
        is_due(a, t, now) <==> now >= t + timeout_ms(a),
{
}

/// Submitting an action again restarts its timeout: only the last
/// submission counts.
pub proof fn law_resubmit_restarts(m: Map<Action, i64>, a: Action, t1: i64, t2: i64)
    ensures
        m.insert(a, t1).insert(a, t2) == m.insert(a, t2),
{
    assert(m.insert(a, t1).insert(a, t2) =~= m.insert(a, t2));
}

/// The moment an action becomes due is never before its submission.
pub proof fn law_due_time_not_before_submission(a: Action, t: i64)
    ensures
        due_time(a, t as int) >= t,
{
}

/// The timeouts: ten seconds for saving, ten milliseconds for device
/// switching and list refreshing, half a second otherwise; always positive.
pub proof fn law_timeouts(a: Action)
    ensures
        timeout_ms(a) > 0,
        a == Action::SaveConfig ==> timeout_ms(a) == 10000,
        (a == Action::SwitchDevice || a == Action::RefreshDeviceList) ==> timeout_ms(a) == 10,
        !(a == Action::SaveConfig || a == Action::SwitchDevice || a == Action::RefreshDeviceList)
            ==> timeout_ms(a) == 500,
{
}

/// Different actions have different positions, so each action has its own
/// pending slot.
pub proof fn law_action_index_injective(a: Action, b: Action)
    ensures
        action_index(a) == action_index(b) <==> a == b,
{
}

/// Once a profile selection is valid, `selected_profile` keeps the index:
/// repeated calls hand out the same profile.
pub proof fn law_selected_profile_idempotent(h: HeadsetConfig)
    requires
        h.has_valid_selection(),
    ensures
        selected_index(h) == h.selected_profile_index,
{
}

/// After one call of `selected_profile` the selection is valid, so a second
/// call changes nothing and hands out the same profile.
pub proof fn law_selected_profile_settles(before: HeadsetConfig, once: HeadsetConfig, twice: HeadsetConfig)
    requires
        selection_repaired(before, once),
        selection_repaired(once, twice),
    ensures
        once.has_valid_selection(),
        selected_index(once) == once.selected_profile_index,
        twice.profiles@ == once.profiles@,
        twice.selected_profile_index == once.selected_profile_index,
        crate::config::same_headset_settings(twice, once),
{
}

/// Deleting one of at least two profiles keeps a valid selection valid.
pub proof fn law_delete_keeps_valid_selection(h: HeadsetConfig, i: int)
    requires
        h.has_valid_selection(),
        h.profiles@.len() >= 2,
        0 <= i < h.profiles@.len(),
    ensures
        index_after_delete(h.selected_profile_index, i) < h.profiles@.len() - 1,
{
}

/// Seeing the same device status twice asks for nothing the second time.
pub proof fn law_status_unchanged_asks_nothing(connected: bool, battery: Option<BatteryLevel>)
    ensures
        status_submissions(
            StatusTracker { last_connected: connected, last_battery: battery },
            connected,
            battery,
        ) == Seq::<Submission>::empty(),
{
    assert(status_submissions(
        StatusTracker { last_connected: connected, last_battery: battery },
        connected,
        battery,
    ) =~= Seq::<Submission>::empty());
}

/// Once the requested device is the default, planning again does not switch.
pub proof fn law_switch_default_settles(
    config: OsAudio,
    connected: bool,
    names: Seq<String>,
    i: usize,
    r: AudioPlan,
)
    requires
        config is ChangeDefault,
        first_named(names, switch_target(config, connected), i as int),
        plan_audio_post(config, connected, names, Some(i), r),
    ensures
        r == AudioPlan::AlreadyDefault(i),
{
    let target = switch_target(config, connected);
    match r {
        AudioPlan::AlreadyDefault(j) => {
            if j < i {
                assert(names[j as int]@ != target);
            } else if j > i {
                assert(names[i as int]@ != target);
            }
        },
        AudioPlan::SetDefault(j) => {
            if j < i {
                assert(names[j as int]@ != target);
            } else if j > i {
                assert(names[i as int]@ != target);
            }
        },
        AudioPlan::Nothing => {
            assert(names[i as int]@ == target);
        },
        _ => {},
    }
}

/// The battery percentage never exceeds 100 and grows with the raw level.
pub proof fn law_battery_percent_monotonic(a: u8, b: u8)
    requires
        a <= b,
    ensures
        battery_percent(a) <= battery_percent(b) <= 100,
{
}

/// Different setting changes give different output reports (equalizer
/// levels compared by content): the headset can tell them apart.
pub proof fn law_config_report_injective(a: ConfigAction, b: ConfigAction)
    requires
        config_report(a) == config_report(b),
    ensures
        match (a, b) {
            (ConfigAction::SetEqualizerLevels(x), ConfigAction::SetEqualizerLevels(y)) => x@ == y@,
            _ => a == b,
        },
{
    let ra = config_report(a);
    let rb = config_report(b);
    assert(ra[1] == rb[1]);
    match (a, b) {
        (ConfigAction::SetEqualizerLevels(x), ConfigAction::SetEqualizerLevels(y)) => {
            assert(x@ =~= ra.subrange(2, ra.len() as int));
            assert(y@ =~= rb.subrange(2, rb.len() as int));
        },
        _ => {
            assert(ra[2] == rb[2]);
        },
    }
}

/// Every interface's (vendor, product) pair gets a rule, and no pair gets two.
pub proof fn law_unique_codes(interfaces: Seq<Interface>)
    ensures
        forall|i: int|
            0 <= i < interfaces.len() ==> unique_codes(interfaces).contains(
                (#[trigger] interfaces[i].vendor_id, interfaces[i].product_id),
            ),
        forall|j: int, k: int|
            0 <= j < k < unique_codes(interfaces).len() ==> #[trigger] unique_codes(interfaces)[j]
                != #[trigger] unique_codes(interfaces)[k],
    decreases interfaces.len(),
{
    if interfaces.len() > 0 {
        let rest = interfaces.drop_last();
        law_unique_codes(rest);
        let code = (interfaces.last().vendor_id, interfaces.last().product_id);
        let u = unique_codes(rest);
        assert forall|i: int| 0 <= i < interfaces.len() implies unique_codes(interfaces).contains(
            (#[trigger] interfaces[i].vendor_id, interfaces[i].product_id),
        ) by {
            if i < interfaces.len() - 1 {
                assert(rest[i] == interfaces[i]);
                let w = choose|w: int|
                    0 <= w < u.len() && u[w] == (rest[i].vendor_id, rest[i].product_id);
                if !u.contains(code) {
                    assert(u.push(code)[w] == u[w]);
                }
            } else {
                if !u.contains(code) {
                    assert(u.push(code)[u.len() as int] == code);
                }
            }
        }
        if !u.contains(code) {
            assert forall|j: int, k: int|
                0 <= j < k < unique_codes(interfaces).len() implies #[trigger] unique_codes(
                interfaces,
            )[j] != #[trigger] unique_codes(interfaces)[k] by {
                let v = u.push(code);
                if k == u.len() {
                    assert(v[j] == u[j]);
                } else {
                    assert(v[j] == u[j] && v[k] == u[k]);
                }
            }
        }
    }
}

/// Opening is tried for every device: each position occurs in the order,
/// after the devices with the preferred name.
pub proof fn law_preferred_order_covers_all(names: Seq<Seq<char>>, preference: Option<Seq<char>>)
    ensures
        forall|i: int|
            0 <= i < names.len() ==> #[trigger] preferred_order_spec(names, preference).contains(
                i as usize,
            ),
{
    let all = Seq::new(names.len(), |i: int| i as usize);
    let order = preferred_order_spec(names, preference);
    assert forall|i: int| 0 <= i < names.len() implies #[trigger] order.contains(i as usize) by {
        match preference {
            Some(p) => {
                let pre = all.filter(crate::devices::name_is(names, p));
                assert(order[pre.len() + i] == all[i]);
            },
            None => {
                assert(order[i] == all[i]);
            },
        }
    }
}

/// The pending times after `a` was submitted at each of `times`, in order.
pub open spec fn submitted_at_times(m: Map<Action, i64>, a: Action, times: Seq<i64>) -> Map<
    Action,
    i64,
>
    decreases times.len(),
{
    if times.len() == 0 {
        m
    } else {
        submitted_at_times(m.insert(a, times[0]), a, times.drop_first())
    }
}

proof fn lemma_submitted_at_times(m: Map<Action, i64>, a: Action, times: Seq<i64>)
    requires
        times.len() > 0,
    ensures
        submitted_at_times(m, a, times) == m.insert(a, times.last()),
    decreases times.len(),
{
    reveal_with_fuel(submitted_at_times, 2);
    if times.len() == 1 {
        assert(times.drop_first().len() == 0);
    } else {
        let rest = times.drop_first();
        lemma_submitted_at_times(m.insert(a, times[0]), a, rest);
        assert(m.insert(a, times[0]).insert(a, rest.last()) =~= m.insert(a, times.last()));
    }
}

/// Submitting an action again and again yields it once: only the last
/// submission counts, the action is not due before its timeout has passed
/// since that submission and is due once it has, and after it was taken no
/// later step yields it again.
pub proof fn law_repeated_submissions_coalesce(
    m: Map<Action, i64>,
    a: Action,
    times: Seq<i64>,
    now: int,
    after: Map<Action, i64>,
)
    requires
        times.len() > 0,
    ensures
        submitted_at_times(m, a, times) == m.insert(a, times.last()),
        times.last() <= now < times.last() + timeout_ms(a) ==> !pending_due(
            submitted_at_times(m, a, times),
            a,
            now,
        ),
        now >= times.last() + timeout_ms(a) ==> pending_due(submitted_at_times(m, a, times), a, now),
        taken_at(submitted_at_times(m, a, times), after, Some(a), now) ==> forall|
            later: Map<Action, i64>,
            r: Option<Action>,
            t: int,
        | #[trigger] taken_at(after, later, r, t) ==> r != Some(a),
{
    lemma_submitted_at_times(m, a, times);
}

proof fn lemma_takes_progress(
    ms: Seq<Map<Action, i64>>,
    rs: Seq<Option<Action>>,
    a: Action,
    now: int,
    j: int,
)
    requires
        ms.len() == rs.len() + 1,
        forall|k: int| #![trigger rs[k]] 0 <= k < rs.len() ==> taken_at(ms[k], ms[k + 1], rs[k], now),
        pending_due(ms[0], a, now),
        0 <= j <= rs.len(),
        forall|k: int| 0 <= k < j ==> #[trigger] rs[k] != Some(a),
    ensures
        pending_due(ms[j], a, now),
        forall|b: Action| action_index(b) < j ==> !#[trigger] pending_due(ms[j], b, now),
    decreases j,
{
    if j > 0 {
        lemma_takes_progress(ms, rs, a, now, j - 1);
        assert(rs[j - 1] != Some(a));
        assert(taken_at(ms[j - 1], ms[j], rs[j - 1], now));
        assert(rs[j - 1] is Some) by {
            if rs[j - 1] is None {
                assert(!pending_due(ms[j - 1], a, now));
            }
        }
        let r = rs[j - 1]->0;
        assert(pending_due(ms[j - 1], r, now));
        assert(ms[j] == ms[j - 1].remove(r));
        assert(action_index(r) >= j - 1);
        assert forall|b: Action| action_index(b) < j implies !#[trigger] pending_due(ms[j], b, now) by {
            law_action_index_injective(b, r);
            if b != r {
                assert(ms[j].contains_key(b) == ms[j - 1].contains_key(b));
                if ms[j].contains_key(b) {
                    assert(ms[j][b] == ms[j - 1][b]);
                }
                if action_index(b) < j - 1 {
                    assert(!pending_due(ms[j - 1], b, now));
                } else {
                    assert(action_index(b) < action_index(r));
                    assert(!pending_due(ms[j - 1], b, now));
                }
            }
        }
    }
}

/// A due action is yielded: taking the first due action again and again at
/// the same moment yields it within as many steps as its position in the
/// declaration order, plus one.
pub proof fn law_due_action_is_yielded(
    ms: Seq<Map<Action, i64>>,
    rs: Seq<Option<Action>>,
    a: Action,
    now: int,
)
    requires
        rs.len() == action_index(a) + 1,
        ms.len() == rs.len() + 1,
        forall|k: int| #![trigger rs[k]] 0 <= k < rs.len() ==> taken_at(ms[k], ms[k + 1], rs[k], now),
        pending_due(ms[0], a, now),
    ensures
        exists|k: int| 0 <= k < rs.len() && #[trigger] rs[k] == Some(a),
{
    if forall|k: int| 0 <= k < rs.len() ==> #[trigger] rs[k] != Some(a) {
        lemma_takes_progress(ms, rs, a, now, rs.len() as int);
        assert(false);
    }
}

/// The debouncer hands out no action before its timeout has passed since
/// its last submission, unless it was forced: at a clock reading `now` not
/// behind the debouncer's latest one and less than a pending action's time
/// plus its timeout, taking the due action does not yield that action.
pub proof fn law_debouncer_waits_for_timeout(
    d: Debouncer,
    after: Map<Action, i64>,
    r: Option<Action>,
    a: Action,
    now: int,
)
    requires
        d.well_formed(),
        d.pending().contains_key(a),
        d.clock() <= now < d.pending()[a] + timeout_ms(a),
        taken_at(d.pending(), after, r, now),
    ensures
        r != Some(a),
{
}

/// The call action byte of a bluetooth call report: 0 to do nothing, 1 to
/// reduce the volume, 2 to mute; it is the action's position in the list
/// of call actions offered for selection.
pub proof fn law_call_action_report(a: CallAction, i: int)
    requires
        0 <= i < 3,
    ensures
        a == CallAction::Nothing ==> config_report(ConfigAction::SetBluetoothCallAction(a))
            == seq![0x00u8, 0xb3u8, 0x00u8],
        a == CallAction::ReduceVolume ==> config_report(ConfigAction::SetBluetoothCallAction(a))
            == seq![0x00u8, 0xb3u8, 0x01u8],
        a == CallAction::Mute ==> config_report(ConfigAction::SetBluetoothCallAction(a))
            == seq![0x00u8, 0xb3u8, 0x02u8],
        config_report(ConfigAction::SetBluetoothCallAction(call_action_at_spec(i)))[2] == i,
{
}

/// The layout of each setting report: a zero byte, the setting's command
/// byte, then its value (flags as 0 or 1, the equalizer's band levels in
/// order).
pub proof fn law_report_layout(action: ConfigAction)
    ensures
        config_report(action).len() >= 2,
        config_report(action)[0] == 0x00u8,
        action matches ConfigAction::SetSideTone(l) ==> config_report(action) == seq![0x00u8, 0x39u8, l],
        action matches ConfigAction::SetMicrophoneVolume(l) ==> config_report(action) == seq![
            0x00u8,
            0x37u8,
            l,
        ],
        action == ConfigAction::EnableVolumeLimiter(true) ==> config_report(action) == seq![
            0x00u8,
            0x3au8,
            0x01u8,
        ],
        action == ConfigAction::EnableVolumeLimiter(false) ==> config_report(action) == seq![
            0x00u8,
            0x3au8,
            0x00u8,
        ],
        action matches ConfigAction::SetEqualizerLevels(levels) ==> {
            &&& config_report(action).len() == levels@.len() + 2
            &&& config_report(action)[1] == 0x33u8
            &&& forall|k: int| 0 <= k < levels@.len() ==> #[trigger] config_report(action)[k + 2] == levels@[k]
        },
        action == ConfigAction::EnableAutoBluetoothActivation(true) ==> config_report(action) == seq![
            0x00u8,
            0xb2u8,
            0x01u8,
        ],
        action == ConfigAction::EnableAutoBluetoothActivation(false) ==> config_report(action) == seq![
            0x00u8,
            0xb2u8,
            0x00u8,
        ],
        action matches ConfigAction::SetMicrophoneLightStrength(l) ==> config_report(action) == seq![
            0x00u8,
            0xaeu8,
            l,
        ],
        action matches ConfigAction::SetInactiveTime(m) ==> config_report(action) == seq![
            0x00u8,
            0xa3u8,
            m,
        ],
{
}

/// A power state notification `[0xbb, b]` says the headset is charging for
/// b = 1, running on battery for b = 3 and off otherwise, as the status
/// report does with the same byte; the battery then shows as charging
/// exactly for b = 1, and the headset counts as connected exactly for b = 1
/// or 3.
pub proof fn law_power_state_notification(data: Seq<u8>, report: Seq<u8>, s: State)
    requires
        status_report_long_enough(data),
        data[0] == 0xbbu8,
        report.len() >= 6,
        report[3] == data[1],
    ensures
        status_update_of(data) == Some(StatusUpdate::PowerState(state_of_report(report).power_state)),
        data[1] == 1 ==> status_update_of(data) == Some(StatusUpdate::PowerState(PowerState::Charging)),
        data[1] == 3 ==> status_update_of(data) == Some(
            StatusUpdate::PowerState(PowerState::Discharging),
        ),
        data[1] != 1 && data[1] != 3 ==> status_update_of(data) == Some(
            StatusUpdate::PowerState(PowerState::Offline),
        ),
        crate::devices::arctis_nova_7::battery_of(state_after(s, status_update_of(data)->0))
            == BatteryLevel::Charging <==> data[1] == 1,
        (state_after(s, status_update_of(data)->0).power_state != PowerState::Offline) <==> (data[1]
            == 1 || data[1] == 3),
{
}

/// The other notifications: `[0xb7, b]` reports the battery at 25 percent
/// per step of b, at most 100; `[0x45, g, c]` reports the chat mix with game
/// volume g and chat volume c; any other first byte reports nothing.
pub proof fn law_other_notifications(data: Seq<u8>)
    requires
        status_report_long_enough(data),
    ensures
        data[0] == 0xb7u8 && data[1] <= 4 ==> status_update_of(data) == Some(
            StatusUpdate::Battery((data[1] * 25) as u8),
        ),
        data[0] == 0xb7u8 && data[1] > 4 ==> status_update_of(data) == Some(
            StatusUpdate::Battery(100u8),
        ),
        data[0] == 0x45u8 ==> status_update_of(data) == Some(
            StatusUpdate::ChatMix((ChatMix { game: data[1], chat: data[2] })),
        ),
        data[0] != 0xb7u8 && data[0] != 0x45u8 && data[0] != 0xbbu8 ==> status_update_of(data) is None,
{
}

/// Deleting a profile other than the selected one keeps that profile
/// selected; deleting one after it leaves the index as it was.
pub proof fn law_delete_keeps_selected_profile(h: HeadsetConfig, i: int)
    requires
        h.has_valid_selection(),
        0 <= i < h.profiles@.len(),
        i != h.selected_profile_index,
    ensures
        h.profiles@.remove(i)[index_after_delete(h.selected_profile_index, i) as int]
            == h.profiles@[h.selected_profile_index as int],
        i > h.selected_profile_index ==> index_after_delete(h.selected_profile_index, i)
            == h.selected_profile_index,
{
}

/// The battery percentage grows by 25 per raw step and stops at 100 from
/// the fourth step on.
pub proof fn law_battery_steps(b: u8)
    ensures
        b <= 4 ==> battery_percent(b) == 25 * b,
        b >= 4 ==> battery_percent(b) == 100,
{
}

/// The answer to the status request: byte 3 gives the power state (1
/// charging, 3 on battery, anything else off), byte 2 the battery level
/// while on battery, bytes 4 and 5 the game and chat volume while not off.
pub proof fn law_status_report_fields(report: Seq<u8>)
    requires
        report.len() >= 6,
    ensures
        report[3] == 1 ==> state_of_report(report).power_state == PowerState::Charging,
        report[3] == 3 ==> state_of_report(report).power_state == PowerState::Discharging,
        report[3] != 1 && report[3] != 3 ==> state_of_report(report).power_state
            == PowerState::Offline,
        report[3] == 3 ==> state_of_report(report).battery == battery_percent(report[2]),
        report[3] != 3 ==> state_of_report(report).battery == 0,
        (report[3] == 1 || report[3] == 3) ==> state_of_report(report).chat_mix == (ChatMix {
            game: report[4],
            chat: report[5],
        }),
        !(report[3] == 1 || report[3] == 3) ==> state_of_report(report).chat_mix == (ChatMix {
            game: 100,
            chat: 100,
        }),
{
}

/// The profile `selected_profile` hands out: the selected one when the index
/// is in range, the last one when it is past the end, a new one when there
/// is none.
pub proof fn law_selected_index_rule(h: HeadsetConfig)
    ensures
        h.selected_profile_index < h.profiles@.len() ==> selected_index(h) == h.selected_profile_index,
        h.profiles@.len() > 0 && h.selected_profile_index >= h.profiles@.len() ==> selected_index(h)
            == h.profiles@.len() - 1,
        h.profiles@.len() == 0 ==> selected_index(h) == 0,
{
}

/// A change of the connection state asks to update the system audio at
/// once and the tray tooltip; a change of the battery state asks to update
/// the tooltip; nothing else is asked.
pub proof fn law_status_changes(last: StatusTracker, connected: bool, battery: Option<BatteryLevel>)
    ensures
        connected != last.last_connected ==> status_submissions(last, connected, battery).contains(
            Submission::Force(Action::UpdateSystemAudio),
        ) && status_submissions(last, connected, battery).contains(
            Submission::Submit(Action::UpdateTrayTooltip),
        ),
        connected == last.last_connected && battery != last.last_battery ==> status_submissions(
            last,
            connected,
            battery,
        ) == seq![Submission::Submit(Action::UpdateTrayTooltip)],
        forall|s: Submission| #[trigger]
            status_submissions(last, connected, battery).contains(s) ==> s == Submission::Force(
                Action::UpdateSystemAudio,
            ) || s == Submission::Submit(Action::UpdateSystemAudio) || s == Submission::Submit(
                Action::UpdateTrayTooltip,
            ),
{
    let q = status_submissions(last, connected, battery);
    if connected != last.last_connected {
        assert(q[2] == Submission::Force(Action::UpdateSystemAudio));
        assert(q[1] == Submission::Submit(Action::UpdateTrayTooltip));
    }
    assert forall|s: Submission| #[trigger] q.contains(s) implies s == Submission::Force(
        Action::UpdateSystemAudio,
    ) || s == Submission::Submit(Action::UpdateSystemAudio) || s == Submission::Submit(
        Action::UpdateTrayTooltip,
    ) by {
        let k = choose|k: int| 0 <= k < q.len() && q[k] == s;
    }
}

/// Equalizer levels may be sent when there are ten of them, each between
/// 0x00 and 0x28 (the base level 0x14, give or take 0x14).
pub proof fn law_equalizer_level_range(levels: Seq<u8>)
    ensures
        crate::devices::arctis_nova_7::valid_equalizer_levels(levels) <==> (levels.len() == 10
            && forall|i: int| 0 <= i < levels.len() ==> #[trigger] levels[i] <= 0x28u8),
{
}

} // verus!
