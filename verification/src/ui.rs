use vstd::prelude::*;

use crate::config::{is_new_profile, CallAction, EqualizerConfig, HeadsetConfig, Profile};
use crate::control::Submission;
use crate::debouncer::Action;

verus! {

/// What an edited control asks of the debouncer: a change saves the
/// configuration and, with automatic updates, submits the control's
/// action; releasing a drag forces the action.
pub fn response_submissions(changed: bool, drag_released: bool, auto_update: bool, action: Action) -> (r: Vec<
    Submission,
>)
    ensures
        r@ == (if changed {
            seq![Submission::Submit(Action::SaveConfig)] + (if auto_update {
                seq![Submission::Submit(action)]
            } else {
                Seq::empty()
            })
        } else {
            Seq::empty()
        }) + (if drag_released {
            seq![Submission::Force(action)]
        } else {
            Seq::empty()
        }),
{
    let mut r: Vec<Submission> = Vec::new();
    if changed {
        r.push(Submission::Submit(Action::SaveConfig));
        if auto_update {
            r.push(Submission::Submit(action));
        }
    }
    if drag_released {
        r.push(Submission::Force(action));
    }
    assert(r@ =~= (if changed {
        seq![Submission::Submit(Action::SaveConfig)] + (if auto_update {
            seq![Submission::Submit(action)]
        } else {
            Seq::empty()
        })
    } else {
        Seq::empty()
    }) + (if drag_released {
        seq![Submission::Force(action)]
    } else {
        Seq::empty()
    }));
    r
}

/// Adds a profile called "New Profile" at the end.
pub fn add_profile(headset: &mut HeadsetConfig)
    ensures
        final(headset).profiles@.len() == old(headset).profiles@.len() + 1,
        final(headset).profiles@.drop_last() == old(headset).profiles@,
        is_new_profile(final(headset).profiles@.last(), "New Profile"@),
        final(headset).selected_profile_index == old(headset).selected_profile_index,
        crate::config::same_headset_settings(*final(headset), *old(headset)),
{
    headset.profiles.push(Profile::new(String::from_str("New Profile")));
    assert(headset.profiles@.drop_last() =~= old(headset).profiles@);
}

/// The selected index after the profile at `removed` is deleted: it moves
/// down by one when the deleted profile was at or before it, unless it is 0.
pub open spec fn index_after_delete(selected: u32, removed: int) -> u32 {
    if removed <= selected && selected > 0 {
        (selected - 1) as u32
    } else {
        selected
    }
}

/// Deletes the profile at position `i`.
pub fn delete_profile(headset: &mut HeadsetConfig, i: usize)
    requires
        i < old(headset).profiles@.len(),
    ensures
        final(headset).profiles@ == old(headset).profiles@.remove(i as int),
        final(headset).selected_profile_index == index_after_delete(
            old(headset).selected_profile_index,
            i as int,
        ),
        crate::config::same_headset_settings(*final(headset), *old(headset)),
{
    headset.profiles.remove(i);
    if (i as u64) <= (headset.selected_profile_index as u64) && headset.selected_profile_index > 0 {
        headset.selected_profile_index = headset.selected_profile_index - 1;
    }
}

/// The call actions offered for selection, in order, with their labels.
pub open spec fn call_action_at_spec(i: int) -> CallAction {
    if i == 1 {
        CallAction::ReduceVolume
    } else if i == 2 {
        CallAction::Mute
    } else {
        CallAction::Nothing
    }
}

/// The position of `a` among the offered call actions.
pub fn call_action_index(a: CallAction) -> (r: usize)
    ensures
        r < 3,
        call_action_at_spec(r as int) == a,
{
    match a {
        CallAction::Nothing => 0,
        CallAction::ReduceVolume => 1,
        CallAction::Mute => 2,
    }
}

/// The call action offered at position `i`.
pub fn call_action_at(i: usize) -> (r: CallAction)
    requires
        i < 3,
    ensures
        r == call_action_at_spec(i as int),
{
    match i {
        0 => CallAction::Nothing,
        1 => CallAction::ReduceVolume,
        _ => CallAction::Mute,
    }
}

/// The label shown for a call action.
pub fn call_action_label(a: CallAction) -> (r: &'static str)
    ensures
        a == CallAction::Nothing ==> r@ == "Nothing"@,
        a == CallAction::ReduceVolume ==> r@ == "Reduce Volume"@,
        a == CallAction::Mute ==> r@ == "Mute"@,
{
    match a {
        CallAction::Nothing => "Nothing",
        CallAction::ReduceVolume => "Reduce Volume",
        CallAction::Mute => "Mute",
    }
}

/// The equalizer choice shown for a setting: the preset's position and
/// levels, or the position after the last preset ("Custom") and the
/// custom levels.
pub fn equalizer_selection(conf: &EqualizerConfig, presets: &[(&str, &[u8])]) -> (r: (
    usize,
    Vec<u8>,
))
    requires
        conf matches EqualizerConfig::Preset(i) ==> i < presets@.len(),
    ensures
        conf matches EqualizerConfig::Preset(i) ==> r.0 == i && r.1@ == presets@[i as int].1@,
        conf matches EqualizerConfig::Custom(levels) ==> r.0 == presets@.len() && r.1@ == levels@,
{
    match conf {
        EqualizerConfig::Preset(i) => (*i as usize, crate::util::copied(presets[*i as usize].1)),
        EqualizerConfig::Custom(levels) => (presets.len(), crate::util::copied(levels.as_slice())),
    }
}

/// The setting for an equalizer choice: custom levels at the "Custom"
/// position, the preset otherwise.
pub fn equalizer_config_from(index: usize, custom_index: usize, levels: Vec<u8>) -> (r: EqualizerConfig)
    requires
        index <= u32::MAX,
    ensures
        index == custom_index ==> r == EqualizerConfig::Custom(levels),
        index != custom_index ==> r == EqualizerConfig::Preset(index as u32),
{
    if index == custom_index {
        EqualizerConfig::Custom(levels)
    } else {
        EqualizerConfig::Preset(index as u32)
    }
}

/// The range a band level may take: the variance around the neutral level.
pub fn equalizer_range(base_level: u8, variance: u8) -> (r: (u8, u8))
    requires
        variance <= base_level,
        base_level + variance <= u8::MAX,
    ensures
        r.0 == base_level - variance,
        r.1 == base_level + variance,
{
    (base_level - variance, base_level + variance)
}

/// Whether the device called `name` is the preferred one.
pub fn is_preferred_device(preferred: &Option<String>, name: &str) -> (r: bool)
    ensures
        r == (preferred matches Some(p) && p@ == name@),
{
    match preferred {
        Some(p) => *p == String::from_str(name),
        None => false,
    }
}

/// The actions submitted after another device was chosen.
pub fn device_chosen_actions() -> (r: Vec<Action>)
    ensures
        r@ == seq![Action::SaveConfig, Action::SwitchDevice],
{
    vec![Action::SaveConfig, Action::SwitchDevice]
}

/// The actions submitted when the device list is refreshed.
pub fn refresh_actions() -> (r: Vec<Action>)
    ensures
        r@ == seq![Action::RefreshDeviceList, Action::SwitchDevice],
{
    vec![Action::RefreshDeviceList, Action::SwitchDevice]
}

/// The actions submitted after the profile list or a profile name changed.
pub fn profile_list_changed_actions() -> (r: Vec<Action>)
    ensures
        r@ == seq![Action::SaveConfig, Action::UpdateTray],
{
    vec![Action::SaveConfig, Action::UpdateTray]
}

} // verus!
