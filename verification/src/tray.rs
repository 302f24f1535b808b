use vstd::prelude::*;

use crate::config::HeadsetConfig;
use crate::debouncer::Action;

verus! {

/// What the tray icon is asked to refresh.
#[derive(Debug, Clone, Copy, PartialEq, Eq, Structural)]
pub enum TrayUpdate {
    RefreshProfiles,
    RefreshTooltip,
}

/// An entry of the tray menu was chosen.
#[derive(Debug, Clone, Copy, PartialEq, Eq, Structural)]
pub enum TrayMenuEvent {
    Profile(u32),
    Open,
    Quit,
}

/// One profile entry of the tray menu.
#[derive(Debug, Clone)]
pub struct ProfileEntry {
    pub name: String,
    pub event: TrayMenuEvent,
    pub checked: bool,
}

/// The profile entries of the tray menu: one per profile, in order, the
/// selected one checked; none without a headset configuration.
pub fn profile_menu_entries(config: Option<&HeadsetConfig>) -> (r: Vec<ProfileEntry>)
    requires
        config matches Some(c) ==> c.profiles@.len() <= u32::MAX + 1,
    ensures
        config is None ==> r@.len() == 0,
        config matches Some(c) ==> {
            &&& r@.len() == c.profiles@.len()
            &&& forall|i: int|
                0 <= i < r@.len() ==> {
                    &&& (#[trigger] r@[i]).name == c.profiles@[i].name
                    &&& r@[i].event == TrayMenuEvent::Profile(i as u32)
                    &&& r@[i].checked == (i == c.selected_profile_index)
                }
        },
{
    let mut r: Vec<ProfileEntry> = Vec::new();
    match config {
        Some(c) => {
            let mut i: usize = 0;
            while i < c.profiles.len()
                invariant
                    i <= c.profiles@.len(),
                    c.profiles@.len() <= u32::MAX + 1,
                    r@.len() == i,
                    forall|k: int|
                        0 <= k < i ==> {
                            &&& (#[trigger] r@[k]).name == c.profiles@[k].name
                            &&& r@[k].event == TrayMenuEvent::Profile(k as u32)
                            &&& r@[k].checked == (k == c.selected_profile_index)
                        },
                decreases c.profiles@.len() - i,
            {
                let index = i as u32;
                r.push(
                    ProfileEntry {
                        name: c.profiles[i].name.clone(),
                        event: TrayMenuEvent::Profile(index),
                        checked: index == c.selected_profile_index,
                    },
                );
                i = i + 1;
            }
        },
        None => {},
    }
    r
}

/// What came of choosing a profile in the tray menu.
#[derive(Debug, Clone, Copy, PartialEq, Eq, Structural)]
pub enum ProfileSelection {
    AlreadySelected,
    OutOfRange,
    Selected,
}

/// Makes profile `id` the selected one when it exists and is not selected yet.
pub fn select_profile(headset: &mut HeadsetConfig, id: u32) -> (r: ProfileSelection)
    ensures
        id == old(headset).selected_profile_index ==> r == ProfileSelection::AlreadySelected
            && *final(headset) == *old(headset),
        id != old(headset).selected_profile_index && id >= old(headset).profiles@.len() ==> r
            == ProfileSelection::OutOfRange && *final(headset) == *old(headset),
        id != old(headset).selected_profile_index && id < old(headset).profiles@.len() ==> r
            == ProfileSelection::Selected && *final(headset) == (HeadsetConfig {
            selected_profile_index: id,
            ..*old(headset)
        }),
{
    if id != headset.selected_profile_index {
        if (id as usize) < headset.profiles.len() {
            headset.selected_profile_index = id;
            ProfileSelection::Selected
        } else {
            ProfileSelection::OutOfRange
        }
    } else {
        ProfileSelection::AlreadySelected
    }
}

/// The actions submitted (and not forced) after a profile was chosen in the
/// tray menu, besides the profile change itself.
pub fn profile_selected_actions() -> (r: Vec<Action>)
    ensures
        r@ == seq![Action::SaveConfig, Action::UpdateTray],
{
    vec![Action::SaveConfig, Action::UpdateTray]
}

/// The tooltip of the tray icon: the device name, or "Disconnected".
pub fn tray_tooltip(device_name: Option<&'static str>) -> (r: &'static str)
    ensures
        device_name matches Some(n) ==> r == n,
        device_name is None ==> r@ == "Disconnected"@,
{
    match device_name {
        Some(n) => n,
        None => "Disconnected",
    }
}

} // verus!
