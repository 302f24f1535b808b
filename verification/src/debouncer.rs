use std::time::{Duration, Instant};
use vstd::prelude::*;

use crate::control::Submission;

verus! {

/// Something the application has to do; submitting it starts (or restarts)
/// its debounce timeout.
#[derive(Debug, Clone, Copy, PartialEq, Eq, Structural)]
pub enum Action {
    SaveConfig,
    UpdateSideTone,
    UpdateEqualizer,
    UpdateMicrophoneVolume,
    UpdateVolumeLimit,
    UpdateInactiveTime,
    UpdateMicrophoneLight,
    UpdateBluetoothCall,
    UpdateAutoBluetooth,
    UpdateSystemAudio,
    UpdateTray,
    UpdateTrayTooltip,
    UpdateDeviceStatus,
    RefreshDeviceList,
    SwitchDevice,
}

/// The number of `Action` variants.
pub const ACTION_COUNT: usize = 15;

/// The position of `a` in the declaration order of `Action`.
pub open spec fn action_index(a: Action) -> int {
    match a {
        Action::SaveConfig => 0,
        Action::UpdateSideTone => 1,
        Action::UpdateEqualizer => 2,
        Action::UpdateMicrophoneVolume => 3,
        Action::UpdateVolumeLimit => 4,
        Action::UpdateInactiveTime => 5,
        Action::UpdateMicrophoneLight => 6,
        Action::UpdateBluetoothCall => 7,
        Action::UpdateAutoBluetooth => 8,
        Action::UpdateSystemAudio => 9,
        Action::UpdateTray => 10,
        Action::UpdateTrayTooltip => 11,
        Action::UpdateDeviceStatus => 12,
        Action::RefreshDeviceList => 13,
        Action::SwitchDevice => 14,
    }
}

/// The debounce timeout of `a` in milliseconds: ten seconds for saving the
/// configuration, ten milliseconds for switching devices and refreshing the
/// device list, half a second for everything else.
pub open spec fn timeout_ms(a: Action) -> int {
    match a {
        Action::SaveConfig => 10000,
        Action::SwitchDevice | Action::RefreshDeviceList => 10,
        _ => 500,
    }
}

proof fn lemma_action_index_injective()
    ensures
        forall|a: Action, b: Action| action_index(a) == action_index(b) ==> a == b,
        forall|a: Action| 0 <= #[trigger] action_index(a) < ACTION_COUNT,
{
}

impl Action {
    /// The position of this action in the declaration order.
    pub fn index(self) -> (r: usize)
        ensures
            r == action_index(self),
            r < ACTION_COUNT,
    {
        match self {
            Action::SaveConfig => 0,
            Action::UpdateSideTone => 1,
            Action::UpdateEqualizer => 2,
            Action::UpdateMicrophoneVolume => 3,
            Action::UpdateVolumeLimit => 4,
            Action::UpdateInactiveTime => 5,
            Action::UpdateMicrophoneLight => 6,
            Action::UpdateBluetoothCall => 7,
            Action::UpdateAutoBluetooth => 8,
            Action::UpdateSystemAudio => 9,
            Action::UpdateTray => 10,
            Action::UpdateTrayTooltip => 11,
            Action::UpdateDeviceStatus => 12,
            Action::RefreshDeviceList => 13,
            Action::SwitchDevice => 14,
        }
    }

    /// The action at position `i` of the declaration order.
    pub fn from_index(i: usize) -> (r: Action)
        requires
            i < ACTION_COUNT,
        ensures
            action_index(r) == i,
    {
        match i {
            0 => Action::SaveConfig,
            1 => Action::UpdateSideTone,
            2 => Action::UpdateEqualizer,
            3 => Action::UpdateMicrophoneVolume,
            4 => Action::UpdateVolumeLimit,
            5 => Action::UpdateInactiveTime,
            6 => Action::UpdateMicrophoneLight,
            7 => Action::UpdateBluetoothCall,
            8 => Action::UpdateAutoBluetooth,
            9 => Action::UpdateSystemAudio,
            10 => Action::UpdateTray,
            11 => Action::UpdateTrayTooltip,
            12 => Action::UpdateDeviceStatus,
            13 => Action::RefreshDeviceList,
            _ => Action::SwitchDevice,
        }
    }

    /// The debounce timeout in milliseconds.
    pub fn timeout(self) -> (r: u64)
        ensures
            r == timeout_ms(self),
    {
        match self {
            Action::SaveConfig => 10000,
            Action::SwitchDevice | Action::RefreshDeviceList => 10,
            _ => 500,
        }
    }
}

/// `x` held to the range of `i64`.
pub open spec fn saturate(x: int) -> int {
    if x < i64::MIN {
        i64::MIN as int
    } else if x > i64::MAX {
        i64::MAX as int
    } else {
        x
    }
}

/// `a - b` held to the range of `i64`.
pub fn saturating_sub_i64(a: i64, b: i64) -> (r: i64)
    ensures
        r == saturate(a - b),
{
    let x: i128 = (a as i128) - (b as i128);
    if x < i64::MIN as i128 {
        i64::MIN
    } else if x > i64::MAX as i128 {
        i64::MAX
    } else {
        x as i64
    }
}

/// `a + b` held to the range of `i64`.
pub fn saturating_add_i64(a: i64, b: i64) -> (r: i64)
    ensures
        r == saturate(a + b),
{
    let x: i128 = (a as i128) + (b as i128);
    if x < i64::MIN as i128 {
        i64::MIN
    } else if x > i64::MAX as i128 {
        i64::MAX
    } else {
        x as i64
    }
}

/// An action submitted at `submitted` is due at `now` when its timeout has
/// passed, or when `submitted` lies in the future of `now`.
pub open spec fn is_due(a: Action, submitted: int, now: int) -> bool {
    submitted > now || now - submitted >= timeout_ms(a)
}

/// The moment an action submitted at `submitted` becomes due.
pub open spec fn due_time(a: Action, submitted: int) -> int {
    saturate(submitted + timeout_ms(a))
}

/// `a` is pending in `m` and due at `now`.
pub open spec fn pending_due(m: Map<Action, i64>, a: Action, now: int) -> bool {
    m.contains_key(a) && is_due(a, m[a] as int, now)
}

/// Taking the first due action at `now` turns `before` into `after` and
/// gives `r`: the first pending action, in declaration order, that is due
/// at `now`, removed; or, when none is due, nothing changed.
pub open spec fn taken_at(
    before: Map<Action, i64>,
    after: Map<Action, i64>,
    r: Option<Action>,
    now: int,
) -> bool {
    match r {
        Some(a) => {
            &&& pending_due(before, a, now)
            &&& forall|b: Action|
                action_index(b) < action_index(a) ==> !#[trigger] pending_due(before, b, now)
            &&& after == before.remove(a)
        },
        None => {
            &&& forall|b: Action| !#[trigger] pending_due(before, b, now)
            &&& after == before
        },
    }
}

/// A change to the pending actions, as the sending side of the debouncer
/// hands it over.
#[derive(Debug, Clone, Copy)]
pub enum ActionOp {
    Submit(Action, i64),
    Force(Action),
}

/// What the receiving side of the debouncer does next: hand out a due
/// action, or wait until the given time (forever when there is none).
#[derive(Debug, Clone, Copy, PartialEq, Eq, Structural)]
pub enum PollOutcome {
    Ready(Action),
    WaitUntil(Option<i64>),
}

/// The pending actions, each with the time (in milliseconds on the
/// caller's clock) from which its timeout runs.
#[derive(Debug, Clone, Copy)]
pub struct ActionTimes {
    slots: [Option<i64>; 15],
}

impl ActionTimes {
    /// The pending actions and their times.
    pub closed spec fn pending(self) -> Map<Action, i64> {
        Map::new(
            |a: Action| self.slots@[action_index(a)] is Some,
            |a: Action| self.slots@[action_index(a)]->0,
        )
    }

    /// No action is pending.
    pub fn new() -> (r: Self)
        ensures
            r.pending() == Map::<Action, i64>::empty(),
    {
        let r = Self { slots: [None; 15] };
        assert(r.pending() =~= Map::<Action, i64>::empty());
        r
    }

    /// The time stored for `action`, if it is pending.
    pub fn get(&self, action: Action) -> (r: Option<i64>)
        ensures
            r == (if self.pending().contains_key(action) {
                Some(self.pending()[action])
            } else {
                None
            }),
    {
        self.slots[action.index()]
    }

    /// Records `action` as submitted at `now`, replacing an earlier time.
    pub fn submit_at(&mut self, action: Action, now: i64)
        ensures
            final(self).pending() == old(self).pending().insert(action, now),
    {
        proof {
            lemma_action_index_injective();
        }
        let i = action.index();
        self.slots[i] = Some(now);
        assert(final(self).pending() =~= old(self).pending().insert(action, now));
    }

    /// Moves the time of a pending `action` one timeout into the past, so
    /// that its timeout is skipped; does nothing when `action` is not pending.
    pub fn force(&mut self, action: Action)
        ensures
            old(self).pending().contains_key(action) ==> final(self).pending() == old(
                self,
            ).pending().insert(
                action,
                saturate(old(self).pending()[action] - timeout_ms(action)) as i64,
            ),
            !old(self).pending().contains_key(action) ==> final(self).pending() == old(
                self,
            ).pending(),
    {
        proof {
            lemma_action_index_injective();
        }
        let i = action.index();
        match self.slots[i] {
            Some(time) => {
                let t = saturating_sub_i64(time, action.timeout() as i64);
                self.slots[i] = Some(t);
                assert(final(self).pending() =~= old(self).pending().insert(action, t));
            },
            None => {},
        }
    }

    /// Applies a change handed over by the sending side.
    pub fn apply(&mut self, op: ActionOp)
        ensures
            match op {
                ActionOp::Submit(a, t) => final(self).pending() == old(self).pending().insert(a, t),
                ActionOp::Force(a) => if old(self).pending().contains_key(a) {
                    final(self).pending() == old(self).pending().insert(
                        a,
                        saturate(old(self).pending()[a] - timeout_ms(a)) as i64,
                    )
                } else {
                    final(self).pending() == old(self).pending()
                },
            },
    {
        match op {
            ActionOp::Submit(a, t) => self.submit_at(a, t),
            ActionOp::Force(a) => self.force(a),
        }
    }

    /// Removes and returns the first action, in declaration order, that is
    /// due at `now`.
    pub fn take_due(&mut self, now: i64) -> (r: Option<Action>)
        ensures
            match r {
                Some(a) => {
                    &&& pending_due(old(self).pending(), a, now as int)
                    &&& forall|b: Action|
                        action_index(b) < action_index(a) ==> !#[trigger] pending_due(
                            old(self).pending(),
                            b,
                            now as int,
                        )
                    &&& final(self).pending() == old(self).pending().remove(a)
                },
                None => {
                    &&& forall|b: Action| !#[trigger] pending_due(old(self).pending(), b, now as int)
                    &&& final(self).pending() == old(self).pending()
                },
            },
    {
        proof {
            lemma_action_index_injective();
        }
        let mut i: usize = 0;
        while i < ACTION_COUNT
            invariant
                i <= ACTION_COUNT,
                *self == *old(self),
                forall|b: Action|
                    action_index(b) < i ==> !#[trigger] pending_due(self.pending(), b, now as int),
            decreases ACTION_COUNT - i,
        {
            let a = Action::from_index(i);
            match self.slots[i] {
                Some(t) => {
                    let elapsed = (t as i128) > (now as i128) || (now as i128) - (t as i128)
                        >= (a.timeout() as i128);
                    if elapsed {
                        self.slots[i] = None;
                        assert(final(self).pending() =~= old(self).pending().remove(a));
                        return Some(a);
                    }
                },
                None => {},
            }
            i = i + 1;
        }
        None
    }

    /// The earliest moment at which a pending action becomes due, or `None`
    /// when nothing is pending.
    pub fn next_deadline(&self) -> (r: Option<i64>)
        ensures
            r is None <==> self.pending().is_empty(),
            match r {
                Some(d) => {
                    &&& exists|a: Action| #[trigger]
                        self.pending().contains_key(a) && d == due_time(a, self.pending()[a] as int)
                    &&& forall|a: Action| #[trigger]
                        self.pending().contains_key(a) ==> d <= due_time(
                            a,
                            self.pending()[a] as int,
                        )
                },
                None => true,
            },
    {
        proof {
            lemma_action_index_injective();
        }
        let mut best: Option<i64> = None;
        let mut i: usize = 0;
        while i < ACTION_COUNT
            invariant
                i <= ACTION_COUNT,
                best is None <==> forall|b: Action|
                    action_index(b) < i ==> !#[trigger] self.pending().contains_key(b),
                match best {
                    Some(d) => {
                        &&& exists|a: Action| #[trigger]
                            self.pending().contains_key(a) && action_index(a) < i && d == due_time(
                                a,
                                self.pending()[a] as int,
                            )
                        &&& forall|a: Action| #[trigger]
                            self.pending().contains_key(a) && action_index(a) < i ==> d
                                <= due_time(a, self.pending()[a] as int)
                    },
                    None => true,
                },
            decreases ACTION_COUNT - i,
        {
            let a = Action::from_index(i);
            match self.slots[i] {
                Some(t) => {
                    let due = saturating_add_i64(t, a.timeout() as i64);
                    assert(self.pending().contains_key(a));
                    match best {
                        Some(d) => {
                            if due < d {
                                best = Some(due);
                            }
                        },
                        None => {
                            best = Some(due);
                        },
                    }
                },
                None => {
                    assert(!self.pending().contains_key(a));
                },
            }
            i = i + 1;
        }
        proof {
            if best is None {
                assert forall|b: Action| !self.pending().contains_key(b) by {
                    assert(action_index(b) < ACTION_COUNT);
                }
                assert(self.pending() =~= Map::<Action, i64>::empty());
            } else {
                let a = choose|a: Action| #[trigger] self.pending().contains_key(a);
                assert(self.pending().dom().contains(a));
            }
        }
        best
    }

    /// One step of the receiving side: hand out the first due action (and
    /// forget it), or say until when to wait.
    pub fn poll(&mut self, now: i64) -> (r: PollOutcome)
        ensures
            match r {
                PollOutcome::Ready(a) => {
                    &&& pending_due(old(self).pending(), a, now as int)
                    &&& forall|b: Action|
                        action_index(b) < action_index(a) ==> !#[trigger] pending_due(
                            old(self).pending(),
                            b,
                            now as int,
                        )
                    &&& final(self).pending() == old(self).pending().remove(a)
                },
                PollOutcome::WaitUntil(deadline) => {
                    &&& forall|b: Action| !#[trigger] pending_due(old(self).pending(), b, now as int)
                    &&& final(self).pending() == old(self).pending()
                    &&& (deadline is None <==> old(self).pending().is_empty())
                    &&& match deadline {
                        Some(d) => {
                            &&& exists|a: Action| #[trigger]
                                old(self).pending().contains_key(a) && d == due_time(
                                    a,
                                    old(self).pending()[a] as int,
                                )
                            &&& forall|a: Action| #[trigger]
                                old(self).pending().contains_key(a) ==> d <= due_time(
                                    a,
                                    old(self).pending()[a] as int,
                                )
                        },
                        None => true,
                    }
                },
            },
    {
        match self.take_due(now) {
            Some(a) => PollOutcome::Ready(a),
            None => PollOutcome::WaitUntil(self.next_deadline()),
        }
    }
}

/// Each action as a submission.
pub open spec fn submits(actions: Seq<Action>) -> Seq<Submission> {
    actions.map_values(|a: Action| Submission::Submit(a))
}

/// Each action as a forced one.
pub open spec fn forces(actions: Seq<Action>) -> Seq<Submission> {
    actions.map_values(|a: Action| Submission::Force(a))
}

/// The actions that a change of the selected profile touches.
pub open spec fn profile_actions() -> Seq<Action> {
    seq![
        Action::UpdateSideTone,
        Action::UpdateEqualizer,
        Action::UpdateMicrophoneVolume,
        Action::UpdateVolumeLimit,
    ]
}

/// The actions that a change of the headset configuration touches, beyond
/// those of its profile.
pub open spec fn headset_actions() -> Seq<Action> {
    seq![
        Action::UpdateMicrophoneLight,
        Action::UpdateInactiveTime,
        Action::UpdateBluetoothCall,
        Action::UpdateAutoBluetooth,
        Action::UpdateSystemAudio,
    ]
}

/// Something that accepts actions: `submit` starts an action's timeout,
/// `force` skips it.
pub trait ActionSender {
    /// `sent` gives this sender's account of what it was handed. A sender
    /// that keeps no such account (one that passes the actions on to another
    /// thread, say) leaves this false, and nothing is then claimed of it.
    open spec fn keeps_account(&self) -> bool {
        false
    }

    /// What this sender has been handed so far, in order.
    open spec fn sent(&self) -> Seq<Submission> {
        Seq::empty()
    }

    fn submit(&mut self, action: Action)
        ensures
            final(self).keeps_account() == old(self).keeps_account(),
            old(self).keeps_account() ==> final(self).sent() == old(self).sent().push(
                Submission::Submit(action),
            ),
    ;

    fn force(&mut self, action: Action)
        ensures
            final(self).keeps_account() == old(self).keeps_account(),
            old(self).keeps_account() ==> final(self).sent() == old(self).sent().push(
                Submission::Force(action),
            ),
    ;

    /// Submits each action, in order.
    fn submit_all(&mut self, actions: &[Action])
        ensures
            final(self).keeps_account() == old(self).keeps_account(),
            old(self).keeps_account() ==> final(self).sent() == old(self).sent() + submits(actions@),
    {
        let mut i: usize = 0;
        while i < actions.len()
            invariant
                i <= actions@.len(),
                self.keeps_account() == old(self).keeps_account(),
                old(self).keeps_account() ==> self.sent() == old(self).sent() + submits(
                    actions@.take(i as int),
                ),
            decreases actions.len() - i,
        {
            self.submit(actions[i]);
            assert(submits(actions@.take(i + 1)) =~= submits(actions@.take(i as int)).push(
                Submission::Submit(actions@[i as int]),
            ));
            i = i + 1;
        }
        assert(actions@.take(actions@.len() as int) =~= actions@);
    }

    /// Forces each action, in order.
    fn force_all(&mut self, actions: &[Action])
        ensures
            final(self).keeps_account() == old(self).keeps_account(),
            old(self).keeps_account() ==> final(self).sent() == old(self).sent() + forces(actions@),
    {
        let mut i: usize = 0;
        while i < actions.len()
            invariant
                i <= actions@.len(),
                self.keeps_account() == old(self).keeps_account(),
                old(self).keeps_account() ==> self.sent() == old(self).sent() + forces(
                    actions@.take(i as int),
                ),
            decreases actions.len() - i,
        {
            self.force(actions[i]);
            assert(forces(actions@.take(i + 1)) =~= forces(actions@.take(i as int)).push(
                Submission::Force(actions@[i as int]),
            ));
            i = i + 1;
        }
        assert(actions@.take(actions@.len() as int) =~= actions@);
    }

    /// Submits and forces everything that a change of the selected profile
    /// touches.
    fn submit_profile_change(&mut self)
        ensures
            final(self).keeps_account() == old(self).keeps_account(),
            old(self).keeps_account() ==> final(self).sent() == old(self).sent() + submits(
                profile_actions(),
            ) + forces(profile_actions()),
    {
        let actions = profile_change_actions();
        self.submit_all(actions.as_slice());
        self.force_all(actions.as_slice());
    }

    /// Submits and forces everything that a change of the whole headset
    /// configuration touches.
    fn submit_full_change(&mut self)
        ensures
            final(self).keeps_account() == old(self).keeps_account(),
            old(self).keeps_account() ==> final(self).sent() == old(self).sent() + submits(
                profile_actions(),
            ) + forces(profile_actions()) + submits(headset_actions()) + forces(headset_actions()),
    {
        self.submit_profile_change();
        let actions = headset_change_actions();
        self.submit_all(actions.as_slice());
        self.force_all(actions.as_slice());
    }
}

/// The device settings that belong to a profile.
pub fn profile_change_actions() -> (r: Vec<Action>)
    ensures
        r@ == profile_actions(),
{
    vec![
        Action::UpdateSideTone,
        Action::UpdateEqualizer,
        Action::UpdateMicrophoneVolume,
        Action::UpdateVolumeLimit,
    ]
}

/// The settings that belong to the headset rather than to a profile.
pub fn headset_change_actions() -> (r: Vec<Action>)
    ensures
        r@ == headset_actions(),
{
    vec![
        Action::UpdateMicrophoneLight,
        Action::UpdateInactiveTime,
        Action::UpdateBluetoothCall,
        Action::UpdateAutoBluetooth,
        Action::UpdateSystemAudio,
    ]
}

#[verifier::external_type_specification]
#[verifier::external_body]
pub struct ExInstant(Instant);

/// Reads the clock (`Instant::now`); nothing is claimed of the moment returned.
#[verifier::external_body]
fn instant_now() -> Instant {
    Instant::now()
}

/// Calls `Instant::elapsed`: the time passed since `origin`; nothing is
/// claimed of it, as it depends on the clock.
#[verifier::external_body]
fn elapsed_since(origin: &Instant) -> Duration {
    origin.elapsed()
}

/// Calls `Duration::as_millis`; nothing is claimed of the number, as the
/// duration is opaque here.
#[verifier::external_body]
fn duration_millis(d: &Duration) -> u128 {
    d.as_millis()
}

/// A debouncer that reads the clock itself: the times it stores are
/// milliseconds since it was made.
pub struct Debouncer {
    origin: Instant,
    times: ActionTimes,
    history: Ghost<Seq<Submission>>,
    latest: i64,
}

impl Debouncer {
    /// The pending actions and the milliseconds (since the debouncer was
    /// made) from which their timeouts run.
    pub closed spec fn pending(self) -> Map<Action, i64> {
        self.times.pending()
    }

    /// The latest clock reading the debouncer went by, in milliseconds since
    /// it was made; it never goes back.
    pub closed spec fn clock(self) -> int {
        self.latest as int
    }

    /// No pending action was submitted after the latest clock reading.
    pub open spec fn well_formed(self) -> bool {
        &&& self.clock() >= 0
        &&& forall|a: Action| #[trigger] self.pending().contains_key(a) ==> self.pending()[a] <= self.clock()
    }

    /// Nothing is pending, and nothing has been handed over yet.
    pub fn new() -> (r: Self)
        ensures
            r.pending() == Map::<Action, i64>::empty(),
            r.sent() == Seq::<Submission>::empty(),
            r.clock() == 0,
            r.well_formed(),
    {
        Self {
            origin: instant_now(),
            times: ActionTimes::new(),
            history: Ghost(Seq::empty()),
            latest: 0,
        }
    }

    /// Milliseconds since the debouncer was made, held to the range of `i64`.
    pub fn now(&self) -> (r: i64)
        ensures
            r >= 0,
    {
        let d = elapsed_since(&self.origin);
        let ms = duration_millis(&d);
        if ms > i64::MAX as u128 {
            i64::MAX
        } else {
            ms as i64
        }
    }

    /// The clock reading after a raw reading of `raw`: it never goes back
    /// behind the latest one.
    pub open spec fn clock_after(self, raw: i64) -> int {
        if raw > self.clock() {
            raw as int
        } else {
            self.clock()
        }
    }

    /// `self` moved its clock on by a reading of the clock taken from `from`.
    pub open spec fn read_clock_from(self, from: Debouncer) -> bool {
        exists|raw: i64| #[trigger] call_ensures(Debouncer::now, (&from,), raw) && self.clock() == from.clock_after(raw)
    }

    /// Reads the clock, never going back behind an earlier reading.
    fn tick(&mut self) -> (r: i64)
        ensures
            final(self).read_clock_from(*old(self)),
            r >= 0,
            r >= old(self).clock(),
            final(self).clock() == r,
            final(self).pending() == old(self).pending(),
            final(self).sent() == old(self).sent(),
    {
        let raw = self.now();
        let r = if raw > self.latest {
            raw
        } else {
            self.latest
        };
        self.latest = r;
        r
    }

    /// Records `action` as submitted now: its time is the clock reading
    /// taken during the call.
    pub fn submit(&mut self, action: Action)
        ensures
            final(self).pending().contains_key(action),
            final(self).pending()[action] >= 0,
            final(self).pending().remove(action) == old(self).pending().remove(action),
            final(self).sent() == old(self).sent().push(Submission::Submit(action)),
            final(self).clock() >= old(self).clock(),
            final(self).read_clock_from(*old(self)),
            final(self).pending()[action] == final(self).clock(),
            old(self).well_formed() ==> final(self).well_formed(),
    {
        let now = self.tick();
        self.times.submit_at(action, now);
        proof {
            self.history@ = self.history@.push(Submission::Submit(action));
        }
        assert(final(self).pending().remove(action) =~= old(self).pending().remove(action));
    }

    /// Skips the timeout of a pending `action`.
    pub fn force(&mut self, action: Action)
        ensures
            old(self).pending().contains_key(action) ==> final(self).pending() == old(
                self,
            ).pending().insert(
                action,
                saturate(old(self).pending()[action] - timeout_ms(action)) as i64,
            ),
            !old(self).pending().contains_key(action) ==> final(self).pending() == old(
                self,
            ).pending(),
            final(self).sent() == old(self).sent().push(Submission::Force(action)),
            final(self).clock() == old(self).clock(),
            old(self).well_formed() ==> final(self).well_formed(),
    {
        self.times.force(action);
        proof {
            self.history@ = self.history@.push(Submission::Force(action));
            if old(self).well_formed() {
                assert forall|a: Action| #[trigger] self.pending().contains_key(a) implies self.pending()[a]
                    <= self.clock() by {
                    assert(old(self).pending().contains_key(a));
                    if a == action {
                        assert(timeout_ms(action) > 0);
                    }
                }
            }
        }
    }

    /// The earliest moment (in milliseconds since the debouncer was made) at
    /// which a pending action becomes due.
    pub fn next_action(&self) -> (r: Option<i64>)
        ensures
            r is None <==> self.pending().is_empty(),
            match r {
                Some(d) => {
                    &&& exists|a: Action| #[trigger]
                        self.pending().contains_key(a) && d == due_time(a, self.pending()[a] as int)
                    &&& forall|a: Action| #[trigger]
                        self.pending().contains_key(a) ==> d <= due_time(
                            a,
                            self.pending()[a] as int,
                        )
                },
                None => true,
            },
    {
        let r = self.times.next_deadline();
        proof {
            if let Some(d) = r {
                let a = choose|a: Action| #[trigger]
                    self.times.pending().contains_key(a) && d == due_time(
                        a,
                        self.times.pending()[a] as int,
                    );
                assert(self.pending().contains_key(a));
            }
        }
        r
    }

    /// Removes and returns the first action, in declaration order, that is
    /// due at the clock reading taken during the call.
    pub fn next(&mut self) -> (r: Option<Action>)
        ensures
            exists|now: int|
                now >= 0 && #[trigger] taken_at(old(self).pending(), final(self).pending(), r, now),
            final(self).sent() == old(self).sent(),
            match r {
                Some(a) => {
                    &&& old(self).pending().contains_key(a)
                    &&& final(self).pending() == old(self).pending().remove(a)
                },
                None => final(self).pending() == old(self).pending(),
            },
            final(self).clock() >= old(self).clock(),
            final(self).read_clock_from(*old(self)),
            taken_at(old(self).pending(), final(self).pending(), r, final(self).clock()),
            old(self).well_formed() ==> final(self).well_formed(),
    {
        let now = self.tick();
        let r = self.times.take_due(now);
        assert(taken_at(old(self).pending(), final(self).pending(), r, now as int));
        r
    }
}

impl ActionSender for Debouncer {
    open spec fn keeps_account(&self) -> bool {
        true
    }

    closed spec fn sent(&self) -> Seq<Submission> {
        self.history@
    }

    fn submit(&mut self, action: Action) {
        Debouncer::submit(self, action)
    }

    fn force(&mut self, action: Action) {
        Debouncer::force(self, action)
    }
}

} // verus!
