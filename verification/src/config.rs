use vstd::prelude::*;

verus! {

/// What happens to the operating system's audio output when the headset
/// connects or disconnects.
#[derive(Debug, Clone, PartialEq, Eq)]
pub enum OutputSwitch {
    Disabled,
    Enabled { on_connect: String, on_disconnect: String },
}

impl Default for OutputSwitch {
    fn default() -> (r: Self)
        ensures
            r is Disabled,
    {
        OutputSwitch::Disabled
    }
}

/// The equalizer setting of a profile: one of the device's presets (by
/// index) or custom band levels.
#[derive(Debug, Clone, PartialEq, Eq)]
pub enum EqualizerConfig {
    Preset(u32),
    Custom(Vec<u8>),
}

/// What the headset does with the game audio during a bluetooth call.
#[derive(Debug, Clone, Copy, PartialEq, Eq, Structural)]
pub enum CallAction {
    Nothing,
    ReduceVolume,
    Mute,
}

/// A named set of the per-profile settings.
#[derive(Debug, Clone)]
pub struct Profile {
    pub name: String,
    pub side_tone: u8,
    pub volume_limiter: bool,
    pub microphone_volume: u8,
    pub equalizer: EqualizerConfig,
}

/// `p` is the profile that `Profile::new` makes for a name whose view is `name`.
pub open spec fn is_new_profile(p: Profile, name: Seq<char>) -> bool {
    &&& p.name@ == name
    &&& p.side_tone == 0
    &&& p.volume_limiter
    &&& p.microphone_volume == 0
    &&& p.equalizer == EqualizerConfig::Preset(0)
}

impl Profile {
    /// A fresh profile: side tone and microphone volume at zero, volume
    /// limiter on, the first equalizer preset.
    pub fn new(name: String) -> (p: Self)
        ensures
            p.name == name,
            is_new_profile(p, name@),
    {
        Self {
            name,
            side_tone: 0,
            volume_limiter: true,
            microphone_volume: 0,
            equalizer: EqualizerConfig::Preset(0),
        }
    }
}

/// The settings stored for one headset model.
#[derive(Debug, Clone)]
pub struct HeadsetConfig {
    pub switch_output: OutputSwitch,
    pub mic_light: u8,
    pub bluetooth_call: CallAction,
    pub auto_enable_bluetooth: bool,
    pub inactive_time: u8,
    pub selected_profile_index: u32,
    pub profiles: Vec<Profile>,
}

/// `h` holds the settings that `HeadsetConfig::default` makes.
pub open spec fn is_default_headset(h: HeadsetConfig) -> bool {
    &&& h.switch_output is Disabled
    &&& h.mic_light == 0
    &&& h.bluetooth_call == CallAction::Nothing
    &&& !h.auto_enable_bluetooth
    &&& h.inactive_time == 30
    &&& h.selected_profile_index == 0
    &&& h.profiles@.len() == 1
    &&& is_new_profile(h.profiles@[0], "Default"@)
}

impl Default for HeadsetConfig {
    fn default() -> (r: Self)
        ensures
            is_default_headset(r),
    {
        let mut profiles: Vec<Profile> = Vec::new();
        profiles.push(Profile::new(String::from_str("Default")));
        Self {
            switch_output: OutputSwitch::default(),
            mic_light: 0,
            bluetooth_call: CallAction::Nothing,
            auto_enable_bluetooth: false,
            inactive_time: 30,
            selected_profile_index: 0,
            profiles,
        }
    }
}

/// The index of the profile that `selected_profile` hands out: the stored
/// index, moved to the last profile when it is out of range; 0 when there
/// is no profile yet (one is then created).
pub open spec fn selected_index(h: HeadsetConfig) -> int {
    if h.profiles@.len() == 0 {
        0
    } else if h.selected_profile_index >= h.profiles@.len() {
        h.profiles@.len() - 1
    } else {
        h.selected_profile_index as int
    }
}

/// `h` and `g` agree on every field but the profile list and the selected index.
pub open spec fn same_headset_settings(h: HeadsetConfig, g: HeadsetConfig) -> bool {
    &&& h.switch_output == g.switch_output
    &&& h.mic_light == g.mic_light
    &&& h.bluetooth_call == g.bluetooth_call
    &&& h.auto_enable_bluetooth == g.auto_enable_bluetooth
    &&& h.inactive_time == g.inactive_time
}

impl HeadsetConfig {
    /// `true` when `selected_profile` would change nothing: there is a
    /// profile and the selected index points at one.
    pub open spec fn has_valid_selection(self) -> bool {
        0 <= self.selected_profile_index < self.profiles@.len()
    }

    /// The selected profile, repairing the configuration first: an empty
    /// profile list gets a "Default" profile, an index past the end is moved
    /// to the last profile.
    pub fn selected_profile(&mut self) -> (r: &mut Profile)
        requires
            old(self).profiles@.len() <= u32::MAX,
        ensures
            same_headset_settings(*final(self), *old(self)),
            final(self).selected_profile_index == selected_index(*old(self)),
            final(self).has_valid_selection(),
            old(self).profiles@.len() > 0 ==> {
                &&& *r == old(self).profiles@[selected_index(*old(self))]
                &&& final(self).profiles@ == old(self).profiles@.update(
                    selected_index(*old(self)),
                    *final(r),
                )
            },
            old(self).profiles@.len() == 0 ==> {
                &&& is_new_profile(*r, "Default"@)
                &&& final(self).profiles@ == seq![*final(r)]
            },
    {
        if self.profiles.len() == 0 {
            self.profiles.push(Profile::new(String::from_str("Default")));
        }
        if self.selected_profile_index as usize >= self.profiles.len() {
            self.selected_profile_index = (self.profiles.len() - 1) as u32;
        }
        let idx = self.selected_profile_index as usize;
        &mut self.profiles[idx]
    }
}

/// `k` is the name of some entry of `s`.
pub open spec fn has_name(s: Seq<(String, HeadsetConfig)>, k: Seq<char>) -> bool {
    exists|i: int| 0 <= i < s.len() && #[trigger] s[i].0@ == k
}

/// `i` is the first entry of `s` named `k`.
pub open spec fn is_first_named(s: Seq<(String, HeadsetConfig)>, i: int, k: Seq<char>) -> bool {
    &&& 0 <= i < s.len()
    &&& s[i].0@ == k
    &&& forall|j: int| 0 <= j < i ==> #[trigger] s[j].0@ != k
}

/// The entries read as a map from headset name to its settings; where a
/// name occurs twice the first entry counts.
pub open spec fn entry_map(s: Seq<(String, HeadsetConfig)>) -> Map<Seq<char>, HeadsetConfig>
    decreases s.len(),
{
    if s.len() == 0 {
        Map::empty()
    } else {
        entry_map(s.drop_first()).insert(s[0].0@, s[0].1)
    }
}

proof fn lemma_entry_map_domain(s: Seq<(String, HeadsetConfig)>, k: Seq<char>)
    ensures
        entry_map(s).contains_key(k) <==> has_name(s, k),
    decreases s.len(),
{
    if s.len() > 0 {
        let t = s.drop_first();
        lemma_entry_map_domain(t, k);
        if has_name(t, k) {
            let j = choose|j: int| 0 <= j < t.len() && #[trigger] t[j].0@ == k;
            assert(s[j + 1].0@ == k);
        }
        if has_name(s, k) && s[0].0@ != k {
            let j = choose|j: int| 0 <= j < s.len() && #[trigger] s[j].0@ == k;
            assert(t[j - 1].0@ == k);
        }
    }
}

proof fn lemma_entry_map_lookup(s: Seq<(String, HeadsetConfig)>, i: int)
    requires
        is_first_named(s, i, s[i].0@),
    ensures
        entry_map(s).contains_key(s[i].0@),
        entry_map(s)[s[i].0@] == s[i].1,
    decreases i,
{
    if i > 0 {
        let t = s.drop_first();
        assert(t[i - 1] == s[i]);
        assert forall|j: int| 0 <= j < i - 1 implies #[trigger] t[j].0@ != s[i].0@ by {
            assert(t[j] == s[j + 1]);
        }
        lemma_entry_map_lookup(t, i - 1);
        assert(s[0].0@ != s[i].0@);
    }
}

proof fn lemma_entry_map_update(s: Seq<(String, HeadsetConfig)>, i: int, v: HeadsetConfig)
    requires
        is_first_named(s, i, s[i].0@),
    ensures
        entry_map(s.update(i, (s[i].0, v))) =~= entry_map(s).insert(s[i].0@, v),
    decreases i,
{
    let u = s.update(i, (s[i].0, v));
    if i == 0 {
        assert(u.drop_first() =~= s.drop_first());
    } else {
        let t = s.drop_first();
        assert(t[i - 1] == s[i]);
        assert forall|j: int| 0 <= j < i - 1 implies #[trigger] t[j].0@ != s[i].0@ by {
            assert(t[j] == s[j + 1]);
        }
        lemma_entry_map_update(t, i - 1, v);
        assert(u.drop_first() =~= t.update(i - 1, (t[i - 1].0, v)));
        assert(s[0].0@ != s[i].0@);
    }
}

proof fn lemma_entry_map_update_any(s: Seq<(String, HeadsetConfig)>, i: int)
    requires
        is_first_named(s, i, s[i].0@),
    ensures
        forall|v: HeadsetConfig|
            entry_map(#[trigger] s.update(i, (s[i].0, v))) == entry_map(s).insert(s[i].0@, v),
{
    assert forall|v: HeadsetConfig|
        entry_map(#[trigger] s.update(i, (s[i].0, v))) == entry_map(s).insert(s[i].0@, v) by {
        lemma_entry_map_update(s, i, v);
    }
}

proof fn lemma_entry_map_push(s: Seq<(String, HeadsetConfig)>, name: String, v: HeadsetConfig)
    requires
        !has_name(s, name@),
    ensures
        entry_map(s.push((name, v))) =~= entry_map(s).insert(name@, v),
    decreases s.len(),
{
    let u = s.push((name, v));
    if s.len() > 0 {
        let t = s.drop_first();
        assert(u.drop_first() =~= t.push((name, v)));
        assert(!has_name(t, name@)) by {
            if has_name(t, name@) {
                let j = choose|j: int| 0 <= j < t.len() && #[trigger] t[j].0@ == name@;
                assert(s[j + 1].0@ == name@);
            }
        }
        lemma_entry_map_push(t, name, v);
        assert(s[0].0@ != name@);
    } else {
        assert(u.drop_first() =~= s);
    }
}

/// No two entries of `s` share a name.
pub open spec fn names_distinct(s: Seq<(String, HeadsetConfig)>) -> bool {
    forall|i: int, j: int| 0 <= i < j < s.len() ==> #[trigger] s[i].0@ != #[trigger] s[j].0@
}

/// The whole configuration: one `HeadsetConfig` per headset name, and the
/// application settings.
#[derive(Debug, Clone)]
pub struct Config {
    headsets: Vec<(String, HeadsetConfig)>,
    pub auto_apply_changes: bool,
    pub preferred_device: Option<String>,
}

impl Config {
    /// The stored headset settings, by headset name.
    pub closed spec fn headsets(self) -> Map<Seq<char>, HeadsetConfig> {
        entry_map(self.headsets@)
    }

    /// No headset name is stored twice.
    pub closed spec fn well_formed(self) -> bool {
        names_distinct(self.headsets@)
    }

    /// The value of `auto_apply_changes`.
    pub closed spec fn auto_apply(self) -> bool {
        self.auto_apply_changes
    }

    /// The value of `preferred_device`.
    pub closed spec fn preferred(self) -> Option<String> {
        self.preferred_device
    }

    /// The stored entries in storage order.
    pub fn headset_entries(&self) -> (r: &Vec<(String, HeadsetConfig)>)
        ensures
            entry_map(r@) == self.headsets(),
    {
        &self.headsets
    }

    /// An empty configuration that applies changes automatically.
    pub fn new() -> (r: Self)
        ensures
            r.headsets() == Map::<Seq<char>, HeadsetConfig>::empty(),
            r.auto_apply(),
            r.preferred() is None,
            r.well_formed(),
    {
        let r = Self { headsets: Vec::new(), auto_apply_changes: true, preferred_device: None };
        assert(r.headsets() =~= Map::<Seq<char>, HeadsetConfig>::empty());
        r
    }

    fn find(&self, name: &str) -> (r: Option<usize>)
        ensures
            match r {
                Some(i) => is_first_named(self.headsets@, i as int, name@),
                None => !has_name(self.headsets@, name@),
            },
    {
        let key = String::from_str(name);
        let mut i: usize = 0;
        while i < self.headsets.len()
            invariant
                i <= self.headsets@.len(),
                key@ == name@,
                forall|j: int| 0 <= j < i ==> #[trigger] self.headsets@[j].0@ != name@,
            decreases self.headsets@.len() - i,
        {
            if self.headsets[i].0 == key {
                return Some(i);
            }
            i = i + 1;
        }
        None
    }

    /// Stores `headset` under `name`, replacing what was stored there.
    pub fn insert_headset(&mut self, name: String, headset: HeadsetConfig)
        ensures
            final(self).headsets() == old(self).headsets().insert(name@, headset),
            final(self).auto_apply() == old(self).auto_apply(),
            final(self).preferred() == old(self).preferred(),
            old(self).well_formed() ==> final(self).well_formed(),
    {
        match self.find(name.as_str()) {
            Some(i) => {
                proof {
                    lemma_entry_map_update(self.headsets@, i as int, headset);
                    lemma_entry_map_lookup(self.headsets@, i as int);
                }
                let old_name = self.headsets[i].0.clone();
                self.headsets.set(i, (old_name, headset));
            },
            None => {
                proof {
                    lemma_entry_map_push(self.headsets@, name, headset);
                }
                self.headsets.push((name, headset));
            },
        }
    }

    /// The settings of the headset called `name`, created with the default
    /// settings when there are none yet.
    pub fn get_headset(&mut self, name: &str) -> (r: &mut HeadsetConfig)
        ensures
            old(self).headsets().contains_key(name@) ==> *r == old(self).headsets()[name@],
            !old(self).headsets().contains_key(name@) ==> is_default_headset(*r),
            final(self).headsets() == old(self).headsets().insert(name@, *final(r)),
            final(self).auto_apply() == old(self).auto_apply(),
            final(self).preferred() == old(self).preferred(),
            old(self).well_formed() ==> final(self).well_formed(),
    {
        let i = match self.find(name) {
            Some(i) => i,
            None => {
                let key = String::from_str(name);
                let fresh = HeadsetConfig::default();
                proof {
                    lemma_entry_map_domain(self.headsets@, name@);
                    lemma_entry_map_push(self.headsets@, key, fresh);
                }
                self.headsets.push((key, fresh));
                self.headsets.len() - 1
            },
        };
        proof {
            assert(is_first_named(self.headsets@, i as int, name@));
            lemma_entry_map_lookup(self.headsets@, i as int);
            lemma_entry_map_update_any(self.headsets@, i as int);
        }
        &mut self.headsets[i].1
    }
}

impl Default for Config {
    fn default() -> (r: Self)
        ensures
            r.headsets() == Map::<Seq<char>, HeadsetConfig>::empty(),
            r.auto_apply(),
            r.preferred() is None,
            r.well_formed(),
    {
        Config::new()
    }
}

} // verus!
