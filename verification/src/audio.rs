use vstd::prelude::*;

verus! {

/// What to do with the operating system's audio when the headset connects
/// or disconnects.
#[derive(Debug, Clone)]
pub enum OsAudio {
    Disabled,
    ChangeDefault { on_connect: String, on_disconnect: String },
    RouteAudio { src: String, dst: String },
}

impl OsAudio {
    /// The label of the variant.
    pub fn name(&self) -> (r: &'static str)
        ensures
            self is Disabled ==> r@ == "Disabled"@,
            self is ChangeDefault ==> r@ == "Change Default Device"@,
            self is RouteAudio ==> r@ == "Route Audio When Disconnected"@,
    {
        match self {
            OsAudio::Disabled => "Disabled",
            OsAudio::ChangeDefault { .. } => "Change Default Device",
            OsAudio::RouteAudio { .. } => "Route Audio When Disconnected",
        }
    }

    /// Both settings are the same variant.
    pub fn same_kind(&self, other: &OsAudio) -> (r: bool)
        ensures
            r == ((self is Disabled && other is Disabled) || (self is ChangeDefault
                && other is ChangeDefault) || (self is RouteAudio && other is RouteAudio)),
    {
        match (self, other) {
            (OsAudio::Disabled, OsAudio::Disabled) => true,
            (OsAudio::ChangeDefault { .. }, OsAudio::ChangeDefault { .. }) => true,
            (OsAudio::RouteAudio { .. }, OsAudio::RouteAudio { .. }) => true,
            _ => false,
        }
    }
}

/// The settings offered for selection, each filled with `device`.
pub fn os_audio_options(device: &String) -> (r: Vec<OsAudio>)
    ensures
        r@.len() == 3,
        r@[0] is Disabled,
        r@[1] matches OsAudio::ChangeDefault { on_connect, on_disconnect } && on_connect@
            == device@ && on_disconnect@ == device@,
        r@[2] matches OsAudio::RouteAudio { src, dst } && src@ == device@ && dst@ == device@,
{
    let mut r = Vec::new();
    r.push(OsAudio::Disabled);
    r.push(OsAudio::ChangeDefault { on_connect: device.clone(), on_disconnect: device.clone() });
    r.push(OsAudio::RouteAudio { src: device.clone(), dst: device.clone() });
    r
}

/// The device name put into a freshly chosen setting: the default output,
/// else the first output, else "<None>".
pub fn initial_device_name(default_device: Option<&String>, devices: &Vec<String>) -> (r: String)
    ensures
        default_device matches Some(d) ==> r@ == d@,
        default_device is None && devices@.len() > 0 ==> r@ == devices@[0]@,
        default_device is None && devices@.len() == 0 ==> r@ == "<None>"@,
{
    match default_device {
        Some(d) => d.clone(),
        None => if devices.len() > 0 {
            devices[0].clone()
        } else {
            String::from_str("<None>")
        },
    }
}

/// What the audio system is to do.
#[derive(Debug, Clone, Copy, PartialEq, Eq, Structural)]
pub enum AudioPlan {
    Nothing,
    AlreadyDefault(usize),
    SetDefault(usize),
    StopRouting,
    StartRouting(usize, usize),
    DevicesMissing,
}

/// `i` is the first position in `names` holding `target`.
pub open spec fn first_named(names: Seq<String>, target: Seq<char>, i: int) -> bool {
    &&& 0 <= i < names.len()
    &&& names[i]@ == target
    &&& forall|j: int| 0 <= j < i ==> #[trigger] names[j]@ != target
}

/// No entry of `names` holds `target`.
pub open spec fn none_named(names: Seq<String>, target: Seq<char>) -> bool {
    forall|j: int| 0 <= j < names.len() ==> #[trigger] names[j]@ != target
}

/// The first position in `names` holding `target`.
pub fn find_device(names: &Vec<String>, target: &String) -> (r: Option<usize>)
    ensures
        match r {
            Some(i) => first_named(names@, target@, i as int),
            None => none_named(names@, target@),
        },
{
    let mut i: usize = 0;
    while i < names.len()
        invariant
            i <= names@.len(),
            forall|j: int| 0 <= j < i ==> #[trigger] names@[j]@ != target@,
        decreases names@.len() - i,
    {
        if names[i] == *target {
            return Some(i);
        }
        i = i + 1;
    }
    None
}

/// The name of the device that `config` asks for in the given state of
/// the headset, when it changes the default device.
pub open spec fn switch_target(config: OsAudio, connected: bool) -> Seq<char> {
    match config {
        OsAudio::ChangeDefault { on_connect, on_disconnect } => if connected {
            on_connect@
        } else {
            on_disconnect@
        },
        _ => Seq::empty(),
    }
}

/// `r` is a right plan for `config` in the given situation.
pub open spec fn plan_audio_post(
    config: OsAudio,
    connected: bool,
    names: Seq<String>,
    default_device: Option<usize>,
    r: AudioPlan,
) -> bool {
    match config {
        OsAudio::Disabled => r == AudioPlan::Nothing,
        OsAudio::ChangeDefault { .. } => {
            let target = switch_target(config, connected);
            match r {
                AudioPlan::Nothing => none_named(names, target),
                AudioPlan::AlreadyDefault(i) => first_named(names, target, i as int)
                    && default_device == Some(i),
                AudioPlan::SetDefault(i) => first_named(names, target, i as int) && default_device
                    != Some(i),
                _ => false,
            }
        },
        OsAudio::RouteAudio { src, dst } => if connected {
            r == AudioPlan::StopRouting
        } else {
            match r {
                AudioPlan::StartRouting(i, j) => first_named(names, src@, i as int) && first_named(
                    names,
                    dst@,
                    j as int,
                ),
                AudioPlan::DevicesMissing => none_named(names, src@) || none_named(names, dst@),
                _ => false,
            }
        },
    }
}

/// Decides what the audio system does for `config` once the headset is
/// (`connected`) or is not connected, given the output device names and
/// the position of the current default output.
///
/// Changing the default: the device named for the new state is made the
/// default unless it already is; nothing happens when no device has that
/// name. Routing: a connection stops the routing; a disconnection starts
/// it between the named devices, when both exist.
pub fn plan_audio(config: &OsAudio, connected: bool, names: &Vec<String>, default_device: Option<
    usize,
>) -> (r: AudioPlan)
    ensures
        plan_audio_post(*config, connected, names@, default_device, r),
{
    match config {
        OsAudio::Disabled => AudioPlan::Nothing,
        OsAudio::ChangeDefault { on_connect, on_disconnect } => {
            let target = if connected {
                on_connect
            } else {
                on_disconnect
            };
            match find_device(names, target) {
                Some(i) => {
                    let is_default = match default_device {
                        Some(d) => d == i,
                        None => false,
                    };
                    if is_default {
                        AudioPlan::AlreadyDefault(i)
                    } else {
                        AudioPlan::SetDefault(i)
                    }
                },
                None => AudioPlan::Nothing,
            }
        },
        OsAudio::RouteAudio { src, dst } => {
            if connected {
                AudioPlan::StopRouting
            } else {
                match (find_device(names, src), find_device(names, dst)) {
                    (Some(i), Some(j)) => AudioPlan::StartRouting(i, j),
                    _ => AudioPlan::DevicesMissing,
                }
            }
        },
    }
}

} // verus!
