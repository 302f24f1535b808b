use vstd::prelude::*;

verus! {

/// The event that wakes the event loop to poll its future again.
#[derive(Debug, Clone, Copy, PartialEq, Eq, Structural)]
pub struct Wakeup;

/// A renderer the window can use.
#[derive(Debug, Copy, Clone, Eq, PartialEq, Structural)]
pub enum GraphicsBackend {
    DirectX,
    OpenGL,
}

/// The code of `c`, taken in lower case when `c` is an ASCII capital.
pub open spec fn ascii_lower(c: char) -> u32 {
    if 'A' <= c <= 'Z' {
        ((c as u32) + 32) as u32
    } else {
        c as u32
    }
}

/// The two texts are equal when ASCII letters are compared without case.
pub open spec fn eq_ignore_ascii_case(a: Seq<char>, b: Seq<char>) -> bool {
    a.len() == b.len() && forall|i: int| 0 <= i < a.len() ==> ascii_lower(#[trigger] a[i])
        == ascii_lower(b[i])
}

fn lower(c: char) -> (r: u32)
    ensures
        r == ascii_lower(c),
{
    if 'A' <= c && c <= 'Z' {
        (c as u32) + 32
    } else {
        c as u32
    }
}

/// The name of a backend as it is written in its declaration.
pub open spec fn backend_name(b: GraphicsBackend) -> Seq<char> {
    match b {
        GraphicsBackend::DirectX => "DirectX"@,
        GraphicsBackend::OpenGL => "OpenGL"@,
    }
}

impl GraphicsBackend {
    /// The name of the backend as it is written in its declaration.
    pub fn name(&self) -> (r: &'static str)
        ensures
            r@ == backend_name(*self),
    {
        match self {
            GraphicsBackend::DirectX => "DirectX",
            GraphicsBackend::OpenGL => "OpenGL",
        }
    }
}

/// Compares two names, ASCII letters without case.
pub fn names_match(a: &str, b: &str) -> (r: bool)
    ensures
        r == eq_ignore_ascii_case(a@, b@),
{
    let n = a.unicode_len();
    if n != b.unicode_len() {
        return false;
    }
    let mut i: usize = 0;
    while i < n
        invariant
            n == a@.len(),
            n == b@.len(),
            i <= n,
            forall|k: int| 0 <= k < i ==> ascii_lower(#[trigger] a@[k]) == ascii_lower(b@[k]),
        decreases n - i,
    {
        if lower(a.get_char(i)) != lower(b.get_char(i)) {
            return false;
        }
        i = i + 1;
    }
    true
}

/// The backend chosen by name among the available ones (in order): the
/// first whose name matches `requested` without case; else the first
/// available one.
pub fn choose_backend(requested: Option<&str>, available: &Vec<GraphicsBackend>) -> (r: Option<
    GraphicsBackend,
>)
    ensures
        available@.len() == 0 ==> r is None,
        r matches Some(b) ==> available@.contains(b),
        requested is None && available@.len() > 0 ==> r == Some(available@[0]),
        requested matches Some(n) ==> {
            ||| exists|k: int|
                0 <= k < available@.len() && r == Some(available@[k]) && eq_ignore_ascii_case(
                    n@,
                    backend_name(available@[k]),
                ) && forall|j: int|
                    0 <= j < k ==> !eq_ignore_ascii_case(n@, #[trigger] backend_name(available@[j]))
            ||| (forall|j: int|
                0 <= j < available@.len() ==> !eq_ignore_ascii_case(
                    n@,
                    #[trigger] backend_name(available@[j]),
                )) && (available@.len() > 0 ==> r == Some(available@[0]))
        },
{
    match requested {
        Some(name) => {
            let mut i: usize = 0;
            while i < available.len()
                invariant
                    i <= available@.len(),
                    requested == Some(name),
                    forall|j: int|
                        0 <= j < i ==> !eq_ignore_ascii_case(name@, #[trigger] backend_name(available@[j])),
                decreases available@.len() - i,
            {
                let candidate = available[i];
                if names_match(name, candidate.name()) {
                    return Some(candidate);
                }
                i = i + 1;
            }
        },
        None => {},
    }
    if available.len() > 0 {
        Some(available[0])
    } else {
        None
    }
}

/// How the event loop continues after an iteration.
#[derive(Debug, Clone, Copy, PartialEq, Eq, Structural)]
pub enum LoopControl {
    Exit,
    Poll,
    WaitUntil(i64),
    Wait,
}

/// The loop ends once the future has finished; it polls again at once
/// while the future yields; else it sleeps until the next deadline, or
/// until the next event.
pub fn loop_control(finished: bool, yielding: bool, deadline: Option<i64>) -> (r: LoopControl)
    ensures
        finished ==> r == LoopControl::Exit,
        !finished && yielding ==> r == LoopControl::Poll,
        !finished && !yielding ==> match deadline {
            Some(d) => r == LoopControl::WaitUntil(d),
            None => r == LoopControl::Wait,
        },
{
    if finished {
        LoopControl::Exit
    } else if yielding {
        LoopControl::Poll
    } else {
        match deadline {
            Some(d) => LoopControl::WaitUntil(d),
            None => LoopControl::Wait,
        }
    }
}

/// A wake-up event is sent only when no wake-up is pending yet and the
/// loop is asleep.
pub fn should_send_wakeup(already_notified: bool, awake: bool) -> (r: bool)
    ensures
        r == (!already_notified && !awake),
{
    !(already_notified || awake)
}

/// A value that may be handed between threads together with the interface
/// object it wraps.
#[derive(Debug, Clone)]
pub struct ComObj<T>(T);

impl<T> ComObj<T> {
    /// The wrapped object.
    pub closed spec fn inner(self) -> T {
        self.0
    }

    pub fn new(obj: T) -> (r: Self)
        ensures
            r.inner() == obj,
    {
        Self(obj)
    }

    pub fn get(&self) -> (r: &T)
        ensures
            *r == self.inner(),
    {
        &self.0
    }
}

} // verus!
