//! The controls that Windows sends to the running service.
use vstd::prelude::*;

verus! {

/// The name of the service.
pub const SERVICE_NAME: &'static str = "xbridge";

/// A control that Windows sends.
#[derive(Clone, Copy, PartialEq, Eq, Structural)]
pub enum Control {
    Stop,
    Shutdown,
    Interrogate,
    Other,
}

/// What to do about a control.
#[derive(Clone, Copy, PartialEq, Eq, Structural)]
pub struct Reply {
    /// Whether to tell the bridge to shut down.
    pub signal: bool,
    /// Whether to answer that the control was handled, and not that it is unknown.
    pub handled: bool,
}

/// The switch that shuts the bridge down, which works once.
pub struct ShutdownSwitch {
    pub armed: bool,
}

/// What a control calls for, and whether the switch is armed afterwards.
pub open spec fn controlled(armed: bool, control: Control) -> (Reply, bool) {
    match control {
        Control::Stop | Control::Shutdown => (Reply { signal: armed, handled: true }, false),
        Control::Interrogate => (Reply { signal: false, handled: true }, armed),
        Control::Other => (Reply { signal: false, handled: false }, armed),
    }
}

impl ShutdownSwitch {
    /// A switch that has not been used.
    pub fn new() -> (r: ShutdownSwitch)
        ensures
            r.armed,
    {
        ShutdownSwitch { armed: true }
    }

    /// Takes a control.
    pub fn handle(&mut self, control: Control) -> (r: Reply)
        ensures
            (r, final(self).armed) == controlled(old(self).armed, control),
    {
        match control {
            Control::Stop | Control::Shutdown => {
                let signal = self.armed;
                self.armed = false;
                Reply { signal, handled: true }
            },
            Control::Interrogate => Reply { signal: false, handled: true },
            Control::Other => Reply { signal: false, handled: false },
        }
    }
}

/// A control is answered as handled exactly if it is known, and only a stop or a shutdown
/// uses the switch: it signals if the switch is armed, and leaves it used.
pub proof fn only_known_controls_are_handled(armed: bool, control: Control)
    ensures
        ({
            let (reply, still_armed) = controlled(armed, control);
            let ends = control is Stop || control is Shutdown;
            &&& reply.handled == !(control is Other)
            &&& reply.signal == (ends && armed)
            &&& still_armed == (armed && !ends)
        }),
{
}

/// What the service tells Windows about itself.
#[derive(Clone, Copy, PartialEq, Eq, Structural)]
pub struct Status {
    /// Whether the service runs, and not has stopped.
    pub running: bool,
    /// Whether Windows may send `Stop`.
    pub accepts_stop: bool,
    /// Whether Windows may send `Shutdown`.
    pub accepts_shutdown: bool,
    pub exit_code: u32,
}

/// What the service tells Windows: while it runs, that it can be stopped and shut down;
/// afterwards, that it has stopped without an error.
pub fn status(running: bool) -> (r: Status)
    ensures
        r == (Status {
            running,
            accepts_stop: running,
            accepts_shutdown: running,
            exit_code: 0,
        }),
{
    Status { running, accepts_stop: running, accepts_shutdown: running, exit_code: 0 }
}

/// How often a run of controls tells the bridge to shut down.
pub open spec fn signals(armed: bool, controls: Seq<Control>) -> nat
    decreases controls.len(),
{
    if controls.len() == 0 {
        0
    } else {
        let (reply, rest) = controlled(armed, controls[0]);
        (if reply.signal {
            1nat
        } else {
            0nat
        }) + signals(rest, controls.skip(1))
    }
}

/// The bridge is told to shut down exactly once if any control asks for it, and never
/// otherwise.
pub proof fn shuts_down_once(controls: Seq<Control>)
    ensures
        signals(true, controls) == if exists|i: int|
            0 <= i < controls.len() && (#[trigger] controls[i] is Stop || controls[i] is Shutdown) {
            1nat
        } else {
            0nat
        },
    decreases controls.len(),
{
    if controls.len() > 0 {
        let rest = controls.skip(1);
        shuts_down_once(rest);
        lemma_used_switch_is_silent(rest);
        assert forall|i: int| 0 < i < controls.len() implies #[trigger] controls[i] == rest[i
            - 1] by {}
        if controls[0] is Interrogate || controls[0] is Other {
            if exists|i: int|
                0 <= i < controls.len() && (#[trigger] controls[i] is Stop
                    || controls[i] is Shutdown) {
                let i = choose|i: int|
                    0 <= i < controls.len() && (#[trigger] controls[i] is Stop
                        || controls[i] is Shutdown);
                assert(rest[i - 1] is Stop || rest[i - 1] is Shutdown);
            } else {
                assert forall|i: int| 0 <= i < rest.len() implies !(#[trigger] rest[i] is Stop
                    || rest[i] is Shutdown) by {
                    assert(controls[i + 1] == rest[i]);
                }
            }
        } else {
            assert(controls[0] is Stop || controls[0] is Shutdown);
        }
    }
}

proof fn lemma_used_switch_is_silent(controls: Seq<Control>)
    ensures
        signals(false, controls) == 0,
    decreases controls.len(),
{
    if controls.len() > 0 {
        lemma_used_switch_is_silent(controls.skip(1));
    }
}

} // verus!
