//! The per-device worker: a state machine that owns one captured device's
//! classification and output sink, and decides, cycle by cycle, what the
//! surrounding capture loop should do.
//!
//! The worker's life is `Unconfigured -> Configuring -> Configured ->
//! Stopped`. Classification is fixed at most once — by the capability
//! check at enumeration time or by the first captured event that reveals
//! a type — and never changes afterwards, even if later events suggest
//! another device type. A device fixed as `Unknown` (no signature, or an
//! ambiguous combination) never gets a sink and never forwards anything.
//!
//! Each capture cycle the loop around this state machine polls the
//! command channel ([`Worker::handle_poll`]), constructs the sink the
//! worker asks for ([`Worker::sink_to_build`], then [`Worker::sink_built`]
//! or [`Worker::fatal_error`]), fetches one batch of raw events, and
//! performs the synthetic actions [`Worker::translate_batch`] returns, in
//! order.

use vstd::prelude::*;
use vstd::string::StringExecFns;

use crate::codes::gamepad_button_code;
use crate::codes::is_gamepad_button_code;
use crate::codes::is_mouse_button_code;
use crate::codes::mouse_button_code;
use crate::translate::display_keycode;
use crate::translate::gamepad_button_of;
use crate::translate::mouse_button_of;
use crate::translate::spec_display_keycode;
use crate::translate::spec_gamepad_button_of;
use crate::translate::spec_mouse_button_of;
use crate::translate::spec_wheel_button;
use crate::translate::wheel_button;
use crate::translate::AbsAxisKind;
use crate::translate::InputEvent;
use crate::translate::RelAxisKind;
use crate::translate::StickAxis;
use crate::translate::SyntheticAction;
use crate::types::BackendCommand;
use crate::types::ClientError;
use crate::types::DeviceType;

verus! {

/// The output sink bound to a worker: nothing yet, a connection to the
/// target session's display server, or a virtual game controller.
#[derive(Clone, Copy, PartialEq, Eq, Structural, Debug)]
pub enum OutputSink {
    Unconfigured,
    DisplayConnection,
    VirtualController,
}

/// The kind of sink a worker asks its caller to construct.
#[derive(Clone, Copy, PartialEq, Eq, Structural, Debug)]
pub enum SinkKind {
    Display,
    Controller,
}

/// Where a worker stands in its life cycle.
#[derive(Clone, Copy, PartialEq, Eq, Structural, Debug)]
pub enum WorkerPhase {
    Unconfigured,
    Configuring,
    Configured,
    Stopped,
}

/// The result of one non-blocking look at the command channel.
#[derive(Clone, Copy, PartialEq, Eq, Structural, Debug)]
pub enum CommandPoll {
    /// No command pending.
    Empty,
    /// A command was delivered.
    Received(BackendCommand),
    /// The channel's sending side is gone.
    Disconnected,
}

/// The state of one peripheral worker.
#[derive(Clone, Copy, PartialEq, Eq, Structural, Debug)]
pub struct Worker {
    /// The classification, `Unknown` until one is fixed.
    pub devicetype: DeviceType,
    /// Whether the classification is fixed. A fixed `Unknown` is
    /// terminal: the device is observed but never forwarded.
    pub classified: bool,
    /// The sink bound to this worker.
    pub sink: OutputSink,
    /// Whether the worker has stopped, by command or by a fatal error.
    pub stopped: bool,
}

/// The sink kind that serves a classification: keyboards and mice go to
/// the display connection, gamepads to a virtual controller.
pub open spec fn spec_sink_kind_for(t: DeviceType) -> SinkKind {
    if t is Gamepad {
        SinkKind::Controller
    } else {
        SinkKind::Display
    }
}

/// The classification a single event reveals, `Unknown` if it reveals
/// none. A key code inside the mouse-button or gamepad-button block
/// names its device; any other key press or release names a keyboard
/// (autorepeat reveals nothing); relative motion names a mouse; an
/// absolute stick axis names a gamepad.
pub open spec fn event_class(ev: InputEvent) -> DeviceType {
    match ev {
        InputEvent::Key { code, value } => {
            if is_mouse_button_code(code) {
                DeviceType::Mouse
            } else if is_gamepad_button_code(code) {
                DeviceType::Gamepad
            } else if value != 2 {
                DeviceType::Keyboard
            } else {
                DeviceType::Unknown
            }
        },
        InputEvent::Relative { axis, .. } => {
            match axis {
                RelAxisKind::X | RelAxisKind::Y | RelAxisKind::Wheel => DeviceType::Mouse,
                RelAxisKind::Other => DeviceType::Unknown,
            }
        },
        InputEvent::Absolute { axis, .. } => {
            match axis {
                AbsAxisKind::X | AbsAxisKind::Y | AbsAxisKind::RX | AbsAxisKind::RY
                    => DeviceType::Gamepad,
                AbsAxisKind::Other => DeviceType::Unknown,
            }
        },
        InputEvent::Other => DeviceType::Unknown,
    }
}

/// How one event advances the worker's state: the first event that
/// reveals a classification fixes it; nothing else ever changes.
pub open spec fn spec_step(w: Worker, ev: InputEvent) -> Worker {
    if !w.classified && !(event_class(ev) is Unknown) {
        Worker { devicetype: event_class(ev), classified: true, ..w }
    } else {
        w
    }
}

/// What a display-connection sink emits for one event.
pub open spec fn display_output(ev: InputEvent) -> Seq<SyntheticAction> {
    match ev {
        InputEvent::Key { code, value } => {
            if value == 2 {
                // autorepeat is regenerated by the destination session
                seq![]
            } else if is_mouse_button_code(code) {
                if value == 1 {
                    seq![SyntheticAction::ButtonPress { button: spec_mouse_button_of(code) }]
                } else {
                    seq![SyntheticAction::ButtonRelease { button: spec_mouse_button_of(code) }]
                }
            } else if is_gamepad_button_code(code) {
                // a display connection has no digital-controller primitive
                seq![]
            } else {
                if value == 1 {
                    seq![SyntheticAction::KeyPress { keycode: spec_display_keycode(code) }]
                } else {
                    seq![SyntheticAction::KeyRelease { keycode: spec_display_keycode(code) }]
                }
            }
        },
        InputEvent::Relative { axis, value } => {
            match axis {
                RelAxisKind::X => seq![SyntheticAction::RelativeMove { dx: value, dy: 0 }],
                RelAxisKind::Y => seq![SyntheticAction::RelativeMove { dx: 0, dy: value }],
                RelAxisKind::Wheel => seq![
                    SyntheticAction::ButtonPress { button: spec_wheel_button(value) },
                    SyntheticAction::ButtonRelease { button: spec_wheel_button(value) },
                ],
                RelAxisKind::Other => seq![],
            }
        },
        InputEvent::Absolute { .. } => seq![],
        InputEvent::Other => seq![],
    }
}

/// What a virtual-controller sink emits for one event.
pub open spec fn controller_output(ev: InputEvent) -> Seq<SyntheticAction> {
    match ev {
        InputEvent::Key { code, value } => {
            if value == 2 || !is_gamepad_button_code(code) {
                seq![]
            } else {
                seq![
                    SyntheticAction::ControllerButton {
                        button: spec_gamepad_button_of(code),
                        pressed: value == 1,
                    },
                ]
            }
        },
        InputEvent::Absolute { axis, value } => {
            match axis {
                AbsAxisKind::X => seq![SyntheticAction::StickPosition { axis: StickAxis::X, value }],
                AbsAxisKind::Y => seq![SyntheticAction::StickPosition { axis: StickAxis::Y, value }],
                AbsAxisKind::RX => seq![
                    SyntheticAction::StickPosition { axis: StickAxis::RX, value },
                ],
                AbsAxisKind::RY => seq![
                    SyntheticAction::StickPosition { axis: StickAxis::RY, value },
                ],
                AbsAxisKind::Other => seq![],
            }
        },
        InputEvent::Relative { .. } => seq![],
        InputEvent::Other => seq![],
    }
}

/// What one event makes the worker emit: nothing while the sink is
/// unconfigured, otherwise whatever the bound sink's translation gives.
pub open spec fn spec_output(w: Worker, ev: InputEvent) -> Seq<SyntheticAction> {
    match w.sink {
        OutputSink::Unconfigured => seq![],
        OutputSink::DisplayConnection => display_output(ev),
        OutputSink::VirtualController => controller_output(ev),
    }
}

/// The state after a whole batch of events.
pub open spec fn batch_step(w: Worker, evs: Seq<InputEvent>) -> Worker
    decreases evs.len(),
{
    if evs.len() == 0 {
        w
    } else {
        spec_step(batch_step(w, evs.drop_last()), evs.last())
    }
}

/// Everything a whole batch of events makes the worker emit, in capture
/// order.
pub open spec fn batch_output(w: Worker, evs: Seq<InputEvent>) -> Seq<SyntheticAction>
    decreases evs.len(),
{
    if evs.len() == 0 {
        seq![]
    } else {
        batch_output(w, evs.drop_last()) + spec_output(
            batch_step(w, evs.drop_last()),
            evs.last(),
        )
    }
}

/// The kind of sink the worker wants constructed, if any: one is owed
/// exactly when the worker is running, classification is fixed to a
/// usable type, and no sink exists yet.
pub open spec fn spec_sink_to_build(w: Worker) -> Option<SinkKind> {
    if !w.stopped && w.sink is Unconfigured && w.classified && !(w.devicetype is Unknown) {
        Some(spec_sink_kind_for(w.devicetype))
    } else {
        None
    }
}

/// How one command-channel poll advances the worker: `Terminate` stops it
/// cleanly, a vanished channel stops it with an error, and an empty poll
/// changes nothing. The `bool` says whether the capture loop should
/// return.
pub open spec fn spec_poll_step(w: Worker, poll: CommandPoll) -> (Worker, Result<
    bool,
    ClientError,
>) {
    match poll {
        CommandPoll::Empty => (w, Ok(false)),
        CommandPoll::Received(BackendCommand::Terminate) => (
            Worker { stopped: true, ..w },
            Ok(true),
        ),
        CommandPoll::Disconnected => (
            Worker { stopped: true, ..w },
            Err(ClientError::ChannelClosed),
        ),
    }
}

impl Worker {
    /// The worker's structural invariant: an unfixed classification is
    /// still `Unknown`, a sink exists only for a fixed, usable
    /// classification, and the sink matches the classification.
    pub open spec fn wf(self) -> bool {
        &&& (!self.classified ==> self.devicetype is Unknown)
        &&& (!(self.sink is Unconfigured) ==> self.classified && !(self.devicetype is Unknown))
        &&& (self.sink is DisplayConnection ==> self.devicetype is Mouse || self.devicetype
            is Keyboard)
        &&& (self.sink is VirtualController ==> self.devicetype is Gamepad)
    }

    /// Where the worker stands: stopped; configured once a sink exists;
    /// configuring once a usable classification is fixed but no sink
    /// exists yet; unconfigured otherwise (including the terminal
    /// `Unknown` classification, which never leaves this phase).
    pub open spec fn spec_phase(self) -> WorkerPhase {
        if self.stopped {
            WorkerPhase::Stopped
        } else if !(self.sink is Unconfigured) {
            WorkerPhase::Configured
        } else if self.classified && !(self.devicetype is Unknown) {
            WorkerPhase::Configuring
        } else {
            WorkerPhase::Unconfigured
        }
    }

    /// A new worker for one captured device. `pre` is the classification
    /// the capability check assigned at enumeration time, if it ran:
    /// `Some(t)` fixes the classification to `t` immediately (including a
    /// terminal `Unknown`), `None` leaves it to the first captured events.
    pub fn new(pre: Option<DeviceType>) -> (w: Worker)
        ensures
            w.wf(),
            !w.stopped,
            w.sink is Unconfigured,
            pre matches Some(t) ==> w.classified && w.devicetype == t,
            pre is None ==> !w.classified && w.devicetype is Unknown,
    {
        match pre {
            Some(t) => Worker { devicetype: t, classified: true, sink: OutputSink::Unconfigured, stopped: false },
            None => Worker {
                devicetype: DeviceType::Unknown,
                classified: false,
                sink: OutputSink::Unconfigured,
                stopped: false,
            },
        }
    }

    /// Where the worker stands in its life cycle.
    pub fn phase(&self) -> (p: WorkerPhase)
        ensures
            p == self.spec_phase(),
    {
        if self.stopped {
            WorkerPhase::Stopped
        } else if !matches!(self.sink, OutputSink::Unconfigured) {
            WorkerPhase::Configured
        } else if self.classified && !matches!(self.devicetype, DeviceType::Unknown) {
            WorkerPhase::Configuring
        } else {
            WorkerPhase::Unconfigured
        }
    }

    /// One non-blocking look at the command channel, taken once per
    /// capture cycle before anything else, so a pending `Terminate` stops
    /// the worker within one fetch cycle.
    pub fn handle_poll(&mut self, poll: CommandPoll) -> (r: Result<bool, ClientError>)
        requires
            old(self).wf(),
            !old(self).stopped,
        ensures
            final(self).wf(),
            *final(self) == spec_poll_step(*old(self), poll).0,
            r == spec_poll_step(*old(self), poll).1,
    {
        match poll {
            CommandPoll::Empty => Ok(false),
            CommandPoll::Received(BackendCommand::Terminate) => {
                self.stopped = true;
                Ok(true)
            },
            CommandPoll::Disconnected => {
                self.stopped = true;
                Err(ClientError::ChannelClosed)
            },
        }
    }

    /// The sink the worker asks its caller to construct this cycle, if
    /// any.
    pub fn sink_to_build(&self) -> (k: Option<SinkKind>)
        requires
            self.wf(),
        ensures
            k == spec_sink_to_build(*self),
    {
        if !self.stopped && matches!(self.sink, OutputSink::Unconfigured) && self.classified
            && !matches!(self.devicetype, DeviceType::Unknown) {
            if matches!(self.devicetype, DeviceType::Gamepad) {
                Some(SinkKind::Controller)
            } else {
                Some(SinkKind::Display)
            }
        } else {
            None
        }
    }

    /// Record that the sink asked for by [`Worker::sink_to_build`] was
    /// constructed without error. The sink is bound exactly once, on the
    /// transition out of `Unconfigured`, and never reconfigured.
    pub fn sink_built(&mut self)
        requires
            old(self).wf(),
            spec_sink_to_build(*old(self)) is Some,
        ensures
            final(self).wf(),
            *final(self) == (Worker {
                sink: if old(self).devicetype is Gamepad {
                    OutputSink::VirtualController
                } else {
                    OutputSink::DisplayConnection
                },
                ..*old(self)
            }),
            final(self).spec_phase() is Configured,
    {
        if matches!(self.devicetype, DeviceType::Gamepad) {
            self.sink = OutputSink::VirtualController;
        } else {
            self.sink = OutputSink::DisplayConnection;
        }
    }

    /// Record an unrecoverable error: a failed sink construction, a failed
    /// synthesis call against an open sink, or a failed device read. All
    /// three are fatal for the worker — the in-flight event stream cannot
    /// be replayed, so the worker stops rather than retry.
    pub fn fatal_error(&mut self)
        requires
            old(self).wf(),
        ensures
            final(self).wf(),
            *final(self) == (Worker { stopped: true, ..*old(self) }),
            final(self).spec_phase() is Stopped,
    {
        self.stopped = true;
    }

    /// Translate one captured event: fix the classification if this is
    /// the first event to reveal one, and emit the synthetic actions the
    /// bound sink owes for the event — nothing while no sink is bound.
    pub fn translate(&mut self, ev: InputEvent) -> (out: Vec<SyntheticAction>)
        requires
            old(self).wf(),
            !old(self).stopped,
        ensures
            final(self).wf(),
            !final(self).stopped,
            *final(self) == spec_step(*old(self), ev),
            out@ == spec_output(*old(self), ev),
    {
        if !self.classified {
            let c = Self::event_classification(ev);
            match c {
                DeviceType::Unknown => {},
                _ => {
                    self.devicetype = c;
                    self.classified = true;
                },
            }
        }
        let mut out: Vec<SyntheticAction> = Vec::new();
        match self.sink {
            OutputSink::Unconfigured => {},
            OutputSink::DisplayConnection => {
                match ev {
                    InputEvent::Key { code, value } => {
                        if value == 2 {
                            // autorepeat: the destination session regenerates it
                        } else if mouse_button_code(code) {
                            let b = mouse_button_of(code);
                            if value == 1 {
                                out.push(SyntheticAction::ButtonPress { button: b });
                            } else {
                                out.push(SyntheticAction::ButtonRelease { button: b });
                            }
                        } else if gamepad_button_code(code) {
                            // no controller primitive on a display connection
                        } else {
                            let k = display_keycode(code);
                            if value == 1 {
                                out.push(SyntheticAction::KeyPress { keycode: k });
                            } else {
                                out.push(SyntheticAction::KeyRelease { keycode: k });
                            }
                        }
                    },
                    InputEvent::Relative { axis, value } => {
                        match axis {
                            RelAxisKind::X => {
                                out.push(SyntheticAction::RelativeMove { dx: value, dy: 0 });
                            },
                            RelAxisKind::Y => {
                                out.push(SyntheticAction::RelativeMove { dx: 0, dy: value });
                            },
                            RelAxisKind::Wheel => {
                                let b = wheel_button(value);
                                out.push(SyntheticAction::ButtonPress { button: b });
                                out.push(SyntheticAction::ButtonRelease { button: b });
                            },
                            RelAxisKind::Other => {},
                        }
                    },
                    _ => {},
                }
            },
            OutputSink::VirtualController => {
                match ev {
                    InputEvent::Key { code, value } => {
                        if value != 2 && gamepad_button_code(code) {
                            let b = gamepad_button_of(code);
                            out.push(
                                SyntheticAction::ControllerButton { button: b, pressed: value == 1 },
                            );
                        }
                    },
                    InputEvent::Absolute { axis, value } => {
                        match axis {
                            AbsAxisKind::X => {
                                out.push(
                                    SyntheticAction::StickPosition { axis: StickAxis::X, value },
                                );
                            },
                            AbsAxisKind::Y => {
                                out.push(
                                    SyntheticAction::StickPosition { axis: StickAxis::Y, value },
                                );
                            },
                            AbsAxisKind::RX => {
                                out.push(
                                    SyntheticAction::StickPosition { axis: StickAxis::RX, value },
                                );
                            },
                            AbsAxisKind::RY => {
                                out.push(
                                    SyntheticAction::StickPosition { axis: StickAxis::RY, value },
                                );
                            },
                            AbsAxisKind::Other => {},
                        }
                    },
                    _ => {},
                }
            },
        }
        proof {
            assert(out@ =~= spec_output(*old(self), ev));
        }
        out
    }

    /// Translate one whole batch of captured events, in capture order.
    pub fn translate_batch(&mut self, events: &Vec<InputEvent>) -> (out: Vec<SyntheticAction>)
        requires
            old(self).wf(),
            !old(self).stopped,
        ensures
            final(self).wf(),
            !final(self).stopped,
            *final(self) == batch_step(*old(self), events@),
            out@ == batch_output(*old(self), events@),
    {
        let ghost w0 = *self;
        let mut out: Vec<SyntheticAction> = Vec::new();
        let mut i: usize = 0;
        while i < events.len()
            invariant
                0 <= i <= events@.len(),
                self.wf(),
                !self.stopped,
                *self == batch_step(w0, events@.take(i as int)),
                out@ == batch_output(w0, events@.take(i as int)),
            decreases events@.len() - i,
        {
            let ev = events[i];
            let mut acts = self.translate(ev);
            out.append(&mut acts);
            i = i + 1;
            proof {
                assert(events@.take(i as int).drop_last() =~= events@.take(i - 1));
                assert(events@.take(i as int).last() == events@[i - 1]);
            }
        }
        proof {
            assert(events@.take(events@.len() as int) =~= events@);
        }
        out
    }

    /// The classification one event reveals.
    pub fn event_classification(ev: InputEvent) -> (t: DeviceType)
        ensures
            t == event_class(ev),
    {
        match ev {
            InputEvent::Key { code, value } => {
                if mouse_button_code(code) {
                    DeviceType::Mouse
                } else if gamepad_button_code(code) {
                    DeviceType::Gamepad
                } else if value != 2 {
                    DeviceType::Keyboard
                } else {
                    DeviceType::Unknown
                }
            },
            InputEvent::Relative { axis, .. } => {
                match axis {
                    RelAxisKind::X | RelAxisKind::Y | RelAxisKind::Wheel => DeviceType::Mouse,
                    RelAxisKind::Other => DeviceType::Unknown,
                }
            },
            InputEvent::Absolute { axis, .. } => {
                match axis {
                    AbsAxisKind::X | AbsAxisKind::Y | AbsAxisKind::RX | AbsAxisKind::RY
                        => DeviceType::Gamepad,
                    AbsAxisKind::Other => DeviceType::Unknown,
                }
            },
            InputEvent::Other => DeviceType::Unknown,
        }
    }
}

/// The name under which a worker's virtual game controller is registered
/// with the OS input subsystem, from the device's node suffix.
pub fn virtual_gamepad_name(suffix: &str) -> (r: String)
    ensures
        r@ == "Splinux Virtual Gamepad Device "@ + suffix@,
{
    let mut s = "Splinux Virtual Gamepad Device ".to_owned();
    s.append(suffix);
    s
}

} // verus!
