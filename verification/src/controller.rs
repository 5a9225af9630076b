//! Hook lifecycle controller: the per-class start/stop state machine.
//!
//! The controller owns, for each event class, the run state of the
//! class's pump thread and the callback slot that holds the currently
//! registered sink. It decides; the platform backend acts. Every call
//! returns a [`PumpCommand`] telling the backend which platform action
//! to perform: spawn a pump thread, signal a running pump to unwind, or
//! nothing at all. The contracts pin down the two lifecycle guarantees:
//! starting an already-running class never spawns a second pump, and
//! stopping an already-stopped class performs no platform action.

use vstd::prelude::*;
use crate::events::{EventClass, HookError};

verus! {

/// Run state of one event class's pump thread.
#[derive(Clone, Copy, PartialEq, Eq, Structural, Debug)]
pub enum RunState {
    Stopped,
    Running,
}

/// The platform action a lifecycle call asks the backend to perform.
#[derive(Clone, Copy, PartialEq, Eq, Structural, Debug)]
pub enum PumpCommand {
    /// Spawn the pump thread of this class.
    SpawnPump(EventClass),
    /// Signal the running pump of this class to unwind, and join it.
    SignalStop(EventClass),
    /// No platform action is owed.
    NoAction,
}

/// An opaque handle to a registered sink. The host side maps the
/// handle to the real callback; the controller only stores and clears
/// it, so the slot's contents stay plain data here.
pub type SinkHandle = u64;

/// Lifecycle state of both event classes: one run state and one
/// callback slot per class. The slot holds at most one sink at a time;
/// it is populated by `start`, cleared by `stop`, and read by the pump
/// on every captured event.
#[derive(Clone, Copy, PartialEq, Eq, Structural, Debug)]
pub struct HookController {
    pub mouse_run: RunState,
    pub keyboard_run: RunState,
    pub mouse_sink: Option<SinkHandle>,
    pub keyboard_sink: Option<SinkHandle>,
}

impl HookController {
    /// The run state this controller holds for a class.
    pub open spec fn spec_run(self, class: EventClass) -> RunState {
        match class {
            EventClass::Mouse => self.mouse_run,
            EventClass::Keyboard => self.keyboard_run,
        }
    }

    /// The callback slot this controller holds for a class.
    pub open spec fn spec_sink(self, class: EventClass) -> Option<SinkHandle> {
        match class {
            EventClass::Mouse => self.mouse_sink,
            EventClass::Keyboard => self.keyboard_sink,
        }
    }

    /// The start transition: the sink is stored unconditionally, the
    /// class ends up running, and a pump is spawned only from the
    /// stopped state. Both lifecycle calls are defined by such a
    /// transition, so laws about call sequences can be stated over
    /// them directly.
    pub open spec fn spec_start_hook(self, class: EventClass, sink: SinkHandle) -> (
        HookController,
        PumpCommand,
    ) {
        let next = match class {
            EventClass::Mouse => HookController {
                mouse_run: RunState::Running,
                mouse_sink: Some(sink),
                ..self
            },
            EventClass::Keyboard => HookController {
                keyboard_run: RunState::Running,
                keyboard_sink: Some(sink),
                ..self
            },
        };
        let cmd = if self.spec_run(class) == RunState::Running {
            PumpCommand::NoAction
        } else {
            PumpCommand::SpawnPump(class)
        };
        (next, cmd)
    }

    /// The stop transition: the slot is cleared, the class ends up
    /// stopped, and the pump is signalled only when one was running.
    pub open spec fn spec_stop_hook(self, class: EventClass) -> (HookController, PumpCommand) {
        let next = match class {
            EventClass::Mouse => HookController {
                mouse_run: RunState::Stopped,
                mouse_sink: None,
                ..self
            },
            EventClass::Keyboard => HookController {
                keyboard_run: RunState::Stopped,
                keyboard_sink: None,
                ..self
            },
        };
        let cmd = if self.spec_run(class) == RunState::Running {
            PumpCommand::SignalStop(class)
        } else {
            PumpCommand::NoAction
        };
        (next, cmd)
    }

    /// A fresh controller: both classes stopped, both slots empty.
    pub fn new() -> (c: HookController)
        ensures
            c.mouse_run == RunState::Stopped,
            c.keyboard_run == RunState::Stopped,
            c.mouse_sink is None,
            c.keyboard_sink is None,
    {
        HookController {
            mouse_run: RunState::Stopped,
            keyboard_run: RunState::Stopped,
            mouse_sink: None,
            keyboard_sink: None,
        }
    }

    /// Registers a sink for a class and starts its hook.
    ///
    /// The sink is stored in the class's callback slot unconditionally.
    /// If the class was stopped, it transitions to running and the
    /// backend is asked to spawn the class's pump; if it was already
    /// running, only the sink is replaced and no platform action is
    /// owed, so no second hook is ever installed. The call itself
    /// always succeeds: installation failures happen asynchronously
    /// inside the pump and are absorbed there.
    pub fn start_hook(&mut self, class: EventClass, sink: SinkHandle) -> (r: Result<
        PumpCommand,
        HookError,
    >)
        ensures
            r == Ok::<PumpCommand, HookError>(old(self).spec_start_hook(class, sink).1),
            *final(self) == old(self).spec_start_hook(class, sink).0,
    {
        match class {
            EventClass::Mouse => {
                self.mouse_sink = Some(sink);
                if self.mouse_run == RunState::Running {
                    Ok(PumpCommand::NoAction)
                } else {
                    self.mouse_run = RunState::Running;
                    Ok(PumpCommand::SpawnPump(EventClass::Mouse))
                }
            },
            EventClass::Keyboard => {
                self.keyboard_sink = Some(sink);
                if self.keyboard_run == RunState::Running {
                    Ok(PumpCommand::NoAction)
                } else {
                    self.keyboard_run = RunState::Running;
                    Ok(PumpCommand::SpawnPump(EventClass::Keyboard))
                }
            },
        }
    }

    /// Clears a class's callback slot and stops its hook.
    ///
    /// If the class was running, the backend is asked to signal its
    /// pump to unwind; the class transitions to stopped either way. A
    /// stop on an already-stopped class succeeds and owes no platform
    /// action at all.
    pub fn stop_hook(&mut self, class: EventClass) -> (r: Result<PumpCommand, HookError>)
        ensures
            r == Ok::<PumpCommand, HookError>(old(self).spec_stop_hook(class).1),
            *final(self) == old(self).spec_stop_hook(class).0,
    {
        match class {
            EventClass::Mouse => {
                self.mouse_sink = None;
                if self.mouse_run == RunState::Running {
                    self.mouse_run = RunState::Stopped;
                    Ok(PumpCommand::SignalStop(EventClass::Mouse))
                } else {
                    Ok(PumpCommand::NoAction)
                }
            },
            EventClass::Keyboard => {
                self.keyboard_sink = None;
                if self.keyboard_run == RunState::Running {
                    self.keyboard_run = RunState::Stopped;
                    Ok(PumpCommand::SignalStop(EventClass::Keyboard))
                } else {
                    Ok(PumpCommand::NoAction)
                }
            },
        }
    }

    /// Registers a sink for the mouse class and starts the mouse hook.
    pub fn start_global_mouse_hook(&mut self, sink: SinkHandle) -> (r: Result<
        PumpCommand,
        HookError,
    >)
        ensures
            r is Ok,
            final(self).mouse_sink == Some(sink),
            final(self).mouse_run == RunState::Running,
            final(self).keyboard_sink == old(self).keyboard_sink,
            final(self).keyboard_run == old(self).keyboard_run,
            old(self).mouse_run == RunState::Running ==> r == Ok::<PumpCommand, HookError>(
                PumpCommand::NoAction,
            ),
            old(self).mouse_run == RunState::Stopped ==> r == Ok::<PumpCommand, HookError>(
                PumpCommand::SpawnPump(EventClass::Mouse),
            ),
    {
        self.start_hook(EventClass::Mouse, sink)
    }

    /// Registers a sink for the keyboard class and starts the keyboard
    /// hook.
    pub fn start_global_keyboard_hook(&mut self, sink: SinkHandle) -> (r: Result<
        PumpCommand,
        HookError,
    >)
        ensures
            r is Ok,
            final(self).keyboard_sink == Some(sink),
            final(self).keyboard_run == RunState::Running,
            final(self).mouse_sink == old(self).mouse_sink,
            final(self).mouse_run == old(self).mouse_run,
            old(self).keyboard_run == RunState::Running ==> r == Ok::<PumpCommand, HookError>(
                PumpCommand::NoAction,
            ),
            old(self).keyboard_run == RunState::Stopped ==> r == Ok::<PumpCommand, HookError>(
                PumpCommand::SpawnPump(EventClass::Keyboard),
            ),
    {
        self.start_hook(EventClass::Keyboard, sink)
    }

    /// Clears the mouse sink and stops the mouse hook; a no-op when
    /// the mouse class is already stopped.
    pub fn stop_global_mouse_hook(&mut self) -> (r: Result<PumpCommand, HookError>)
        ensures
            r is Ok,
            final(self).mouse_sink is None,
            final(self).mouse_run == RunState::Stopped,
            final(self).keyboard_sink == old(self).keyboard_sink,
            final(self).keyboard_run == old(self).keyboard_run,
            old(self).mouse_run == RunState::Stopped ==> r == Ok::<PumpCommand, HookError>(
                PumpCommand::NoAction,
            ),
            old(self).mouse_run == RunState::Running ==> r == Ok::<PumpCommand, HookError>(
                PumpCommand::SignalStop(EventClass::Mouse),
            ),
    {
        self.stop_hook(EventClass::Mouse)
    }

    /// Clears the keyboard sink and stops the keyboard hook; a no-op
    /// when the keyboard class is already stopped.
    pub fn stop_global_keyboard_hook(&mut self) -> (r: Result<PumpCommand, HookError>)
        ensures
            r is Ok,
            final(self).keyboard_sink is None,
            final(self).keyboard_run == RunState::Stopped,
            final(self).mouse_sink == old(self).mouse_sink,
            final(self).mouse_run == old(self).mouse_run,
            old(self).keyboard_run == RunState::Stopped ==> r == Ok::<PumpCommand, HookError>(
                PumpCommand::NoAction,
            ),
            old(self).keyboard_run == RunState::Running ==> r == Ok::<PumpCommand, HookError>(
                PumpCommand::SignalStop(EventClass::Keyboard),
            ),
    {
        self.stop_hook(EventClass::Keyboard)
    }

    /// Stops both classes: clears both sinks, asks the backend to
    /// unwind whichever pumps were running, and succeeds even when
    /// nothing was ever started, in which case neither command asks
    /// for any platform action.
    pub fn stop_all_hooks(&mut self) -> (r: Result<(PumpCommand, PumpCommand), HookError>)
        ensures
            r is Ok,
            final(self).mouse_sink is None,
            final(self).keyboard_sink is None,
            final(self).mouse_run == RunState::Stopped,
            final(self).keyboard_run == RunState::Stopped,
            ({
                let (mc, kc) = r->Ok_0;
                &&& (old(self).mouse_run == RunState::Stopped ==> mc == PumpCommand::NoAction)
                &&& (old(self).mouse_run == RunState::Running ==> mc == PumpCommand::SignalStop(
                    EventClass::Mouse,
                ))
                &&& (old(self).keyboard_run == RunState::Stopped ==> kc == PumpCommand::NoAction)
                &&& (old(self).keyboard_run == RunState::Running ==> kc == PumpCommand::SignalStop(
                    EventClass::Keyboard,
                ))
            }),
    {
        let mouse_cmd = match self.stop_hook(EventClass::Mouse) {
            Ok(cmd) => cmd,
            Err(e) => {
                return Err(e);
            },
        };
        let keyboard_cmd = match self.stop_hook(EventClass::Keyboard) {
            Ok(cmd) => cmd,
            Err(e) => {
                return Err(e);
            },
        };
        Ok((mouse_cmd, keyboard_cmd))
    }
}

/// Law: stop is idempotent. Stopping a class that is already stopped
/// succeeds, changes nothing about the other class, and owes the
/// backend no platform action at all; a second stop right after a
/// first is always such a no-op.
pub proof fn lemma_idempotent_stop(c: HookController, class: EventClass)
    ensures
        c.spec_run(class) == RunState::Stopped ==> c.spec_stop_hook(class).1
            == PumpCommand::NoAction,
        c.spec_stop_hook(class).0.spec_stop_hook(class).1 == PumpCommand::NoAction,
        c.spec_stop_hook(class).0.spec_stop_hook(class).0 == c.spec_stop_hook(class).0,
{
}

/// Law: no duplicate installation. Over two consecutive starts of the
/// same class without an intervening stop, a pump is spawned at most
/// once: the second start never spawns, it only replaces the sink, and
/// from the stopped state exactly the first start spawns.
pub proof fn lemma_no_duplicate_install(
    c: HookController,
    class: EventClass,
    s1: SinkHandle,
    s2: SinkHandle,
)
    ensures
        ({
            let (c1, cmd1) = c.spec_start_hook(class, s1);
            let (c2, cmd2) = c1.spec_start_hook(class, s2);
            &&& cmd2 == PumpCommand::NoAction
            &&& c2.spec_sink(class) == Some(s2)
            &&& c2.spec_run(class) == RunState::Running
            &&& (c.spec_run(class) == RunState::Stopped ==> cmd1 == PumpCommand::SpawnPump(class))
            &&& (c.spec_run(class) == RunState::Running ==> cmd1 == PumpCommand::NoAction)
        }),
{
}

} // verus!
