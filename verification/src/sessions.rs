//! The engine shared by the USB task and the TCP server.
//!
//! Both tasks take turns holding the engine under one mutex: exactly one
//! session runs at a time, and the other task waits.

use crate::usb::{UsbEvent, UsbTask};
use crate::wifi::{Server, ServerEvent};
use vstd::prelude::*;

verus! {

/// Both tasks, between two steps.
pub struct Tasks {
    pub usb: UsbTask,
    pub server: Server,
}

impl Tasks {
    /// Both tasks at start-up.
    pub open spec fn start(ssid: Seq<char>, password: Seq<char>) -> Tasks {
        Tasks { usb: UsbTask::Waiting, server: Server::start(ssid, password) }
    }

    /// Whether nobody has the engine.
    pub open spec fn engine_free(self) -> bool {
        !self.usb.holds_engine() && !self.server.holds_engine()
    }

    /// Whether `self` may become `other` in one step of one task. The mutex
    /// grants the engine only while nobody has it.
    pub open spec fn may_become(self, other: Tasks) -> bool {
        ||| exists|event: UsbEvent|
            {
                &&& other == (Tasks { usb: #[trigger] self.usb.next(event), ..self })
                &&& event is EngineLocked ==> self.engine_free()
            }
        ||| exists|event: ServerEvent|
            {
                &&& other == (Tasks { server: #[trigger] self.server.next(event), ..self })
                &&& event is EngineLocked ==> self.engine_free()
            }
    }
}

/// Whether `states` is how the tasks may go on from the first of them.
pub open spec fn is_run(states: Seq<Tasks>) -> bool {
    forall|i: int, j: int|
        0 <= i && j == i + 1 && j < states.len() ==> (#[trigger] states[i]).may_become(
            #[trigger] states[j],
        )
}

/// However the two tasks interleave, a USB session and a TCP session never
/// run at the same time, and never share the engine.
pub proof fn law_one_session_at_a_time(
    ssid: Seq<char>,
    password: Seq<char>,
    states: Seq<Tasks>,
    i: int,
)
    requires
        is_run(states),
        0 <= i < states.len(),
        states[0] == Tasks::start(ssid, password),
    ensures
        !(states[i].usb.holds_engine() && states[i].server.holds_engine()),
        !(states[i].usb is Session && states[i].server is Session),
    decreases i,
{
    if i > 0 {
        law_one_session_at_a_time(ssid, password, states, i - 1);
        assert(states[i - 1].may_become(states[i]));
    }
}

/// A session that ends gives the engine to whoever waits: once the USB task
/// has released it, a client that was waiting can have it, and the other way
/// round.
pub proof fn law_release_lets_the_other_in(tasks: Tasks)
    requires
        !(tasks.usb.holds_engine() && tasks.server.holds_engine()),
    ensures
        tasks.usb is Releasing && tasks.server is Locking ==> {
            let released = Tasks { usb: tasks.usb.next(UsbEvent::EngineReleased), ..tasks };
            let next = Tasks { server: released.server.next(ServerEvent::EngineLocked), ..released };
            &&& tasks.may_become(released)
            &&& released.may_become(next)
            &&& next.server is Session
        },
        tasks.server is Releasing && tasks.usb is Locking ==> {
            let released = Tasks { server: tasks.server.next(ServerEvent::EngineReleased), ..tasks };
            let next = Tasks { usb: released.usb.next(UsbEvent::EngineLocked), ..released };
            &&& tasks.may_become(released)
            &&& released.may_become(next)
            &&& next.usb is Session
        },
{
}

} // verus!
