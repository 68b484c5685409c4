//! Priority-ceiling locking of the state shared between interrupt handlers
//! and the control loop.
//!
//! Every task has a fixed priority. Every shared resource has a ceiling: the
//! highest priority of any task that touches it. A task that locks a
//! resource runs at the higher of its own priority and the ceiling for the
//! duration of the access; a task preempts only when its priority is
//! strictly above the running priority.

use vstd::prelude::*;

verus! {

/// The execution contexts, each bound to one priority.
#[derive(Clone, Copy, Debug, PartialEq, Eq, Structural)]
pub enum Task {
    /// The control loop, in the background.
    Idle,
    /// The periodic query tick.
    Ping,
    /// Pin-edge interrupt of the pause button.
    ButtonPause,
    /// Pin-edge interrupt of the encoder button.
    ButtonEncoder,
    /// Byte received on the serial line.
    UartRx,
    /// USB transmit interrupt.
    UsbTx,
    /// USB receive interrupt.
    UsbRx,
}

/// The state that the tasks own or share.
#[derive(Clone, Copy, Debug, PartialEq, Eq, Structural)]
pub enum Resource {
    Ps,
    Display,
    SdCard,
    Led,
    RotaryEncoder,
    UsbSerial,
    UsbRxBuf,
    UartSerial,
    UartRxBuf,
    Query,
    QueryIdx,
    BtnPause,
    BtnEncoder,
}

pub open spec fn priority_spec(t: Task) -> u8 {
    match t {
        Task::Idle => 0,
        Task::Ping => 1,
        Task::ButtonPause => 2,
        Task::ButtonEncoder => 2,
        Task::UartRx => 3,
        Task::UsbTx => 4,
        Task::UsbRx => 4,
    }
}

/// Whether task `t` touches resource `r`.
pub open spec fn uses(t: Task, r: Resource) -> bool {
    match r {
        Resource::Ps | Resource::Display | Resource::SdCard | Resource::Led
        | Resource::RotaryEncoder => t == Task::Idle,
        Resource::UsbSerial => t == Task::Idle || t == Task::UsbTx || t == Task::UsbRx,
        Resource::UsbRxBuf => t == Task::Idle || t == Task::UsbRx,
        Resource::UartSerial | Resource::UartRxBuf => t == Task::Idle || t == Task::UartRx,
        Resource::Query => t == Task::Idle || t == Task::Ping,
        Resource::QueryIdx => t == Task::Ping,
        Resource::BtnPause => t == Task::Idle || t == Task::ButtonPause,
        Resource::BtnEncoder => t == Task::Idle || t == Task::ButtonEncoder,
    }
}

pub open spec fn ceiling_spec(r: Resource) -> u8 {
    match r {
        Resource::Ps | Resource::Display | Resource::SdCard | Resource::Led
        | Resource::RotaryEncoder => 0,
        Resource::UsbSerial | Resource::UsbRxBuf => 4,
        Resource::UartSerial | Resource::UartRxBuf => 3,
        Resource::Query | Resource::QueryIdx => 1,
        Resource::BtnPause | Resource::BtnEncoder => 2,
    }
}

/// The priority a task runs at while it holds a lock on `r`.
pub open spec fn lock_priority_spec(p: u8, r: Resource) -> u8 {
    if p >= ceiling_spec(r) {
        p
    } else {
        ceiling_spec(r)
    }
}

/// Whether task `t` may preempt code running at priority `running`.
pub open spec fn preempts(t: Task, running: u8) -> bool {
    priority_spec(t) > running
}

impl Task {
    /// The task's priority.
    pub fn priority(&self) -> (r: u8)
        ensures
            r == priority_spec(*self),
    {
        match self {
            Task::Idle => 0,
            Task::Ping => 1,
            Task::ButtonPause => 2,
            Task::ButtonEncoder => 2,
            Task::UartRx => 3,
            Task::UsbTx => 4,
            Task::UsbRx => 4,
        }
    }
}

impl Resource {
    /// The resource's ceiling priority.
    pub fn ceiling(&self) -> (r: u8)
        ensures
            r == ceiling_spec(*self),
    {
        match self {
            Resource::Ps | Resource::Display | Resource::SdCard | Resource::Led
            | Resource::RotaryEncoder => 0,
            Resource::UsbSerial | Resource::UsbRxBuf => 4,
            Resource::UartSerial | Resource::UartRxBuf => 3,
            Resource::Query | Resource::QueryIdx => 1,
            Resource::BtnPause | Resource::BtnEncoder => 2,
        }
    }
}

/// The priority to run at while code at priority `current` accesses `r`:
/// raised to the ceiling when below it, unchanged at or above it.
pub fn lock_priority(current: u8, r: Resource) -> (p: u8)
    ensures
        p == lock_priority_spec(current, r),
        p >= current,
{
    let c = r.ceiling();
    if current >= c {
        current
    } else {
        c
    }
}

/// The ceiling of a resource is the highest priority of the tasks that
/// touch it.
pub proof fn lemma_ceiling_is_highest_user(r: Resource)
    ensures
        forall|t: Task| uses(t, r) ==> priority_spec(t) <= ceiling_spec(r),
        exists|t: Task| uses(t, r) && priority_spec(t) == ceiling_spec(r),
{
    let top = match r {
        Resource::Ps | Resource::Display | Resource::SdCard | Resource::Led
        | Resource::RotaryEncoder => Task::Idle,
        Resource::UsbSerial | Resource::UsbRxBuf => Task::UsbRx,
        Resource::UartSerial | Resource::UartRxBuf => Task::UartRx,
        Resource::Query | Resource::QueryIdx => Task::Ping,
        Resource::BtnPause => Task::ButtonPause,
        Resource::BtnEncoder => Task::ButtonEncoder,
    };
    assert(uses(top, r) && priority_spec(top) == ceiling_spec(r));
}

/// Mutual exclusion: while a task holds a lock on a resource, no other task
/// that touches the resource can preempt it.
pub proof fn lemma_lock_excludes(holder: Task, other: Task, r: Resource)
    requires
        uses(holder, r),
        uses(other, r),
    ensures
        !preempts(other, lock_priority_spec(priority_spec(holder), r)),
{
    lemma_ceiling_is_highest_user(r);
}

/// A lock never blocks a task above the ceiling: whatever preempts the
/// holder without the lock still preempts it with the lock.
pub proof fn lemma_lock_spares_higher(holder: Task, other: Task, r: Resource)
    requires
        priority_spec(other) > ceiling_spec(r),
        preempts(other, priority_spec(holder)),
    ensures
        preempts(other, lock_priority_spec(priority_spec(holder), r)),
{
}

/// A lock taken at or above the ceiling changes nothing: the task is
/// already exclusive.
pub proof fn lemma_lock_at_ceiling_is_noop(holder: Task, r: Resource)
    requires
        priority_spec(holder) >= ceiling_spec(r),
    ensures
        lock_priority_spec(priority_spec(holder), r) == priority_spec(holder),
{
}

} // verus!
