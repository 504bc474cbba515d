use vstd::prelude::*;
use crate::relay::{UnwindSlot, captured, capture_result};

verus! {

/// Event code sent when a window is being created.
pub const WM_CREATE: u32 = 0x0001;

/// Event code sent when a window is being destroyed.
pub const WM_DESTROY: u32 = 0x0002;

/// Event code sent when the right mouse button is released.
pub const WM_RBUTTONUP: u32 = 0x0205;

/// Result code that rejects a window creation.
pub const CREATE_REJECTED: isize = -1;

/// Result code that reports an event as handled.
pub const HANDLED: isize = 0;

/// The events that the callback tells apart.
#[derive(PartialEq, Eq, Structural, Clone, Copy, Debug)]
pub enum Event {
    Create,
    Destroy,
    RButtonUp,
    Other(u32),
}

/// The event that an event code stands for.
pub open spec fn event_of(msg: u32) -> Event {
    if msg == WM_CREATE {
        Event::Create
    } else if msg == WM_DESTROY {
        Event::Destroy
    } else if msg == WM_RBUTTONUP {
        Event::RButtonUp
    } else {
        Event::Other(msg)
    }
}

impl Event {
    pub fn from_code(msg: u32) -> (r: Event)
        ensures
            r == event_of(msg),
    {
        if msg == WM_CREATE {
            Event::Create
        } else if msg == WM_DESTROY {
            Event::Destroy
        } else if msg == WM_RBUTTONUP {
            Event::RButtonUp
        } else {
            Event::Other(msg)
        }
    }
}

/// What the application's handler does with one event.
#[derive(PartialEq, Eq, Structural, Clone, Copy, Debug)]
pub enum Handling {
    /// The handler fails, raising an error named after the event.
    Fail,
    /// The handler asks the event loop to stop with `exit_code`, then
    /// returns `result`.
    Quit { exit_code: i32, result: isize },
    /// The handler leaves the event to the platform's default handler.
    DefaultProc,
}

/// The handler's plan for event code `msg`. Releasing the right mouse button
/// fails; so does creation when `fail_on_create` is set. Destruction stops the
/// loop with exit code 0 and reports the event handled. Every other event goes
/// to the default handler.
pub open spec fn handling_of(msg: u32, fail_on_create: bool) -> Handling {
    match event_of(msg) {
        Event::Create => if fail_on_create {
            Handling::Fail
        } else {
            Handling::DefaultProc
        },
        Event::RButtonUp => Handling::Fail,
        Event::Destroy => Handling::Quit { exit_code: 0, result: HANDLED },
        Event::Other(_) => Handling::DefaultProc,
    }
}

pub fn plan_event(msg: u32, fail_on_create: bool) -> (r: Handling)
    ensures
        r == handling_of(msg, fail_on_create),
{
    match Event::from_code(msg) {
        Event::Create => if fail_on_create {
            Handling::Fail
        } else {
            Handling::DefaultProc
        },
        Event::RButtonUp => Handling::Fail,
        Event::Destroy => Handling::Quit { exit_code: 0, result: HANDLED },
        Event::Other(_) => Handling::DefaultProc,
    }
}

/// The name of an event code that the handler can fail on, used as the
/// failure's message; `None` for any other code.
pub fn failure_name(msg: u32) -> (r: Option<&'static str>)
    ensures
        msg == WM_CREATE ==> r == Some("WM_CREATE"),
        msg == WM_RBUTTONUP ==> r == Some("WM_RBUTTONUP"),
        msg != WM_CREATE && msg != WM_RBUTTONUP ==> r is None,
{
    if msg == WM_CREATE {
        Some("WM_CREATE")
    } else if msg == WM_RBUTTONUP {
        Some("WM_RBUTTONUP")
    } else {
        None
    }
}

/// The result code that the callback returns for event `msg`, given the
/// value of a normal completion, or `None` when an error was captured:
/// a rejected creation for the creation event, and "handled" for all others.
pub open spec fn callback_result(msg: u32, completed: Option<isize>) -> isize {
    match completed {
        Option::Some(v) => v,
        Option::None => if msg == WM_CREATE {
            CREATE_REJECTED
        } else {
            HANDLED
        },
    }
}

/// The callback's last step: records the handler's `outcome` for event `msg`
/// in `slot` and turns it into the result code for the foreign caller.
pub fn window_proc<P>(slot: &mut UnwindSlot<P>, msg: u32, outcome: Result<isize, P>) -> (r: isize)
    ensures
        r == callback_result(msg, capture_result(outcome)),
        final(slot)@ == captured(old(slot)@, outcome),
        outcome is Err ==> (if msg == WM_CREATE {
            r == CREATE_REJECTED
        } else {
            r == HANDLED
        }),
        outcome is Ok ==> r == outcome->Ok_0,
{
    match slot.capture(outcome) {
        Option::Some(v) => v,
        Option::None => if msg == WM_CREATE {
            CREATE_REJECTED
        } else {
            HANDLED
        },
    }
}

/// What the driver does once the call that creates the window has returned.
pub enum CreateStep<P> {
    /// An error was captured during creation: raise it again now.
    Reraise(P),
    /// Creation failed with no captured error.
    CreationFailed,
    /// The window exists and no error is pending.
    Ready,
}

/// Drains `slot` right after the creation call. A captured error comes first,
/// whatever the creation call returned; only then does a failed creation count.
pub fn after_create<P>(slot: &mut UnwindSlot<P>, created: bool) -> (r: CreateStep<P>)
    ensures
        final(slot)@ is None,
        match old(slot)@ {
            Option::Some(e) => r == CreateStep::Reraise(e),
            Option::None => if created {
                r is Ready
            } else {
                r is CreationFailed
            },
        },
{
    match slot.drain() {
        Option::Some(e) => CreateStep::Reraise(e),
        Option::None => if created {
            CreateStep::Ready
        } else {
            CreateStep::CreationFailed
        },
    }
}

/// What the driver loop does with the value that "get next event" returned.
#[derive(PartialEq, Eq, Structural, Clone, Copy, Debug)]
pub enum MessageStep {
    /// An event was retrieved: dispatch it, then drain the slot.
    Dispatch,
    /// The quit indicator: leave the loop normally.
    Quit,
    /// Retrieval failed: leave the loop.
    Failure,
}

pub fn classify_get_message(ret: i32) -> (r: MessageStep)
    ensures
        ret == 0 ==> r == MessageStep::Quit,
        ret < 0 ==> r == MessageStep::Failure,
        ret > 0 ==> r == MessageStep::Dispatch,
{
    if ret == 0 {
        MessageStep::Quit
    } else if ret < 0 {
        MessageStep::Failure
    } else {
        MessageStep::Dispatch
    }
}

/// On the captured-error path the callback's result is always one the
/// foreign caller accepts for the event: a negative rejection for creation,
/// the "handled" code for every other event.
pub proof fn lemma_sentinel_is_accepted(msg: u32)
    ensures
        msg == WM_CREATE ==> callback_result(msg, Option::None) < 0,
        msg != WM_CREATE ==> callback_result(msg, Option::None) == HANDLED,
{
}

/// Destruction needs no error path: its plan stops the loop with exit code 0
/// and reports the event handled, whether or not creation may fail.
pub proof fn lemma_destroy_quits(fail_on_create: bool)
    ensures
        handling_of(WM_DESTROY, fail_on_create) == (Handling::Quit { exit_code: 0, result: HANDLED }),
        callback_result(WM_DESTROY, Option::Some(HANDLED)) == 0,
{
}

} // verus!
