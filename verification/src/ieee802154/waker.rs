//! Tasks that wait to be woken.
use vstd::prelude::*;
use core::task::Context;
use embassy_sync::waitqueue::WakerRegistration;

verus! {

/// `core::task::Context`: the task that is being polled. It is only passed on.
#[verifier::external_type_specification]
#[verifier::external_body]
pub struct ExContext<'a>(Context<'a>);

/// The task that the waker of a context wakes. Tasks are told apart by numbers, of which nothing is known
/// but whether they are equal.
pub uninterp spec fn context_task(cx: Context) -> int;

/// `embassy_sync::waitqueue::WakerRegistration`: room for the waker of one task.
#[verifier::external_type_specification]
#[verifier::external_body]
pub struct ExWakerRegistration(WakerRegistration);

/// The task that is registered to be woken, if any.
pub uninterp spec fn waker_task(waker: WakerRegistration) -> Option<int>;

/// `WakerRegistration::new`: no task is registered.
#[verifier::external_body]
fn waker_new() -> (waker: WakerRegistration)
    ensures
        waker_task(waker) is None,
{
    WakerRegistration::new()
}

/// The task that waits for something, and those that have been woken.
#[verifier::ext_equal]
pub struct WakerView {
    /// The task that is registered to be woken, if any.
    pub task: Option<int>,
    /// The tasks that have been woken so far, the last one at the end. A task that registers once more is
    /// running already, and does not count if it is woken for that.
    pub woken: Seq<int>,
}

impl WakerView {
    /// No task waits and none has been woken.
    pub open spec fn idle() -> WakerView {
        WakerView { task: None, woken: Seq::empty() }
    }

    /// After a task has been registered: if another one was registered before, it has been woken.
    pub open spec fn register(self, task: int) -> WakerView {
        WakerView {
            task: Some(task),
            woken: match self.task {
                Some(other) if other != task => self.woken.push(other),
                _ => self.woken,
            },
        }
    }

    /// After the registered task, if any, has been woken.
    pub open spec fn wake(self) -> WakerView {
        WakerView {
            task: None,
            woken: match self.task {
                Some(task) => self.woken.push(task),
                None => self.woken,
            },
        }
    }
}

/// A registration that keeps a record of the tasks that it has woken. Only the two calls that wake tasks add
/// to the record.
pub struct TaskWaker {
    waker: WakerRegistration,
    woken: Ghost<Seq<int>>,
}

impl View for TaskWaker {
    type V = WakerView;

    closed spec fn view(&self) -> WakerView {
        WakerView { task: waker_task(self.waker), woken: self.woken@ }
    }
}

impl TaskWaker {
    /// No task is registered.
    pub(crate) fn new() -> (waker: Self)
        ensures
            waker@ == WakerView::idle(),
    {
        TaskWaker { waker: waker_new(), woken: Ghost(Seq::empty()) }
    }

    /// `WakerRegistration::register`: the task of the given context is registered. If another task was
    /// registered before, its waker is called, which is recorded. If the same task was registered before,
    /// its waker may be called as well, which is not recorded. When a woken task gets to run is up to its
    /// executor, and not claimed.
    #[verifier::external_body]
    pub(crate) fn register(&mut self, cx: &mut Context)
        ensures
            final(self)@ == old(self)@.register(context_task(*old(cx))),
            *final(cx) == *old(cx),
    {
        self.waker.register(cx.waker())
    }

    /// `WakerRegistration::wake`: the waker of the registered task, if any, is called, which is recorded,
    /// and the task is no longer registered. When it gets to run is up to its executor, and not claimed.
    #[verifier::external_body]
    pub(crate) fn wake(&mut self)
        ensures
            final(self)@ == old(self)@.wake(),
    {
        self.waker.wake()
    }
}

/// A task that is registered is the one that waits. Whoever waited before has been woken, if it is another
/// task, and no one else has been.
pub proof fn law_register(waker: WakerView, task: int)
    ensures
        waker.register(task).task == Some(task),
        waker.task is None || waker.task == Some(task) ==> waker.register(task).woken == waker.woken,
        waker.task matches Some(other) ==> (other != task ==> waker.register(task).woken == waker.woken
            + seq![other]),
{
}

/// Waking wakes the task that waits, if any, and no other, and no task waits afterwards.
pub proof fn law_wake_waiting(waker: WakerView)
    ensures
        waker.wake().task is None,
        waker.task is None ==> waker.wake().woken == waker.woken,
        waker.task matches Some(task) ==> waker.wake().woken == waker.woken + seq![task],
        WakerView::idle().task is None && WakerView::idle().woken.len() == 0,
{
}

} // verus!
