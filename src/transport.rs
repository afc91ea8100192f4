use std::future::Future;
use tokio::runtime::Handle;
use tokio::sync::mpsc::{Receiver, Sender};
use vstd::prelude::*;

verus! {

#[verifier::external_type_specification]
#[verifier::external_body]
#[verifier::reject_recursive_types(T)]
pub struct ExSender<T>(Sender<T>);

#[verifier::external_type_specification]
#[verifier::external_body]
#[verifier::reject_recursive_types(T)]
pub struct ExReceiver<T>(Receiver<T>);

#[verifier::external_type_specification]
#[verifier::external_body]
pub struct ExHandle(Handle);

/// `f` can be started with any sending end.
pub open spec fn accepts_any_sender<T, U, Fut>(f: U) -> bool where U: Fn(Sender<T>) -> Fut {
    forall|tx: Sender<T>| #[trigger] f.requires((tx,))
}

/// `run` records a sending end and the spawn of the future that `f`
/// returned when it was called with that sending end.
pub open spec fn started_by<T, U, Fut>(f: U, run: Option<(Sender<T>, Spawned<Fut>)>) -> bool where
    U: Fn(Sender<T>) -> Fut,
 {
    match run {
        Some((tx, spawned)) => f.ensures((tx,), spawned.future()),
        None => false,
    }
}

/// The largest capacity that tokio's bounded channel accepts.
pub const MAX_CAPACITY: usize = usize::MAX >> 3;

/// Relies on tokio::sync::mpsc::channel, which panics on a capacity of zero
/// or one above `usize::MAX >> 3`.
#[verifier::external_body]
pub(crate) fn open_channel<T>(capacity: usize) -> (Sender<T>, Receiver<T>)
    requires
        0 < capacity <= MAX_CAPACITY,
{
    tokio::sync::mpsc::channel(capacity)
}

/// Relies on tokio's `Clone` for `Sender`: another sending end of the same channel.
pub assume_specification<T>[ <Sender<T> as Clone>::clone ](s: &Sender<T>) -> Sender<T>;

/// Relies on tokio::sync::mpsc::Receiver::try_recv: it never blocks for long
/// and never panics; what it yields depends on the producer, so nothing is
/// stated of it.
#[verifier::external_body]
pub(crate) fn try_next<T>(rx: &mut Receiver<T>) -> Option<T> {
    rx.try_recv().ok()
}

/// Relies on tokio::runtime::Handle::try_current, which never panics; whether a
/// runtime is entered depends on the calling thread, so nothing is stated of it.
#[verifier::external_body]
pub(crate) fn current_runtime() -> Option<Handle> {
    Handle::try_current().ok()
}

/// A record that a future was handed to a runtime. Only `spawn_detached`
/// makes one.
pub struct Spawned<F> {
    future: Ghost<F>,
}

impl<F> Spawned<F> {
    /// The future that was handed to the runtime.
    pub closed spec fn future(&self) -> F {
        self.future@
    }
}

/// Relies on tokio::runtime::Handle::spawn: the future runs on the runtime,
/// detached from the caller.
#[verifier::external_body]
pub(crate) fn spawn_detached<F>(runtime: &Handle, future: F) -> (r: Spawned<F>) where
    F: Future<Output = ()> + Send + 'static,

    ensures
        r.future() == future,
{
    let r = Spawned { future: Ghost(future) };
    runtime.spawn(future);
    r
}

} // verus!
