//! Properties that relate several calls on a bridge.
use crate::transport::started_by;
use crate::state::{data_items, is_no_runtime_error, state_after, DataState, Message};
use crate::value::LazyValuePromise;
use crate::vec::BufVec;
use std::fmt::Debug;
use std::future::Future;
use tokio::sync::mpsc::Sender;
use vstd::prelude::*;

verus! {

/// A log of `NewData` messages carries exactly their items, in order.
pub proof fn lemma_data_items_of_items<T>(items: Seq<T>)
    ensures
        data_items(items.map_values(|v: T| Message::NewData(v))) == items,
        state_after(DataState::Updating, items.map_values(|v: T| Message::NewData(v)))
            is Updating,
    decreases items.len(),
{
    let msgs = items.map_values(|v: T| Message::NewData(v));
    if items.len() > 0 {
        lemma_data_items_of_items(items.drop_last());
        assert(msgs.drop_last() =~= items.drop_last().map_values(|v: T| Message::NewData(v)));
        assert(items.drop_last().push(items.last()) =~= items);
    } else {
        assert(data_items(msgs) =~= items);
    }
}

/// A new single-value bridge is `Uninitialized` and has started nothing; its
/// first poll calls the producer once and spawns its future (unless no
/// runtime is there), and then reports `Updating` with no value.
pub proof fn lemma_value_lazy_start<T: Debug, U, Fut>(
    fresh: LazyValuePromise<T, U, Fut>,
    first: LazyValuePromise<T, U, Fut>,
) where U: Fn(Sender<Message<T>>) -> Fut, Fut: Future<Output = ()> + Send + 'static
    requires
        fresh.wf(),
        fresh.state_of() is Uninitialized,
        fresh.runs() == 0,
        LazyValuePromise::polled(fresh, first),
    ensures
        first.runs() == 1 || is_no_runtime_error(first.origin()) && first.runs() == 0,
        first.runs() == 1 ==> started_by::<Message<T>, U, Fut>(fresh.producer(), first.last_run()),
        first.runs() == 1 ==> first.state_of() is Updating
            && first.cached() is None,
{
}

/// A new collection bridge is `Uninitialized` and has started nothing; its
/// first poll calls the producer once and spawns its future (unless no
/// runtime is there), and then reports `Updating` with an empty list.
pub proof fn lemma_vec_lazy_start<T: Debug, U, Fut>(
    fresh: BufVec<T, U, Fut>,
    first: BufVec<T, U, Fut>,
) where U: Fn(Sender<Message<T>>) -> Fut, Fut: Future<Output = ()> + Send + 'static
    requires
        fresh.wf(),
        fresh.state_of() is Uninitialized,
        fresh.runs() == 0,
        BufVec::polled(fresh, first),
    ensures
        first.runs() == 1 || is_no_runtime_error(first.origin()) && first.runs() == 0,
        first.runs() == 1 ==> started_by::<Message<T>, U, Fut>(fresh.producer(), first.last_run()),
        first.runs() == 1 ==> first.state_of() is Updating
            && first.items().len() == 0,
{
}

/// Two calls of `update` in a row call the producer at most once; when the
/// first call starts a run, the producer was called and its future spawned,
/// and the second call changes nothing.
pub proof fn lemma_value_update_twice<T: Debug, U, Fut>(
    b0: LazyValuePromise<T, U, Fut>,
    b1: LazyValuePromise<T, U, Fut>,
    b2: LazyValuePromise<T, U, Fut>,
) where U: Fn(Sender<Message<T>>) -> Fut, Fut: Future<Output = ()> + Send + 'static
    requires
        b0.wf(),
        LazyValuePromise::updated(b0, b1),
        LazyValuePromise::updated(b1, b2),
    ensures
        b2.runs() <= b0.runs() + 1,
        b1.state_of() is Updating ==> b2 == b1,
        b1.runs() == b0.runs() + 1 ==> b2 == b1 && b2.state_of() is Updating && started_by::<
            Message<T>,
            U,
            Fut,
        >(b0.producer(), b2.last_run()),
        b2.runs() == b0.runs() + 1 ==> started_by::<Message<T>, U, Fut>(
            b0.producer(),
            b2.last_run(),
        ),
{
}

/// Two calls of `update` in a row call the producer at most once; when the
/// first call starts a run, the producer was called and its future spawned,
/// and the second call changes nothing.
pub proof fn lemma_vec_update_twice<T: Debug, U, Fut>(
    b0: BufVec<T, U, Fut>,
    b1: BufVec<T, U, Fut>,
    b2: BufVec<T, U, Fut>,
) where U: Fn(Sender<Message<T>>) -> Fut, Fut: Future<Output = ()> + Send + 'static
    requires
        b0.wf(),
        BufVec::updated(b0, b1),
        BufVec::updated(b1, b2),
    ensures
        b2.runs() <= b0.runs() + 1,
        b1.state_of() is Updating ==> b2 == b1,
        b1.runs() == b0.runs() + 1 ==> b2 == b1 && b2.state_of() is Updating && started_by::<
            Message<T>,
            U,
            Fut,
        >(b0.producer(), b2.last_run()),
        b2.runs() == b0.runs() + 1 ==> started_by::<Message<T>, U, Fut>(
            b0.producer(),
            b2.last_run(),
        ),
{
}

/// Within a run, each poll only appends to the list: what one poll shows is
/// a prefix of what a later poll shows, and the list is always the items of
/// the messages received, in the order they were sent.
pub proof fn lemma_vec_polls_keep_order<T: Debug, U, Fut>(
    b0: BufVec<T, U, Fut>,
    b1: BufVec<T, U, Fut>,
    b2: BufVec<T, U, Fut>,
) where U: Fn(Sender<Message<T>>) -> Fut, Fut: Future<Output = ()> + Send + 'static
    requires
        b0.wf(),
        !(b0.state_of() is Uninitialized),
        !(b1.state_of() is Uninitialized),
        BufVec::polled(b0, b1),
        BufVec::polled(b1, b2),
    ensures
        b0.items().is_prefix_of(b1.items()),
        b1.items().is_prefix_of(b2.items()),
        b2.items() == data_items(b2.received()),
{
    assert(!(b1.origin() is Uninitialized));
    crate::state::lemma_data_items_prefix(b0.received(), b1.received());
    crate::state::lemma_data_items_prefix(b1.received(), b2.received());
}

/// Once a run that sent `items` and then `UpToDate` has been received in
/// full, the list is `items`, in the order they were sent, and the state is
/// `UpToDate`.
pub proof fn lemma_vec_completed_run<T: Debug, U, Fut>(b: BufVec<T, U, Fut>, items: Seq<T>) where
    U: Fn(Sender<Message<T>>) -> Fut,
    Fut: Future<Output = ()> + Send + 'static,

    requires
        b.wf(),
        b.received() == items.map_values(|v: T| Message::NewData(v)).push(
            Message::StateChange(DataState::UpToDate),
        ),
    ensures
        b.items() == items,
        b.state_of() is UpToDate,
{
    lemma_data_items_of_items(items);
    let msgs = items.map_values(|v: T| Message::NewData(v));
    assert(b.received().drop_last() =~= msgs);
}

/// `update` on a bridge that is not `Updating` clears the value at once: a
/// poll before any message of the new run has arrived shows no value, and
/// the state `Updating` if the run was started.
pub proof fn lemma_value_clear_on_trigger<T: Debug, U, Fut>(
    b0: LazyValuePromise<T, U, Fut>,
    b1: LazyValuePromise<T, U, Fut>,
    b2: LazyValuePromise<T, U, Fut>,
) where U: Fn(Sender<Message<T>>) -> Fut, Fut: Future<Output = ()> + Send + 'static
    requires
        b0.wf(),
        !(b0.state_of() is Updating),
        LazyValuePromise::updated(b0, b1),
        LazyValuePromise::polled(b1, b2),
        b2.received().len() == 0,
    ensures
        b2.cached() is None,
        b2.runs() == b0.runs() + 1 ==> b2.state_of() is Updating && started_by::<
            Message<T>,
            U,
            Fut,
        >(b0.producer(), b2.last_run()),
        b2.runs() == b0.runs() ==> is_no_runtime_error(b2.state_of()),
{
}

/// `update` on a bridge that is not `Updating` empties the list at once: a
/// poll before any message of the new run has arrived shows an empty list,
/// and the state `Updating` if the run was started.
pub proof fn lemma_vec_clear_on_trigger<T: Debug, U, Fut>(
    b0: BufVec<T, U, Fut>,
    b1: BufVec<T, U, Fut>,
    b2: BufVec<T, U, Fut>,
) where U: Fn(Sender<Message<T>>) -> Fut, Fut: Future<Output = ()> + Send + 'static
    requires
        b0.wf(),
        !(b0.state_of() is Updating),
        BufVec::updated(b0, b1),
        BufVec::polled(b1, b2),
        b2.received().len() == 0,
    ensures
        b2.items().len() == 0,
        b2.runs() == b0.runs() + 1 ==> b2.state_of() is Updating && started_by::<
            Message<T>,
            U,
            Fut,
        >(b0.producer(), b2.last_run()),
        b2.runs() == b0.runs() ==> is_no_runtime_error(b2.state_of()),
{
}

/// A run whose only message is `Error(m)` leaves the state `Error(m)` and no
/// value; a later `update` replaces the error and keeps the value cleared.
pub proof fn lemma_value_error_terminal<T: Debug, U, Fut>(
    b: LazyValuePromise<T, U, Fut>,
    next: LazyValuePromise<T, U, Fut>,
    m: String,
) where U: Fn(Sender<Message<T>>) -> Fut, Fut: Future<Output = ()> + Send + 'static
    requires
        b.wf(),
        b.received() == seq![Message::<T>::StateChange(DataState::Error(m))],
        LazyValuePromise::updated(b, next),
    ensures
        b.state_of() == DataState::Error(m),
        b.cached() is None,
        next.cached() is None,
        next.runs() == b.runs() + 1 ==> next.state_of() is Updating && started_by::<
            Message<T>,
            U,
            Fut,
        >(b.producer(), next.last_run()),
{
    assert(b.received().drop_last() =~= Seq::<Message<T>>::empty());
    assert(data_items(b.received().drop_last()) =~= Seq::<T>::empty());
}

/// A run whose only message is `Error(m)` leaves the state `Error(m)` and an
/// empty list; a later `update` replaces the error and keeps the list empty.
pub proof fn lemma_vec_error_terminal<T: Debug, U, Fut>(
    b: BufVec<T, U, Fut>,
    next: BufVec<T, U, Fut>,
    m: String,
) where U: Fn(Sender<Message<T>>) -> Fut, Fut: Future<Output = ()> + Send + 'static
    requires
        b.wf(),
        b.received() == seq![Message::<T>::StateChange(DataState::Error(m))],
        BufVec::updated(b, next),
    ensures
        b.state_of() == DataState::Error(m),
        b.items().len() == 0,
        next.items().len() == 0,
        next.runs() == b.runs() + 1 ==> next.state_of() is Updating && started_by::<
            Message<T>,
            U,
            Fut,
        >(b.producer(), next.last_run()),
{
    assert(b.received().drop_last() =~= Seq::<Message<T>>::empty());
    assert(data_items(b.received().drop_last()) =~= Seq::<T>::empty());
}

} // verus!
