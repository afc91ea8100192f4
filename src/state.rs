use vstd::prelude::*;

verus! {

/// The processing state of a bridge.
#[derive(Clone, PartialEq, Eq, Debug)]
pub enum DataState {
    /// No run has been started yet; the first poll starts one.
    Uninitialized,
    /// The most recent run finished; the cached data is complete.
    UpToDate,
    /// A run is in flight; the cached data may be partial.
    Updating,
    /// The most recent run failed with this message.
    Error(String),
}

/// What a producer sends to its bridge: a new item, or a change of state.
#[derive(Debug)]
pub enum Message<T> {
    NewData(T),
    StateChange(DataState),
}

/// The items carried by the `NewData` messages of `msgs`, in order.
pub open spec fn data_items<T>(msgs: Seq<Message<T>>) -> Seq<T>
    decreases msgs.len(),
{
    if msgs.len() == 0 {
        Seq::empty()
    } else {
        let earlier = data_items(msgs.drop_last());
        match msgs.last() {
            Message::NewData(v) => earlier.push(v),
            Message::StateChange(_) => earlier,
        }
    }
}

/// The state after folding `msgs` into `start`: the last `StateChange` wins.
pub open spec fn state_after<T>(start: DataState, msgs: Seq<Message<T>>) -> DataState
    decreases msgs.len(),
{
    if msgs.len() == 0 {
        start
    } else {
        match msgs.last() {
            Message::StateChange(s) => s,
            Message::NewData(_) => state_after(start, msgs.drop_last()),
        }
    }
}

/// The item of the last `NewData` message of `msgs`, if there is one.
pub open spec fn latest_item<T>(msgs: Seq<Message<T>>) -> Option<T> {
    let items = data_items(msgs);
    if items.len() == 0 {
        None
    } else {
        Some(items.last())
    }
}

/// `s` is the error a bridge records when no tokio runtime is there to run its producer.
pub open spec fn is_no_runtime_error(s: DataState) -> bool {
    &&& s is Error
    &&& s->Error_0@ == NO_RUNTIME@
}

/// The message of that error.
pub const NO_RUNTIME: &'static str = "no tokio runtime to run the update on";

/// Folding a log in two pieces gives the items of each piece, in order.
pub proof fn lemma_data_items_append<T>(a: Seq<Message<T>>, b: Seq<Message<T>>)
    ensures
        data_items(a + b) == data_items(a) + data_items(b),
    decreases b.len(),
{
    if b.len() == 0 {
        assert(a + b =~= a);
        assert(data_items(b) =~= Seq::<T>::empty());
        assert(data_items(a) + data_items(b) =~= data_items(a));
    } else {
        lemma_data_items_append(a, b.drop_last());
        assert((a + b).drop_last() =~= a + b.drop_last());
        assert((a + b).last() == b.last());
        match b.last() {
            Message::NewData(v) => {
                assert(data_items(a) + data_items(b) =~= (data_items(a) + data_items(
                    b.drop_last(),
                )).push(v));
            },
            Message::StateChange(_) => {},
        }
    }
}

/// A log that extends another carries the other's items as a prefix.
pub proof fn lemma_data_items_prefix<T>(a: Seq<Message<T>>, b: Seq<Message<T>>)
    requires
        a.is_prefix_of(b),
    ensures
        data_items(a).is_prefix_of(data_items(b)),
{
    let rest = b.subrange(a.len() as int, b.len() as int);
    assert(b =~= a + rest);
    lemma_data_items_append(a, rest);
}

/// A bridge that starts its producer lazily and folds what arrives on each poll.
pub trait Promise {
    /// What every value of the bridge satisfies between calls.
    spec fn inv(&self) -> bool;

    /// Starts a run if none was started yet, folds the messages that have
    /// arrived, and returns the current state.
    fn poll_state(&mut self) -> (r: &DataState)
        requires
            old(self).inv(),
        ensures
            final(self).inv(),
    ;

    /// Starts a new run unless one is in flight.
    fn update(&mut self)
        requires
            old(self).inv(),
        ensures
            final(self).inv(),
    ;
}

/// Read access to a bridge's list of items.
pub trait Sliceable<T> {
    fn as_slice(&self) -> &[T];
}

/// Read access to a bridge's cached value.
pub trait Value<T> {
    fn value(&self) -> Option<&T>;
}

/// A lazily updated bridge that provides a list of items.
pub trait SlicePromise<T>: Promise + Sliceable<T> {

}

/// A lazily updated bridge that provides a single value.
pub trait ValuePromise<T>: Promise + Value<T> {

}

} // verus!
