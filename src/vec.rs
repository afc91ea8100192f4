use crate::state::{
    data_items, is_no_runtime_error, state_after, DataState, Message, Promise,
    SlicePromise, Sliceable, NO_RUNTIME,
};
use crate::transport::{
    accepts_any_sender, current_runtime, started_by, Spawned, open_channel, spawn_detached, try_next, MAX_CAPACITY,
};
use std::fmt::Debug;
use std::future::Future;
use tokio::sync::mpsc::{Receiver, Sender};
use vstd::prelude::*;

verus! {

/// A list of items that a producer delivers asynchronously, visible as it grows.
///
/// Nothing runs until the first poll, which starts the producer. Each later
/// poll folds the messages that have arrived: a `NewData` is appended to the
/// list, a `StateChange` replaces the state. A new run empties the list when
/// it is started. Items that arrived before a run failed stay in the list
/// beside the `Error` state.
///
/// Only one run is in flight at a time: `update` does nothing while the state
/// is `Updating`, and a producer that keeps to its protocol (its last message
/// is the one `StateChange` that ends the run) sends nothing once the state
/// has left `Updating`, so no message of an earlier run is folded into a
/// later one.
#[verifier::reject_recursive_types(T)]
#[verifier::reject_recursive_types(U)]
#[verifier::reject_recursive_types(Fut)]
pub struct BufVec<T: Debug, U, Fut> where
    U: Fn(Sender<Message<T>>) -> Fut,
    Fut: Future<Output = ()> + Send + 'static,
 {
    data: Vec<T>,
    updater: U,
    state: DataState,
    rx: Receiver<Message<T>>,
    tx: Sender<Message<T>>,
    capacity: usize,
    /// The state the current run began in.
    origin: Ghost<DataState>,
    /// The messages folded in since the current run began, in order.
    received: Ghost<Seq<Message<T>>>,
    /// How many times the producer has been started.
    runs: Ghost<nat>,
    /// The sending end handed to the producer when the last run began, and
    /// the spawn of the future the producer returned for it.
    last_run: Ghost<Option<(Sender<Message<T>>, Spawned<Fut>)>>,
}

impl<T: Debug, U, Fut> BufVec<T, U, Fut> where
    U: Fn(Sender<Message<T>>) -> Fut,
    Fut: Future<Output = ()> + Send + 'static,
 {
    /// The state that `poll_state` reports.
    pub closed spec fn state_of(&self) -> DataState {
        self.state
    }

    /// The list of items.
    pub closed spec fn items(&self) -> Seq<T> {
        self.data@
    }

    /// The state the current run began in: `Uninitialized` before any run.
    pub closed spec fn origin(&self) -> DataState {
        self.origin@
    }

    /// The messages folded since the current run began, in the order received.
    pub closed spec fn received(&self) -> Seq<Message<T>> {
        self.received@
    }

    /// How many times the producer has been started.
    pub closed spec fn runs(&self) -> nat {
        self.runs@
    }

    /// The sending end and the spawned future of the last run begun.
    pub closed spec fn last_run(&self) -> Option<(Sender<Message<T>>, Spawned<Fut>)> {
        self.last_run@
    }

    /// The channel's capacity, and the most messages one poll takes.
    pub closed spec fn capacity(&self) -> nat {
        self.capacity as nat
    }

    /// The producer that each run starts.
    pub closed spec fn producer(&self) -> U {
        self.updater
    }

    /// The state and the list are what the messages of the current
    /// run make of its starting state.
    pub open spec fn wf(&self) -> bool {
        &&& self.state_of() == state_after(self.origin(), self.received())
        &&& self.items() == data_items(self.received())
        &&& self.origin() is Uninitialized ==> self.received().len() == 0 && self.runs() == 0
        &&& self.origin() is Uninitialized || self.origin() is Updating || is_no_runtime_error(
            self.origin(),
        )
        &&& 0 < self.capacity() <= MAX_CAPACITY
        &&& accepts_any_sender::<Message<T>, U, Fut>(self.producer())
    }

    /// `post` has begun a new run of `pre`'s producer, or has recorded that
    /// no runtime was there to run it.
    pub open spec fn run_begun(pre: Self, post: Self) -> bool {
        &&& post.producer() == pre.producer()
        &&& post.capacity() == pre.capacity()
        &&& {
            ||| {
                &&& post.origin() is Updating
                &&& post.runs() == pre.runs() + 1
                &&& started_by::<Message<T>, U, Fut>(pre.producer(), post.last_run())
            }
            ||| {
                &&& is_no_runtime_error(post.origin())
                &&& post.runs() == pre.runs()
                &&& post.last_run() == pre.last_run()
            }
        }
    }

    /// The effect of `update`.
    pub open spec fn updated(pre: Self, post: Self) -> bool {
        &&& post.wf()
        &&& if pre.state_of() is Updating {
            post == pre
        } else {
            &&& Self::run_begun(pre, post)
            &&& post.received().len() == 0
        }
    }

    /// The messages folded by one poll follow those folded before, in the
    /// order they were sent; one poll takes at most `capacity` of them.
    pub open spec fn drained(pre: Self, post: Self) -> bool {
        &&& post.wf()
        &&& post.producer() == pre.producer()
        &&& post.capacity() == pre.capacity()
        &&& post.origin() == pre.origin()
        &&& post.runs() == pre.runs()
        &&& post.last_run() == pre.last_run()
        &&& pre.received().is_prefix_of(post.received())
        &&& post.received().len() <= pre.received().len() + pre.capacity()
    }

    /// The effect of `poll_state`: a poll of an `Uninitialized` bridge begins a
    /// run and folds nothing (no sending end has been handed out before it);
    /// any other poll folds what has arrived.
    pub open spec fn polled(pre: Self, post: Self) -> bool {
        &&& post.wf()
        &&& if pre.state_of() is Uninitialized {
            &&& Self::run_begun(pre, post)
            &&& post.received().len() == 0
        } else {
            Self::drained(pre, post)
        }
    }

    /// Makes a bridge around `updater` whose channel buffers `buffer_size`
    /// messages. Nothing is started.
    pub fn new(updater: U, buffer_size: usize) -> (r: Self)
        requires
            0 < buffer_size <= MAX_CAPACITY,
            accepts_any_sender::<Message<T>, U, Fut>(updater),
        ensures
            r.wf(),
            r.state_of() is Uninitialized,
            r.items().len() == 0,
            r.received().len() == 0,
            r.runs() == 0,
            r.last_run() is None,
            r.capacity() == buffer_size,
            r.producer() == updater,
    {
        let (tx, rx) = open_channel::<Message<T>>(buffer_size);
        BufVec {
            data: Vec::new(),
            updater,
            state: DataState::Uninitialized,
            rx,
            tx,
            capacity: buffer_size,
            origin: Ghost(DataState::Uninitialized),
            received: Ghost(Seq::empty()),
            runs: Ghost(0),
            last_run: Ghost(None),
        }
    }
    /// Folds one message into the bridge, as a poll does for each message it
    /// takes: a `NewData` is appended to the list, a `StateChange` replaces the state.
    pub fn fold(&mut self, msg: Message<T>)
        requires
            old(self).wf(),
            !(old(self).origin() is Uninitialized),
        ensures
            final(self).wf(),
            final(self).received() == old(self).received().push(msg),
            final(self).state_of() == match msg {
                Message::StateChange(s) => s,
                Message::NewData(_) => old(self).state_of(),
            },
            final(self).items() == match msg {
                Message::NewData(v) => old(self).items().push(v),
                Message::StateChange(_) => old(self).items(),
            },
            final(self).origin() == old(self).origin(),
            final(self).runs() == old(self).runs(),
            final(self).last_run() == old(self).last_run(),
            final(self).producer() == old(self).producer(),
            final(self).capacity() == old(self).capacity(),
    {
        proof {
            let before = self.received@;
            self.received@ = before.push(msg);
            assert(self.received@.drop_last() =~= before);
        }
        match msg {
            Message::NewData(data) => {
                self.data.push(data);
                assert(data_items(self.received@) == data_items(self.received@.drop_last()).push(
                    data,
                ));
            },
            Message::StateChange(new_state) => {
                self.state = new_state;
                assert(data_items(self.received@) == data_items(self.received@.drop_last()));
            },
        }
    }

}

impl<T: Debug, U, Fut> Promise for BufVec<T, U, Fut> where
    U: Fn(Sender<Message<T>>) -> Fut,
    Fut: Future<Output = ()> + Send + 'static,
 {
    open spec fn inv(&self) -> bool {
        self.wf()
    }

    /// Starts a run if the state is `Uninitialized`; otherwise folds at most
    /// `capacity` of the messages that have arrived, without waiting for more.
    fn poll_state(&mut self) -> (r: &DataState)
        ensures
            Self::polled(*old(self), *final(self)),
            *r == final(self).state_of(),
    {
        if let DataState::Uninitialized = self.state {
            self.update();
        } else {
            assert(!(self.origin() is Uninitialized));
            let ghost start = *self;
            let mut taken: usize = 0;
            let mut empty = false;
            while !empty && taken < self.capacity
                invariant
                    self.wf(),
                    Self::drained(start, *self),
                    taken <= self.capacity,
                    self.received().len() == start.received().len() + taken,
                    !(self.origin() is Uninitialized),
                decreases self.capacity - taken + if empty {
                    0int
                } else {
                    1int
                },
            {
                match try_next(&mut self.rx) {
                    Some(msg) => {
                        let ghost before = self.received();
                        self.fold(msg);
                        assert(before.is_prefix_of(self.received()));
                        taken = taken + 1;
                    },
                    None => {
                        empty = true;
                    },
                }
            }
        }
        &self.state
    }

    /// Does nothing while a run is in flight. Otherwise empties the list, sets the state to `Updating` and starts the producer on the
    /// current tokio runtime; without one, the state becomes an error.
    fn update(&mut self)
        ensures
            Self::updated(*old(self), *final(self)),
    {
        if let DataState::Updating = self.state {
            return;
        }
        self.data.clear();
        proof {
            self.received@ = Seq::empty();
        }
        match current_runtime() {
            Some(runtime) => {
                self.state = DataState::Updating;
                proof {
                    self.origin@ = DataState::Updating;
                    self.runs@ = self.runs@ + 1;
                }
                let tx = self.tx.clone();
                assert(self.producer().requires((tx,)));
                let ghost sender = tx;
                let future = (self.updater)(tx);
                let spawned = spawn_detached(&runtime, future);
                proof {
                    self.last_run@ = Some((sender, spawned));
                }
            },
            None => {
                self.state = DataState::Error(NO_RUNTIME.to_owned());
                proof {
                    self.origin@ = self.state;
                }
            },
        }
    }
}

impl<T: Debug, U, Fut> BufVec<T, U, Fut> where
    U: Fn(Sender<Message<T>>) -> Fut,
    Fut: Future<Output = ()> + Send + 'static,
 {
    /// The items folded since the current run began, in the order they were sent.
    pub fn to_vec(&self) -> (r: &Vec<T>)
        ensures
            r@ == self.items(),
    {
        &self.data
    }
}

impl<T: Debug, U, Fut> Sliceable<T> for BufVec<T, U, Fut> where
    U: Fn(Sender<Message<T>>) -> Fut,
    Fut: Future<Output = ()> + Send + 'static,
 {
    /// The items folded since the current run began, in the order they were sent.
    fn as_slice(&self) -> (r: &[T])
        ensures
            r@ == self.items(),
    {
        self.data.as_slice()
    }
}

impl<T: Debug, U, Fut> SlicePromise<T> for BufVec<T, U, Fut> where
    U: Fn(Sender<Message<T>>) -> Fut,
    Fut: Future<Output = ()> + Send + 'static,
 {

}

} // verus!
