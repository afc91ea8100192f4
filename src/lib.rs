//! A lazy bridge between an asynchronous producer and a synchronous poller.
//!
//! A bridge owns the receiving end of a bounded channel and a producer that,
//! given a sending end, returns a future. The first poll starts the producer
//! on the ambient tokio runtime; each later poll folds the messages that have
//! arrived into a cached value ([`LazyValuePromise`]) or into a growing list
//! ([`BufVec`]) and reports the current [`DataState`].

pub mod state;
pub mod transport;
pub mod value;
pub mod vec;
pub mod laws;
pub mod blog;

pub use state::{DataState, Message, Promise, SlicePromise, Sliceable, Value, ValuePromise};
pub use value::LazyValuePromise;
pub use vec::BufVec;
