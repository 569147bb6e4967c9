//! A bounded pipe between two tasks.

use std::sync::Arc;
use tokio::sync::mpsc;
use tokio::sync::Mutex;
use vstd::prelude::*;

verus! {

/// How many messages a pipe holds before a sender has to wait.
pub const PIPE_CAPACITY: usize = 50;

/// The sending end of a channel: `tokio::sync::mpsc::Sender`.
#[verifier::external_type_specification]
#[verifier::external_body]
#[verifier::reject_recursive_types(T)]
pub struct ExSender<T>(mpsc::Sender<T>);

/// The receiving end of a channel: `tokio::sync::mpsc::Receiver`.
#[verifier::external_type_specification]
#[verifier::external_body]
#[verifier::reject_recursive_types(T)]
pub struct ExReceiver<T>(mpsc::Receiver<T>);

/// The mutex that tasks wait for: `tokio::sync::Mutex`.
#[verifier::external_type_specification]
#[verifier::external_body]
#[verifier::reject_recursive_types(T)]
pub struct ExMutex<T: ?Sized>(Mutex<T>);

/// `tokio::sync::mpsc::channel`: makes a channel that holds `buffer` messages, and gives its two
/// ends. It panics on a channel that holds none, and on one that holds more than the permits of
/// a semaphore of tokio, which are an eighth of what a `usize` counts. Nothing is said of the
/// ends: what passes through them is known only when it does.
pub assume_specification<T>[ mpsc::channel::<T> ](buffer: usize) -> (ends: (
    mpsc::Sender<T>,
    mpsc::Receiver<T>,
))
    requires
        0 < buffer <= usize::MAX / 8,
;

/// `tokio::sync::Mutex::new`: puts a value behind a mutex. Nothing is said of the mutex: what it
/// holds is known only to the task that holds it.
#[verifier::external_body]
fn guarded<T>(value: T) -> (mutex: Mutex<T>) {
    Mutex::new(value)
}

/// `Arc::clone` of std: another pointer to the same value.
#[verifier::external_body]
fn shared<T>(pointer: &Arc<T>) -> (other: Arc<T>)
    ensures
        other == *pointer,
{
    Arc::clone(pointer)
}

/// What `function` makes of `argument`.
fn made_by<A, B, F: FnOnce(A) -> B>(function: F, argument: A) -> (result: B)
    requires
        call_requires(function, (argument,)),
    ensures
        call_ensures(function, (argument,), result),
{
    function(argument)
}

/// A pipe, both ends of it: whoever has it can send and can receive.
#[verifier::reject_recursive_types(T)]
pub struct WindowPipe<T> {
    pub tx: Arc<Mutex<mpsc::Sender<T>>>,
    pub rx: Arc<Mutex<mpsc::Receiver<T>>>,
}

impl<T> WindowPipe<T> {
    /// The pipe's two mutexes were made around these two ends of a channel.
    pub closed spec fn guards(self, ends: (mpsc::Sender<T>, mpsc::Receiver<T>)) -> bool {
        &&& call_ensures(guarded::<mpsc::Sender<T>>, (ends.0,), *self.tx)
        &&& call_ensures(guarded::<mpsc::Receiver<T>>, (ends.1,), *self.rx)
    }

    /// A new pipe: the two ends of one new channel of [`PIPE_CAPACITY`], each behind a mutex.
    pub fn new() -> (pipe: Self)
        ensures
            exists|ends: (mpsc::Sender<T>, mpsc::Receiver<T>)| #[trigger]
                call_ensures(mpsc::channel::<T>, (PIPE_CAPACITY,), ends) && pipe.guards(ends),
    {
        let (tx, rx) = made_by(mpsc::channel::<T>, PIPE_CAPACITY);
        WindowPipe {
            tx: Arc::new(made_by(guarded::<mpsc::Sender<T>>, tx)),
            rx: Arc::new(made_by(guarded::<mpsc::Receiver<T>>, rx)),
        }
    }

    /// The same pipe once more.
    pub fn clone(&self) -> (other: Self)
        ensures
            other == *self,
    {
        WindowPipe { tx: shared(&self.tx), rx: shared(&self.rx) }
    }

    /// What a read gives once the receiving end has answered: the message, or an error where the
    /// channel is closed and empty.
    pub fn read(received: Option<T>) -> (result: Result<T, ()>)
        ensures
            result == (match received {
                Some(message) => Ok::<T, ()>(message),
                None => Err::<T, ()>(()),
            }),
    {
        match received {
            Some(message) => Ok(message),
            None => Err(()),
        }
    }
}

} // verus!
