//! The cross-thread channel that carries user events to the loop.
//!
//! Nothing here is proved: these items state what the standard library's
//! channel is taken to do. What a call returns depends on what other threads
//! have done, so no contract says which result comes back.

use vstd::prelude::*;
use std::sync::mpsc::{Receiver, SendError, Sender, TryRecvError};

verus! {

/// `std::sync::mpsc::Sender`, the sending end of a channel. Nothing is known
/// of what is inside.
#[verifier::external_type_specification]
#[verifier::external_body]
#[verifier::reject_recursive_types(T)]
pub struct ExSender<T>(Sender<T>);

/// `std::sync::mpsc::Receiver`, the receiving end of a channel. Nothing is
/// known of what is inside.
#[verifier::external_type_specification]
#[verifier::external_body]
#[verifier::reject_recursive_types(T)]
pub struct ExReceiver<T>(Receiver<T>);

/// `std::sync::mpsc::SendError`, the error of a send that found the
/// receiving end gone. Nothing is known of what is inside.
#[verifier::external_type_specification]
#[verifier::external_body]
#[verifier::reject_recursive_types(T)]
pub struct ExSendError<T>(SendError<T>);

/// `std::sync::mpsc::TryRecvError`, the error of a receive that found
/// nothing waiting. Nothing is known of what is inside.
#[verifier::external_type_specification]
#[verifier::external_body]
pub struct ExTryRecvError(TryRecvError);

/// `std::sync::mpsc::channel`: a new channel, as its sending and its
/// receiving end.
pub assume_specification<T>[ std::sync::mpsc::channel::<T> ]() -> (ends: (Sender<T>, Receiver<T>));

/// `Sender::send`: hands the value to the channel without blocking, or gives
/// it back in an error where the receiving end is gone.
pub assume_specification<T>[ Sender::<T>::send ](sender: &Sender<T>, t: T) -> (r: Result<
    (),
    SendError<T>,
>);

/// `Sender::clone`: another sending end for the same channel.
pub assume_specification<T>[ <Sender<T> as Clone>::clone ](sender: &Sender<T>) -> (other: Sender<T>);

/// `Receiver::try_recv`: the next value that is waiting, without blocking, or
/// an error where none is waiting or every sending end is gone.
pub assume_specification<T>[ Receiver::<T>::try_recv ](receiver: &Receiver<T>) -> (r: Result<
    T,
    TryRecvError,
>);

} // verus!
