//! [`TryIterRecv`] for the receiving end of a crossbeam channel.
//!
//! A `crossbeam_channel::Receiver` can be cloned, and every clone takes items
//! from the same channel. Another consumer may take any buffered item before
//! this one asks for it, so no item is ever known to be waiting for this
//! receiver in particular: its `pending` model is empty, and the batch
//! contract holds of it with nothing owed in advance.
use crate::TryIterRecv;
use crossbeam_channel::{Receiver, RecvError};
use vstd::prelude::*;

verus! {

#[verifier::external_type_specification]
#[verifier::external_body]
#[verifier::reject_recursive_types(T)]
pub struct ExCbReceiver<T>(Receiver<T>);

#[verifier::external_type_specification]
#[verifier::external_body]
pub struct ExCbRecvError(RecvError);

/// Relies on `crossbeam_channel::Receiver::recv`: blocks until a message
/// comes, or fails once the channel is empty and disconnected. Nothing is
/// stated of which message comes.
#[verifier::external_body]
fn cb_recv<T>(rx: &Receiver<T>) -> (r: Result<T, RecvError>) {
    Receiver::recv(rx)
}

/// Relies on `crossbeam_channel::Receiver::try_recv`: takes a message if one
/// is available now, without blocking; its error (empty or disconnected)
/// becomes `None`. Nothing is stated of which message comes.
#[verifier::external_body]
fn cb_try_recv<T>(rx: &Receiver<T>) -> (r: Option<T>) {
    Receiver::try_recv(rx).ok()
}

impl<T> TryIterRecv for Receiver<T> {
    type Item = T;

    type Error = RecvError;

    open spec fn pending(&self) -> Seq<T> {
        Seq::empty()
    }

    fn recv(&mut self) -> (r: Result<T, RecvError>) {
        cb_recv(self)
    }

    fn try_recv(&mut self) -> (r: Option<T>) {
        cb_try_recv(self)
    }
}

} // verus!
