//! [`TryIterRecv`] for the receiving end of a standard library channel.
//!
//! A `std::sync::mpsc::Receiver` is the only consumer of its channel: it
//! cannot be cloned or shared between threads. So the items buffered in the
//! channel leave it only through this receiver, in the order they were sent,
//! and the adapter can state exactly which item each call hands out. The
//! buffered items are modeled for channels of `u64` items.
use crate::{delivers, TryIterRecv};
use std::sync::mpsc::{Receiver, RecvError};
use vstd::prelude::*;

verus! {

#[verifier::external_type_specification]
#[verifier::external_body]
#[verifier::reject_recursive_types(T)]
pub struct ExReceiver<T>(Receiver<T>);

#[verifier::external_type_specification]
#[verifier::external_body]
pub struct ExRecvError(RecvError);

/// The items buffered in the channel of `rx`, oldest first.
pub uninterp spec fn std_buffered(rx: Receiver<u64>) -> Seq<u64>;

/// Relies on `std::sync::mpsc::Receiver::recv`: it returns the oldest
/// buffered item if there is one, otherwise blocks until one is sent, and
/// fails only when the channel is empty and every sender is gone.
#[verifier::external_body]
fn std_recv(rx: &mut Receiver<u64>) -> (r: Result<u64, RecvError>)
    ensures
        std_buffered(*old(rx)).len() > 0 ==> r is Ok,
        r is Err ==> std_buffered(*old(rx)).len() == 0,
        r matches Ok(x) ==> delivers(std_buffered(*old(rx)), seq![x], std_buffered(*final(rx))),
{
    Receiver::recv(rx)
}

/// Relies on `std::sync::mpsc::Receiver::try_recv`: it never blocks, and
/// returns the oldest buffered item if there is one; its error (empty or
/// disconnected) becomes `None`.
#[verifier::external_body]
fn std_try_recv(rx: &mut Receiver<u64>) -> (r: Option<u64>)
    ensures
        std_buffered(*old(rx)).len() > 0 ==> r is Some,
        r is None ==> std_buffered(*old(rx)).len() == 0,
        r matches Some(x) ==> delivers(std_buffered(*old(rx)), seq![x], std_buffered(*final(rx))),
{
    Receiver::try_recv(rx).ok()
}

impl TryIterRecv for Receiver<u64> {
    type Item = u64;

    type Error = RecvError;

    open spec fn pending(&self) -> Seq<u64> {
        std_buffered(*self)
    }

    fn recv(&mut self) -> (r: Result<u64, RecvError>) {
        std_recv(self)
    }

    fn try_recv(&mut self) -> (r: Option<u64>) {
        std_try_recv(self)
    }
}

} // verus!
