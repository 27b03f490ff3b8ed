use vstd::prelude::*;
use std::sync::mpsc::{Receiver, Sender};
use crate::frame::Frame;

verus! {

#[verifier::external_type_specification]
#[verifier::external_body]
#[verifier::reject_recursive_types(T)]
pub struct ExReceiver<T>(Receiver<T>);

#[verifier::external_type_specification]
#[verifier::external_body]
#[verifier::reject_recursive_types(T)]
pub struct ExSender<T>(Sender<T>);

/// Relies on `std::sync::mpsc::channel`: a fresh unbounded queue whose
/// sending half delivers values to the receiving half in send order.
#[verifier::external_body]
pub(crate) fn new_frame_channel() -> (Sender<Frame>, Receiver<Frame>) {
    std::sync::mpsc::channel()
}

/// Relies on `std::sync::mpsc::Receiver::try_recv`: the oldest queued frame
/// not yet taken, or `None` when the queue is momentarily empty or the
/// sender is gone. It never blocks, and frames come out in the order they
/// were sent, none duplicated. Another thread may queue frames at any
/// moment, so nothing relates two calls on the same receiver.
#[verifier::external_body]
pub(crate) fn try_recv_frame(rx: &mut Receiver<Frame>) -> (r: Option<Frame>) {
    rx.try_recv().ok()
}

/// Relies on `std::sync::mpsc::Sender::send`: queues the frame behind all
/// frames sent before it and returns whether the receiving half is still
/// there; a frame sent after the receiver is gone is dropped, nothing more.
#[verifier::external_body]
pub(crate) fn send_frame(tx: &Sender<Frame>, f: Frame) -> (delivered: bool) {
    tx.send(f).is_ok()
}

} // verus!
