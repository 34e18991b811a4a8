use vstd::prelude::*;

use crate::Event;

verus! {

#[verifier::external_type_specification]
#[verifier::external_body]
#[verifier::reject_recursive_types(T)]
pub struct ExSender<T>(crossbeam::channel::Sender<T>);

#[verifier::external_type_specification]
#[verifier::external_body]
#[verifier::reject_recursive_types(T)]
pub struct ExSendError<T>(crossbeam::channel::SendError<T>);

/// Relies on crossbeam's `Sender::send` on an unbounded channel: it enqueues
/// the event without blocking and fails only when every receiver is gone, in
/// which case the event comes back inside the error.
#[verifier::external_body]
pub fn send_event(sender: &crossbeam::channel::Sender<Event>, event: Event) -> (r: Result<
    (),
    crossbeam::channel::SendError<Event>,
>) {
    sender.send(event)
}

} // verus!
