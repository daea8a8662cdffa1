use vstd::prelude::*;

verus! {

#[verifier::external_type_specification]
#[verifier::external_body]
#[verifier::reject_recursive_types(T)]
pub struct ExSender<T>(futures::channel::oneshot::Sender<T>);

#[verifier::external_type_specification]
#[verifier::external_body]
#[verifier::reject_recursive_types(T)]
pub struct ExReceiver<T>(futures::channel::oneshot::Receiver<T>);

#[verifier::external_type_specification]
#[verifier::external_body]
pub struct ExCanceled(futures::channel::oneshot::Canceled);

/// Relies on futures::channel::oneshot::channel: allocates a fresh one-shot
/// single-producer/single-consumer pair, bound to each other and to nothing
/// else; performs no work and never panics.
#[verifier::external_body]
pub(crate) fn oneshot_pair<T>() -> (futures::channel::oneshot::Sender<T>, futures::channel::oneshot::Receiver<T>) {
    futures::channel::oneshot::channel::<T>()
}

/// Relies on futures::channel::oneshot::Sender::send: consumes the producer
/// half and delivers the value to the paired consumer if it is still alive;
/// if the consumer was already dropped, the same value comes back in `Err`.
/// Never blocks and never panics.
#[verifier::external_body]
pub(crate) fn send_value<T>(sender: futures::channel::oneshot::Sender<T>, value: T) -> (r: Result<(), T>)
    ensures
        r matches Err(v) ==> v == value,
{
    sender.send(value)
}

} // verus!
