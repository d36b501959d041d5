use vstd::prelude::*;

verus! {

/// The sending half of a single-use response channel.
#[verifier::external_type_specification]
#[verifier::external_body]
#[verifier::reject_recursive_types(T)]
pub struct ExOneshotSender<T>(futures_channel::oneshot::Sender<T>);

/// The receiving half of a single-use response channel.
#[verifier::external_type_specification]
#[verifier::external_body]
#[verifier::reject_recursive_types(T)]
pub struct ExOneshotReceiver<T>(futures_channel::oneshot::Receiver<T>);

/// The error a response receiver yields when its sender was dropped unused.
#[verifier::external_type_specification]
#[verifier::external_body]
pub struct ExCanceled(futures_channel::oneshot::Canceled);

/// The sending half of an unbounded many-producer queue.
#[verifier::external_type_specification]
#[verifier::external_body]
#[verifier::reject_recursive_types(T)]
pub struct ExUnboundedSender<T>(futures_channel::mpsc::UnboundedSender<T>);

/// The error of a send on a queue whose consumer is gone.
#[verifier::external_type_specification]
#[verifier::external_body]
#[verifier::reject_recursive_types(T)]
pub struct ExTrySendError<T>(futures_channel::mpsc::TrySendError<T>);

/// Relies on `futures_channel::oneshot::channel`: a fresh, connected pair.
pub assume_specification<T>[ futures_channel::oneshot::channel::<T> ]() -> (
    futures_channel::oneshot::Sender<T>,
    futures_channel::oneshot::Receiver<T>,
);

/// Relies on `futures_channel::oneshot::Sender::send`: the value is handed to the
/// receiver, or handed back unchanged when the receiver was dropped.
pub assume_specification<T>[ futures_channel::oneshot::Sender::<T>::send ](
    sender: futures_channel::oneshot::Sender<T>,
    t: T,
) -> (r: Result<(), T>)
    ensures
        r matches Err(v) ==> v == t,
;

/// Relies on `futures_channel::mpsc::UnboundedSender::unbounded_send`: never
/// blocks; it fails only once the consumer is gone, which callers ignore.
pub assume_specification<T>[ futures_channel::mpsc::UnboundedSender::<T>::unbounded_send ](
    sender: &futures_channel::mpsc::UnboundedSender<T>,
    msg: T,
) -> Result<(), futures_channel::mpsc::TrySendError<T>>;

} // verus!
