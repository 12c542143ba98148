//! The channels of the standard library, as far as they are made and read
//! here.

use std::sync::mpsc::{Receiver, Sender};
use vstd::prelude::*;

verus! {

/// The end of a channel that values are put into.
#[verifier::external_type_specification]
#[verifier::external_body]
#[verifier::reject_recursive_types(T)]
pub struct ExSender<T>(Sender<T>);

/// The end of a channel that values come out of.
#[verifier::external_type_specification]
#[verifier::external_body]
#[verifier::reject_recursive_types(T)]
pub struct ExReceiver<T>(Receiver<T>);

/// `std::sync::mpsc::channel`: the two ends of a new channel. No clause says
/// what comes out of it, which is up to other threads; that the two ends belong
/// together is `paired`.
#[verifier::external_body]
fn mpsc_channel<T>() -> (ends: (Sender<T>, Receiver<T>)) {
    std::sync::mpsc::channel()
}

/// `Sender::clone`: another sending end of the same channel. No clause says what
/// comes out of the channel; that the two are ends of one channel is
/// `cloned_sender`.
#[verifier::external_body]
fn mpsc_clone<T>(sender: &Sender<T>) -> (other: Sender<T>) {
    sender.clone()
}

/// `Receiver::try_recv`: whether the channel is empty and has no sending end
/// left. No clause says which it is, which is up to those who hold the sending
/// ends; that this channel was asked is `found_disconnected`.
#[verifier::external_body]
fn mpsc_is_disconnected(receiver: &Receiver<()>) -> (yes: bool) {
    match receiver.try_recv() {
        Ok(()) => false,
        Err(std::sync::mpsc::TryRecvError::Empty) => false,
        Err(std::sync::mpsc::TryRecvError::Disconnected) => true,
    }
}

/// `sender` and `receiver` came out of one call as the two ends of a channel.
pub closed spec fn paired<T>(sender: Sender<T>, receiver: Receiver<T>) -> bool {
    call_ensures(mpsc_channel::<T>, (), (sender, receiver))
}

/// `other` came out of a call as another sending end of the channel of
/// `sender`.
pub closed spec fn cloned_sender<T>(sender: Sender<T>, other: Sender<T>) -> bool {
    call_ensures(mpsc_clone::<T>, (&sender,), other)
}

/// `receiver` was asked whether its channel is empty and has no sending end
/// left, and the answer was `yes`.
pub closed spec fn found_disconnected(receiver: Receiver<()>, yes: bool) -> bool {
    call_ensures(mpsc_is_disconnected, (&receiver,), yes)
}

/// `sender` is a sending end of the channel of `receiver`: the one that came
/// with it or, `generation` times over, a clone of such a one.
pub open spec fn counts<T>(sender: Sender<T>, receiver: Receiver<T>, generation: nat) -> bool
    decreases generation,
{
    if generation == 0 {
        paired(sender, receiver)
    } else {
        exists|first: Sender<T>| #[trigger]
            cloned_sender(first, sender) && counts(first, receiver, (generation - 1) as nat)
    }
}

/// A clone of a sending end of a channel is a sending end of that channel.
pub proof fn law_a_clone_counts<T>(
    sender: Sender<T>,
    other: Sender<T>,
    receiver: Receiver<T>,
    generation: nat,
)
    requires
        counts(sender, receiver, generation),
        cloned_sender(sender, other),
    ensures
        counts(other, receiver, generation + 1),
{
}

/// The two ends of a new channel.
pub(crate) fn channel<T>() -> (ends: (Sender<T>, Receiver<T>))
    ensures
        paired(ends.0, ends.1),
{
    mpsc_channel()
}

/// Another sending end of the channel of `sender`.
pub(crate) fn clone_sender<T>(sender: &Sender<T>) -> (other: Sender<T>)
    ensures
        cloned_sender(*sender, other),
{
    mpsc_clone(sender)
}

/// Whether the channel of `receiver` is empty and has no sending end left.
pub(crate) fn is_disconnected(receiver: &Receiver<()>) -> (yes: bool)
    ensures
        found_disconnected(*receiver, yes),
{
    mpsc_is_disconnected(receiver)
}

/// Ends are paired, cloned or found to be disconnected only by a call that said
/// so.
proof fn law_only_calls_pair_ends<T>(
    sender: Sender<T>,
    other: Sender<T>,
    receiver: Receiver<T>,
    counter: Receiver<()>,
    yes: bool,
)
    ensures
        paired(sender, receiver) <==> call_ensures(mpsc_channel::<T>, (), (sender, receiver)),
        cloned_sender(sender, other) <==> call_ensures(mpsc_clone::<T>, (&sender,), other),
        found_disconnected(counter, yes) <==> call_ensures(mpsc_is_disconnected, (&counter,), yes),
        counts(sender, receiver, 0) <==> paired(sender, receiver),
{
}

} // verus!
