//! The questions that this side has asked the other one.

use crate::channel::{channel, clone_sender};
use crate::context::Response;
use crate::runtime::Runtime;
use std::sync::mpsc::{Receiver, Sender};
use vstd::prelude::*;

verus! {

/// What this side keeps of a question that it has asked.
#[verifier::reject_recursive_types(P)]
pub struct Question<P: Runtime> {
    /// Takes the response.
    pub chan: Sender<Response<P>>,
    pub is_awaiting_return: bool,
    /// Has no sending end left when no reference to the question is left.
    pub ref_counter: Receiver<()>,
}

impl<P: Runtime> Question<P> {
    /// A question whose return is awaited, and the sending end by which the
    /// references to it are counted.
    pub fn new(sender: Sender<Response<P>>) -> (made: (Question<P>, Sender<()>))
        ensures
            made.0.chan == sender,
            made.0.is_awaiting_return,
            crate::channel::paired(made.1, made.0.ref_counter),
    {
        let (tx, rx) = channel::<()>();
        (Question { chan: sender, is_awaiting_return: true, ref_counter: rx }, tx)
    }

    /// The question after its return has come.
    pub open spec fn returned(self) -> Question<P> {
        Question { is_awaiting_return: false, ..self }
    }
}

/// A reference to a question that this side has asked.
pub struct QuestionRef {
    pub id: u32,
    // piggy back to get ref counting. we never actually send on this channel.
    pub ref_count: Sender<()>,
}

impl QuestionRef {
    /// `other` is another reference to the same question, and is counted with
    /// this one.
    pub open spec fn has_clone(self, other: QuestionRef) -> bool {
        &&& other.id == self.id
        &&& crate::channel::cloned_sender(self.ref_count, other.ref_count)
    }

    pub fn new(id: u32, ref_count: Sender<()>) -> (question_ref: QuestionRef)
        ensures
            question_ref == (QuestionRef { id, ref_count }),
    {
        QuestionRef { id, ref_count }
    }
}

impl Clone for QuestionRef {
    /// Another reference to the same question.
    fn clone(&self) -> (question_ref: QuestionRef)
        ensures
            self.has_clone(question_ref),
    {
        QuestionRef { id: self.id, ref_count: clone_sender(&self.ref_count) }
    }
}

/// A question to which the return has come is the same, but not awaited any
/// more. A reference has a clone if that has its number and a clone of its end
/// of the channel.
pub proof fn law_a_question_keeps_its_channels<P: Runtime>(
    question: Question<P>,
    reference: QuestionRef,
    other: QuestionRef,
)
    ensures
        !question.returned().is_awaiting_return,
        question.returned().chan == question.chan,
        question.returned().ref_counter == question.ref_counter,
        reference.has_clone(other) <==> other.id == reference.id && crate::channel::cloned_sender(
            reference.ref_count,
            other.ref_count,
        ),
{
}

} // verus!
