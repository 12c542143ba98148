//! The ends by which calls are made on capabilities of the other side, and the
//! requests that are made there.

use crate::caps::{to_transform, write_outgoing_cap_table, OutgoingCap, OwnedCapDescriptor};
use crate::channel::channel;
use crate::connection::RpcEvent;
use crate::context::{PromisedAnswerRpcCallContext, Response};
use crate::message::{
    Call, CallView, Message, MessageTarget, MessageTargetView, MessageView, Payload, PayloadView,
    PipelineOp, PromisedAnswer, PromisedAnswerView,
};
use crate::question::QuestionRef;
use crate::runtime::Runtime;
use crate::tables::ImportId;
use std::sync::mpsc::{Receiver, Sender};
use vstd::prelude::*;

verus! {

/// A call whose parameters are still to be filled in.
pub open spec fn new_call<P: Runtime>(
    target: MessageTargetView,
    interface_id: u64,
    method_id: u16,
) -> MessageView<P> {
    MessageView::Call(
        CallView {
            question_id: 0,
            target,
            interface_id,
            method_id,
            params: PayloadView::empty(),
        },
    )
}

/// A copy of the steps `ops`.
fn copy_ops(ops: &Vec<PipelineOp>) -> (copy: Vec<PipelineOp>)
    ensures
        copy@ == ops@,
{
    let copy = ops.clone();
    assert(copy@ =~= ops@);
    copy
}

/// A capability that the other side hosts.
#[derive(Clone, Copy, Debug, PartialEq, Eq, Structural)]
pub struct ImportClient {
    pub import_id: ImportId,
}

impl ImportClient {
    /// Another reference to the capability.
    pub fn copy(&self) -> (copy: ImportClient)
        ensures
            copy == *self,
    {
        ImportClient { import_id: self.import_id }
    }

    /// A request to call a method of the capability.
    pub fn new_call<P: Runtime>(&self, interface_id: u64, method_id: u16) -> (request: RpcRequest<
        P,
    >)
        ensures
            request.message@ == new_call::<P>(
                MessageTargetView::ImportedCap(self.import_id),
                interface_id,
                method_id,
            ),
            request.question_ref is None,
    {
        let message = Message::Call(
            Call {
                question_id: 0,
                target: MessageTarget::ImportedCap(self.import_id),
                interface_id,
                method_id,
                params: Payload::new(),
            },
        );
        RpcRequest { message, question_ref: None }
    }

    /// How the capability is described to the side that hosts it.
    pub fn get_descriptor(&self) -> (descriptor: OwnedCapDescriptor)
        ensures
            descriptor == OwnedCapDescriptor::ReceiverHosted(self.import_id),
    {
        OwnedCapDescriptor::ReceiverHosted(self.import_id)
    }
}

/// A capability in the results of a question that this side has asked.
pub struct PipelineClient {
    pub ops: Vec<PipelineOp>,
    pub question_ref: QuestionRef,
}

impl PipelineClient {
    /// Another reference to the capability.
    pub fn copy(&self) -> (copy: PipelineClient)
        ensures
            copy.ops@ == self.ops@,
            self.question_ref.has_clone(copy.question_ref),
    {
        PipelineClient { ops: copy_ops(&self.ops), question_ref: self.question_ref.clone() }
    }

    /// A request to call a method of the capability. It holds a reference to
    /// the question.
    pub fn new_call<P: Runtime>(&self, interface_id: u64, method_id: u16) -> (request: RpcRequest<
        P,
    >)
        ensures
            request.message@ == new_call::<P>(
                MessageTargetView::PromisedAnswer(
                    PromisedAnswerView {
                        question_id: self.question_ref.id,
                        transform: crate::caps::transform(self.ops@),
                    },
                ),
                interface_id,
                method_id,
            ),
            request.question_ref matches Some(question_ref) && self.question_ref.has_clone(
                question_ref,
            ),
    {
        let promised_answer = PromisedAnswer {
            question_id: self.question_ref.id,
            transform: to_transform(&self.ops),
        };
        let message = Message::Call(
            Call {
                question_id: 0,
                target: MessageTarget::PromisedAnswer(promised_answer),
                interface_id,
                method_id,
                params: Payload::new(),
            },
        );
        RpcRequest { message, question_ref: Some(self.question_ref.clone()) }
    }

    /// How the capability is described to the side that answers the question.
    pub fn get_descriptor(&self) -> (descriptor: OwnedCapDescriptor)
        ensures
            descriptor matches OwnedCapDescriptor::ReceiverAnswer(id, ops) && id
                == self.question_ref.id && ops@ == self.ops@,
    {
        OwnedCapDescriptor::ReceiverAnswer(self.question_ref.id, copy_ops(&self.ops))
    }
}

/// A capability in the results of a question that this side has to answer.
pub struct PromisedAnswerClient<P: Runtime> {
    pub ops: Vec<PipelineOp>,
    pub answer_ref: P::Answer,
}

impl<P: Runtime> PromisedAnswerClient<P> {
    /// Another reference to the capability.
    pub fn copy(&self) -> (copy: PromisedAnswerClient<P>)
        ensures
            copy.ops@ == self.ops@,
            cloned(self.answer_ref, copy.answer_ref),
    {
        PromisedAnswerClient { ops: copy_ops(&self.ops), answer_ref: self.answer_ref.clone() }
    }

    /// A request to call a method of the capability. The call does not leave
    /// this side, so that its target does not matter.
    pub fn new_call(&self, interface_id: u64, method_id: u16) -> (request: PromisedAnswerRpcRequest<
        P,
    >)
        ensures
            request.message@ == new_call::<P>(
                MessageTargetView::ImportedCap(0),
                interface_id,
                method_id,
            ),
            request.ops@ == self.ops@,
            cloned(self.answer_ref, request.answer_ref),
    {
        let message = Message::Call(
            Call {
                question_id: 0,
                target: MessageTarget::ImportedCap(0),
                interface_id,
                method_id,
                params: Payload::new(),
            },
        );
        PromisedAnswerRpcRequest {
            message,
            answer_ref: self.answer_ref.clone(),
            ops: copy_ops(&self.ops),
        }
    }
}

/// A call to the other side that is being filled in.
pub struct RpcRequest<P: Runtime> {
    pub message: Message<P>,
    pub question_ref: Option<QuestionRef>,
}

impl<P: Runtime> RpcRequest<P> {
    /// The message, to be filled in.
    pub fn message(&mut self) -> (message: &mut Message<P>)
        ensures
            *message == old(self).message,
            final(self).message == *final(message),
            final(self).question_ref == old(self).question_ref,
    {
        &mut self.message
    }

    /// Describes the capabilities `caps` in the call and hands it over. The
    /// event is for the connection; the response and the reference to the
    /// question come out of the two channels.
    pub fn send(self, caps: &Vec<Option<OutgoingCap>>) -> (sent: (
        RpcEvent<P>,
        Receiver<Response<P>>,
        Receiver<QuestionRef>,
    ))
        ensures
            sent.0 matches RpcEvent::Outgoing(outgoing) && {
                &&& outgoing.message@ == crate::caps::with_cap_table(
                    self.message@,
                    crate::caps::outgoing_cap_table(caps@),
                )
                &&& crate::channel::paired(outgoing.answer_chan, sent.1)
                &&& crate::channel::paired(outgoing.question_chan, sent.2)
            },
    {
        let RpcRequest { message, question_ref: _ } = self;
        let mut message = message;
        write_outgoing_cap_table(&mut message, caps);
        let (outgoing, answer_port, question_port) = RpcEvent::new_outgoing(message);
        (RpcEvent::Outgoing(outgoing), answer_port, question_port)
    }
}

/// A call on an answer of this side that is being filled in.
pub struct PromisedAnswerRpcRequest<P: Runtime> {
    pub message: Message<P>,
    pub answer_ref: P::Answer,
    pub ops: Vec<PipelineOp>,
}

/// A call to be made on an answer of this side.
#[verifier::reject_recursive_types(P)]
pub struct PromisedCall<P: Runtime> {
    pub answer_ref: P::Answer,
    pub interface_id: u64,
    pub method_id: u16,
    pub ops: Vec<PipelineOp>,
    pub context: PromisedAnswerRpcCallContext<P>,
}

impl<P: Runtime> PromisedAnswerRpcRequest<P> {
    /// The message, to be filled in.
    pub fn message(&mut self) -> (message: &mut Message<P>)
        ensures
            *message == old(self).message,
            final(self).message == *final(message),
            final(self).answer_ref == old(self).answer_ref,
            final(self).ops == old(self).ops,
    {
        &mut self.message
    }

    /// The call that the answer has to receive, and the receiving end of the new
    /// channel that its response goes into.
    pub fn send(self) -> (sent: (PromisedCall<P>, Receiver<Response<P>>))
        requires
            self.message is Call,
        ensures
            sent.0.answer_ref == self.answer_ref,
            sent.0.interface_id == self.message->Call_0.interface_id,
            sent.0.method_id == self.message->Call_0.method_id,
            sent.0.ops == self.ops,
            sent.0.context.wf(),
            sent.0.context.params_message == self.message,
            sent.0.context.results_message@ == MessageView::<P>::empty_results(0),
            crate::channel::paired(sent.0.context.answer_chan, sent.1),
    {
        let (answer_chan, answer_port) = channel::<Response<P>>();
        (self.send_into(answer_chan), answer_port)
    }

    /// The call that the answer has to receive; its response goes into
    /// `answer_chan`.
    fn send_into(self, answer_chan: Sender<Response<P>>) -> (call: PromisedCall<P>)
        requires
            self.message is Call,
        ensures
            call.answer_ref == self.answer_ref,
            call.interface_id == self.message->Call_0.interface_id,
            call.method_id == self.message->Call_0.method_id,
            call.ops == self.ops,
            call.context.wf(),
            call.context.params_message == self.message,
            call.context.results_message@ == MessageView::<P>::empty_results(0),
            call.context.answer_chan == answer_chan,
    {
        let PromisedAnswerRpcRequest { message, answer_ref, ops } = self;
        let (interface_id, method_id): (u64, u16) = match &message {
            Message::Call(call) => (call.interface_id, call.method_id),
            _ => (0, 0),
        };
        let context = PromisedAnswerRpcCallContext::new(message, answer_chan);
        PromisedCall { answer_ref, interface_id, method_id, ops, context }
    }
}

/// Stands for the results of a question that this side has asked.
pub struct RpcPipeline {
    pub question_ref: QuestionRef,
}

impl RpcPipeline {
    /// Another reference to the results.
    pub fn copy(&self) -> (copy: RpcPipeline)
        ensures
            self.question_ref.has_clone(copy.question_ref),
    {
        RpcPipeline { question_ref: self.question_ref.clone() }
    }

    /// The capability that `ops` lead to in the results.
    pub fn get_pipelined_cap(&self, ops: Vec<PipelineOp>) -> (client: PipelineClient)
        ensures
            client.ops == ops,
            self.question_ref.has_clone(client.question_ref),
    {
        PipelineClient { ops, question_ref: self.question_ref.clone() }
    }
}

/// Stands for the results of a call on an answer of this side, of which
/// nothing can be had before they are there.
#[derive(Clone, Copy)]
pub struct PromisedAnswerRpcPipeline;

impl PromisedAnswerRpcPipeline {
    pub fn copy(&self) -> (copy: PromisedAnswerRpcPipeline)
        ensures
            copy == *self,
    {
        PromisedAnswerRpcPipeline
    }
}

/// A new call says what it is made on, and has no number and no parameters yet.
pub proof fn law_a_new_call_has_no_parameters_yet<P: Runtime>(
    target: MessageTargetView,
    interface_id: u64,
    method_id: u16,
)
    ensures
        new_call::<P>(target, interface_id, method_id) matches MessageView::Call(call) && {
            &&& call.question_id == 0
            &&& call.target == target
            &&& call.interface_id == interface_id
            &&& call.method_id == method_id
            &&& call.params.content is Null
            &&& call.params.cap_table.len() == 0
        },
{
}

} // verus!
