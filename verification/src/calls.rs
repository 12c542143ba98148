//! What holds of a call on its way: from the capability that it is made on to
//! the message that goes out, and from its context to the answer.

use crate::answer::AnswerRef;
use crate::caps::OutgoingCap;
use crate::client::{
    ImportClient, PipelineClient, PromisedAnswerClient, PromisedAnswerRpcRequest, PromisedCall,
    RpcPipeline, RpcRequest,
};
use crate::connection::RpcEvent;
use crate::context::{
    Aborter, IncomingMessage, LocalResponse, PromisedAnswerRpcCallContext, Response,
    RpcCallContext, RpcResponse,
};
use crate::message::{
    CapDescriptorView, Message, MessageTargetView, MessageView, PipelineOp, ReturnBodyView,
};
use crate::question::QuestionRef;
use crate::runtime::Runtime;
use std::sync::mpsc::{Receiver, Sender};
use vstd::prelude::*;

verus! {

/// A call on a capability of the other side goes out to that capability, with
/// the interface and the method that were asked for and the capabilities that
/// were handed over, and its ports are those of the message.
pub proof fn law_a_call_on_an_import_goes_out_to_it<P: Runtime>(
    client: ImportClient,
    interface_id: u64,
    method_id: u16,
    request: RpcRequest<P>,
    caps: Vec<Option<OutgoingCap>>,
    sent: (RpcEvent<P>, Receiver<Response<P>>, Receiver<QuestionRef>),
)
    requires
        call_ensures(
            ImportClient::new_call::<P>,
            (&client, interface_id, method_id),
            request,
        ),
        call_ensures(RpcRequest::<P>::send, (request, &caps), sent),
    ensures
        request.question_ref is None,
        sent.0 matches RpcEvent::Outgoing(outgoing) && {
            &&& outgoing.message@ matches MessageView::Call(call)
            &&& call.target == MessageTargetView::ImportedCap(client.import_id)
            &&& call.interface_id == interface_id
            &&& call.method_id == method_id
            &&& call.params.content is Null
            &&& call.params.cap_table == crate::caps::outgoing_cap_table(caps@)
            &&& crate::channel::paired(outgoing.answer_chan, sent.1)
            &&& crate::channel::paired(outgoing.question_chan, sent.2)
        },
{
}

/// A call on what steps lead to in results that are not there yet goes out to
/// the question of those results, with all of the steps in their order, and
/// keeps a reference to that question.
pub proof fn law_a_call_on_pending_results_goes_out_to_their_question<P: Runtime>(
    pipeline: RpcPipeline,
    ops: Vec<PipelineOp>,
    client: PipelineClient,
    interface_id: u64,
    method_id: u16,
    request: RpcRequest<P>,
    caps: Vec<Option<OutgoingCap>>,
    sent: (RpcEvent<P>, Receiver<Response<P>>, Receiver<QuestionRef>),
)
    requires
        call_ensures(RpcPipeline::get_pipelined_cap, (&pipeline, ops), client),
        call_ensures(
            PipelineClient::new_call::<P>,
            (&client, interface_id, method_id),
            request,
        ),
        call_ensures(RpcRequest::<P>::send, (request, &caps), sent),
    ensures
        pipeline.question_ref.has_clone(client.question_ref),
        request.question_ref matches Some(kept) && client.question_ref.has_clone(kept),
        sent.0 matches RpcEvent::Outgoing(outgoing) && {
            &&& outgoing.message@ matches MessageView::Call(call)
            &&& call.target matches MessageTargetView::PromisedAnswer(promised)
            &&& promised.question_id == pipeline.question_ref.id
            &&& crate::caps::pipeline_ops(promised.transform) == ops@
            &&& call.interface_id == interface_id
            &&& call.method_id == method_id
            &&& call.params.content is Null
            &&& call.params.cap_table == crate::caps::outgoing_cap_table(caps@)
            &&& crate::channel::paired(outgoing.answer_chan, sent.1)
            &&& crate::channel::paired(outgoing.question_chan, sent.2)
        },
{
    crate::caps::law_steps_are_found_again(ops@);
}

/// A call on an answer of this side is made as it was asked for, and its results
/// come out of the port that belongs to it.
pub proof fn law_a_call_on_an_answer_comes_back_on_its_port<P: Runtime>(
    client: PromisedAnswerClient<P>,
    interface_id: u64,
    method_id: u16,
    request: PromisedAnswerRpcRequest<P>,
    sent: (PromisedCall<P>, Receiver<Response<P>>),
    done: (Sender<Response<P>>, Response<P>),
)
    requires
        call_ensures(
            PromisedAnswerClient::<P>::new_call,
            (&client, interface_id, method_id),
            request,
        ),
        call_ensures(PromisedAnswerRpcRequest::<P>::send, (request,), sent),
        call_ensures(PromisedAnswerRpcCallContext::<P>::done, (sent.0.context,), done),
    ensures
        cloned(client.answer_ref, sent.0.answer_ref),
        sent.0.interface_id == interface_id,
        sent.0.method_id == method_id,
        sent.0.ops@ == client.ops@,
        sent.0.context.params_message == request.message,
        crate::channel::paired(done.0, sent.1),
        done.1 matches Response::Local(response) && response.message
            == sent.0.context.results_message,
        sent.0.context.results_message@ matches MessageView::Return(ret) && (
        ret.body matches ReturnBodyView::Results(results) && results.content is Null
            && results.cap_table.len() == 0),
{
}

/// A call on an answer of this side that fails says why, on the port that
/// belongs to it.
pub proof fn law_a_failed_call_on_an_answer_says_why<P: Runtime>(
    request: PromisedAnswerRpcRequest<P>,
    sent: (PromisedCall<P>, Receiver<Response<P>>),
    reason: String,
    failed: (Sender<Response<P>>, Response<P>),
)
    requires
        call_ensures(PromisedAnswerRpcRequest::<P>::send, (request,), sent),
        call_ensures(
            PromisedAnswerRpcCallContext::<P>::fail,
            (sent.0.context, reason),
            failed,
        ),
    ensures
        crate::channel::paired(failed.0, sent.1),
        failed.1 matches Response::Local(response) && (
        response.message@ matches MessageView::Return(ret) && (
        ret.body matches ReturnBodyView::Exception(exception) && exception.reason
            == vstd::utf8::encode_utf8(reason@))),
{
}

/// A call that fails is answered under its number with the reason.
pub proof fn law_a_failed_call_is_answered_with_the_reason<P: Runtime>(
    incoming: IncomingMessage<P>,
    context: RpcCallContext<P>,
    reason: String,
    aborter: Aborter,
    message: Option<Message<P>>,
)
    requires
        incoming.message is Call,
        call_ensures(RpcCallContext::<P>::new, (incoming,), context),
        call_ensures(RpcCallContext::<P>::fail, (context, reason), aborter),
        call_ensures(Aborter::on_drop::<P>, (&aborter,), message),
    ensures
        message matches Some(message) && (message@ matches MessageView::Return(ret) && {
            &&& ret.answer_id == incoming.message->Call_0.question_id
            &&& ret.body matches ReturnBodyView::Exception(exception) && exception.reason
                == vstd::utf8::encode_utf8(reason@)
        }),
{
}

/// A call that nobody answers is answered under its number all the same.
pub proof fn law_a_call_that_is_dropped_is_answered<P: Runtime>(
    incoming: IncomingMessage<P>,
    context: RpcCallContext<P>,
    message: Option<Message<P>>,
)
    requires
        incoming.message is Call,
        call_ensures(RpcCallContext::<P>::new, (incoming,), context),
        call_ensures(Aborter::on_drop::<P>, (&context.aborter,), message),
    ensures
        message matches Some(message) && (message@ matches MessageView::Return(ret) && {
            &&& ret.answer_id == incoming.message->Call_0.question_id
            &&& ret.body matches ReturnBodyView::Exception(exception) && exception.reason
                == vstd::utf8::encode_utf8("aborted"@)
        }),
{
}

/// A call that is done is answered once, under its number, with the results and
/// the capabilities that were handed over.
pub proof fn law_a_call_that_is_done_is_answered_with_its_results<P: Runtime>(
    context: RpcCallContext<P>,
    caps: Vec<Option<OutgoingCap>>,
    done: (Message<P>, Aborter),
    message: Option<Message<P>>,
)
    requires
        context.wf(),
        call_ensures(RpcCallContext::<P>::done, (context, &caps), done),
        call_ensures(Aborter::on_drop::<P>, (&done.1,), message),
    ensures
        message is None,
        done.0@ matches MessageView::Return(ret) && {
            &&& ret.answer_id == context.params_message.message->Call_0.question_id
            &&& ret.body matches ReturnBodyView::Results(results) && {
                &&& results.content
                    == context.results_message->Return_0.body->Results_0.content
                &&& results.cap_table == crate::caps::outgoing_cap_table(caps@)
            }
        },
{
}

/// A capability of the other side is described to it as one that it hosts, and
/// one in results that are not there yet by its question and its steps.
pub proof fn law_remote_caps_are_described_by_where_they_are(
    import: ImportClient,
    import_described: crate::caps::OwnedCapDescriptor,
    pending: PipelineClient,
    pending_described: crate::caps::OwnedCapDescriptor,
)
    requires
        call_ensures(ImportClient::get_descriptor, (&import,), import_described),
        call_ensures(PipelineClient::get_descriptor, (&pending,), pending_described),
    ensures
        crate::caps::outgoing_descriptor(OutgoingCap::Described(import_described))
            == CapDescriptorView::ReceiverHosted(import.import_id),
        crate::caps::outgoing_descriptor(
            OutgoingCap::Described(pending_described),
        ) matches CapDescriptorView::ReceiverAnswer(answer) && {
            &&& answer.question_id == pending.question_ref.id
            &&& crate::caps::pipeline_ops(answer.transform) == pending.ops@
        },
{
    crate::caps::law_steps_are_found_again(pending.ops@);
}

/// Another reference to a capability is one to the same capability.
pub proof fn law_copies_lead_to_the_same_capability<P: Runtime>(
    import: ImportClient,
    import_copy: ImportClient,
    pending: PipelineClient,
    pending_copy: PipelineClient,
    promised: PromisedAnswerClient<P>,
    promised_copy: PromisedAnswerClient<P>,
    pipeline: RpcPipeline,
    pipeline_copy: RpcPipeline,
)
    requires
        call_ensures(ImportClient::copy, (&import,), import_copy),
        call_ensures(PipelineClient::copy, (&pending,), pending_copy),
        call_ensures(PromisedAnswerClient::<P>::copy, (&promised,), promised_copy),
        call_ensures(RpcPipeline::copy, (&pipeline,), pipeline_copy),
    ensures
        import_copy.import_id == import.import_id,
        pending_copy.ops@ == pending.ops@,
        pending_copy.question_ref.id == pending.question_ref.id,
        crate::channel::cloned_sender(
            pending.question_ref.ref_count,
            pending_copy.question_ref.ref_count,
        ),
        promised_copy.ops@ == promised.ops@,
        cloned(promised.answer_ref, promised_copy.answer_ref),
        pipeline_copy.question_ref.id == pipeline.question_ref.id,
        crate::channel::cloned_sender(
            pipeline.question_ref.ref_count,
            pipeline_copy.question_ref.ref_count,
        ),
{
}

/// A response gives back the message that it was made of.
pub proof fn law_a_response_gives_back_its_message<P: Runtime>(
    incoming: IncomingMessage<P>,
    response: RpcResponse<P>,
    got: &Message<P>,
    message: Message<P>,
    local: LocalResponse<P>,
    local_got: &Message<P>,
)
    requires
        call_ensures(RpcResponse::<P>::new, (incoming,), response),
        call_ensures(RpcResponse::<P>::get, (&response,), got),
        call_ensures(LocalResponse::<P>::new, (message,), local),
        call_ensures(LocalResponse::<P>::get, (&local,), local_got),
    ensures
        *got == incoming.message,
        response.message.whole == incoming.whole,
        response.message.cap_table == incoming.cap_table,
        *local_got == message,
{
}

/// Until results are there, a new answer lets calls wait.
pub proof fn law_a_new_answer_is_not_there_yet<P: Runtime>(
    answer: AnswerRef<P>,
    yes: bool,
    call: (u64, u16, Vec<PipelineOp>, P::Context),
)
    requires
        call_ensures(AnswerRef::<P>::new, (), answer),
        call_ensures(AnswerRef::<P>::is_sent, (&answer,), yes),
    ensures
        !yes,
        answer.status@.at_once(call) is None,
        answer.status@.received(call) == crate::answer::AnswerStatusView::<P>::Pending(seq![call]),
{
    assert(Seq::<(u64, u16, Vec<PipelineOp>, P::Context)>::empty().push(call) =~= seq![call]);
}

} // verus!
