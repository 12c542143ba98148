//! Clients, requests, pipelines and the contexts of calls.

use capnp_rpc::caps::{OutgoingCap, OwnedCapDescriptor};
use capnp_rpc::client::{
    ImportClient, PipelineClient, PromisedAnswerClient, PromisedAnswerRpcPipeline, RpcPipeline,
    RpcRequest,
};
use capnp_rpc::connection::RpcEvent;
use capnp_rpc::context::{
    Aborter, IncomingMessage, LocalResponse, PromisedAnswerRpcCallContext, Response,
    RpcCallContext, RpcResponse,
};
use capnp_rpc::message::{
    AnyPointer, Call, CapDescriptor, Message, MessageTarget, Payload, PipelineOp, Return,
    ReturnBody, TransformOp,
};
use capnp_rpc::question::{Question, QuestionRef};
use capnp_rpc::runtime::Runtime;
use std::sync::mpsc::channel;

struct Plain;

impl Runtime for Plain {
    type Content = u32;
    type Hook = u32;
    type Context = &'static str;
    type Answer = u32;
}

fn call_in(message: &Message<Plain>) -> &Call<Plain> {
    match message {
        Message::Call(call) => call,
        _ => panic!(),
    }
}

fn return_in(message: &Message<Plain>) -> &Return<Plain> {
    match message {
        Message::Return(ret) => ret,
        _ => panic!(),
    }
}

fn reason_in(message: &Message<Plain>) -> (u32, &[u8]) {
    let ret = return_in(message);
    match &ret.body {
        ReturnBody::Exception(exception) => (ret.answer_id, &exception.reason),
        _ => panic!(),
    }
}

fn pipeline_client() -> PipelineClient {
    let (ref_count, _) = channel();
    PipelineClient {
        ops: vec![PipelineOp::Noop, PipelineOp::GetPointerField(6)],
        question_ref: QuestionRef::new(17, ref_count),
    }
}

fn call_message() -> Message<Plain> {
    Message::Call(Call {
        question_id: 21,
        target: MessageTarget::ImportedCap(0),
        interface_id: 1,
        method_id: 2,
        params: Payload { content: AnyPointer::Content(77), cap_table: vec![] },
    })
}

fn incoming_call() -> IncomingMessage<Plain> {
    IncomingMessage { message: call_message(), cap_table: vec![], whole: 1234 }
}

#[test]
fn an_import_client_calls_its_import() {
    let client = ImportClient { import_id: 5 }.copy();
    let request: RpcRequest<Plain> = client.new_call(0x1234_5678_9abc_def0, 9);
    let call = call_in(&request.message);
    assert_eq!(call.question_id, 0);
    assert_eq!(call.interface_id, 0x1234_5678_9abc_def0);
    assert_eq!(call.method_id, 9);
    assert!(matches!(call.target, MessageTarget::ImportedCap(5)));
    assert!(matches!(call.params.content, AnyPointer::Null));
    assert_eq!(call.params.cap_table.len(), 0);
    assert!(request.question_ref.is_none());
    assert!(matches!(client.get_descriptor(), OwnedCapDescriptor::ReceiverHosted(5)));
}

#[test]
fn a_pipeline_client_calls_into_its_question() {
    let client = pipeline_client().copy();
    let request: RpcRequest<Plain> = client.new_call(3, 4);
    let call = call_in(&request.message);
    assert_eq!((call.interface_id, call.method_id), (3, 4));
    match &call.target {
        MessageTarget::PromisedAnswer(promised) => {
            assert_eq!(promised.question_id, 17);
            assert_eq!(promised.transform, vec![TransformOp::Noop, TransformOp::GetPointerField(6)]);
        }
        _ => panic!(),
    }
    assert_eq!(request.question_ref.as_ref().unwrap().id, 17);
    match client.get_descriptor() {
        OwnedCapDescriptor::ReceiverAnswer(17, ops) => {
            assert_eq!(ops, vec![PipelineOp::Noop, PipelineOp::GetPointerField(6)])
        }
        _ => panic!(),
    }
}

#[test]
fn a_promised_answer_client_calls_into_its_answer() {
    let client: PromisedAnswerClient<Plain> =
        PromisedAnswerClient { ops: vec![PipelineOp::GetPointerField(2)], answer_ref: 40 };
    let mut request = client.copy().new_call(3, 4);
    if let Message::Call(call) = request.message() {
        call.params.content = AnyPointer::Content(8);
    }
    let (call, port) = request.send();
    assert_eq!(call.answer_ref, 40);
    assert_eq!((call.interface_id, call.method_id), (3, 4));
    assert_eq!(call.ops, vec![PipelineOp::GetPointerField(2)]);
    assert!(matches!(
        call_in(&call.context.params_message).params.content,
        AnyPointer::Content(8)
    ));
    let (chan, response) = call.context.done();
    chan.send(response).unwrap();
    match port.recv().unwrap() {
        Response::Local(response) => {
            let ret = return_in(response.get());
            assert_eq!(ret.answer_id, 0);
            assert!(matches!(ret.body, ReturnBody::Results(_)));
        }
        Response::Rpc(_) => panic!(),
    }
}

#[test]
fn a_request_is_sent_with_its_caps() {
    let mut request: RpcRequest<Plain> = ImportClient { import_id: 5 }.new_call(1, 2);
    if let Message::Call(call) = request.message() {
        call.params.content = AnyPointer::Content(66);
    }
    let caps = vec![
        Some(OutgoingCap::Exported(3)),
        None,
        Some(OutgoingCap::Described(OwnedCapDescriptor::ReceiverHosted(4))),
    ];
    let (event, answer_port, question_port) = request.send(&caps);
    let outgoing = match event {
        RpcEvent::Outgoing(outgoing) => outgoing,
        _ => panic!(),
    };
    let call = call_in(&outgoing.message);
    assert!(matches!(call.params.content, AnyPointer::Content(66)));
    assert_eq!(call.params.cap_table.len(), 2);
    assert!(matches!(call.params.cap_table[0], CapDescriptor::SenderHosted(3)));
    assert!(matches!(call.params.cap_table[1], CapDescriptor::ReceiverHosted(4)));
    // The channels are those of the message.
    let (ref_count, _) = channel();
    outgoing.question_chan.send(QuestionRef::new(12, ref_count)).unwrap();
    assert_eq!(question_port.recv().unwrap().id, 12);
    let response = LocalResponse::new(Message::empty_results(1));
    assert!(outgoing.answer_chan.send(Response::Local(response)).is_ok());
    assert!(matches!(answer_port.recv().unwrap(), Response::Local(_)));
}

#[test]
fn a_pipeline_leads_to_clients_of_its_question() {
    let pipeline = RpcPipeline { question_ref: pipeline_client().question_ref }.copy();
    let client = pipeline.get_pipelined_cap(vec![PipelineOp::GetPointerField(1)]);
    assert_eq!(client.question_ref.id, 17);
    assert_eq!(client.ops, vec![PipelineOp::GetPointerField(1)]);
    let PromisedAnswerRpcPipeline = PromisedAnswerRpcPipeline.copy();
}

#[test]
fn what_is_made_of_a_question_keeps_it_open() {
    let (chan, _port) = channel();
    let (question, ref_count) = Question::<Plain>::new(chan);
    let counter = &question.ref_counter;
    let pipeline = RpcPipeline { question_ref: QuestionRef::new(4, ref_count) };
    let copied = pipeline.copy();
    drop(pipeline);
    let client = copied.get_pipelined_cap(vec![]);
    drop(copied);
    let other = client.copy();
    drop(client);
    let request: RpcRequest<Plain> = other.new_call(1, 2);
    drop(other);
    assert_eq!(counter.try_recv(), Err(std::sync::mpsc::TryRecvError::Empty));
    drop(request);
    assert_eq!(counter.try_recv(), Err(std::sync::mpsc::TryRecvError::Disconnected));
}

#[test]
fn references_to_a_question_are_counted() {
    let (chan, _port) = channel();
    let (question, ref_count) = Question::<Plain>::new(chan);
    assert!(question.is_awaiting_return);
    let first = QuestionRef::new(4, ref_count);
    let second = first.clone();
    assert_eq!(second.id, 4);
    drop(first);
    assert_eq!(
        question.ref_counter.try_recv(),
        Err(std::sync::mpsc::TryRecvError::Empty)
    );
    drop(second);
    assert_eq!(
        question.ref_counter.try_recv(),
        Err(std::sync::mpsc::TryRecvError::Disconnected)
    );
}

#[test]
fn a_call_that_is_done_is_answered_with_its_results() {
    let mut context = RpcCallContext::new(incoming_call());
    {
        let (params, results) = context.get();
        assert!(matches!(params, AnyPointer::Content(77)));
        assert!(matches!(results, AnyPointer::Null));
        *results = AnyPointer::Content(99);
    }
    let (message, aborter) = context.done(&vec![Some(OutgoingCap::Exported(8))]);
    let ret = return_in(&message);
    assert_eq!(ret.answer_id, 21);
    match &ret.body {
        ReturnBody::Results(payload) => {
            assert!(matches!(payload.content, AnyPointer::Content(99)));
            assert_eq!(payload.cap_table.len(), 1);
            assert!(matches!(payload.cap_table[0], CapDescriptor::SenderHosted(8)));
        }
        _ => panic!(),
    }
    assert!(aborter.on_drop::<Plain>().is_none());
}

#[test]
fn a_call_that_fails_is_answered_with_the_reason() {
    let context = RpcCallContext::new(incoming_call());
    let aborter = context.fail("out of \u{20ac}".to_string());
    let message = aborter.on_drop::<Plain>().unwrap();
    assert_eq!(reason_in(&message), (21, "out of \u{20ac}".as_bytes()));
}

#[test]
fn a_call_that_is_dropped_is_aborted() {
    let context = RpcCallContext::new(incoming_call());
    let message = context.aborter.on_drop::<Plain>().unwrap();
    assert_eq!(reason_in(&message), (21, &b"aborted"[..]));
    let silent = Aborter { succeeded: true, message: "aborted".to_string(), answer_id: 21 };
    assert!(silent.on_drop::<Plain>().is_none());
}

#[test]
fn a_local_call_that_fails_is_answered_with_the_reason() {
    let (chan, port) = channel();
    let mut context = PromisedAnswerRpcCallContext::new(call_message(), chan);
    {
        let (params, results) = context.get();
        assert!(matches!(params, AnyPointer::Content(77)));
        *results = AnyPointer::Content(1);
    }
    let (chan, response) = context.fail("no".to_string());
    chan.send(response).unwrap();
    match port.recv().unwrap() {
        Response::Local(response) => assert_eq!(reason_in(response.get()), (0, &b"no"[..])),
        Response::Rpc(_) => panic!(),
    }
}

#[test]
fn a_local_call_that_is_done_is_answered_with_its_results() {
    let (chan, port) = channel();
    let mut context = PromisedAnswerRpcCallContext::new(call_message(), chan);
    *context.get().1 = AnyPointer::Content(55);
    let (chan, response) = context.done();
    chan.send(response).unwrap();
    match port.recv().unwrap() {
        Response::Local(response) => match &return_in(response.get()).body {
            ReturnBody::Results(payload) => {
                assert!(matches!(payload.content, AnyPointer::Content(55)))
            }
            _ => panic!(),
        },
        Response::Rpc(_) => panic!(),
    }
}

#[test]
fn a_remote_response_holds_the_message_that_came() {
    let response = RpcResponse::new(incoming_call());
    assert_eq!(call_in(response.get()).question_id, 21);
    assert_eq!(response.whole(), &1234);
}
