//! What a connection does about each event.

use capnp_rpc::client::ImportClient;
use capnp_rpc::connection::{
    Action, Export, Notice, OutgoingMessage, RpcConnectionState, RpcEvent, SturdyRefRestorer,
};
use capnp_rpc::context::{LocalResponse, Response};
use capnp_rpc::fault::Fault;
use capnp_rpc::message::{
    AnyPointer, Bootstrap, Call, CapDescriptor, Exception, Finish, Message, MessageTarget, Payload,
    PipelineOp, PromisedAnswer, Release, Return, ReturnBody, TransformOp,
};
use capnp_rpc::question::QuestionRef;
use capnp_rpc::runtime::Runtime;
use std::sync::mpsc::{channel, Receiver};

struct Plain;

impl Runtime for Plain {
    type Content = u32;
    type Hook = u32;
    type Context = &'static str;
    type Answer = u32;
}

/// Finds the capability whose number is that of the object.
struct Restorer;

impl SturdyRefRestorer<Plain> for Restorer {
    fn restore(&self, obj_id: &AnyPointer<Plain>) -> Option<u32> {
        match obj_id {
            AnyPointer::Content(object) => Some(object + 1000),
            _ => None,
        }
    }
}

type State = RpcConnectionState<Plain>;

fn step(state: &mut State, event: RpcEvent<Plain>, answer: u32) -> Result<Action<Plain>, Fault> {
    assert!(state.has_room_for(&event));
    state.step(event, answer, &Restorer)
}

fn fault(state: &mut State, event: RpcEvent<Plain>) -> Fault {
    match step(state, event, 0) {
        Ok(_) => panic!(),
        Err(fault) => fault,
    }
}

fn call_on(question_id: u32, target: MessageTarget) -> Message<Plain> {
    Message::Call(Call {
        question_id,
        target,
        interface_id: 70,
        method_id: 7,
        params: Payload { content: AnyPointer::Content(5), cap_table: vec![] },
    })
}

fn export(state: &mut State, hook: u32) -> u32 {
    let (chan, _port) = channel();
    match step(state, RpcEvent::NewLocalServer(hook, chan), 0) {
        Ok(Action::Exported { export_id, .. }) => export_id,
        _ => panic!(),
    }
}

fn ask(state: &mut State) -> (QuestionRef, Receiver<Response<Plain>>) {
    let request = ImportClient { import_id: 3 }.new_call::<Plain>(1, 2);
    let (outgoing, answer_port, _) = RpcEvent::new_outgoing(request.message);
    match step(state, RpcEvent::Outgoing(outgoing), 0) {
        Ok(Action::Ask { question_ref, message: Message::Call(call), .. }) => {
            assert_eq!(call.question_id, question_ref.id);
            (question_ref, answer_port)
        }
        _ => panic!(),
    }
}

fn incoming(message: Message<Plain>) -> RpcEvent<Plain> {
    RpcEvent::IncomingMessage(message, 4321)
}

fn promised(question_id: u32) -> MessageTarget {
    MessageTarget::PromisedAnswer(PromisedAnswer {
        question_id,
        transform: vec![TransformOp::GetPointerField(2), TransformOp::Unknown(4)],
    })
}

#[test]
fn an_export_starts_unreferenced() {
    let export = Export::new(3u8);
    assert_eq!((export.hook, export.reference_count), (3, 0));
}

#[test]
fn the_unit_restorer_restores_nothing() {
    assert_eq!(SturdyRefRestorer::<Plain>::restore(&(), &AnyPointer::Content(1)), None);
}

#[test]
fn a_call_on_an_export_is_made_on_it() {
    let mut state = State::new();
    assert_eq!(export(&mut state, 500), 0);
    assert_eq!(export(&mut state, 501), 1);
    match step(&mut state, incoming(call_on(8, MessageTarget::ImportedCap(1))), 80) {
        Ok(Action::CallExport { export_id: 1, interface_id: 70, method_id: 7, mut context }) => {
            assert!(matches!(context.get().0, AnyPointer::Content(5)));
            let (message, _) = context.done(&vec![]);
            match step(&mut state, RpcEvent::Return(message), 0) {
                Ok(Action::Answer { answer_ref: 80, message: Message::Return(ret) }) => {
                    assert_eq!(ret.answer_id, 8)
                }
                _ => panic!(),
            }
        }
        _ => panic!(),
    }
    assert_eq!(state.export_hook(1), Some(&501));
    assert_eq!(state.export_hook(2), None);
}

#[test]
fn a_call_on_an_answer_is_made_on_it() {
    let mut state = State::new();
    export(&mut state, 500);
    assert!(step(&mut state, incoming(call_on(8, MessageTarget::ImportedCap(0))), 80).is_ok());
    match step(&mut state, incoming(call_on(9, promised(8))), 90) {
        Ok(Action::CallAnswer { answer_ref: 80, interface_id: 70, method_id: 7, ops, context }) => {
            assert_eq!(ops, vec![PipelineOp::GetPointerField(2)]);
            assert_eq!(context.aborter.answer_id, 9);
        }
        _ => panic!(),
    }
    // The new answer is already there when the call looks for its target.
    match step(&mut state, incoming(call_on(10, promised(10))), 100) {
        Ok(Action::CallAnswer { answer_ref: 100, .. }) => {}
        _ => panic!(),
    }
    // A question under a number that is in use takes its place.
    assert!(step(&mut state, incoming(call_on(8, MessageTarget::ImportedCap(0))), 81).is_ok());
    match step(&mut state, incoming(call_on(11, promised(8))), 110) {
        Ok(Action::CallAnswer { answer_ref: 81, .. }) => {}
        _ => panic!(),
    }
}

#[test]
fn calls_that_lead_nowhere_are_faults() {
    let mut state = State::new();
    assert_eq!(
        fault(&mut state, incoming(call_on(1, MessageTarget::ImportedCap(0)))),
        Fault::NoSuchExport(0)
    );
    assert_eq!(fault(&mut state, incoming(call_on(1, promised(2)))), Fault::NoSuchAnswer(2));
    assert_eq!(
        fault(&mut state, incoming(call_on(1, MessageTarget::Unknown(2)))),
        Fault::UnknownCallTarget
    );
    // A fault leaves no answer behind.
    assert_eq!(fault(&mut state, incoming(call_on(2, promised(1)))), Fault::NoSuchAnswer(1));
}

#[test]
fn a_fault_in_the_caps_comes_first() {
    let mut state = State::new();
    let message = Message::Call(Call {
        question_id: 1,
        target: MessageTarget::Unknown(2),
        interface_id: 0,
        method_id: 0,
        params: Payload {
            content: AnyPointer::Null,
            cap_table: vec![CapDescriptor::ReceiverHosted(1)],
        },
    });
    assert_eq!(fault(&mut state, incoming(message)), Fault::ReceiverHostedCap);
}

#[test]
fn questions_have_numbers_of_their_own() {
    let mut state = State::new();
    let (first, _p1) = ask(&mut state);
    let (second, _p2) = ask(&mut state);
    let (third, _p3) = ask(&mut state);
    assert_eq!((first.id, second.id, third.id), (0, 1, 2));
    match step(&mut state, RpcEvent::DoneWithQuestion(1), 0) {
        Ok(Action::Write { message: Message::Finish(finish) }) => {
            assert_eq!(finish, Finish { question_id: 1, release_result_caps: false })
        }
        _ => panic!(),
    }
    assert!(state.answer_chan(0).is_some());
    assert!(state.answer_chan(1).is_none());
    assert!(state.answer_chan(2).is_some());
    assert_eq!(ask(&mut state).0.id, 1);
    assert_eq!(ask(&mut state).0.id, 3);
}

#[test]
fn the_channels_of_a_question_are_its_own() {
    let mut state = State::new();
    let bootstrap = Message::Bootstrap(Bootstrap {
        question_id: 99,
        deprecated_object_id: AnyPointer::Content(4),
    });
    let (outgoing, answer_port, question_port) = RpcEvent::new_outgoing(bootstrap);
    match step(&mut state, RpcEvent::Outgoing(outgoing), 0) {
        Ok(Action::Ask { question_ref, question_chan, message: Message::Bootstrap(bootstrap) }) => {
            assert_eq!(bootstrap.question_id, 0);
            assert!(matches!(bootstrap.deprecated_object_id, AnyPointer::Content(4)));
            question_chan.send(question_ref).unwrap();
        }
        _ => panic!(),
    }
    assert_eq!(question_port.recv().unwrap().id, 0);
    let response = Response::Local(LocalResponse::new(Message::empty_results(6)));
    assert!(state.answer_chan(0).unwrap().send(response).is_ok());
    assert!(matches!(answer_port.recv().unwrap(), Response::Local(_)));
}

#[test]
fn a_return_goes_to_its_question() {
    let mut state = State::new();
    let (_first, _p1) = ask(&mut state);
    let (second, _p2) = ask(&mut state);
    let results = Message::Return(Return {
        answer_id: 1,
        body: ReturnBody::Results(Payload {
            content: AnyPointer::Content(44),
            cap_table: vec![CapDescriptor::SenderHosted(6)],
        }),
    });
    match step(&mut state, incoming(results), 0) {
        Ok(Action::Respond { question_id: 1, response: Response::Rpc(response) }) => {
            match response.get() {
                Message::Return(Return { answer_id: 1, body: ReturnBody::Results(payload) }) => {
                    assert!(matches!(payload.content, AnyPointer::Content(44)))
                }
                _ => panic!(),
            }
            assert_eq!(response.message.cap_table.len(), 1);
            assert_eq!(response.whole(), &4321);
        }
        _ => panic!(),
    }
    // The reference keeps the question; it is not awaited any more.
    assert!(state.response_sent(1).is_none());
    assert!(matches!(step(&mut state, RpcEvent::DoneWithQuestion(1), 0), Ok(Action::Nothing)));
    assert!(state.answer_chan(1).is_some());
    // The other question is still awaited.
    assert!(matches!(step(&mut state, RpcEvent::DoneWithQuestion(0), 0), Ok(Action::Write { .. })));
    drop(second);
    match state.response_sent(1) {
        Some(Message::Finish(finish)) => {
            assert_eq!(finish, Finish { question_id: 1, release_result_caps: false })
        }
        _ => panic!(),
    }
    assert!(state.answer_chan(1).is_none());
    assert_eq!(
        fault(&mut state, incoming(Message::empty_results(1))),
        Fault::NoSuchQuestion(1)
    );
}

#[test]
fn a_question_is_finished_if_nobody_refers_to_it() {
    let mut state = State::new();
    let (_question_ref, _port) = ask(&mut state);
    assert!(state.finish_if(0, false).is_none());
    assert!(state.answer_chan(0).is_some());
    match state.finish_if(0, true) {
        Some(Message::Finish(finish)) => assert_eq!(finish.question_id, 0),
        _ => panic!(),
    }
    assert!(state.answer_chan(0).is_none());
}

#[test]
fn returns_and_ends_without_a_question_are_faults() {
    let mut state = State::new();
    assert_eq!(
        fault(&mut state, incoming(Message::empty_results(0))),
        Fault::NoSuchQuestion(0)
    );
    assert_eq!(fault(&mut state, RpcEvent::DoneWithQuestion(0)), Fault::NoSuchQuestion(0));
}

#[test]
fn done_with_an_ended_question_does_nothing() {
    let mut state = State::new();
    let (_question_ref, _port) = ask(&mut state);
    assert!(matches!(step(&mut state, RpcEvent::DoneWithQuestion(0), 0), Ok(Action::Write { .. })));
    assert!(matches!(step(&mut state, RpcEvent::DoneWithQuestion(0), 0), Ok(Action::Nothing)));
}

#[test]
fn a_request_to_start_is_answered_with_an_export() {
    let mut state = State::new();
    export(&mut state, 500);
    let bootstrap = Bootstrap { question_id: 12, deprecated_object_id: AnyPointer::Content(7) };
    match step(&mut state, incoming(Message::Bootstrap(bootstrap)), 120) {
        Ok(Action::Answer { answer_ref: 120, message: Message::Return(ret) }) => {
            assert_eq!(ret.answer_id, 12);
            match ret.body {
                ReturnBody::Results(payload) => {
                    assert!(matches!(payload.content, AnyPointer::Capability(1007)));
                    assert_eq!(payload.cap_table.len(), 1);
                    assert!(matches!(payload.cap_table[0], CapDescriptor::SenderHosted(1)));
                }
                _ => panic!(),
            }
        }
        _ => panic!(),
    }
    assert_eq!(state.export_hook(1), Some(&1007));
    match step(&mut state, incoming(call_on(13, MessageTarget::ImportedCap(1))), 130) {
        Ok(Action::CallExport { export_id: 1, .. }) => {}
        _ => panic!(),
    }
    match step(&mut state, incoming(call_on(14, promised(12))), 140) {
        Ok(Action::CallAnswer { answer_ref: 120, .. }) => {}
        _ => panic!(),
    }
}

#[test]
fn a_request_to_start_from_nothing_is_a_fault() {
    let mut state = State::new();
    let bootstrap = || Bootstrap { question_id: 12, deprecated_object_id: AnyPointer::Null };
    assert_eq!(
        fault(&mut state, incoming(Message::Bootstrap(bootstrap()))),
        Fault::NotRestored
    );
    let refused = state.step_restored(incoming(Message::Bootstrap(bootstrap())), 1, None);
    assert!(matches!(refused, Err(Fault::NotRestored)));
    let started = state.step_restored(incoming(Message::Bootstrap(bootstrap())), 1, Some(9));
    assert!(matches!(started, Ok(Action::Answer { answer_ref: 1, .. })));
    assert_eq!(state.export_hook(0), Some(&9));
}

#[test]
fn a_released_export_is_gone() {
    let mut state = State::new();
    export(&mut state, 500);
    export(&mut state, 501);
    let release = |id, reference_count| incoming(Message::Release(Release { id, reference_count }));
    assert!(matches!(
        step(&mut state, release(0, 2), 0),
        Ok(Action::Note { notice: Notice::ReleaseCount(2) })
    ));
    assert_eq!(state.export_hook(0), Some(&500));
    assert!(matches!(step(&mut state, release(0, 1), 0), Ok(Action::Nothing)));
    assert_eq!(state.export_hook(0), None);
    assert_eq!(state.export_hook(1), Some(&501));
    assert_eq!(
        fault(&mut state, incoming(call_on(1, MessageTarget::ImportedCap(0)))),
        Fault::NoSuchExport(0)
    );
    assert_eq!(export(&mut state, 502), 0);
    assert_eq!(fault(&mut state, release(2, 1)), Fault::NoSuchExport(2));
    assert!(matches!(
        step(&mut state, release(2, 0), 0),
        Ok(Action::Note { notice: Notice::ReleaseCount(0) })
    ));
}

#[test]
fn a_finished_answer_cannot_be_returned() {
    let mut state = State::new();
    export(&mut state, 500);
    for id in [8, 9] {
        let call = call_on(id, MessageTarget::ImportedCap(0));
        assert!(step(&mut state, incoming(call), id * 10).is_ok());
    }
    let finish = Message::Finish(Finish { question_id: 8, release_result_caps: true });
    assert!(matches!(
        step(&mut state, incoming(finish), 0),
        Ok(Action::Note { notice: Notice::Finish })
    ));
    match step(&mut state, RpcEvent::Return(Message::empty_results(8)), 0) {
        Ok(Action::WriteAndFail { message: Message::Return(ret), fault }) => {
            assert_eq!(ret.answer_id, 8);
            assert_eq!(fault, Fault::NoSuchAnswer(8));
        }
        _ => panic!(),
    }
    match step(&mut state, RpcEvent::Return(Message::empty_results(9)), 0) {
        Ok(Action::Answer { answer_ref: 90, .. }) => {}
        _ => panic!(),
    }
}

#[test]
fn a_message_that_is_no_return_is_only_written() {
    let mut state = State::new();
    assert!(matches!(
        step(&mut state, RpcEvent::Return(Message::Resolve), 0),
        Ok(Action::Write { message: Message::Resolve })
    ));
}

#[test]
fn returns_are_sent_as_they_are() {
    let mut state = State::new();
    let (outgoing, _answers, _questions) = RpcEvent::new_outgoing(Message::empty_results(4));
    match step(&mut state, RpcEvent::Outgoing(outgoing), 0) {
        Ok(Action::Write { message: Message::Return(ret) }) => assert_eq!(ret.answer_id, 4),
        _ => panic!(),
    }
}

#[test]
fn other_messages_are_not_sent() {
    let mut state = State::new();
    let (answer_chan, _answers) = channel();
    let (question_chan, _questions) = channel();
    let outgoing = OutgoingMessage { message: Message::Resolve, answer_chan, question_chan };
    assert_eq!(fault(&mut state, RpcEvent::Outgoing(outgoing)), Fault::UnexpectedOutgoing);
}

#[test]
fn the_other_messages_are_passed_over() {
    let mut state = State::new();
    let messages = vec![
        Message::ObsoleteSave,
        Message::ObsoleteDelete,
        Message::Provide,
        Message::Accept,
        Message::Join,
    ];
    for message in messages {
        assert!(matches!(step(&mut state, incoming(message), 0), Ok(Action::Nothing)));
    }
}

#[test]
fn some_messages_are_only_noted() {
    let mut state = State::new();
    let mut notice = |message| match step(&mut state, incoming(message), 0) {
        Ok(Action::Note { notice }) => notice,
        _ => panic!(),
    };
    assert!(matches!(notice(Message::Unimplemented), Notice::Unimplemented));
    match notice(Message::Abort(Exception { reason: b"bye".to_vec() })) {
        Notice::Abort(exception) => assert_eq!(exception.reason, b"bye".to_vec()),
        _ => panic!(),
    }
    assert!(matches!(notice(Message::Resolve), Notice::Resolve));
    assert!(matches!(notice(Message::Disembargo), Notice::Disembargo));
    assert!(matches!(notice(Message::Unknown(99)), Notice::UnknownMessage));
}

#[test]
fn a_new_server_is_told_its_number() {
    let mut state = State::new();
    let (chan, port) = channel();
    match step(&mut state, RpcEvent::NewLocalServer(31, chan), 0) {
        Ok(Action::Exported { export_id, export_chan }) => export_chan.send(export_id).unwrap(),
        _ => panic!(),
    }
    assert_eq!(port.recv(), Ok(0));
    assert_eq!(state.export_hook(0), Some(&31));
}

#[test]
fn a_shutdown_stops() {
    let mut state = State::new();
    assert!(matches!(step(&mut state, RpcEvent::Shutdown, 0), Ok(Action::Stop)));
}

#[test]
fn a_pipelined_call_reaches_its_answer() {
    let mut here = State::new();
    let mut there = State::new();
    export(&mut there, 500);
    let first = ImportClient { import_id: 0 }.new_call::<Plain>(1, 2);
    let (event, _answers, _questions) = first.send(&vec![]);
    let question_ref = match step(&mut here, event, 0) {
        Ok(Action::Ask { question_ref, message, .. }) => {
            assert!(matches!(
                step(&mut there, incoming(message), 10),
                Ok(Action::CallExport { export_id: 0, interface_id: 1, method_id: 2, .. })
            ));
            question_ref
        }
        _ => panic!(),
    };
    let pipeline = capnp_rpc::client::RpcPipeline { question_ref };
    let ops = vec![PipelineOp::GetPointerField(3), PipelineOp::Noop];
    let second = pipeline.get_pipelined_cap(ops).new_call::<Plain>(4, 5);
    let (event, _answers, _questions) = second.send(&vec![]);
    match step(&mut here, event, 0) {
        Ok(Action::Ask { message, .. }) => match step(&mut there, incoming(message), 20) {
            Ok(Action::CallAnswer { answer_ref, interface_id, method_id, ops, context }) => {
                assert_eq!((answer_ref, interface_id, method_id), (10, 4, 5));
                assert_eq!(ops, vec![PipelineOp::GetPointerField(3), PipelineOp::Noop]);
                assert_eq!(context.aborter.answer_id, 1);
            }
            _ => panic!(),
        },
        _ => panic!(),
    }
}
