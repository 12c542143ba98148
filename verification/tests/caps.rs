//! The capabilities in payloads.

use capnp_rpc::answer::Answer;
use capnp_rpc::caps::{
    client_hooks_of_payload, get_pipeline_ops, has_payload, populate_cap_table, to_transform,
    write_outgoing_cap_table, ImportedCap, OutgoingCap, OwnedCapDescriptor,
};
use capnp_rpc::fault::Fault;
use capnp_rpc::message::{
    AnyPointer, Call, CapDescriptor, Finish, Message, MessageTarget, Payload, PipelineOp,
    PromisedAnswer, Return, ReturnBody, TransformOp,
};
use capnp_rpc::runtime::Runtime;
use capnp_rpc::tables::ImportTable;

struct Plain;

impl Runtime for Plain {
    type Content = u32;
    type Hook = u32;
    type Context = &'static str;
    type Answer = u32;
}

fn promised(question_id: u32) -> CapDescriptor {
    CapDescriptor::ReceiverAnswer(PromisedAnswer {
        question_id,
        transform: vec![
            TransformOp::GetPointerField(3),
            TransformOp::Unknown(9),
            TransformOp::Noop,
        ],
    })
}

fn payload(cap_table: Vec<CapDescriptor>) -> Payload<Plain> {
    Payload { content: AnyPointer::Content(1), cap_table }
}

fn call(cap_table: Vec<CapDescriptor>) -> Message<Plain> {
    Message::Call(Call {
        question_id: 1,
        target: MessageTarget::ImportedCap(0),
        interface_id: 2,
        method_id: 3,
        params: payload(cap_table),
    })
}

fn answers() -> ImportTable<Answer<Plain>> {
    let mut answers = ImportTable::new();
    answers.insert(6, Answer::new(600));
    answers
}

fn fault_of(cap_table: Vec<CapDescriptor>) -> Fault {
    match client_hooks_of_payload(&payload(cap_table), &answers()) {
        Ok(_) => panic!(),
        Err(fault) => fault,
    }
}

#[test]
fn caps_are_imported_each_at_its_place() {
    let table = vec![
        CapDescriptor::NoDescriptor,
        CapDescriptor::SenderHosted(4),
        CapDescriptor::SenderPromise(5),
        promised(6),
    ];
    let caps = client_hooks_of_payload(&payload(table), &answers()).ok().unwrap();
    assert_eq!(caps.len(), 4);
    assert!(caps[0].is_none());
    match &caps[1] {
        Some(ImportedCap::Import(client)) => assert_eq!(client.import_id, 4),
        _ => panic!(),
    }
    assert!(caps[2].is_none());
    match &caps[3] {
        Some(ImportedCap::PromisedAnswer(client)) => {
            assert_eq!(client.answer_ref, 600);
            assert_eq!(client.ops, vec![PipelineOp::GetPointerField(3), PipelineOp::Noop]);
        }
        _ => panic!(),
    }
}

#[test]
fn caps_that_cannot_be_had_are_faults() {
    assert_eq!(fault_of(vec![CapDescriptor::ReceiverHosted(1)]), Fault::ReceiverHostedCap);
    assert_eq!(fault_of(vec![CapDescriptor::ThirdPartyHosted]), Fault::ThirdPartyHostedCap);
    assert_eq!(fault_of(vec![CapDescriptor::Unknown(7)]), Fault::UnknownCapDescriptor);
    assert_eq!(fault_of(vec![promised(5)]), Fault::NoSuchAnswer(5));
}

#[test]
fn the_first_fault_counts() {
    assert_eq!(
        fault_of(vec![
            CapDescriptor::SenderHosted(1),
            promised(8),
            CapDescriptor::ThirdPartyHosted,
        ]),
        Fault::NoSuchAnswer(8)
    );
}

#[test]
fn only_calls_and_results_bring_caps() {
    let table = || vec![CapDescriptor::SenderHosted(2)];
    let count = |message: Message<Plain>| populate_cap_table(&message, &answers()).ok().unwrap().len();
    assert_eq!(count(call(table())), 1);
    assert_eq!(
        count(Message::Return(Return { answer_id: 1, body: ReturnBody::Results(payload(table())) })),
        1
    );
    assert_eq!(count(Message::exception(1, vec![])), 0);
    assert_eq!(count(Message::Return(Return { answer_id: 1, body: ReturnBody::Canceled })), 0);
    assert_eq!(count(Message::Unimplemented), 0);
    assert_eq!(count(Message::Finish(Finish { question_id: 1, release_result_caps: true })), 0);
}

#[test]
fn steps_that_were_written_are_found_again() {
    let ops = vec![
        PipelineOp::Noop,
        PipelineOp::GetPointerField(0),
        PipelineOp::GetPointerField(65535),
    ];
    let transform = to_transform(&ops);
    assert_eq!(
        transform,
        vec![
            TransformOp::Noop,
            TransformOp::GetPointerField(0),
            TransformOp::GetPointerField(65535),
        ]
    );
    assert_eq!(get_pipeline_ops(&PromisedAnswer { question_id: 1, transform }), ops);
}

#[test]
fn outgoing_caps_are_described() {
    let caps = vec![
        Some(OutgoingCap::Described(OwnedCapDescriptor::NoDescriptor)),
        Some(OutgoingCap::Described(OwnedCapDescriptor::SenderHosted(1))),
        None,
        Some(OutgoingCap::Described(OwnedCapDescriptor::SenderPromise(2))),
        Some(OutgoingCap::Described(OwnedCapDescriptor::ReceiverHosted(3))),
        Some(OutgoingCap::Described(OwnedCapDescriptor::ReceiverAnswer(
            4,
            vec![PipelineOp::GetPointerField(5)],
        ))),
        Some(OutgoingCap::Exported(6)),
    ];
    let mut message = call(vec![CapDescriptor::SenderHosted(99)]);
    write_outgoing_cap_table(&mut message, &caps);
    let params = match message {
        Message::Call(call) => call.params,
        _ => panic!(),
    };
    assert!(matches!(params.content, AnyPointer::Content(1)));
    let table = params.cap_table;
    assert_eq!(table.len(), 6);
    assert!(matches!(table[0], CapDescriptor::NoDescriptor));
    assert!(matches!(table[1], CapDescriptor::SenderHosted(1)));
    assert!(matches!(table[2], CapDescriptor::NoDescriptor));
    assert!(matches!(table[3], CapDescriptor::ReceiverHosted(3)));
    match &table[4] {
        CapDescriptor::ReceiverAnswer(answer) => {
            assert_eq!(answer.question_id, 4);
            assert_eq!(answer.transform, vec![TransformOp::GetPointerField(5)]);
        }
        _ => panic!(),
    }
    assert!(matches!(table[5], CapDescriptor::SenderHosted(6)));
}

#[test]
fn a_message_without_a_payload_describes_no_caps() {
    let caps = vec![Some(OutgoingCap::Exported(6))];
    let mut message: Message<Plain> = Message::exception(2, b"x".to_vec());
    assert!(!has_payload(&message));
    write_outgoing_cap_table(&mut message, &caps);
    match message {
        Message::Return(Return { answer_id: 2, body: ReturnBody::Exception(exception) }) => {
            assert_eq!(exception.reason, b"x".to_vec())
        }
        _ => panic!(),
    }
    assert!(!has_payload(&Message::<Plain>::Resolve));
    assert!(has_payload(&call(vec![])));
    assert!(has_payload(&Message::<Plain>::empty_results(1)));
}

#[test]
fn a_cap_that_one_side_exports_the_other_imports() {
    let mut message = call(vec![]);
    write_outgoing_cap_table(&mut message, &vec![Some(OutgoingCap::Exported(11))]);
    let caps = populate_cap_table(&message, &answers()).ok().unwrap();
    match &caps[0] {
        Some(ImportedCap::Import(client)) => assert_eq!(client.import_id, 11),
        _ => panic!(),
    }
}

#[test]
fn a_pipelined_cap_comes_home() {
    let ops = vec![PipelineOp::GetPointerField(5), PipelineOp::Noop];
    let mut message = call(vec![]);
    let cap = OutgoingCap::Described(OwnedCapDescriptor::ReceiverAnswer(6, ops));
    write_outgoing_cap_table(&mut message, &vec![Some(cap)]);
    let caps = populate_cap_table(&message, &answers()).ok().unwrap();
    match &caps[0] {
        Some(ImportedCap::PromisedAnswer(client)) => {
            assert_eq!(client.answer_ref, 600);
            assert_eq!(client.ops, vec![PipelineOp::GetPointerField(5), PipelineOp::Noop]);
        }
        _ => panic!(),
    }
}
