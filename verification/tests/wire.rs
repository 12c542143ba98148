//! Messages as structs, and out of the wire format.

use capnp_rpc::encode::{content_path, encode_message};
use capnp_rpc::message::{
    AnyPointer, Bootstrap, Call, CapDescriptor, Exception, Finish, Message, MessageTarget, Payload,
    PromisedAnswer, Release, Return, ReturnBody, TransformOp,
};
use capnp_rpc::node::{PointerNode, StructNode};
use capnp_rpc::reader::read_message;
use capnp_rpc::runtime::Runtime;
use capnp_rpc::schema::decode_message;

struct Plain;

impl Runtime for Plain {
    type Content = u32;
    type Hook = u32;
    type Context = &'static str;
    type Answer = u32;
}

/// A pointer to a struct `offset` words behind it.
fn struct_pointer(offset: u64, data: u64, pointers: u64) -> u64 {
    offset << 2 | data << 32 | pointers << 48
}

/// A pointer to a list `offset` words behind it.
fn list_pointer(offset: u64, kind: u64, count: u64) -> u64 {
    1 | offset << 2 | kind << 32 | count << 35
}

/// The message that is in `words`, read by way of the `capnp` crate.
fn read(words: &[u64]) -> Option<Message<Plain>> {
    read_within(words, capnp::message::ReaderOptions::new())
}

/// The same, within the limits of `options`.
fn read_within(
    words: &[u64],
    options: capnp::message::ReaderOptions,
) -> Option<Message<Plain>> {
    let mut bytes: Vec<u8> = Vec::new();
    bytes.extend_from_slice(&0u32.to_le_bytes());
    bytes.extend_from_slice(&(words.len() as u32).to_le_bytes());
    for word in words {
        bytes.extend_from_slice(&word.to_le_bytes());
    }
    let whole =
        capnp::serialize::read_message(&bytes[..], capnp::message::ReaderOptions::new()).unwrap();
    let message = capnp::message::Reader::new(whole.into_segments(), options);
    let root: capnp::any_pointer::Reader = message.get_root().unwrap();
    read_message(&root, AnyPointer::Content(7)).ok()
}

/// A root struct with `tag`, and the struct it points to.
fn tagged(tag: u64, pointer: u64, body: &[u64]) -> Vec<u64> {
    let mut words = vec![struct_pointer(0, 1, 1), tag, pointer];
    words.extend_from_slice(body);
    words
}

fn call_words() -> Vec<u64> {
    tagged(
        2,
        struct_pointer(0, 3, 3),
        &[
            // call
            0x0000_0003_0000_0007,
            0x1122_3344_5566_7788,
            0,
            struct_pointer(2, 1, 1),
            struct_pointer(3, 0, 2),
            0,
            // target
            5,
            0,
            // params
            0,
            list_pointer(0, 7, 4),
            struct_pointer(2, 1, 1),
            0x0000_0009_0000_0001,
            0,
            4,
            struct_pointer(0, 1, 1),
            // the promised answer in the second descriptor
            6,
            list_pointer(0, 7, 3),
            struct_pointer(3, 1, 0),
            0,
            0x0002_0001,
            0x0009,
        ],
    )
}

fn check_call(message: &Message<Plain>) {
    let call = match message {
        Message::Call(call) => call,
        _ => panic!(),
    };
    assert_eq!(call.question_id, 7);
    assert_eq!(call.method_id, 3);
    assert_eq!(call.interface_id, 0x1122_3344_5566_7788);
    assert!(matches!(call.target, MessageTarget::ImportedCap(5)));
    assert!(matches!(call.params.content, AnyPointer::Content(7)));
    assert_eq!(call.params.cap_table.len(), 2);
    assert!(matches!(call.params.cap_table[0], CapDescriptor::SenderHosted(9)));
    match &call.params.cap_table[1] {
        CapDescriptor::ReceiverAnswer(answer) => {
            assert_eq!(answer.question_id, 6);
            assert_eq!(
                answer.transform,
                vec![
                    TransformOp::Noop,
                    TransformOp::GetPointerField(2),
                    TransformOp::Unknown(9),
                ]
            );
        }
        _ => panic!(),
    }
}

fn call_message() -> Message<Plain> {
    Message::Call(Call {
        question_id: 7,
        target: MessageTarget::ImportedCap(5),
        interface_id: 0x1122_3344_5566_7788,
        method_id: 3,
        params: Payload {
            content: AnyPointer::Content(7),
            cap_table: vec![
                CapDescriptor::SenderHosted(9),
                CapDescriptor::ReceiverAnswer(PromisedAnswer {
                    question_id: 6,
                    transform: vec![
                        TransformOp::Noop,
                        TransformOp::GetPointerField(2),
                        TransformOp::Unknown(9),
                    ],
                }),
            ],
        },
    })
}

fn body_of(node: &StructNode) -> &StructNode {
    assert_eq!(node.pointers.len(), 1);
    match &node.pointers[0] {
        PointerNode::Struct(body) => body,
        _ => panic!(),
    }
}

#[test]
fn a_call_is_read() {
    check_call(&read(&call_words()).unwrap());
}

#[test]
fn a_call_is_decoded_as_it_was_encoded() {
    let node = encode_message(&call_message());
    assert_eq!(node.data, vec![2, 0, 0, 0, 0, 0, 0, 0]);
    let call = body_of(&node);
    assert_eq!(
        call.data,
        vec![
            7, 0, 0, 0, 3, 0, 0, 0, 0x88, 0x77, 0x66, 0x55, 0x44, 0x33, 0x22, 0x11, 0, 0, 0, 0, 0,
            0, 0, 0
        ]
    );
    assert_eq!(call.pointers.len(), 3);
    check_call(&decode_message(&node, AnyPointer::Content(7)));
}

#[test]
fn a_call_on_an_answer_is_read() {
    let words = tagged(
        2,
        struct_pointer(0, 3, 3),
        &[
            9,
            0,
            0,
            struct_pointer(2, 1, 1),
            0,
            0,
            0x0001_0000_0000,
            struct_pointer(0, 1, 1),
            0x15,
            list_pointer(0, 7, 1),
            struct_pointer(1, 1, 0),
            0x0004_0001,
        ],
    );
    match read(&words).unwrap() {
        Message::Call(call) => {
            assert_eq!(call.question_id, 9);
            assert_eq!(call.params.cap_table.len(), 0);
            match call.target {
                MessageTarget::PromisedAnswer(answer) => {
                    assert_eq!(answer.question_id, 0x15);
                    assert_eq!(answer.transform, vec![TransformOp::GetPointerField(4)]);
                }
                _ => panic!(),
            }
        }
        _ => panic!(),
    }
}

#[test]
fn an_exception_is_read() {
    // The answer id, then the tag of the body in the last two bytes of a word.
    let words = tagged(
        3,
        struct_pointer(0, 2, 1),
        &[
            0x0001_0000_0000_000a,
            0,
            struct_pointer(0, 1, 1),
            0,
            list_pointer(0, 2, 4),
            u64::from_le_bytes(*b"oh!\0\0\0\0\0"),
        ],
    );
    match read(&words).unwrap() {
        Message::Return(Return { answer_id: 10, body: ReturnBody::Exception(exception) }) => {
            assert_eq!(exception.reason, b"oh!".to_vec())
        }
        _ => panic!(),
    }
}

#[test]
fn a_return_is_read_without_a_reason_that_is_no_text() {
    let exception_with = |reason| {
        let body = [0x0001_0000_0000_000a, 0, struct_pointer(0, 1, 1), 0, reason, 0x21_7374];
        match read(&tagged(3, struct_pointer(0, 2, 1), &body)) {
            Some(Message::Return(Return {
                answer_id: 10,
                body: ReturnBody::Exception(exception),
            })) => exception.reason,
            _ => panic!(),
        }
    };
    assert_eq!(exception_with(list_pointer(0, 2, 4)), b"ts!".to_vec());
    // The last byte is not zero; the pointer leads to a struct.
    assert_eq!(exception_with(list_pointer(0, 2, 3)), Vec::<u8>::new());
    assert_eq!(exception_with(struct_pointer(0, 1, 0)), Vec::<u8>::new());
    // The exception itself has to be a struct.
    let body = [0x0001_0000_0000_000a, 0, list_pointer(0, 2, 4), 0];
    assert!(read(&tagged(3, struct_pointer(0, 2, 1), &body)).is_none());
}

#[test]
fn the_content_is_at_the_end_of_its_path() {
    let content_at = |message: Message<Plain>, path: Vec<usize>| {
        assert_eq!(content_path(&message), path);
        let mut pointer = PointerNode::Struct(encode_message(&message));
        for index in path {
            pointer = match pointer {
                PointerNode::Struct(mut node) => node.pointers.swap_remove(index),
                _ => panic!(),
            };
        }
        matches!(pointer, PointerNode::Content)
    };
    assert!(content_at(call_message(), vec![0, 1, 0]));
    let payload = Payload { content: AnyPointer::Content(7), cap_table: vec![] };
    let results = Return { answer_id: 1, body: ReturnBody::Results(payload) };
    assert!(content_at(Message::Return(results), vec![0, 0, 0]));
    let bootstrap = Bootstrap { question_id: 1, deprecated_object_id: AnyPointer::Content(7) };
    assert!(content_at(Message::Bootstrap(bootstrap), vec![0, 0]));
    assert!(!content_at(Message::exception(1, vec![]), vec![]));
    assert!(!content_at(Message::Resolve, vec![]));
}

#[test]
fn results_are_read() {
    let words = tagged(
        3,
        struct_pointer(0, 2, 1),
        &[
            0x0000_0000_0000_000b,
            0,
            struct_pointer(0, 0, 2),
            0,
            list_pointer(0, 7, 2),
            struct_pointer(1, 1, 1),
            0x0000_0004_0000_0003,
            0,
        ],
    );
    match read(&words).unwrap() {
        Message::Return(Return { answer_id: 11, body: ReturnBody::Results(payload) }) => {
            assert_eq!(payload.cap_table.len(), 1);
            assert!(matches!(payload.cap_table[0], CapDescriptor::ReceiverHosted(4)));
            assert!(matches!(payload.content, AnyPointer::Content(7)));
        }
        _ => panic!(),
    }
}

#[test]
fn the_other_returns_are_read() {
    let read_return = |tag: u64, other: u64| {
        let body = [0xc | tag << 48, other, 0];
        match read(&tagged(3, struct_pointer(0, 2, 1), &body)).unwrap() {
            Message::Return(ret) => {
                assert_eq!(ret.answer_id, 12);
                ret.body
            }
            _ => panic!(),
        }
    };
    assert!(matches!(read_return(2, 0), ReturnBody::Canceled));
    assert!(matches!(read_return(3, 0), ReturnBody::ResultsSentElsewhere));
    assert!(matches!(read_return(4, 17), ReturnBody::TakeFromOtherQuestion(17)));
    assert!(matches!(read_return(5, 0), ReturnBody::AcceptFromThirdParty));
    assert!(matches!(read_return(9, 0), ReturnBody::Unknown(9)));
}

#[test]
fn a_finish_is_read() {
    // The caps are released unless the bit says otherwise.
    match read(&tagged(4, struct_pointer(0, 1, 0), &[8])).unwrap() {
        Message::Finish(finish) => {
            assert_eq!(finish, Finish { question_id: 8, release_result_caps: true })
        }
        _ => panic!(),
    }
    match read(&tagged(4, struct_pointer(0, 1, 0), &[0x1_0000_0008])).unwrap() {
        Message::Finish(finish) => {
            assert_eq!(finish, Finish { question_id: 8, release_result_caps: false })
        }
        _ => panic!(),
    }
}

#[test]
fn a_release_is_read() {
    match read(&tagged(6, struct_pointer(0, 1, 0), &[0x3_0000_0002])).unwrap() {
        Message::Release(release) => {
            assert_eq!(release, Release { id: 2, reference_count: 3 })
        }
        _ => panic!(),
    }
}

#[test]
fn a_bootstrap_is_read() {
    match read(&tagged(8, struct_pointer(0, 1, 1), &[14, 0])).unwrap() {
        Message::Bootstrap(bootstrap) => {
            assert_eq!(bootstrap.question_id, 14);
            assert!(matches!(bootstrap.deprecated_object_id, AnyPointer::Content(7)));
        }
        _ => panic!(),
    }
}

#[test]
fn an_abort_is_read() {
    let body = [0, list_pointer(0, 2, 3), u64::from_le_bytes(*b"no\0\0\0\0\0\0")];
    match read(&tagged(1, struct_pointer(0, 1, 1), &body)).unwrap() {
        Message::Abort(exception) => assert_eq!(exception.reason, b"no".to_vec()),
        _ => panic!(),
    }
}

#[test]
fn the_tags_of_the_other_messages_are_read() {
    let read_tag = |tag| read(&tagged(tag, 0, &[])).unwrap();
    assert!(matches!(read_tag(0), Message::Unimplemented));
    assert!(matches!(read_tag(5), Message::Resolve));
    assert!(matches!(read_tag(7), Message::ObsoleteSave));
    assert!(matches!(read_tag(9), Message::ObsoleteDelete));
    assert!(matches!(read_tag(10), Message::Provide));
    assert!(matches!(read_tag(11), Message::Accept));
    assert!(matches!(read_tag(12), Message::Join));
    assert!(matches!(read_tag(13), Message::Disembargo));
    assert!(matches!(read_tag(200), Message::Unknown(200)));
}

#[test]
fn what_is_missing_reads_as_zero() {
    assert!(matches!(read(&[0]).unwrap(), Message::Unimplemented));
    match read(&tagged(2, 0, &[])).unwrap() {
        Message::Call(call) => {
            assert_eq!((call.question_id, call.interface_id, call.method_id), (0, 0, 0));
            assert!(matches!(call.target, MessageTarget::ImportedCap(0)));
            assert_eq!(call.params.cap_table.len(), 0);
        }
        _ => panic!(),
    }
}

#[test]
fn a_malformed_message_is_not_read() {
    // The root pointer leads beyond the message.
    assert!(read(&[struct_pointer(100, 1, 1)]).is_none());
    // The root pointer leads to a list.
    assert!(read(&[list_pointer(0, 2, 4), 0]).is_none());
    // The call's target is a list.
    let body = [0, 0, 0, list_pointer(2, 2, 4), 0, 0, 0];
    assert!(read(&tagged(2, struct_pointer(0, 3, 3), &body)).is_none());
}

#[test]
fn a_text_has_to_end_with_a_zero_byte() {
    let abort = |pointer, text: &[u8; 8]| {
        let body = [0, pointer, u64::from_le_bytes(*text)];
        read(&tagged(1, struct_pointer(0, 1, 1), &body))
    };
    assert!(abort(list_pointer(0, 2, 3), b"no\0\0\0\0\0\0").is_some());
    assert!(abort(list_pointer(0, 2, 3), b"not\0\0\0\0\0").is_none());
    assert!(abort(list_pointer(0, 2, 0), b"\0\0\0\0\0\0\0\0").is_none());
    // A list of pairs of bytes is no text.
    assert!(abort(list_pointer(0, 3, 3), b"no\0\0\0\0\0\0").is_none());
}

#[test]
fn a_message_is_read_as_far_as_its_reader_allows() {
    let mut unlimited = capnp::message::ReaderOptions::new();
    unlimited.traversal_limit_in_words(None);
    check_call(&read_within(&call_words(), unlimited).unwrap());
    // One word, for the root pointer.
    let mut limited = capnp::message::ReaderOptions::new();
    limited.traversal_limit_in_words(Some(1));
    assert!(read_within(&call_words(), limited).is_none());
    assert!(matches!(read_within(&[0], limited), Some(Message::Unimplemented)));
    // Three words, for the root pointer and the root struct.
    limited.traversal_limit_in_words(Some(3));
    assert!(matches!(read_within(&tagged(5, 0, &[]), limited), Some(Message::Resolve)));
    assert!(matches!(read_within(&tagged(4, 0, &[]), limited), Some(Message::Finish(_))));
    assert!(read_within(&tagged(4, struct_pointer(0, 1, 0), &[8]), limited).is_none());
    // Nor is a message read that is nested too deeply, whatever the limit.
    unlimited.nesting_limit(1);
    assert!(read_within(&call_words(), unlimited).is_none());
}

#[test]
fn a_finish_is_encoded() {
    let finish = Finish { question_id: 0x0102_0304, release_result_caps: false };
    let node = encode_message::<Plain>(&Message::Finish(finish));
    assert_eq!(node.data, vec![4, 0, 0, 0, 0, 0, 0, 0]);
    assert_eq!(body_of(&node).data, vec![4, 3, 2, 1, 1, 0, 0, 0]);
    assert_eq!(body_of(&node).pointers.len(), 0);
    match decode_message::<Plain>(&node, AnyPointer::Null) {
        Message::Finish(decoded) => assert_eq!(decoded, finish),
        _ => panic!(),
    }
}

#[test]
fn an_exception_is_encoded() {
    let node = encode_message::<Plain>(&Message::exception(5, b"why".to_vec()));
    assert_eq!(node.data, vec![3, 0, 0, 0, 0, 0, 0, 0]);
    let ret = body_of(&node);
    assert_eq!(ret.data, vec![5, 0, 0, 0, 0, 0, 1, 0, 0, 0, 0, 0, 0, 0, 0, 0]);
    match &body_of(ret).pointers[0] {
        PointerNode::Text(text) => assert_eq!(text, &b"why".to_vec()),
        _ => panic!(),
    }
}

#[test]
fn messages_are_decoded_as_they_were_encoded() {
    let there_and_back = |message: Message<Plain>| {
        decode_message::<Plain>(&encode_message(&message), AnyPointer::Content(7))
    };
    match there_and_back(Message::Release(Release { id: 1, reference_count: 1 })) {
        Message::Release(release) => {
            assert_eq!(release, Release { id: 1, reference_count: 1 })
        }
        _ => panic!(),
    }
    match there_and_back(Message::Bootstrap(Bootstrap {
        question_id: 3,
        deprecated_object_id: AnyPointer::Content(7),
    })) {
        Message::Bootstrap(bootstrap) => assert_eq!(bootstrap.question_id, 3),
        _ => panic!(),
    }
    match there_and_back(Message::Abort(Exception { reason: b"bye".to_vec() })) {
        Message::Abort(exception) => assert_eq!(exception.reason, b"bye".to_vec()),
        _ => panic!(),
    }
    match there_and_back(Message::Return(Return {
        answer_id: 4,
        body: ReturnBody::TakeFromOtherQuestion(6),
    })) {
        Message::Return(Return { answer_id, body: ReturnBody::TakeFromOtherQuestion(id) }) => {
            assert_eq!((answer_id, id), (4, 6))
        }
        _ => panic!(),
    }
    assert!(matches!(there_and_back(Message::Join), Message::Join));
    assert!(matches!(there_and_back(Message::Unknown(77)), Message::Unknown(77)));
}
