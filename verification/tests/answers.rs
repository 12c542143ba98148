//! Answers, and the calls that wait for them.

use capnp_rpc::answer::{is_answerable, Answer, AnswerRef, AnswerStatus, Dispatch};
use capnp_rpc::message::{AnyPointer, Message, Payload, PipelineOp, Return, ReturnBody};
use capnp_rpc::runtime::Runtime;

struct Plain;

impl Runtime for Plain {
    type Content = u32;
    type Hook = u32;
    type Context = &'static str;
    type Answer = u32;
}

fn results(content: u32) -> Message<Plain> {
    Message::Return(Return {
        answer_id: 3,
        body: ReturnBody::Results(Payload {
            content: AnyPointer::Content(content),
            cap_table: Vec::new(),
        }),
    })
}

fn call_of(dispatch: Dispatch<Plain>) -> (u64, u16, Vec<PipelineOp>, &'static str) {
    match dispatch {
        Dispatch::Call { interface_id, method_id, ops, context } => {
            (interface_id, method_id, ops, context)
        }
        Dispatch::Ignore { .. } => panic!(),
    }
}

#[test]
fn a_new_answer_is_awaited() {
    let answer: AnswerRef<Plain> = AnswerRef::new();
    assert!(!answer.is_sent());
    assert!(answer.content().is_none());
    match answer.status {
        AnswerStatus::Pending(waiters) => assert_eq!(waiters.len(), 0),
        AnswerStatus::Sent(_) => panic!(),
    }
}

#[test]
fn calls_wait_and_are_made_in_order() {
    let mut answer: AnswerRef<Plain> = AnswerRef::new();
    assert!(answer.receive(1, 10, vec![], "first").is_none());
    assert!(answer.receive(2, 20, vec![PipelineOp::GetPointerField(4)], "second").is_none());
    assert!(answer.receive(3, 30, vec![PipelineOp::Noop], "third").is_none());
    let calls: Vec<_> = answer.sent(results(5)).into_iter().map(call_of).collect();
    assert_eq!(
        calls,
        vec![
            (1, 10, vec![], "first"),
            (2, 20, vec![PipelineOp::GetPointerField(4)], "second"),
            (3, 30, vec![PipelineOp::Noop], "third"),
        ]
    );
    assert!(answer.is_sent());
    assert!(matches!(answer.content(), Some(AnyPointer::Content(5))));
}

#[test]
fn calls_before_and_after_are_made_once_and_in_order() {
    let mut answer: AnswerRef<Plain> = AnswerRef::new();
    let mut made = Vec::new();
    made.extend(answer.receive(1, 0, vec![], "a"));
    made.extend(answer.receive(2, 0, vec![], "b"));
    assert!(made.is_empty());
    made.extend(answer.sent(results(5)));
    made.extend(answer.receive(3, 0, vec![], "c"));
    made.extend(answer.receive(4, 0, vec![], "d"));
    let contexts: Vec<_> = made.into_iter().map(|call| call_of(call).3).collect();
    assert_eq!(contexts, vec!["a", "b", "c", "d"]);
    assert!(matches!(answer.content(), Some(AnyPointer::Content(5))));
}

#[test]
fn a_call_on_a_sent_answer_is_made_at_once() {
    let mut answer: AnswerRef<Plain> = AnswerRef::new();
    assert_eq!(answer.sent(results(5)).len(), 0);
    let made = answer.receive(7, 8, vec![PipelineOp::GetPointerField(1)], "late");
    assert_eq!(call_of(made.unwrap()), (7, 8, vec![PipelineOp::GetPointerField(1)], "late"));
    assert!(matches!(answer.content(), Some(AnyPointer::Content(5))));
}

#[test]
fn calls_on_an_exception_are_dropped() {
    let mut answer: AnswerRef<Plain> = AnswerRef::new();
    assert!(answer.receive(1, 2, vec![], "early").is_none());
    let done = answer.sent(Message::exception(3, b"no".to_vec()));
    assert_eq!(done.len(), 1);
    assert!(matches!(done[0], Dispatch::Ignore { context: "early" }));
    let late = answer.receive(1, 2, vec![], "late");
    assert!(matches!(late, Some(Dispatch::Ignore { context: "late" })));
    assert!(answer.content().is_none());
}

#[test]
fn a_new_answer_entry_has_no_exports() {
    let answer: Answer<Plain> = Answer::new(12);
    assert_eq!(answer.answer_ref, 12);
    assert_eq!(answer.result_exports.len(), 0);
}

#[test]
fn calls_can_be_made_on_results_and_exceptions() {
    assert!(is_answerable(&results(1)));
    assert!(is_answerable::<Plain>(&Message::exception(1, vec![])));
    let canceled = Return { answer_id: 1, body: ReturnBody::Canceled };
    assert!(!is_answerable::<Plain>(&Message::Return(canceled)));
    assert!(!is_answerable::<Plain>(&Message::Resolve));
}
