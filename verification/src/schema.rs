//! Where the fields of the messages stand in the structs that they are made
//! of.

use crate::message::{
    AnyPointer, Bootstrap, Call, CallView, CapDescriptor, CapDescriptorView, Exception,
    ExceptionView, Finish, Message, MessageTarget, MessageTargetView, MessageView, Payload,
    PayloadView, PromisedAnswer, PromisedAnswerView, Release, Return, ReturnBody, ReturnBodyView,
    ReturnView, TransformOp,
};
use crate::node::{PointerNode, StructNode};
use crate::runtime::Runtime;
use vstd::prelude::*;

verus! {

/// The node behind an optional reference.
pub open spec fn target(node: Option<&StructNode>) -> Option<StructNode> {
    match node {
        Some(node) => Some(*node),
        None => None,
    }
}

pub open spec fn op_of(node: StructNode) -> TransformOp {
    let tag = crate::node::u16_at(Some(node), 0);
    if tag == 0 {
        TransformOp::Noop
    } else if tag == 1 {
        TransformOp::GetPointerField(crate::node::u16_at(Some(node), 1))
    } else {
        TransformOp::Unknown(tag)
    }
}

pub open spec fn ops_of(nodes: Seq<StructNode>) -> Seq<TransformOp> {
    nodes.map_values(|node: StructNode| op_of(node))
}

pub open spec fn promised_answer_of(node: Option<StructNode>) -> PromisedAnswerView {
    PromisedAnswerView {
        question_id: crate::node::u32_at(node, 0),
        transform: ops_of(crate::node::list_at(node, 0)),
    }
}

pub open spec fn message_target_of(node: Option<StructNode>) -> MessageTargetView {
    let tag = crate::node::u16_at(node, 2);
    if tag == 0 {
        MessageTargetView::ImportedCap(crate::node::u32_at(node, 0))
    } else if tag == 1 {
        MessageTargetView::PromisedAnswer(promised_answer_of(crate::node::struct_at(node, 0)))
    } else {
        MessageTargetView::Unknown(tag)
    }
}

pub open spec fn cap_descriptor_of(node: StructNode) -> CapDescriptorView {
    let tag = crate::node::u16_at(Some(node), 0);
    let id = crate::node::u32_at(Some(node), 1);
    if tag == 0 {
        CapDescriptorView::NoDescriptor
    } else if tag == 1 {
        CapDescriptorView::SenderHosted(id)
    } else if tag == 2 {
        CapDescriptorView::SenderPromise(id)
    } else if tag == 3 {
        CapDescriptorView::ReceiverHosted(id)
    } else if tag == 4 {
        CapDescriptorView::ReceiverAnswer(
            promised_answer_of(crate::node::struct_at(Some(node), 0)),
        )
    } else if tag == 5 {
        CapDescriptorView::ThirdPartyHosted
    } else {
        CapDescriptorView::Unknown(tag)
    }
}

pub open spec fn cap_table_of(nodes: Seq<StructNode>) -> Seq<CapDescriptorView> {
    nodes.map_values(|node: StructNode| cap_descriptor_of(node))
}

pub open spec fn payload_of<P: Runtime>(
    node: Option<StructNode>,
    content: AnyPointer<P>,
) -> PayloadView<P> {
    PayloadView { content, cap_table: cap_table_of(crate::node::list_at(node, 1)) }
}

pub open spec fn call_of<P: Runtime>(
    node: Option<StructNode>,
    content: AnyPointer<P>,
) -> CallView<P> {
    CallView {
        question_id: crate::node::u32_at(node, 0),
        target: message_target_of(crate::node::struct_at(node, 0)),
        interface_id: crate::node::u64_at(node, 1),
        method_id: crate::node::u16_at(node, 2),
        params: payload_of(crate::node::struct_at(node, 1), content),
    }
}

pub open spec fn exception_of(node: Option<StructNode>) -> ExceptionView {
    ExceptionView { reason: crate::node::text_at(node, 0) }
}

pub open spec fn return_of<P: Runtime>(
    node: Option<StructNode>,
    content: AnyPointer<P>,
) -> ReturnView<P> {
    let tag = crate::node::u16_at(node, 3);
    ReturnView {
        answer_id: crate::node::u32_at(node, 0),
        body: if tag == 0 {
            ReturnBodyView::Results(payload_of(crate::node::struct_at(node, 0), content))
        } else if tag == 1 {
            ReturnBodyView::Exception(exception_of(crate::node::struct_at(node, 0)))
        } else if tag == 2 {
            ReturnBodyView::Canceled
        } else if tag == 3 {
            ReturnBodyView::ResultsSentElsewhere
        } else if tag == 4 {
            ReturnBodyView::TakeFromOtherQuestion(crate::node::u32_at(node, 2))
        } else if tag == 5 {
            ReturnBodyView::AcceptFromThirdParty
        } else {
            ReturnBodyView::Unknown(tag)
        },
    }
}

/// A flag that is set where the bit is clear.
pub open spec fn finish_of(node: Option<StructNode>) -> Finish {
    Finish {
        question_id: crate::node::u32_at(node, 0),
        release_result_caps: !crate::node::bit_at(node, 4),
    }
}

pub open spec fn release_of(node: Option<StructNode>) -> Release {
    Release { id: crate::node::u32_at(node, 0), reference_count: crate::node::u32_at(node, 1) }
}

pub open spec fn bootstrap_of<P: Runtime>(
    node: Option<StructNode>,
    content: AnyPointer<P>,
) -> Bootstrap<P> {
    Bootstrap { question_id: crate::node::u32_at(node, 0), deprecated_object_id: content }
}

/// The message that the root struct `node` stands for, where `content` is what
/// it carries for its user.
pub open spec fn message_of<P: Runtime>(
    node: Option<StructNode>,
    content: AnyPointer<P>,
) -> MessageView<P> {
    let tag = crate::node::u16_at(node, 0);
    let body = crate::node::struct_at(node, 0);
    if tag == 0 {
        MessageView::Unimplemented
    } else if tag == 1 {
        MessageView::Abort(exception_of(body))
    } else if tag == 2 {
        MessageView::Call(call_of(body, content))
    } else if tag == 3 {
        MessageView::Return(return_of(body, content))
    } else if tag == 4 {
        MessageView::Finish(finish_of(body))
    } else if tag == 5 {
        MessageView::Resolve
    } else if tag == 6 {
        MessageView::Release(release_of(body))
    } else if tag == 7 {
        MessageView::ObsoleteSave
    } else if tag == 8 {
        MessageView::Bootstrap(bootstrap_of(body, content))
    } else if tag == 9 {
        MessageView::ObsoleteDelete
    } else if tag == 10 {
        MessageView::Provide
    } else if tag == 11 {
        MessageView::Accept
    } else if tag == 12 {
        MessageView::Join
    } else if tag == 13 {
        MessageView::Disembargo
    } else {
        MessageView::Unknown(tag)
    }
}

fn decode_op(node: &StructNode) -> (op: TransformOp)
    ensures
        op == op_of(*node),
{
    let tag: u16 = node.u16_at(0);
    if tag == 0 {
        TransformOp::Noop
    } else if tag == 1 {
        TransformOp::GetPointerField(node.u16_at(1))
    } else {
        TransformOp::Unknown(tag)
    }
}

fn decode_promised_answer(node: Option<&StructNode>) -> (answer: PromisedAnswer)
    ensures
        answer@ == promised_answer_of(target(node)),
{
    let mut transform: Vec<TransformOp> = Vec::new();
    let ghost nodes = crate::node::list_at(target(node), 0);
    match node {
        Some(node) => {
            match node.list_at(0) {
                Some(elements) => {
                    let mut i: usize = 0;
                    while i < elements.len()
                        invariant
                            i <= elements@.len(),
                            transform@ =~= ops_of(elements@.take(i as int)),
                        decreases elements@.len() - i,
                    {
                        transform.push(decode_op(&elements[i]));
                        i = i + 1;
                        assert(elements@.take(i as int) =~= elements@.take(i - 1).push(
                            elements@[i - 1],
                        ));
                    }
                    assert(elements@.take(i as int) =~= elements@);
                },
                None => {
                    assert(transform@ =~= ops_of(nodes));
                },
            }
            PromisedAnswer { question_id: node.u32_at(0), transform }
        },
        None => {
            assert(transform@ =~= ops_of(nodes));
            PromisedAnswer { question_id: 0, transform }
        },
    }
}

fn decode_message_target(node: Option<&StructNode>) -> (decoded: MessageTarget)
    ensures
        decoded@ == message_target_of(target(node)),
{
    match node {
        Some(node) => {
            let tag: u16 = node.u16_at(2);
            if tag == 0 {
                MessageTarget::ImportedCap(node.u32_at(0))
            } else if tag == 1 {
                MessageTarget::PromisedAnswer(decode_promised_answer(node.struct_at(0)))
            } else {
                MessageTarget::Unknown(tag)
            }
        },
        None => MessageTarget::ImportedCap(0),
    }
}

fn decode_cap_descriptor(node: &StructNode) -> (descriptor: CapDescriptor)
    ensures
        descriptor@ == cap_descriptor_of(*node),
{
    let tag: u16 = node.u16_at(0);
    let id: u32 = node.u32_at(1);
    if tag == 0 {
        CapDescriptor::NoDescriptor
    } else if tag == 1 {
        CapDescriptor::SenderHosted(id)
    } else if tag == 2 {
        CapDescriptor::SenderPromise(id)
    } else if tag == 3 {
        CapDescriptor::ReceiverHosted(id)
    } else if tag == 4 {
        CapDescriptor::ReceiverAnswer(decode_promised_answer(node.struct_at(0)))
    } else if tag == 5 {
        CapDescriptor::ThirdPartyHosted
    } else {
        CapDescriptor::Unknown(tag)
    }
}

fn decode_payload<P: Runtime>(
    node: Option<&StructNode>,
    content: AnyPointer<P>,
) -> (payload: Payload<P>)
    ensures
        payload@ == payload_of(target(node), content),
{
    let mut cap_table: Vec<CapDescriptor> = Vec::new();
    let ghost nodes = crate::node::list_at(target(node), 1);
    match node {
        Some(node) => match node.list_at(1) {
            Some(elements) => {
                let mut i: usize = 0;
                while i < elements.len()
                    invariant
                        i <= elements@.len(),
                        crate::message::descriptors(cap_table@) =~= cap_table_of(
                            elements@.take(i as int),
                        ),
                    decreases elements@.len() - i,
                {
                    let ghost before = cap_table@;
                    cap_table.push(decode_cap_descriptor(&elements[i]));
                    i = i + 1;
                    assert(crate::message::descriptors(cap_table@)
                        =~= crate::message::descriptors(before).push(
                        cap_descriptor_of(elements@[i - 1]),
                    ));
                    assert(elements@.take(i as int) =~= elements@.take(i - 1).push(
                        elements@[i - 1],
                    ));
                }
                assert(elements@.take(i as int) =~= elements@);
            },
            None => {
                assert(crate::message::descriptors(cap_table@) =~= cap_table_of(nodes));
            },
        },
        None => {
            assert(crate::message::descriptors(cap_table@) =~= cap_table_of(nodes));
        },
    }
    Payload { content, cap_table }
}

fn decode_call<P: Runtime>(node: Option<&StructNode>, content: AnyPointer<P>) -> (call: Call<P>)
    ensures
        call@ == call_of(target(node), content),
{
    match node {
        Some(node) => Call {
            question_id: node.u32_at(0),
            target: decode_message_target(node.struct_at(0)),
            interface_id: node.u64_at(1),
            method_id: node.u16_at(2),
            params: decode_payload(node.struct_at(1), content),
        },
        None => Call {
            question_id: 0,
            target: decode_message_target(None),
            interface_id: 0,
            method_id: 0,
            params: decode_payload(None, content),
        },
    }
}

fn decode_exception(node: Option<&StructNode>) -> (exception: Exception)
    ensures
        exception@ == exception_of(target(node)),
{
    match node {
        Some(node) => Exception { reason: node.text_at(0) },
        None => Exception { reason: Vec::new() },
    }
}

fn decode_return<P: Runtime>(
    node: Option<&StructNode>,
    content: AnyPointer<P>,
) -> (ret: Return<P>)
    ensures
        ret@ == return_of(target(node), content),
{
    match node {
        Some(node) => {
            let tag: u16 = node.u16_at(3);
            let body = if tag == 0 {
                ReturnBody::Results(decode_payload(node.struct_at(0), content))
            } else if tag == 1 {
                ReturnBody::Exception(decode_exception(node.struct_at(0)))
            } else if tag == 2 {
                ReturnBody::Canceled
            } else if tag == 3 {
                ReturnBody::ResultsSentElsewhere
            } else if tag == 4 {
                ReturnBody::TakeFromOtherQuestion(node.u32_at(2))
            } else if tag == 5 {
                ReturnBody::AcceptFromThirdParty
            } else {
                ReturnBody::Unknown(tag)
            };
            Return { answer_id: node.u32_at(0), body }
        },
        None => Return {
            answer_id: 0,
            body: ReturnBody::Results(decode_payload(None, content)),
        },
    }
}

/// The message that the root struct `node` stands for.
pub fn decode_message<P: Runtime>(node: &StructNode, content: AnyPointer<P>) -> (message: Message<
    P,
>)
    ensures
        message@ == message_of(Some(*node), content),
{
    let tag: u16 = node.u16_at(0);
    let body: Option<&StructNode> = node.struct_at(0);
    if tag == 0 {
        Message::Unimplemented
    } else if tag == 1 {
        Message::Abort(decode_exception(body))
    } else if tag == 2 {
        Message::Call(decode_call(body, content))
    } else if tag == 3 {
        Message::Return(decode_return(body, content))
    } else if tag == 4 {
        match body {
            Some(body) => Message::Finish(
                Finish { question_id: body.u32_at(0), release_result_caps: !body.bit_at(4) },
            ),
            None => Message::Finish(Finish { question_id: 0, release_result_caps: true }),
        }
    } else if tag == 5 {
        Message::Resolve
    } else if tag == 6 {
        match body {
            Some(body) => Message::Release(
                Release { id: body.u32_at(0), reference_count: body.u32_at(1) },
            ),
            None => Message::Release(Release { id: 0, reference_count: 0 }),
        }
    } else if tag == 7 {
        Message::ObsoleteSave
    } else if tag == 8 {
        let question_id: u32 = match body {
            Some(body) => body.u32_at(0),
            None => 0,
        };
        Message::Bootstrap(Bootstrap { question_id, deprecated_object_id: content })
    } else if tag == 9 {
        Message::ObsoleteDelete
    } else if tag == 10 {
        Message::Provide
    } else if tag == 11 {
        Message::Accept
    } else if tag == 12 {
        Message::Join
    } else if tag == 13 {
        Message::Disembargo
    } else {
        Message::Unknown(tag)
    }
}

} // verus!
