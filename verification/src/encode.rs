//! The structs that the messages are made of.

use crate::message::{
    AnyPointer, Call, CallView, CapDescriptor, CapDescriptorView, Exception, ExceptionView, Message,
    MessageTarget, MessageTargetView, MessageView, Payload, PayloadView, PromisedAnswer,
    PromisedAnswerView, Return, ReturnBody, ReturnBodyView, ReturnView, TransformOp,
};
use crate::node::{push_u16, push_u32, push_u64, PointerNode, StructNode};
use crate::runtime::Runtime;
use vstd::prelude::*;

verus! {

/// The pointer that stands for a value of any type.
pub open spec fn content_pointer<P: Runtime>(content: AnyPointer<P>) -> PointerNode {
    match content {
        AnyPointer::Null => PointerNode::Null,
        _ => PointerNode::Content,
    }
}

pub open spec fn op_data(op: TransformOp) -> Seq<u8> {
    match op {
        TransformOp::Noop => crate::node::le16(0) + crate::node::le16(0) + crate::node::le32(0),
        TransformOp::GetPointerField(index) => crate::node::le16(1) + crate::node::le16(index)
            + crate::node::le32(0),
        TransformOp::Unknown(tag) => crate::node::le16(tag) + crate::node::le16(0)
            + crate::node::le32(0),
    }
}

/// `node` is the struct of a step.
pub open spec fn is_op(node: StructNode, op: TransformOp) -> bool {
    node.data@ == op_data(op) && node.pointers@.len() == 0
}

pub open spec fn is_promised_answer(node: StructNode, answer: PromisedAnswerView) -> bool {
    &&& node.data@ == crate::node::le32(answer.question_id) + crate::node::le32(0)
    &&& node.pointers@.len() == 1
    &&& node.pointers@[0] matches PointerNode::List(elements)
    &&& elements@.len() == answer.transform.len()
    &&& forall|i: int|
        0 <= i < elements@.len() ==> is_op(#[trigger] elements@[i], answer.transform[i])
}

pub open spec fn is_message_target(node: StructNode, target: MessageTargetView) -> bool {
    &&& node.pointers@.len() == 1
    &&& match target {
        MessageTargetView::ImportedCap(id) => {
            &&& node.data@ == crate::node::le32(id) + crate::node::le16(0) + crate::node::le16(0)
            &&& node.pointers@[0] is Null
        },
        MessageTargetView::PromisedAnswer(answer) => {
            &&& node.data@ == crate::node::le32(0) + crate::node::le16(1) + crate::node::le16(0)
            &&& node.pointers@[0] matches PointerNode::Struct(body)
            &&& is_promised_answer(body, answer)
        },
        MessageTargetView::Unknown(tag) => {
            &&& node.data@ == crate::node::le32(0) + crate::node::le16(tag) + crate::node::le16(0)
            &&& node.pointers@[0] is Null
        },
    }
}

pub open spec fn cap_descriptor_data(descriptor: CapDescriptorView) -> Seq<u8> {
    match descriptor {
        CapDescriptorView::NoDescriptor => tagged_id(0, 0),
        CapDescriptorView::SenderHosted(id) => tagged_id(1, id),
        CapDescriptorView::SenderPromise(id) => tagged_id(2, id),
        CapDescriptorView::ReceiverHosted(id) => tagged_id(3, id),
        CapDescriptorView::ReceiverAnswer(_) => tagged_id(4, 0),
        CapDescriptorView::ThirdPartyHosted => tagged_id(5, 0),
        CapDescriptorView::Unknown(tag) => tagged_id(tag, 0),
    }
}

pub open spec fn tagged_id(tag: u16, id: u32) -> Seq<u8> {
    crate::node::le16(tag) + crate::node::le16(0) + crate::node::le32(id)
}

pub open spec fn is_cap_descriptor(node: StructNode, descriptor: CapDescriptorView) -> bool {
    &&& node.data@ == cap_descriptor_data(descriptor)
    &&& node.pointers@.len() == 1
    &&& match descriptor {
        CapDescriptorView::ReceiverAnswer(answer) => {
            &&& node.pointers@[0] matches PointerNode::Struct(body)
            &&& is_promised_answer(body, answer)
        },
        _ => node.pointers@[0] is Null,
    }
}

pub open spec fn is_payload<P: Runtime>(node: StructNode, payload: PayloadView<P>) -> bool {
    &&& node.data@.len() == 0
    &&& node.pointers@.len() == 2
    &&& node.pointers@[0] == content_pointer(payload.content)
    &&& node.pointers@[1] matches PointerNode::List(elements)
    &&& elements@.len() == payload.cap_table.len()
    &&& forall|i: int|
        0 <= i < elements@.len() ==> is_cap_descriptor(
            #[trigger] elements@[i],
            payload.cap_table[i],
        )
}

pub open spec fn is_call<P: Runtime>(node: StructNode, call: CallView<P>) -> bool {
    &&& node.data@ == crate::node::le32(call.question_id) + crate::node::le16(call.method_id)
        + crate::node::le16(0) + crate::node::le64(call.interface_id) + crate::node::le64(0)
    &&& node.pointers@.len() == 3
    &&& node.pointers@[0] matches PointerNode::Struct(target)
    &&& is_message_target(target, call.target)
    &&& node.pointers@[1] matches PointerNode::Struct(params)
    &&& is_payload(params, call.params)
    &&& node.pointers@[2] is Null
}

pub open spec fn is_exception(node: StructNode, exception: ExceptionView) -> bool {
    &&& node.data@ == crate::node::le64(0)
    &&& node.pointers@.len() == 1
    &&& node.pointers@[0] matches PointerNode::Text(reason)
    &&& reason@ == exception.reason
}

pub open spec fn return_tag<P: Runtime>(body: ReturnBodyView<P>) -> u16 {
    match body {
        ReturnBodyView::Results(_) => 0,
        ReturnBodyView::Exception(_) => 1,
        ReturnBodyView::Canceled => 2,
        ReturnBodyView::ResultsSentElsewhere => 3,
        ReturnBodyView::TakeFromOtherQuestion(_) => 4,
        ReturnBodyView::AcceptFromThirdParty => 5,
        ReturnBodyView::Unknown(tag) => tag,
    }
}

pub open spec fn is_return<P: Runtime>(node: StructNode, ret: ReturnView<P>) -> bool {
    &&& node.data@ == crate::node::le32(ret.answer_id) + crate::node::le16(0) + crate::node::le16(
        return_tag(ret.body),
    ) + crate::node::le32(
        match ret.body {
            ReturnBodyView::TakeFromOtherQuestion(id) => id,
            _ => 0,
        },
    ) + crate::node::le32(0)
    &&& node.pointers@.len() == 1
    &&& match ret.body {
        ReturnBodyView::Results(payload) => {
            &&& node.pointers@[0] matches PointerNode::Struct(body)
            &&& is_payload(body, payload)
        },
        ReturnBodyView::Exception(exception) => {
            &&& node.pointers@[0] matches PointerNode::Struct(body)
            &&& is_exception(body, exception)
        },
        _ => node.pointers@[0] is Null,
    }
}

pub open spec fn message_tag<P: Runtime>(message: MessageView<P>) -> u16 {
    match message {
        MessageView::Unimplemented => 0,
        MessageView::Abort(_) => 1,
        MessageView::Call(_) => 2,
        MessageView::Return(_) => 3,
        MessageView::Finish(_) => 4,
        MessageView::Resolve => 5,
        MessageView::Release(_) => 6,
        MessageView::ObsoleteSave => 7,
        MessageView::Bootstrap(_) => 8,
        MessageView::ObsoleteDelete => 9,
        MessageView::Provide => 10,
        MessageView::Accept => 11,
        MessageView::Join => 12,
        MessageView::Disembargo => 13,
        MessageView::Unknown(tag) => tag,
    }
}

/// `body` is the struct that the root struct of `message` points to.
pub open spec fn is_body<P: Runtime>(body: PointerNode, message: MessageView<P>) -> bool {
    match message {
        MessageView::Abort(exception) => {
            &&& body matches PointerNode::Struct(node)
            &&& is_exception(node, exception)
        },
        MessageView::Call(call) => {
            &&& body matches PointerNode::Struct(node)
            &&& is_call(node, call)
        },
        MessageView::Return(ret) => {
            &&& body matches PointerNode::Struct(node)
            &&& is_return(node, ret)
        },
        MessageView::Finish(finish) => {
            &&& body matches PointerNode::Struct(node)
            &&& node.data@ == crate::node::le32(finish.question_id) + crate::node::le32(
                if finish.release_result_caps {
                    0
                } else {
                    1
                },
            )
            &&& node.pointers@.len() == 0
        },
        MessageView::Release(release) => {
            &&& body matches PointerNode::Struct(node)
            &&& node.data@ == crate::node::le32(release.id) + crate::node::le32(
                release.reference_count,
            )
            &&& node.pointers@.len() == 0
        },
        MessageView::Bootstrap(bootstrap) => {
            &&& body matches PointerNode::Struct(node)
            &&& node.data@ == crate::node::le32(bootstrap.question_id) + crate::node::le32(0)
            &&& node.pointers@.len() == 1
            &&& node.pointers@[0] == content_pointer(bootstrap.deprecated_object_id)
        },
        _ => body is Null,
    }
}

/// `node` is the root struct of `message`.
pub open spec fn is_message<P: Runtime>(node: StructNode, message: MessageView<P>) -> bool {
    &&& node.data@ == crate::node::le16(message_tag(message)) + crate::node::le16(0)
        + crate::node::le32(0)
    &&& node.pointers@.len() == 1
    &&& is_body(node.pointers@[0], message)
}

fn content_node<P: Runtime>(content: &AnyPointer<P>) -> (node: PointerNode)
    ensures
        node == content_pointer(*content),
{
    match content {
        AnyPointer::Null => PointerNode::Null,
        _ => PointerNode::Content,
    }
}

fn encode_op(op: TransformOp) -> (node: StructNode)
    ensures
        is_op(node, op),
{
    let (tag, index): (u16, u16) = match op {
        TransformOp::Noop => (0, 0),
        TransformOp::GetPointerField(index) => (1, index),
        TransformOp::Unknown(tag) => (tag, 0),
    };
    let mut data: Vec<u8> = Vec::new();
    push_u16(&mut data, tag);
    push_u16(&mut data, index);
    push_u32(&mut data, 0);
    StructNode { data, pointers: Vec::new() }
}

fn encode_promised_answer(answer: &PromisedAnswer) -> (node: StructNode)
    ensures
        is_promised_answer(node, answer@),
{
    let mut elements: Vec<StructNode> = Vec::new();
    let mut i: usize = 0;
    while i < answer.transform.len()
        invariant
            i <= answer.transform@.len(),
            elements@.len() == i,
            forall|j: int|
                0 <= j < i ==> is_op(#[trigger] elements@[j], answer.transform@[j]),
        decreases answer.transform@.len() - i,
    {
        elements.push(encode_op(answer.transform[i]));
        i = i + 1;
    }
    let mut data: Vec<u8> = Vec::new();
    push_u32(&mut data, answer.question_id);
    push_u32(&mut data, 0);
    let mut pointers: Vec<PointerNode> = Vec::new();
    pointers.push(PointerNode::List(elements));
    StructNode { data, pointers }
}

fn encode_message_target(target: &MessageTarget) -> (node: StructNode)
    ensures
        is_message_target(node, target@),
{
    let mut data: Vec<u8> = Vec::new();
    let mut pointers: Vec<PointerNode> = Vec::new();
    match target {
        MessageTarget::ImportedCap(id) => {
            push_u32(&mut data, *id);
            push_u16(&mut data, 0);
            pointers.push(PointerNode::Null);
        },
        MessageTarget::PromisedAnswer(answer) => {
            push_u32(&mut data, 0);
            push_u16(&mut data, 1);
            pointers.push(PointerNode::Struct(encode_promised_answer(answer)));
        },
        MessageTarget::Unknown(tag) => {
            push_u32(&mut data, 0);
            push_u16(&mut data, *tag);
            pointers.push(PointerNode::Null);
        },
    }
    push_u16(&mut data, 0);
    StructNode { data, pointers }
}

fn encode_cap_descriptor(descriptor: &CapDescriptor) -> (node: StructNode)
    ensures
        is_cap_descriptor(node, descriptor@),
{
    let mut pointers: Vec<PointerNode> = Vec::new();
    let (tag, id): (u16, u32) = match descriptor {
        CapDescriptor::NoDescriptor => (0, 0),
        CapDescriptor::SenderHosted(id) => (1, *id),
        CapDescriptor::SenderPromise(id) => (2, *id),
        CapDescriptor::ReceiverHosted(id) => (3, *id),
        CapDescriptor::ReceiverAnswer(_) => (4, 0),
        CapDescriptor::ThirdPartyHosted => (5, 0),
        CapDescriptor::Unknown(tag) => (*tag, 0),
    };
    match descriptor {
        CapDescriptor::ReceiverAnswer(answer) => {
            pointers.push(PointerNode::Struct(encode_promised_answer(answer)));
        },
        _ => {
            pointers.push(PointerNode::Null);
        },
    }
    let mut data: Vec<u8> = Vec::new();
    push_u16(&mut data, tag);
    push_u16(&mut data, 0);
    push_u32(&mut data, id);
    StructNode { data, pointers }
}

fn encode_payload<P: Runtime>(payload: &Payload<P>) -> (node: StructNode)
    ensures
        is_payload(node, payload@),
{
    let mut elements: Vec<StructNode> = Vec::new();
    let mut i: usize = 0;
    while i < payload.cap_table.len()
        invariant
            i <= payload.cap_table@.len(),
            elements@.len() == i,
            forall|j: int|
                0 <= j < i ==> is_cap_descriptor(
                    #[trigger] elements@[j],
                    payload.cap_table@[j]@,
                ),
        decreases payload.cap_table@.len() - i,
    {
        elements.push(encode_cap_descriptor(&payload.cap_table[i]));
        i = i + 1;
    }
    let mut pointers: Vec<PointerNode> = Vec::new();
    pointers.push(content_node(&payload.content));
    pointers.push(PointerNode::List(elements));
    StructNode { data: Vec::new(), pointers }
}

fn encode_call<P: Runtime>(call: &Call<P>) -> (node: StructNode)
    ensures
        is_call(node, call@),
{
    let mut data: Vec<u8> = Vec::new();
    push_u32(&mut data, call.question_id);
    push_u16(&mut data, call.method_id);
    push_u16(&mut data, 0);
    push_u64(&mut data, call.interface_id);
    push_u64(&mut data, 0);
    let mut pointers: Vec<PointerNode> = Vec::new();
    pointers.push(PointerNode::Struct(encode_message_target(&call.target)));
    pointers.push(PointerNode::Struct(encode_payload(&call.params)));
    pointers.push(PointerNode::Null);
    StructNode { data, pointers }
}

fn encode_exception(exception: &Exception) -> (node: StructNode)
    ensures
        is_exception(node, exception@),
{
    let mut data: Vec<u8> = Vec::new();
    push_u64(&mut data, 0);
    let mut reason: Vec<u8> = Vec::new();
    let mut i: usize = 0;
    while i < exception.reason.len()
        invariant
            i <= exception.reason@.len(),
            reason@ == exception.reason@.take(i as int),
        decreases exception.reason@.len() - i,
    {
        reason.push(exception.reason[i]);
        i = i + 1;
        assert(exception.reason@.take(i as int) =~= exception.reason@.take(i - 1).push(
            exception.reason@[i - 1],
        ));
    }
    assert(exception.reason@.take(i as int) =~= exception.reason@);
    let mut pointers: Vec<PointerNode> = Vec::new();
    pointers.push(PointerNode::Text(reason));
    StructNode { data, pointers }
}

fn encode_return<P: Runtime>(ret: &Return<P>) -> (node: StructNode)
    ensures
        is_return(node, ret@),
{
    let mut pointers: Vec<PointerNode> = Vec::new();
    let (tag, other): (u16, u32) = match &ret.body {
        ReturnBody::Results(payload) => {
            pointers.push(PointerNode::Struct(encode_payload(payload)));
            (0, 0)
        },
        ReturnBody::Exception(exception) => {
            pointers.push(PointerNode::Struct(encode_exception(exception)));
            (1, 0)
        },
        ReturnBody::Canceled => {
            pointers.push(PointerNode::Null);
            (2, 0)
        },
        ReturnBody::ResultsSentElsewhere => {
            pointers.push(PointerNode::Null);
            (3, 0)
        },
        ReturnBody::TakeFromOtherQuestion(id) => {
            pointers.push(PointerNode::Null);
            (4, *id)
        },
        ReturnBody::AcceptFromThirdParty => {
            pointers.push(PointerNode::Null);
            (5, 0)
        },
        ReturnBody::Unknown(tag) => {
            pointers.push(PointerNode::Null);
            (*tag, 0)
        },
    };
    let mut data: Vec<u8> = Vec::new();
    push_u32(&mut data, ret.answer_id);
    push_u16(&mut data, 0);
    push_u16(&mut data, tag);
    push_u32(&mut data, other);
    push_u32(&mut data, 0);
    StructNode { data, pointers }
}

/// A struct of two numbers and the given pointers.
fn pair_node(first: u32, second: u32, pointers: Vec<PointerNode>) -> (node: StructNode)
    ensures
        node.data@ == crate::node::le32(first) + crate::node::le32(second),
        node.pointers == pointers,
{
    let mut data: Vec<u8> = Vec::new();
    push_u32(&mut data, first);
    push_u32(&mut data, second);
    assert(data@ =~= crate::node::le32(first) + crate::node::le32(second));
    StructNode { data, pointers }
}

/// The root struct of `message`.
pub fn encode_message<P: Runtime>(message: &Message<P>) -> (node: StructNode)
    ensures
        is_message(node, message@),
{
    let (tag, body): (u16, PointerNode) = match message {
        Message::Unimplemented => (0, PointerNode::Null),
        Message::Abort(exception) => (1, PointerNode::Struct(encode_exception(exception))),
        Message::Call(call) => (2, PointerNode::Struct(encode_call(call))),
        Message::Return(ret) => (3, PointerNode::Struct(encode_return(ret))),
        Message::Finish(finish) => {
            let flag: u32 = if finish.release_result_caps {
                0
            } else {
                1
            };
            (4, PointerNode::Struct(pair_node(finish.question_id, flag, Vec::new())))
        },
        Message::Resolve => (5, PointerNode::Null),
        Message::Release(release) => (
            6,
            PointerNode::Struct(pair_node(release.id, release.reference_count, Vec::new())),
        ),
        Message::ObsoleteSave => (7, PointerNode::Null),
        Message::Bootstrap(bootstrap) => {
            let mut pointers: Vec<PointerNode> = Vec::new();
            pointers.push(content_node(&bootstrap.deprecated_object_id));
            (8, PointerNode::Struct(pair_node(bootstrap.question_id, 0, pointers)))
        },
        Message::ObsoleteDelete => (9, PointerNode::Null),
        Message::Provide => (10, PointerNode::Null),
        Message::Accept => (11, PointerNode::Null),
        Message::Join => (12, PointerNode::Null),
        Message::Disembargo => (13, PointerNode::Null),
        Message::Unknown(tag) => (*tag, PointerNode::Null),
    };
    let mut data: Vec<u8> = Vec::new();
    push_u16(&mut data, tag);
    push_u16(&mut data, 0);
    push_u32(&mut data, 0);
    let mut pointers: Vec<PointerNode> = Vec::new();
    pointers.push(body);
    StructNode { data, pointers }
}

/// What is called unknown in `answer` is not known under its tag.
pub open spec fn promised_answer_valid(answer: PromisedAnswerView) -> bool {
    forall|i: int|
        0 <= i < answer.transform.len() ==> (#[trigger] answer.transform[i] matches
            TransformOp::Unknown(tag) ==> tag > 1)
}

pub open spec fn message_target_valid(target: MessageTargetView) -> bool {
    match target {
        MessageTargetView::ImportedCap(_) => true,
        MessageTargetView::PromisedAnswer(answer) => promised_answer_valid(answer),
        MessageTargetView::Unknown(tag) => tag > 1,
    }
}

pub open spec fn cap_descriptor_valid(descriptor: CapDescriptorView) -> bool {
    match descriptor {
        CapDescriptorView::ReceiverAnswer(answer) => promised_answer_valid(answer),
        CapDescriptorView::Unknown(tag) => tag > 5,
        _ => true,
    }
}

pub open spec fn payload_valid<P: Runtime>(payload: PayloadView<P>) -> bool {
    forall|i: int|
        0 <= i < payload.cap_table.len() ==> cap_descriptor_valid(
            #[trigger] payload.cap_table[i],
        )
}

/// What is called unknown in `message` is not known under its tag.
pub open spec fn message_valid<P: Runtime>(message: MessageView<P>) -> bool {
    match message {
        MessageView::Call(call) => message_target_valid(call.target) && payload_valid(call.params),
        MessageView::Return(ret) => match ret.body {
            ReturnBodyView::Results(payload) => payload_valid(payload),
            ReturnBodyView::Unknown(tag) => tag > 5,
            _ => true,
        },
        MessageView::Unknown(tag) => tag > 13,
        _ => true,
    }
}

/// `content` is what `message` carries for its user, if it carries anything.
pub open spec fn carries<P: Runtime>(message: MessageView<P>, content: AnyPointer<P>) -> bool {
    match message {
        MessageView::Call(call) => call.params.content == content,
        MessageView::Return(ret) => ret.body matches ReturnBodyView::Results(payload)
            ==> payload.content == content,
        MessageView::Bootstrap(bootstrap) => bootstrap.deprecated_object_id == content,
        _ => true,
    }
}

/// Whether `message` carries anything for its user, and what it is.
pub open spec fn carried<P: Runtime>(message: MessageView<P>) -> Option<AnyPointer<P>> {
    match message {
        MessageView::Call(call) => Some(call.params.content),
        MessageView::Return(ret) => match ret.body {
            ReturnBodyView::Results(payload) => Some(payload.content),
            _ => None,
        },
        MessageView::Bootstrap(bootstrap) => Some(bootstrap.deprecated_object_id),
        _ => None,
    }
}

/// The pointers to follow from the root of `message`, one struct at a time, to
/// what it carries for its user; none if it carries nothing.
pub open spec fn path_to_content<P: Runtime>(message: MessageView<P>) -> Seq<usize> {
    match message {
        MessageView::Call(_) => seq![0, 1, 0],
        MessageView::Return(ret) => if ret.body is Results {
            seq![0, 0, 0]
        } else {
            seq![]
        },
        MessageView::Bootstrap(_) => seq![0, 0],
        _ => seq![],
    }
}

/// The pointer that `path` leads to from `pointer`, one struct at a time.
pub open spec fn follow(pointer: PointerNode, path: Seq<usize>) -> PointerNode
    decreases path.len(),
{
    if path.len() == 0 {
        pointer
    } else {
        match pointer {
            PointerNode::Struct(node) => follow(
                crate::node::pointer(Some(node), path[0] as int),
                path.drop_first(),
            ),
            _ => PointerNode::Null,
        }
    }
}

/// The pointers to follow from the root of `message`, one struct at a time, to
/// what it carries for its user; none if it carries nothing.
pub fn content_path<P: Runtime>(message: &Message<P>) -> (path: Vec<usize>)
    ensures
        path@ == path_to_content(message@),
{
    match message {
        Message::Call(_) => vec![0, 1, 0],
        Message::Return(ret) => match ret.body {
            ReturnBody::Results(_) => vec![0, 0, 0],
            _ => Vec::new(),
        },
        Message::Bootstrap(_) => vec![0, 0],
        _ => Vec::new(),
    }
}

/// What a message carries for its user is where its path leads.
pub proof fn law_content_is_at_the_end_of_its_path<P: Runtime>(
    node: StructNode,
    message: MessageView<P>,
)
    requires
        is_message(node, message),
    ensures
        match carried(message) {
            Some(content) => {
                &&& path_to_content(message).len() > 0
                &&& follow(PointerNode::Struct(node), path_to_content(message)) == content_pointer(
                    content,
                )
            },
            None => path_to_content(message).len() == 0,
        },
{
    reveal_with_fuel(follow, 4);
    let path = path_to_content(message);
    if path.len() > 0 {
        assert(path.drop_first()[0] == path[1]);
        if path.len() > 2 {
            assert(path.drop_first().drop_first()[0] == path[2]);
        }
    }
}

proof fn lemma_op_is_read_back(node: StructNode, op: TransformOp)
    requires
        is_op(node, op),
        op matches TransformOp::Unknown(tag) ==> tag > 1,
    ensures
        crate::schema::op_of(node) == op,
{
    let (tag, index): (u16, u16) = match op {
        TransformOp::Noop => (0, 0),
        TransformOp::GetPointerField(index) => (1, index),
        TransformOp::Unknown(tag) => (tag, 0),
    };
    assert(node.data@.subrange(0, 2) =~= crate::node::le16(tag));
    assert(node.data@.subrange(2, 4) =~= crate::node::le16(index));
    crate::node::law_u16_is_read_back(node, 0, tag);
    crate::node::law_u16_is_read_back(node, 1, index);
}

proof fn lemma_promised_answer_is_read_back(node: StructNode, answer: PromisedAnswerView)
    requires
        is_promised_answer(node, answer),
        promised_answer_valid(answer),
    ensures
        crate::schema::promised_answer_of(Some(node)) == answer,
{
    assert(node.data@.subrange(0, 4) =~= crate::node::le32(answer.question_id));
    crate::node::law_u32_is_read_back(node, 0, answer.question_id);
    let elements = crate::node::list_at(Some(node), 0);
    assert forall|i: int| 0 <= i < elements.len() implies crate::schema::op_of(
        #[trigger] elements[i],
    ) == answer.transform[i] by {
        lemma_op_is_read_back(elements[i], answer.transform[i]);
    }
    assert(crate::schema::ops_of(elements) =~= answer.transform);
}

proof fn lemma_message_target_is_read_back(node: StructNode, target: MessageTargetView)
    requires
        is_message_target(node, target),
        message_target_valid(target),
    ensures
        crate::schema::message_target_of(Some(node)) == target,
{
    let (id, tag): (u32, u16) = match target {
        MessageTargetView::ImportedCap(id) => (id, 0),
        MessageTargetView::PromisedAnswer(_) => (0, 1),
        MessageTargetView::Unknown(tag) => (0, tag),
    };
    assert(node.data@.subrange(0, 4) =~= crate::node::le32(id));
    assert(node.data@.subrange(4, 6) =~= crate::node::le16(tag));
    crate::node::law_u32_is_read_back(node, 0, id);
    crate::node::law_u16_is_read_back(node, 2, tag);
    if let MessageTargetView::PromisedAnswer(answer) = target {
        lemma_promised_answer_is_read_back(node.pointers@[0]->Struct_0, answer);
    }
}

proof fn lemma_cap_descriptor_is_read_back(node: StructNode, descriptor: CapDescriptorView)
    requires
        is_cap_descriptor(node, descriptor),
        cap_descriptor_valid(descriptor),
    ensures
        crate::schema::cap_descriptor_of(node) == descriptor,
{
    let (tag, id): (u16, u32) = match descriptor {
        CapDescriptorView::NoDescriptor => (0, 0),
        CapDescriptorView::SenderHosted(id) => (1, id),
        CapDescriptorView::SenderPromise(id) => (2, id),
        CapDescriptorView::ReceiverHosted(id) => (3, id),
        CapDescriptorView::ReceiverAnswer(_) => (4, 0),
        CapDescriptorView::ThirdPartyHosted => (5, 0),
        CapDescriptorView::Unknown(tag) => (tag, 0),
    };
    assert(node.data@ == tagged_id(tag, id));
    assert(node.data@.subrange(0, 2) =~= crate::node::le16(tag));
    assert(node.data@.subrange(4, 8) =~= crate::node::le32(id));
    crate::node::law_u16_is_read_back(node, 0, tag);
    crate::node::law_u32_is_read_back(node, 1, id);
    if let CapDescriptorView::ReceiverAnswer(answer) = descriptor {
        lemma_promised_answer_is_read_back(node.pointers@[0]->Struct_0, answer);
    }
}

proof fn lemma_payload_is_read_back<P: Runtime>(node: StructNode, payload: PayloadView<P>)
    requires
        is_payload(node, payload),
        payload_valid(payload),
    ensures
        crate::schema::payload_of(Some(node), payload.content) == payload,
{
    let elements = crate::node::list_at(Some(node), 1);
    assert forall|i: int| 0 <= i < elements.len() implies crate::schema::cap_descriptor_of(
        #[trigger] elements[i],
    ) == payload.cap_table[i] by {
        lemma_cap_descriptor_is_read_back(elements[i], payload.cap_table[i]);
    }
    assert(crate::schema::cap_table_of(elements) =~= payload.cap_table);
}

proof fn lemma_call_is_read_back<P: Runtime>(node: StructNode, call: CallView<P>)
    requires
        is_call(node, call),
        message_target_valid(call.target),
        payload_valid(call.params),
    ensures
        crate::schema::call_of(Some(node), call.params.content) == call,
{
    assert(node.data@.subrange(0, 4) =~= crate::node::le32(call.question_id));
    assert(node.data@.subrange(4, 6) =~= crate::node::le16(call.method_id));
    assert(node.data@.subrange(8, 16) =~= crate::node::le64(call.interface_id));
    crate::node::law_u32_is_read_back(node, 0, call.question_id);
    crate::node::law_u16_is_read_back(node, 2, call.method_id);
    crate::node::law_u64_is_read_back(node, 1, call.interface_id);
    lemma_message_target_is_read_back(node.pointers@[0]->Struct_0, call.target);
    lemma_payload_is_read_back(node.pointers@[1]->Struct_0, call.params);
}

proof fn lemma_return_is_read_back<P: Runtime>(
    node: StructNode,
    ret: ReturnView<P>,
    content: AnyPointer<P>,
)
    requires
        is_return(node, ret),
        message_valid(MessageView::Return(ret)),
        carries(MessageView::Return(ret), content),
    ensures
        crate::schema::return_of(Some(node), content) == ret,
{
    let tag = return_tag(ret.body);
    let other = match ret.body {
        ReturnBodyView::TakeFromOtherQuestion(id) => id,
        _ => 0,
    };
    assert(node.data@.subrange(0, 4) =~= crate::node::le32(ret.answer_id));
    assert(node.data@.subrange(6, 8) =~= crate::node::le16(tag));
    assert(node.data@.subrange(8, 12) =~= crate::node::le32(other));
    crate::node::law_u32_is_read_back(node, 0, ret.answer_id);
    crate::node::law_u16_is_read_back(node, 3, tag);
    crate::node::law_u32_is_read_back(node, 2, other);
    if let ReturnBodyView::Results(payload) = ret.body {
        lemma_payload_is_read_back(node.pointers@[0]->Struct_0, payload);
    }
}

proof fn lemma_pair_is_read_back(node: StructNode, first: u32, second: u32)
    requires
        node.data@ == crate::node::le32(first) + crate::node::le32(second),
    ensures
        crate::node::u32_at(Some(node), 0) == first,
        crate::node::u32_at(Some(node), 1) == second,
        crate::node::bit_at(Some(node), 4) == (second % 2 == 1),
{
    assert(node.data@.subrange(0, 4) =~= crate::node::le32(first));
    assert(node.data@.subrange(4, 8) =~= crate::node::le32(second));
    crate::node::law_u32_is_read_back(node, 0, first);
    crate::node::law_u32_is_read_back(node, 1, second);
}

/// The struct of a message is read back as that message.
pub proof fn law_message_is_read_back<P: Runtime>(
    node: StructNode,
    message: MessageView<P>,
    content: AnyPointer<P>,
)
    requires
        is_message(node, message),
        message_valid(message),
        carries(message, content),
    ensures
        crate::schema::message_of(Some(node), content) == message,
{
    let tag = message_tag(message);
    assert(node.data@.subrange(0, 2) =~= crate::node::le16(tag));
    crate::node::law_u16_is_read_back(node, 0, tag);
    match message {
        MessageView::Call(call) => {
            lemma_call_is_read_back(node.pointers@[0]->Struct_0, call);
        },
        MessageView::Return(ret) => {
            lemma_return_is_read_back(node.pointers@[0]->Struct_0, ret, content);
        },
        MessageView::Finish(finish) => {
            let flag: u32 = if finish.release_result_caps {
                0
            } else {
                1
            };
            lemma_pair_is_read_back(node.pointers@[0]->Struct_0, finish.question_id, flag);
        },
        MessageView::Release(release) => {
            lemma_pair_is_read_back(
                node.pointers@[0]->Struct_0,
                release.id,
                release.reference_count,
            );
        },
        MessageView::Bootstrap(bootstrap) => {
            lemma_pair_is_read_back(node.pointers@[0]->Struct_0, bootstrap.question_id, 0);
        },
        _ => {},
    }
}

} // verus!
