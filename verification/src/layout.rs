//! What holds of the bytes and pointers that messages are made of.

use crate::message::{
    AnyPointer, CapDescriptor, CapDescriptorView, Message, MessageTarget, MessageTargetView,
    MessageView, Payload, PipelineOp, PromisedAnswer, PromisedAnswerView, Return, ReturnBody,
    ReturnBodyView, TransformOp,
};
use crate::node::{PointerNode, StructNode};
use crate::runtime::Runtime;
use vstd::prelude::*;

verus! {

/// Byte `i` of `data`; zero beyond its end.
pub open spec fn at(data: Seq<u8>, i: int) -> int {
    if 0 <= i < data.len() {
        data[i] as int
    } else {
        0
    }
}

/// The number in two bytes from byte `i` on, the lowest one first.
pub open spec fn two(data: Seq<u8>, i: int) -> int {
    at(data, i) + 0x100 * at(data, i + 1)
}

/// The number in four bytes from byte `i` on, the lowest one first.
pub open spec fn four(data: Seq<u8>, i: int) -> int {
    at(data, i) + 0x100 * at(data, i + 1) + 0x1_0000 * at(data, i + 2) + 0x100_0000 * at(
        data,
        i + 3,
    )
}

/// The number in eight bytes from byte `i` on, the lowest one first.
pub open spec fn eight(data: Seq<u8>, i: int) -> int {
    four(data, i) + 0x1_0000_0000 * four(data, i + 4)
}

/// The data section of a struct; a missing struct has none.
pub open spec fn data_of(node: Option<StructNode>) -> Seq<u8> {
    match node {
        Some(node) => node.data@,
        None => Seq::empty(),
    }
}

/// The numbers in a struct are read with the lowest byte first, and what is
/// beyond the end of the data section is read as zero.
pub proof fn law_numbers_are_read_lowest_byte_first(node: Option<StructNode>, k: int)
    requires
        0 <= k,
    ensures
        crate::node::byte(node, k) == at(data_of(node), k),
        crate::node::u16_at(node, k) == two(data_of(node), 2 * k),
        crate::node::u32_at(node, k) == four(data_of(node), 4 * k),
        crate::node::u64_at(node, k) == eight(data_of(node), 8 * k),
        crate::node::bit_at(node, k) <==> at(data_of(node), k) % 2 == 1,
{
    lemma_u32(node, k);
    lemma_u32(node, 2 * k);
    lemma_u32(node, 2 * k + 1);
}

proof fn lemma_u32(node: Option<StructNode>, k: int)
    requires
        0 <= k,
    ensures
        crate::node::u16_at(node, k) == two(data_of(node), 2 * k),
        crate::node::u32_at(node, k) == four(data_of(node), 4 * k),
{
}

/// The bytes of a number are its digits, the lowest one first.
pub proof fn law_numbers_are_written_lowest_byte_first(small: u16, middle: u32, large: u64)
    ensures
        crate::node::le16(small).len() == 2,
        two(crate::node::le16(small), 0) == small,
        crate::node::le32(middle).len() == 4,
        four(crate::node::le32(middle), 0) == middle,
        crate::node::le64(large).len() == 8,
        eight(crate::node::le64(large), 0) == large,
{
    lemma_le32(middle);
    let low = (large % 0x1_0000_0000) as u32;
    let high = (large / 0x1_0000_0000) as u32;
    lemma_le32(low);
    lemma_le32(high);
    let data = crate::node::le64(large);
    assert(four(data, 0) == four(crate::node::le32(low), 0));
    assert(four(data, 4) == four(crate::node::le32(high), 0));
}

proof fn lemma_le32(value: u32)
    ensures
        crate::node::le32(value).len() == 4,
        four(crate::node::le32(value), 0) == value,
{
}

/// A pointer of a struct is the one that stands at its place, and null if there
/// is none. What it leads to is read as what it is, and as nothing if it is
/// something else.
pub proof fn law_pointers_are_read_as_what_they_are(
    node: StructNode,
    i: int,
    target: StructNode,
    elements: Vec<StructNode>,
    text: Vec<u8>,
)
    ensures
        crate::node::pointer(None, i) is Null,
        0 <= i < node.pointers@.len() ==> crate::node::pointer(Some(node), i)
            == node.pointers@[i],
        !(0 <= i < node.pointers@.len()) ==> crate::node::pointer(Some(node), i) is Null,
        0 <= i < node.pointers@.len() && node.pointers@[i] == PointerNode::Struct(target) ==> {
            &&& crate::node::struct_at(Some(node), i) == Some(target)
            &&& crate::node::list_at(Some(node), i).len() == 0
            &&& crate::node::text_at(Some(node), i).len() == 0
        },
        0 <= i < node.pointers@.len() && node.pointers@[i] == PointerNode::List(elements) ==> {
            &&& crate::node::struct_at(Some(node), i) is None
            &&& crate::node::list_at(Some(node), i) == elements@
        },
        0 <= i < node.pointers@.len() && node.pointers@[i] == PointerNode::Text(text) ==> {
            &&& crate::node::struct_at(Some(node), i) is None
            &&& crate::node::list_at(Some(node), i).len() == 0
            &&& crate::node::text_at(Some(node), i) == text@
        },
        crate::node::pointer(Some(node), i) is Null || crate::node::pointer(Some(node), i) is Content
            ==> {
            &&& crate::node::struct_at(Some(node), i) is None
            &&& crate::node::list_at(Some(node), i).len() == 0
            &&& crate::node::text_at(Some(node), i).len() == 0
        },
{
}

/// A list of bytes that ends with a zero byte is the text of the bytes before
/// it; any other list is no text.
pub proof fn law_a_list_of_bytes_is_a_text(node: StructNode, i: int, elements: Vec<StructNode>, j: int)
    requires
        0 <= i < node.pointers@.len(),
        node.pointers@[i] == PointerNode::List(elements),
    ensures
        ({
            let text = crate::node::text_at(Some(node), i);
            if elements@.len() > 0 && elements@[0].data@.len() == 1 && at(
                elements@[elements@.len() - 1].data@,
                0,
            ) == 0 {
                &&& text.len() == elements@.len() - 1
                &&& 0 <= j < text.len() ==> text[j] == at(elements@[j].data@, 0)
            } else {
                text.len() == 0
            }
        }),
{
}

/// A message is told by the number in the first two bytes of its root struct,
/// and its fields stand at their places in the struct that the first pointer
/// leads to.
pub proof fn law_the_fields_of_a_message_stand_at_their_places<P: Runtime>(
    node: Option<StructNode>,
    content: AnyPointer<P>,
    i: int,
)
    ensures
        ({
            let tag = two(data_of(node), 0);
            let body = crate::node::struct_at(node, 0);
            let data = data_of(body);
            let message = crate::schema::message_of(node, content);
            &&& tag == 0 ==> message is Unimplemented
            &&& tag == 1 ==> (message matches MessageView::Abort(exception) && exception.reason
                == crate::node::text_at(body, 0))
            &&& tag == 2 ==> (message matches MessageView::Call(call) && {
                let list = crate::node::list_at(crate::node::struct_at(body, 1), 1);
                &&& call.question_id == four(data, 0)
                &&& call.method_id == two(data, 4)
                &&& call.interface_id == eight(data, 8)
                &&& call.target == crate::schema::message_target_of(
                    crate::node::struct_at(body, 0),
                )
                &&& call.params.content == content
                &&& call.params.cap_table.len() == list.len()
                &&& 0 <= i < list.len() ==> call.params.cap_table[i]
                    == crate::schema::cap_descriptor_of(list[i])
            })
            &&& tag == 3 ==> (message matches MessageView::Return(ret) && {
                let kind = two(data, 6);
                let list = crate::node::list_at(crate::node::struct_at(body, 0), 1);
                &&& ret.answer_id == four(data, 0)
                &&& kind == 0 ==> (ret.body matches ReturnBodyView::Results(payload) && {
                    &&& payload.content == content
                    &&& payload.cap_table.len() == list.len()
                    &&& 0 <= i < list.len() ==> payload.cap_table[i]
                        == crate::schema::cap_descriptor_of(list[i])
                })
                &&& kind == 1 ==> (ret.body matches ReturnBodyView::Exception(exception)
                    && exception.reason == crate::node::text_at(
                    crate::node::struct_at(body, 0),
                    0,
                ))
                &&& kind == 2 ==> ret.body is Canceled
                &&& kind == 3 ==> ret.body is ResultsSentElsewhere
                &&& kind == 4 ==> (ret.body matches ReturnBodyView::TakeFromOtherQuestion(id) && id
                    == four(data, 8))
                &&& kind == 5 ==> ret.body is AcceptFromThirdParty
                &&& kind > 5 ==> (ret.body matches ReturnBodyView::Unknown(unknown) && unknown
                    == kind)
            })
            &&& tag == 4 ==> (message matches MessageView::Finish(finish) && {
                &&& finish.question_id == four(data, 0)
                &&& finish.release_result_caps <==> at(data, 4) % 2 == 0
            })
            &&& tag == 5 ==> message is Resolve
            &&& tag == 6 ==> (message matches MessageView::Release(release) && {
                &&& release.id == four(data, 0)
                &&& release.reference_count == four(data, 4)
            })
            &&& tag == 7 ==> message is ObsoleteSave
            &&& tag == 8 ==> (message matches MessageView::Bootstrap(bootstrap) && {
                &&& bootstrap.question_id == four(data, 0)
                &&& bootstrap.deprecated_object_id == content
            })
            &&& tag == 9 ==> message is ObsoleteDelete
            &&& tag == 10 ==> message is Provide
            &&& tag == 11 ==> message is Accept
            &&& tag == 12 ==> message is Join
            &&& tag == 13 ==> message is Disembargo
            &&& tag > 13 ==> (message matches MessageView::Unknown(unknown) && unknown == tag)
        }),
{
    let body = crate::node::struct_at(node, 0);
    law_numbers_are_read_lowest_byte_first(node, 0);
    law_numbers_are_read_lowest_byte_first(body, 0);
    law_numbers_are_read_lowest_byte_first(body, 1);
    law_numbers_are_read_lowest_byte_first(body, 2);
    law_numbers_are_read_lowest_byte_first(body, 3);
    law_numbers_are_read_lowest_byte_first(body, 4);
}

/// The parts of a message are told by the numbers at their places, too.
pub proof fn law_the_parts_of_a_message_stand_at_their_places(
    node: Option<StructNode>,
    element: StructNode,
    i: int,
)
    ensures
        ({
            let tag = two(data_of(node), 4);
            let target = crate::schema::message_target_of(node);
            &&& tag == 0 ==> (target matches MessageTargetView::ImportedCap(id) && id == four(
                data_of(node),
                0,
            ))
            &&& tag == 1 ==> (target matches MessageTargetView::PromisedAnswer(answer) && answer
                == crate::schema::promised_answer_of(crate::node::struct_at(node, 0)))
            &&& tag > 1 ==> (target matches MessageTargetView::Unknown(unknown) && unknown == tag)
        }),
        ({
            let answer = crate::schema::promised_answer_of(node);
            let list = crate::node::list_at(node, 0);
            &&& answer.question_id == four(data_of(node), 0)
            &&& answer.transform.len() == list.len()
            &&& 0 <= i < list.len() ==> answer.transform[i] == crate::schema::op_of(list[i])
        }),
        ({
            let tag = two(element.data@, 0);
            let descriptor = crate::schema::cap_descriptor_of(element);
            let number = four(element.data@, 4);
            &&& tag == 0 ==> descriptor is NoDescriptor
            &&& tag == 1 ==> (descriptor matches CapDescriptorView::SenderHosted(id) && id
                == number)
            &&& tag == 2 ==> (descriptor matches CapDescriptorView::SenderPromise(id) && id
                == number)
            &&& tag == 3 ==> (descriptor matches CapDescriptorView::ReceiverHosted(id) && id
                == number)
            &&& tag == 4 ==> (descriptor matches CapDescriptorView::ReceiverAnswer(answer)
                && answer == crate::schema::promised_answer_of(
                crate::node::struct_at(Some(element), 0),
            ))
            &&& tag == 5 ==> descriptor is ThirdPartyHosted
            &&& tag > 5 ==> (descriptor matches CapDescriptorView::Unknown(unknown) && unknown
                == tag)
        }),
        ({
            let tag = two(element.data@, 0);
            let op = crate::schema::op_of(element);
            &&& tag == 0 ==> op is Noop
            &&& tag == 1 ==> (op matches TransformOp::GetPointerField(index) && index == two(
                element.data@,
                2,
            ))
            &&& tag > 1 ==> (op matches TransformOp::Unknown(unknown) && unknown == tag)
        }),
{
    law_numbers_are_read_lowest_byte_first(node, 0);
    law_numbers_are_read_lowest_byte_first(node, 2);
    law_numbers_are_read_lowest_byte_first(Some(element), 0);
    law_numbers_are_read_lowest_byte_first(Some(element), 1);
}

/// The structs of a message that is sent have the sizes that the protocol gives
/// them, and what holds no field in them is zero or null.
pub proof fn law_what_holds_no_field_is_zero<P: Runtime>(
    node: StructNode,
    message: MessageView<P>,
    i: int,
)
    requires
        crate::encode::is_message(node, message),
    ensures
        node.data@.len() == 8,
        2 <= i < 8 ==> node.data@[i] == 0,
        node.pointers@.len() == 1,
        message matches MessageView::Call(call) ==> (node.pointers@[0] matches PointerNode::Struct(
            body,
        ) && {
            &&& body.data@.len() == 24
            &&& 6 <= i < 8 || 16 <= i < 24 ==> body.data@[i] == 0
            &&& body.pointers@.len() == 3
            &&& body.pointers@[0] is Struct
            &&& body.pointers@[1] matches PointerNode::Struct(params)
            &&& params.data@.len() == 0
            &&& params.pointers@.len() == 2
            &&& params.pointers@[0] is Null <==> call.params.content is Null
            &&& params.pointers@[0] is Null || params.pointers@[0] is Content
            &&& body.pointers@[2] is Null
        }),
        message matches MessageView::Return(ret) ==> (node.pointers@[0] matches PointerNode::Struct(
            body,
        ) && {
            &&& body.data@.len() == 16
            &&& 4 <= i < 6 || 12 <= i < 16 ==> body.data@[i] == 0
            &&& !(ret.body is TakeFromOtherQuestion) && 8 <= i < 12 ==> body.data@[i] == 0
            &&& body.pointers@.len() == 1
            &&& ret.body is Results || ret.body is Exception <==> body.pointers@[0] is Struct
            &&& !(body.pointers@[0] is Struct) ==> body.pointers@[0] is Null
            &&& ret.body matches ReturnBodyView::Results(results) ==> (
            body.pointers@[0]->Struct_0.pointers@[0] is Null <==> results.content is Null)
            &&& ret.body is Exception ==> {
                &&& body.pointers@[0]->Struct_0.data@.len() == 8
                &&& 0 <= i < 8 ==> body.pointers@[0]->Struct_0.data@[i] == 0
                &&& body.pointers@[0]->Struct_0.pointers@.len() == 1
            }
        }),
        message matches MessageView::Finish(finish) ==> (
        node.pointers@[0] matches PointerNode::Struct(body) && {
            &&& body.data@.len() == 8
            &&& 5 <= i < 8 ==> body.data@[i] == 0
            &&& body.data@[4] <= 1
            &&& body.pointers@.len() == 0
        }),
        message is Release ==> (node.pointers@[0] matches PointerNode::Struct(body)
            && body.data@.len() == 8 && body.pointers@.len() == 0),
        message matches MessageView::Bootstrap(bootstrap) ==> (
        node.pointers@[0] matches PointerNode::Struct(body) && {
            &&& body.data@.len() == 8
            &&& 4 <= i < 8 ==> body.data@[i] == 0
            &&& body.pointers@.len() == 1
            &&& body.pointers@[0] is Null <==> bootstrap.deprecated_object_id is Null
        }),
        !(message is Call || message is Return || message is Finish || message is Release
            || message is Bootstrap || message is Abort) ==> node.pointers@[0] is Null,
{
}

/// The same holds of the parts of a message that is sent.
pub proof fn law_what_holds_no_field_of_a_part_is_zero(
    node: StructNode,
    op: TransformOp,
    answer: PromisedAnswerView,
    target: MessageTargetView,
    descriptor: CapDescriptorView,
    i: int,
)
    ensures
        crate::encode::is_op(node, op) ==> {
            &&& node.data@.len() == 8
            &&& 4 <= i < 8 ==> node.data@[i] == 0
            &&& !(op is GetPointerField) && 2 <= i < 4 ==> node.data@[i] == 0
            &&& node.pointers@.len() == 0
        },
        crate::encode::is_promised_answer(node, answer) ==> {
            &&& node.data@.len() == 8
            &&& 4 <= i < 8 ==> node.data@[i] == 0
            &&& node.pointers@.len() == 1
            &&& node.pointers@[0] is List
        },
        crate::encode::is_message_target(node, target) ==> {
            &&& node.data@.len() == 8
            &&& 6 <= i < 8 ==> node.data@[i] == 0
            &&& !(target is ImportedCap) && 0 <= i < 4 ==> node.data@[i] == 0
            &&& node.pointers@.len() == 1
            &&& node.pointers@[0] is Struct <==> target is PromisedAnswer
            &&& node.pointers@[0] is Null <==> !(target is PromisedAnswer)
        },
        crate::encode::is_cap_descriptor(node, descriptor) ==> {
            &&& node.data@.len() == 8
            &&& 2 <= i < 4 ==> node.data@[i] == 0
            &&& !(descriptor is SenderHosted || descriptor is SenderPromise
                || descriptor is ReceiverHosted) && 4 <= i < 8 ==> node.data@[i] == 0
            &&& node.pointers@.len() == 1
            &&& node.pointers@[0] is Struct <==> descriptor is ReceiverAnswer
            &&& node.pointers@[0] is Null <==> !(descriptor is ReceiverAnswer)
        },
{
}

/// A message that was read, whatever is in it, can be sent on so that it is read
/// back as it was.
pub proof fn law_what_is_read_can_be_sent_on<P: Runtime>(
    node: Option<StructNode>,
    content: AnyPointer<P>,
)
    ensures
        crate::encode::message_valid(crate::schema::message_of(node, content)),
        crate::encode::carries(crate::schema::message_of(node, content), content),
{
}

/// Every message without unknown parts is read back from its struct as it was;
/// the parts that this side sends are never unknown.
pub proof fn law_only_unknown_parts_may_not_be_read_back<P: Runtime>(
    message: MessageView<P>,
    caps: Seq<Option<crate::caps::OutgoingCap>>,
    ops: Seq<PipelineOp>,
    id: u32,
    interface_id: u64,
    method_id: u16,
    content: AnyPointer<P>,
)
    ensures
        !(message is Call) && !(message is Return) && !(message is Unknown)
            ==> crate::encode::message_valid(message),
        message is Return && !(message->Return_0.body is Results) && !(
        message->Return_0.body is Unknown) ==> crate::encode::message_valid(message),
        message is Return && message->Return_0.body is Results ==> crate::encode::message_valid(
            crate::caps::with_cap_table(message, crate::caps::outgoing_cap_table(caps)),
        ),
        crate::encode::message_valid(
            crate::caps::with_cap_table(
                crate::client::new_call::<P>(
                    MessageTargetView::PromisedAnswer(
                        PromisedAnswerView {
                            question_id: id,
                            transform: crate::caps::transform(ops),
                        },
                    ),
                    interface_id,
                    method_id,
                ),
                crate::caps::outgoing_cap_table(caps),
            ),
        ),
        crate::encode::message_valid(
            crate::caps::with_cap_table(
                crate::client::new_call::<P>(
                    MessageTargetView::ImportedCap(id),
                    interface_id,
                    method_id,
                ),
                crate::caps::outgoing_cap_table(caps),
            ),
        ),
        crate::encode::carries(message, content) <==> (match message {
            MessageView::Call(call) => call.params.content == content,
            MessageView::Return(ret) => !(ret.body is Results) || ret.body->Results_0.content
                == content,
            MessageView::Bootstrap(bootstrap) => bootstrap.deprecated_object_id == content,
            _ => true,
        }),
{
    lemma_outgoing_tables_are_known(caps);
}

proof fn lemma_outgoing_tables_are_known(caps: Seq<Option<crate::caps::OutgoingCap>>)
    ensures
        forall|i: int|
            0 <= i < crate::caps::outgoing_cap_table(caps).len()
                ==> crate::encode::cap_descriptor_valid(
                #[trigger] crate::caps::outgoing_cap_table(caps)[i],
            ),
    decreases caps.len(),
{
    if caps.len() > 0 {
        lemma_outgoing_tables_are_known(caps.drop_last());
        let before = crate::caps::outgoing_cap_table(caps.drop_last());
        let table = crate::caps::outgoing_cap_table(caps);
        assert forall|i: int| 0 <= i < table.len() implies crate::encode::cap_descriptor_valid(
            #[trigger] table[i],
        ) by {
            if i < before.len() {
                assert(table[i] == before[i]);
            }
        }
    }
}

/// A message that this side sends can be read by the other side, reason and
/// all.
pub proof fn law_what_is_sent_can_be_read<P: Runtime>(node: StructNode, message: MessageView<P>)
    requires
        crate::encode::is_message(node, message),
    ensures
        crate::reader::to_struct(PointerNode::Struct(node), true),
        crate::reader::message_readable(Some(node), true),
        crate::reader::reason_readable(Some(node), true),
{
    let body = crate::node::struct_at(Some(node), 0);
    match message {
        MessageView::Call(call) => {
            let params = crate::node::struct_at(body, 1);
            lemma_tables_can_be_read(params->0, call.params.cap_table);
        },
        MessageView::Return(ret) => {
            if ret.body is Results {
                lemma_tables_can_be_read(
                    crate::node::struct_at(body, 0)->0,
                    ret.body->Results_0.cap_table,
                );
            } else if !(ret.body is Exception) {
                assert(crate::node::struct_at(body, 0) is None);
            }
        },
        _ => {},
    }
}

proof fn lemma_tables_can_be_read(node: StructNode, table: Seq<CapDescriptorView>)
    requires
        node.pointers@.len() == 2,
        node.pointers@[1] is List,
        node.pointers@[1]->List_0@.len() == table.len(),
        forall|i: int|
            0 <= i < table.len() ==> crate::encode::is_cap_descriptor(
                #[trigger] node.pointers@[1]->List_0@[i],
                table[i],
            ),
    ensures
        crate::reader::payload_readable(Some(node), true),
{
    let list = crate::node::list_at(Some(node), 1);
    assert forall|i: int| 0 <= i < list.len() implies crate::reader::cap_descriptor_readable(
        #[trigger] list[i],
        true,
    ) by {
        assert(crate::encode::is_cap_descriptor(node.pointers@[1]->List_0@[i], table[i]));
    }
}

/// A null pointer can always be followed. Another one can only be followed to
/// what it leads to, and only if reading is free.
pub proof fn law_pointers_are_followed_to_what_they_lead_to(pointer: PointerNode, free: bool)
    ensures
        pointer is Null ==> crate::reader::to_struct(pointer, free) && crate::reader::to_list(
            pointer,
            free,
        ) && crate::reader::to_text(pointer, free),
        !(pointer is Null) ==> {
            &&& crate::reader::to_struct(pointer, free) <==> free && pointer is Struct
            &&& crate::reader::to_list(pointer, free) <==> free && pointer is List
            &&& crate::reader::to_text(pointer, free) ==> free && (pointer is Text
                || pointer is List)
            &&& free && pointer is Text ==> crate::reader::to_text(pointer, free)
        },
        pointer matches PointerNode::List(elements) ==> (crate::reader::to_text(
            pointer,
            free,
        ) <==> free && elements@.len() > 0 && elements@[0].data@.len() == 1 && at(
            elements@[elements@.len() - 1].data@,
            0,
        ) == 0),
{
}

/// To read a message each pointer on the way, and no other, has to lead to what
/// is expected there.
pub proof fn law_each_pointer_on_the_way_counts(node: Option<StructNode>, free: bool)
    ensures
        ({
            let tag = two(data_of(node), 0);
            let first = crate::node::pointer(node, 0);
            let body = crate::node::struct_at(node, 0);
            let readable = crate::reader::message_readable(node, free);
            &&& tag == 0 || tag == 5 || tag == 7 || tag > 8 ==> readable
            &&& tag == 4 || tag == 6 || tag == 8 ==> (readable <==> crate::reader::to_struct(
                first,
                free,
            ))
            &&& tag == 1 ==> (readable <==> crate::reader::to_struct(first, free)
                && crate::reader::to_text(crate::node::pointer(body, 0), free))
            &&& tag == 2 ==> (readable <==> {
                &&& crate::reader::to_struct(first, free)
                &&& crate::reader::to_struct(crate::node::pointer(body, 0), free)
                &&& crate::reader::to_struct(crate::node::pointer(body, 1), free)
                &&& crate::reader::message_target_readable(crate::node::struct_at(body, 0), free)
                &&& crate::reader::payload_readable(crate::node::struct_at(body, 1), free)
            })
            &&& tag == 3 ==> (readable <==> {
                let kind = two(data_of(body), 6);
                &&& crate::reader::to_struct(first, free)
                &&& kind <= 1 ==> crate::reader::to_struct(crate::node::pointer(body, 0), free)
                &&& kind == 0 ==> crate::reader::payload_readable(
                    crate::node::struct_at(body, 0),
                    free,
                )
            })
            &&& tag == 3 && two(data_of(body), 6) == 1 ==> (crate::reader::reason_readable(
                node,
                free,
            ) <==> crate::reader::to_text(
                crate::node::pointer(crate::node::struct_at(body, 0), 0),
                free,
            ))
            &&& !(tag == 3 && two(data_of(body), 6) == 1) ==> crate::reader::reason_readable(
                node,
                free,
            )
        }),
{
    let body = crate::node::struct_at(node, 0);
    law_numbers_are_read_lowest_byte_first(node, 0);
    law_numbers_are_read_lowest_byte_first(body, 3);
}

/// The same holds of the parts of a message.
pub proof fn law_each_pointer_on_the_way_to_a_part_counts(
    node: Option<StructNode>,
    element: StructNode,
    free: bool,
)
    ensures
        crate::reader::promised_answer_readable(node, free) <==> crate::reader::to_list(
            crate::node::pointer(node, 0),
            free,
        ),
        crate::reader::message_target_readable(node, free) <==> two(data_of(node), 4) != 1 || (
        crate::reader::to_struct(crate::node::pointer(node, 0), free) && crate::reader::to_list(
            crate::node::pointer(crate::node::struct_at(node, 0), 0),
            free,
        )),
        crate::reader::cap_descriptor_readable(element, free) <==> two(element.data@, 0) != 4 || (
        crate::reader::to_struct(crate::node::pointer(Some(element), 0), free)
            && crate::reader::to_list(
            crate::node::pointer(crate::node::struct_at(Some(element), 0), 0),
            free,
        )),
        crate::reader::payload_readable(node, free) <==> {
            let list = crate::node::list_at(node, 1);
            &&& crate::reader::to_list(crate::node::pointer(node, 1), free)
            &&& forall|i: int|
                0 <= i < list.len() ==> crate::reader::cap_descriptor_readable(
                    #[trigger] list[i],
                    free,
                )
        },
{
    law_numbers_are_read_lowest_byte_first(node, 2);
    law_numbers_are_read_lowest_byte_first(Some(element), 0);
}

/// To leave out the reason of an exception that is returned changes nothing
/// else, and no other message.
pub proof fn law_only_the_reason_is_left_out<P: Runtime>(message: MessageView<P>)
    ensures
        message is Return && message->Return_0.body is Exception ==> (
        crate::reader::without_reason(message) matches MessageView::Return(short) && {
            &&& short.answer_id == message->Return_0.answer_id
            &&& short.body matches ReturnBodyView::Exception(exception) && exception.reason.len()
                == 0
        }),
        !(message is Return && message->Return_0.body is Exception)
            ==> crate::reader::without_reason(message) == message,
{
}

/// What a message is seen as has every field of it.
pub proof fn law_a_message_is_seen_with_every_field<P: Runtime>(message: Message<P>)
    ensures
        message matches Message::Call(call) ==> (message@ matches MessageView::Call(seen) && {
            &&& seen.question_id == call.question_id
            &&& seen.target == call.target@
            &&& seen.interface_id == call.interface_id
            &&& seen.method_id == call.method_id
            &&& seen.params == call.params@
        }),
        message matches Message::Return(ret) ==> (message@ matches MessageView::Return(seen)
            && seen == ret@),
        message matches Message::Abort(exception) ==> (message@ matches MessageView::Abort(seen)
            && seen.reason == exception.reason@),
        message matches Message::Finish(finish) ==> message@ == MessageView::<P>::Finish(finish),
        message matches Message::Release(release) ==> message@ == MessageView::<P>::Release(
            release,
        ),
        message matches Message::Bootstrap(bootstrap) ==> message@ == MessageView::Bootstrap(
            bootstrap,
        ),
        message matches Message::Unknown(tag) ==> message@ == MessageView::<P>::Unknown(tag),
        message is Unimplemented <==> message@ is Unimplemented,
        message is Resolve <==> message@ is Resolve,
        message is ObsoleteSave <==> message@ is ObsoleteSave,
        message is ObsoleteDelete <==> message@ is ObsoleteDelete,
        message is Provide <==> message@ is Provide,
        message is Accept <==> message@ is Accept,
        message is Join <==> message@ is Join,
        message is Disembargo <==> message@ is Disembargo,
{
}

/// The same holds of the parts of a message.
pub proof fn law_the_parts_are_seen_with_every_field<P: Runtime>(
    ret: Return<P>,
    payload: Payload<P>,
    target: MessageTarget,
    descriptor: CapDescriptor,
    answer: PromisedAnswer,
    i: int,
)
    ensures
        ret@.answer_id == ret.answer_id,
        ret.body matches ReturnBody::Results(results) ==> (
        ret@.body matches ReturnBodyView::Results(seen) && seen == results@),
        ret.body matches ReturnBody::Exception(exception) ==> (
        ret@.body matches ReturnBodyView::Exception(seen) && seen.reason == exception.reason@),
        ret.body is Canceled <==> ret@.body is Canceled,
        ret.body is ResultsSentElsewhere <==> ret@.body is ResultsSentElsewhere,
        ret.body matches ReturnBody::TakeFromOtherQuestion(id) ==> (
        ret@.body matches ReturnBodyView::TakeFromOtherQuestion(seen) && seen == id),
        ret.body is AcceptFromThirdParty <==> ret@.body is AcceptFromThirdParty,
        ret.body matches ReturnBody::Unknown(tag) ==> (ret@.body matches ReturnBodyView::Unknown(
            seen,
        ) && seen == tag),
        payload@.content == payload.content,
        payload@.cap_table.len() == payload.cap_table@.len(),
        0 <= i < payload.cap_table@.len() ==> payload@.cap_table[i] == payload.cap_table@[i]@,
        target matches MessageTarget::ImportedCap(id) ==> target@ == MessageTargetView::ImportedCap(
            id,
        ),
        target matches MessageTarget::PromisedAnswer(promised) ==> target@
            == MessageTargetView::PromisedAnswer(promised@),
        target matches MessageTarget::Unknown(tag) ==> target@ == MessageTargetView::Unknown(tag),
        descriptor is NoDescriptor <==> descriptor@ is NoDescriptor,
        descriptor is ThirdPartyHosted <==> descriptor@ is ThirdPartyHosted,
        descriptor matches CapDescriptor::SenderHosted(id) ==> descriptor@
            == CapDescriptorView::SenderHosted(id),
        descriptor matches CapDescriptor::SenderPromise(id) ==> descriptor@
            == CapDescriptorView::SenderPromise(id),
        descriptor matches CapDescriptor::ReceiverHosted(id) ==> descriptor@
            == CapDescriptorView::ReceiverHosted(id),
        descriptor matches CapDescriptor::ReceiverAnswer(promised) ==> descriptor@
            == CapDescriptorView::ReceiverAnswer(promised@),
        descriptor matches CapDescriptor::Unknown(tag) ==> descriptor@
            == CapDescriptorView::Unknown(tag),
        answer@.question_id == answer.question_id,
        answer@.transform == answer.transform@,
{
}

/// Empty results are results with nothing in them, and an exception is one with
/// its reason; both are under the number of the answer.
pub proof fn law_new_returns_say_what_they_are_for<P: Runtime>(answer_id: u32, reason: Seq<u8>)
    ensures
        MessageView::<P>::empty_results(answer_id) matches MessageView::Return(ret) && {
            &&& ret.answer_id == answer_id
            &&& ret.body matches ReturnBodyView::Results(payload) && payload.content is Null
                && payload.cap_table.len() == 0
        },
        MessageView::<P>::exception(answer_id, reason) matches MessageView::Return(ret) && {
            &&& ret.answer_id == answer_id
            &&& ret.body matches ReturnBodyView::Exception(exception) && exception.reason == reason
        },
{
}

/// What a message carries for its user is the content of its parameters or
/// results, or the object that it asks for; the way there is by its body and,
/// of parameters and results, by the payload.
pub proof fn law_what_a_message_carries<P: Runtime>(message: MessageView<P>)
    ensures
        message matches MessageView::Call(call) ==> {
            &&& crate::encode::carried(message) == Some(call.params.content)
            &&& crate::encode::path_to_content(message) == seq![0usize, 1, 0]
        },
        message is Return && message->Return_0.body is Results ==> {
            &&& crate::encode::carried(message) == Some(
                message->Return_0.body->Results_0.content,
            )
            &&& crate::encode::path_to_content(message) == seq![0usize, 0, 0]
        },
        message matches MessageView::Bootstrap(bootstrap) ==> {
            &&& crate::encode::carried(message) == Some(bootstrap.deprecated_object_id)
            &&& crate::encode::path_to_content(message) == seq![0usize, 0]
        },
        !(message is Call) && !(message is Bootstrap) && !(message is Return
            && message->Return_0.body is Results) ==> {
            &&& crate::encode::carried(message) is None
            &&& crate::encode::path_to_content(message).len() == 0
        },
{
}

/// The root of a message is the struct that its pointer leads to; there is none
/// if the pointer is null or leads to something else.
pub proof fn law_the_root_is_what_the_pointer_leads_to(
    root: capnp::any_pointer::Reader<'_>,
    node: StructNode,
)
    ensures
        crate::reader::pointer_node(root) == PointerNode::Struct(node)
            <==> crate::reader::root_node(root) == Some(node),
{
}

} // verus!
