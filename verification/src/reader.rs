//! Reading messages out of the wire format, which the `capnp` crate knows.

use crate::message::{AnyPointer, Message, MessageView};
use crate::node::{PointerNode, StructNode};
use crate::runtime::Runtime;
use crate::schema::decode_message;
use capnp::private::layout::StructReader;
use capnp::traits::IntoInternalStructReader;
use vstd::prelude::*;

verus! {

/// The error of the `capnp` crate, which tells why a message is malformed or
/// takes too much reading.
#[verifier::external_type_specification]
#[verifier::external_body]
pub struct ExError(capnp::Error);

/// A pointer in a message, with the message it is in.
#[verifier::external_type_specification]
#[verifier::external_body]
pub struct ExAnyPointerReader<'a>(capnp::any_pointer::Reader<'a>);

/// A struct in a message, with the message it is in.
#[verifier::external_type_specification]
#[verifier::external_body]
pub struct ExStructReader<'a>(StructReader<'a>);

/// What a pointer in a message leads to. A pointer that is null or missing is a
/// `PointerNode::Null`, and one to a list of any kind but bits is a
/// `PointerNode::List`. Where that list cannot be followed because it is nested
/// too deeply but it is a text, it is a `PointerNode::Text`, for texts are read
/// at any depth. Any other pointer that cannot be followed is a
/// `PointerNode::Content`.
pub uninterp spec fn pointer_node(pointer: capnp::any_pointer::Reader<'_>) -> PointerNode;

/// What a struct in a message holds: the bytes of its data section, and what
/// each pointer of its pointer section leads to.
pub uninterp spec fn struct_node(reader: StructReader<'_>) -> StructNode;

/// Whether the message that a pointer is in was opened without a limit on how
/// much of it is read: `traversal_limit_in_words` of the options is `None`.
pub uninterp spec fn pointer_unlimited(pointer: capnp::any_pointer::Reader<'_>) -> bool;

/// Whether the message that a struct is in was opened without such a limit.
pub uninterp spec fn struct_unlimited(reader: StructReader<'_>) -> bool;

/// `pointer` can be followed to a struct. A pointer that is null always can;
/// another one has to lead to a struct, and is followed only if `free`.
pub open spec fn to_struct(pointer: PointerNode, free: bool) -> bool {
    match pointer {
        PointerNode::Null => true,
        PointerNode::Struct(_) => free,
        _ => false,
    }
}

/// `pointer` can be followed to a list of structs, in the same way.
pub open spec fn to_list(pointer: PointerNode, free: bool) -> bool {
    match pointer {
        PointerNode::Null => true,
        PointerNode::List(_) => free,
        _ => false,
    }
}

/// `pointer` can be followed to a text, in the same way.
pub open spec fn to_text(pointer: PointerNode, free: bool) -> bool {
    match pointer {
        PointerNode::Null => true,
        PointerNode::Text(_) => free,
        PointerNode::List(elements) => free && crate::node::is_text(elements@),
        _ => false,
    }
}

/// The pointers that are followed to read a promised answer can be followed.
pub open spec fn promised_answer_readable(node: Option<StructNode>, free: bool) -> bool {
    to_list(crate::node::pointer(node, 0), free)
}

/// The pointers that are followed to read the target of a call can be followed.
pub open spec fn message_target_readable(node: Option<StructNode>, free: bool) -> bool {
    crate::node::u16_at(node, 2) == 1 ==> {
        &&& to_struct(crate::node::pointer(node, 0), free)
        &&& promised_answer_readable(crate::node::struct_at(node, 0), free)
    }
}

/// The pointers that are followed to read a descriptor can be followed.
pub open spec fn cap_descriptor_readable(node: StructNode, free: bool) -> bool {
    crate::node::u16_at(Some(node), 0) == 4 ==> {
        &&& to_struct(crate::node::pointer(Some(node), 0), free)
        &&& promised_answer_readable(crate::node::struct_at(Some(node), 0), free)
    }
}

/// The pointers that are followed to read a payload can be followed.
pub open spec fn payload_readable(node: Option<StructNode>, free: bool) -> bool {
    let list = crate::node::list_at(node, 1);
    &&& to_list(crate::node::pointer(node, 1), free)
    &&& forall|i: int|
        0 <= i < list.len() ==> cap_descriptor_readable(#[trigger] list[i], free)
}

/// The pointers that are followed to read a call can be followed.
pub open spec fn call_readable(node: Option<StructNode>, free: bool) -> bool {
    &&& to_struct(crate::node::pointer(node, 0), free)
    &&& message_target_readable(crate::node::struct_at(node, 0), free)
    &&& to_struct(crate::node::pointer(node, 1), free)
    &&& payload_readable(crate::node::struct_at(node, 1), free)
}

/// The pointers that are followed to read an exception can be followed.
pub open spec fn exception_readable(node: Option<StructNode>, free: bool) -> bool {
    to_text(crate::node::pointer(node, 0), free)
}

/// The pointers that are followed to read a return can be followed. The reason
/// of an exception is not among them: a return is read without it, too.
pub open spec fn return_readable(node: Option<StructNode>, free: bool) -> bool {
    let tag = crate::node::u16_at(node, 3);
    &&& (tag == 0 || tag == 1) ==> to_struct(crate::node::pointer(node, 0), free)
    &&& tag == 0 ==> payload_readable(crate::node::struct_at(node, 0), free)
}

/// The pointers that are followed from the root struct of a message to read
/// the message can be followed.
pub open spec fn message_readable(node: Option<StructNode>, free: bool) -> bool {
    let tag = crate::node::u16_at(node, 0);
    let body = crate::node::struct_at(node, 0);
    &&& (tag == 1 || tag == 2 || tag == 3 || tag == 4 || tag == 6 || tag == 8) ==> to_struct(
        crate::node::pointer(node, 0),
        free,
    )
    &&& tag == 1 ==> exception_readable(body, free)
    &&& tag == 2 ==> call_readable(body, free)
    &&& tag == 3 ==> return_readable(body, free)
}

/// The pointer to the reason can be followed, if the root struct `node` is that
/// of a return with an exception.
pub open spec fn reason_readable(node: Option<StructNode>, free: bool) -> bool {
    let body = crate::node::struct_at(node, 0);
    crate::node::u16_at(node, 0) == 3 && crate::node::u16_at(body, 3) == 1 ==> exception_readable(
        crate::node::struct_at(body, 0),
        free,
    )
}

/// `message` without the reason, if it is a return with an exception.
pub open spec fn without_reason<P: Runtime>(message: MessageView<P>) -> MessageView<P> {
    match message {
        MessageView::Return(ret) => if ret.body is Exception {
            MessageView::exception(ret.answer_id, Seq::empty())
        } else {
            message
        },
        _ => message,
    }
}

/// A struct without any data and pointers reads as one that is missing.
proof fn lemma_empty_struct(node: StructNode)
    requires
        node.data@.len() == 0,
        node.pointers@.len() == 0,
    ensures
        forall|k: int| #[trigger]
            crate::node::u16_at(Some(node), k) == crate::node::u16_at(None, k),
        forall|i: int| #[trigger]
            crate::node::pointer(Some(node), i) == crate::node::pointer(None, i),
{
}

/// `node` is what the struct that `pointer` leads to holds, which is nothing
/// if the pointer is null.
pub open spec fn leads_to(pointer: PointerNode, node: StructNode) -> bool {
    match pointer {
        PointerNode::Struct(target) => node == target,
        PointerNode::Null => node.data@.len() == 0 && node.pointers@.len() == 0,
        _ => false,
    }
}

/// `capnp::any_pointer::Reader::get_as`, for a struct. It gives the struct that
/// the pointer leads to, and always an empty one for a null pointer. It fails if
/// the pointer leads to something else, is malformed or is nested too deeply.
/// It may also fail because more of the message has been read than its reader
/// allows: only where there is no such limit does it always give the struct.
/// `node` is a struct of the `capnp` crate's own, of which no field is read.
#[verifier::external_body]
fn root_struct<'a>(pointer: &capnp::any_pointer::Reader<'a>) -> (reader: Result<
    StructReader<'a>,
    capnp::Error,
>)
    ensures
        reader matches Ok(reader) ==> {
            &&& leads_to(pointer_node(*pointer), struct_node(reader))
            &&& pointer_unlimited(*pointer) ==> struct_unlimited(reader)
        },
        to_struct(pointer_node(*pointer), pointer_unlimited(*pointer)) ==> reader is Ok,
{
    let root: capnp::schema_capnp::node::Reader<'a> = pointer.get_as()?;
    Ok(root.into_internal_struct_reader())
}

/// `StructReader::get_data_field`, for a byte. It gives the byte of the data
/// section, and zero beyond its end.
#[verifier::external_body]
fn data_byte(reader: &StructReader<'_>, i: usize) -> (value: u8)
    ensures
        value == crate::node::byte(Some(struct_node(*reader)), i as int),
{
    reader.get_data_field::<u8>(i)
}

/// `StructReader::get_pointer_field`, then `PointerReader::get_struct`. They
/// give the struct that pointer `i` leads to, and an empty one where the
/// pointer is null or beyond the end of the pointer section. When they fail is
/// as with `root_struct`.
#[verifier::external_body]
fn struct_field<'a>(reader: &StructReader<'a>, i: usize) -> (field: Result<
    StructReader<'a>,
    capnp::Error,
>)
    ensures
        field matches Ok(field) ==> {
            &&& leads_to(
                crate::node::pointer(Some(struct_node(*reader)), i as int),
                struct_node(field),
            )
            &&& struct_unlimited(*reader) ==> struct_unlimited(field)
        },
        to_struct(
            crate::node::pointer(Some(struct_node(*reader)), i as int),
            struct_unlimited(*reader),
        ) ==> field is Ok,
{
    reader.get_pointer_field(i).get_struct(None)
}

/// `StructReader::get_pointer_field`, then `capnp::any_pointer::Reader::get_as`
/// for a list of structs, then the elements of that list. They give the
/// elements in order, and none where the pointer is null or beyond the end of
/// the pointer section. The elements are taken as structs of the `capnp`
/// crate's own, of which no field is read. They fail where the pointer leads to
/// anything but such a list; otherwise when they fail is as with `root_struct`.
#[verifier::external_body]
fn list_field<'a>(reader: &StructReader<'a>, i: usize) -> (elements: Result<
    Vec<StructReader<'a>>,
    capnp::Error,
>)
    ensures
        elements matches Ok(elements) ==> {
            let list = crate::node::list_at(Some(struct_node(*reader)), i as int);
            &&& to_list(crate::node::pointer(Some(struct_node(*reader)), i as int), true)
            &&& elements@.len() == list.len()
            &&& forall|j: int|
                0 <= j < list.len() ==> struct_node(#[trigger] elements@[j]) == list[j]
            &&& forall|j: int|
                0 <= j < list.len() && struct_unlimited(*reader) ==> struct_unlimited(
                    #[trigger] elements@[j],
                )
        },
        to_list(
            crate::node::pointer(Some(struct_node(*reader)), i as int),
            struct_unlimited(*reader),
        ) ==> elements is Ok,
{
    let pointer = capnp::any_pointer::Reader::new(reader.get_pointer_field(i));
    let list: capnp::struct_list::Reader<'a, capnp::schema_capnp::node::Owned> = pointer.get_as()?;
    Ok(list.iter().map(|element| element.into_internal_struct_reader()).collect())
}

/// `StructReader::get_pointer_field`, then `PointerReader::get_text`. They give
/// the bytes of the text that pointer `i` leads to, without the zero byte that
/// ends it, and none where the pointer is null or beyond the end of the pointer
/// section. They fail where the pointer leads to anything but a list of bytes
/// that ends with a zero byte; otherwise when they fail is as with
/// `root_struct`, but for the depth, which does not count.
#[verifier::external_body]
fn text_field(reader: &StructReader<'_>, i: usize) -> (text: Result<Vec<u8>, capnp::Error>)
    ensures
        text matches Ok(text) ==> {
            &&& to_text(crate::node::pointer(Some(struct_node(*reader)), i as int), true)
            &&& text@ == crate::node::text_at(Some(struct_node(*reader)), i as int)
        },
        to_text(
            crate::node::pointer(Some(struct_node(*reader)), i as int),
            struct_unlimited(*reader),
        ) ==> text is Ok,
{
    Ok(reader.get_pointer_field(i).get_text(None)?.as_bytes().to_vec())
}

/// The bytes of `data` are those of the data section.
spec fn is_data(data: Seq<u8>, reader: StructReader<'_>) -> bool {
    forall|i: int|
        0 <= i < data.len() ==> #[trigger] data[i] == crate::node::byte(
            Some(struct_node(reader)),
            i,
        )
}

/// The first `size` bytes of the data section.
fn read_data(reader: &StructReader<'_>, size: usize) -> (data: Vec<u8>)
    ensures
        data@.len() == size,
        is_data(data@, *reader),
{
    let mut data: Vec<u8> = Vec::new();
    while data.len() < size
        invariant
            data@.len() <= size,
            is_data(data@, *reader),
        decreases size - data@.len(),
    {
        let value: u8 = data_byte(reader, data.len());
        data.push(value);
    }
    data
}

/// A number in the data section that was read is the one in the message.
proof fn lemma_u16_was_read(node: StructNode, reader: StructReader<'_>, k: int)
    requires
        is_data(node.data@, reader),
        0 <= k,
        2 * k + 2 <= node.data@.len(),
    ensures
        crate::node::u16_at(Some(node), k) == crate::node::u16_at(Some(struct_node(reader)), k),
{
    assert(node.data@[2 * k] == crate::node::byte(Some(struct_node(reader)), 2 * k));
    assert(node.data@[2 * k + 1] == crate::node::byte(Some(struct_node(reader)), 2 * k + 1));
}

proof fn lemma_u32_was_read(node: StructNode, reader: StructReader<'_>, k: int)
    requires
        is_data(node.data@, reader),
        0 <= k,
        4 * k + 4 <= node.data@.len(),
    ensures
        crate::node::u32_at(Some(node), k) == crate::node::u32_at(Some(struct_node(reader)), k),
{
    lemma_u16_was_read(node, reader, 2 * k);
    lemma_u16_was_read(node, reader, 2 * k + 1);
}

proof fn lemma_u64_was_read(node: StructNode, reader: StructReader<'_>, k: int)
    requires
        is_data(node.data@, reader),
        0 <= k,
        8 * k + 8 <= node.data@.len(),
    ensures
        crate::node::u64_at(Some(node), k) == crate::node::u64_at(Some(struct_node(reader)), k),
{
    lemma_u32_was_read(node, reader, 2 * k);
    lemma_u32_was_read(node, reader, 2 * k + 1);
}

fn read_op(reader: &StructReader<'_>) -> (node: StructNode)
    ensures
        crate::schema::op_of(node) == crate::schema::op_of(struct_node(*reader)),
{
    let node = StructNode { data: read_data(reader, 8), pointers: Vec::new() };
    proof {
        lemma_u16_was_read(node, *reader, 0);
        lemma_u16_was_read(node, *reader, 1);
    }
    node
}

fn read_promised_answer(reader: &StructReader<'_>) -> (node: Result<StructNode, capnp::Error>)
    ensures
        node matches Ok(node) ==> {
            &&& promised_answer_readable(Some(struct_node(*reader)), true)
            &&& crate::schema::promised_answer_of(Some(node)) == crate::schema::promised_answer_of(
                Some(struct_node(*reader)),
            )
        },
        promised_answer_readable(Some(struct_node(*reader)), struct_unlimited(*reader))
            ==> node is Ok,
{
    let ops = match list_field(reader, 0) {
        Ok(ops) => ops,
        Err(error) => return Err(error),
    };
    let ghost list = crate::node::list_at(Some(struct_node(*reader)), 0);
    let mut elements: Vec<StructNode> = Vec::new();
    let mut i: usize = 0;
    while i < ops.len()
        invariant
            i <= ops@.len(),
            ops@.len() == list.len(),
            forall|j: int| 0 <= j < list.len() ==> struct_node(#[trigger] ops@[j]) == list[j],
            elements@.len() == i,
            forall|j: int|
                0 <= j < i ==> crate::schema::op_of(#[trigger] elements@[j])
                    == crate::schema::op_of(list[j]),
        decreases ops@.len() - i,
    {
        elements.push(read_op(&ops[i]));
        i = i + 1;
    }
    let mut pointers: Vec<PointerNode> = Vec::new();
    pointers.push(PointerNode::List(elements));
    let node = StructNode { data: read_data(reader, 8), pointers };
    proof {
        lemma_u32_was_read(node, *reader, 0);
        assert(crate::node::list_at(Some(node), 0) == elements@);
        assert(crate::schema::ops_of(elements@) =~= crate::schema::ops_of(list));
    }
    Ok(node)
}

/// The struct of the promised answer that pointer `i` leads to.
fn read_promised_answer_field(reader: &StructReader<'_>, i: usize) -> (node: Result<
    StructNode,
    capnp::Error,
>)
    ensures
        node matches Ok(node) ==> {
            let field = crate::node::struct_at(Some(struct_node(*reader)), i as int);
            &&& to_struct(crate::node::pointer(Some(struct_node(*reader)), i as int), true)
            &&& promised_answer_readable(field, true)
            &&& crate::schema::promised_answer_of(Some(node)) == crate::schema::promised_answer_of(
                field,
            )
        },
        to_struct(
            crate::node::pointer(Some(struct_node(*reader)), i as int),
            struct_unlimited(*reader),
        ) && promised_answer_readable(
            crate::node::struct_at(Some(struct_node(*reader)), i as int),
            struct_unlimited(*reader),
        ) ==> node is Ok,
{
    match struct_field(reader, i) {
        Ok(answer) => {
            proof {
                let target = crate::node::struct_at(Some(struct_node(*reader)), i as int);
                if target is None {
                    lemma_empty_struct(struct_node(answer));
                    assert(crate::schema::promised_answer_of(Some(struct_node(answer)))
                        =~= crate::schema::promised_answer_of(target));
                }
            }
            read_promised_answer(&answer)
        },
        Err(error) => Err(error),
    }
}

fn read_message_target(reader: &StructReader<'_>) -> (node: Result<StructNode, capnp::Error>)
    ensures
        node matches Ok(node) ==> {
            &&& message_target_readable(Some(struct_node(*reader)), true)
            &&& crate::schema::message_target_of(Some(node)) == crate::schema::message_target_of(
                Some(struct_node(*reader)),
            )
        },
        message_target_readable(Some(struct_node(*reader)), struct_unlimited(*reader))
            ==> node is Ok,
{
    let mut node = StructNode { data: read_data(reader, 8), pointers: Vec::new() };
    let ghost start = node;
    proof {
        lemma_u32_was_read(node, *reader, 0);
        lemma_u16_was_read(node, *reader, 2);
    }
    if node.u16_at(2) == 1 {
        match read_promised_answer_field(reader, 0) {
            Ok(answer) => {
                node.pointers.push(PointerNode::Struct(answer));
                proof {
                    lemma_same_data(start, node, 0);
                    assert(crate::node::struct_at(Some(node), 0) == Some(answer));
                }
            },
            Err(error) => return Err(error),
        }
    }
    Ok(node)
}

/// Structs with the same data section have the same numbers in it.
proof fn lemma_same_data(node: StructNode, other: StructNode, k: int)
    requires
        node.data@ == other.data@,
    ensures
        crate::node::u16_at(Some(node), k) == crate::node::u16_at(Some(other), k),
        crate::node::u32_at(Some(node), k) == crate::node::u32_at(Some(other), k),
        crate::node::u64_at(Some(node), k) == crate::node::u64_at(Some(other), k),
{
    assert(forall|i: int| crate::node::byte(Some(node), i) == crate::node::byte(Some(other), i));
}

fn read_cap_descriptor(reader: &StructReader<'_>) -> (node: Result<StructNode, capnp::Error>)
    ensures
        node matches Ok(node) ==> {
            &&& cap_descriptor_readable(struct_node(*reader), true)
            &&& crate::schema::cap_descriptor_of(node) == crate::schema::cap_descriptor_of(
                struct_node(*reader),
            )
        },
        cap_descriptor_readable(struct_node(*reader), struct_unlimited(*reader)) ==> node is Ok,
{
    let mut node = StructNode { data: read_data(reader, 8), pointers: Vec::new() };
    let ghost start = node;
    proof {
        lemma_u16_was_read(node, *reader, 0);
        lemma_u32_was_read(node, *reader, 1);
    }
    if node.u16_at(0) == 4 {
        match read_promised_answer_field(reader, 0) {
            Ok(answer) => {
                node.pointers.push(PointerNode::Struct(answer));
                proof {
                    lemma_same_data(start, node, 0);
                    assert(crate::node::struct_at(Some(node), 0) == Some(answer));
                }
            },
            Err(error) => return Err(error),
        }
    }
    Ok(node)
}

/// The capability tables of two payloads are the same.
spec fn same_payload(node: Option<StructNode>, other: Option<StructNode>) -> bool {
    crate::schema::cap_table_of(crate::node::list_at(node, 1)) == crate::schema::cap_table_of(
        crate::node::list_at(other, 1),
    )
}

fn read_payload(reader: &StructReader<'_>) -> (node: Result<StructNode, capnp::Error>)
    ensures
        node matches Ok(node) ==> {
            &&& payload_readable(Some(struct_node(*reader)), true)
            &&& same_payload(Some(node), Some(struct_node(*reader)))
        },
        payload_readable(Some(struct_node(*reader)), struct_unlimited(*reader)) ==> node is Ok,
{
    let caps = match list_field(reader, 1) {
        Ok(caps) => caps,
        Err(error) => return Err(error),
    };
    let ghost list = crate::node::list_at(Some(struct_node(*reader)), 1);
    let mut elements: Vec<StructNode> = Vec::new();
    let mut i: usize = 0;
    while i < caps.len()
        invariant
            i <= caps@.len(),
            caps@.len() == list.len(),
            list == crate::node::list_at(Some(struct_node(*reader)), 1),
            forall|j: int| 0 <= j < list.len() ==> struct_node(#[trigger] caps@[j]) == list[j],
            forall|j: int|
                0 <= j < list.len() && struct_unlimited(*reader) ==> struct_unlimited(
                    #[trigger] caps@[j],
                ),
            list.len() > 0 ==> crate::node::pointer(Some(struct_node(*reader)), 1) is List,
            forall|j: int| 0 <= j < i ==> cap_descriptor_readable(#[trigger] list[j], true),
            elements@.len() == i,
            forall|j: int|
                0 <= j < i ==> crate::schema::cap_descriptor_of(#[trigger] elements@[j])
                    == crate::schema::cap_descriptor_of(list[j]),
        decreases caps@.len() - i,
    {
        match read_cap_descriptor(&caps[i]) {
            Ok(element) => elements.push(element),
            Err(error) => return Err(error),
        }
        i = i + 1;
    }
    let mut pointers: Vec<PointerNode> = Vec::new();
    pointers.push(PointerNode::Content);
    pointers.push(PointerNode::List(elements));
    let node = StructNode { data: Vec::new(), pointers };
    proof {
        assert(crate::node::list_at(Some(node), 1) == elements@);
        assert(crate::schema::cap_table_of(elements@) =~= crate::schema::cap_table_of(list));
    }
    Ok(node)
}

/// The struct of the payload that pointer `i` leads to.
fn read_payload_field(reader: &StructReader<'_>, i: usize) -> (node: Result<
    StructNode,
    capnp::Error,
>)
    ensures
        node matches Ok(node) ==> {
            let field = crate::node::struct_at(Some(struct_node(*reader)), i as int);
            &&& to_struct(crate::node::pointer(Some(struct_node(*reader)), i as int), true)
            &&& payload_readable(field, true)
            &&& same_payload(Some(node), field)
        },
        to_struct(
            crate::node::pointer(Some(struct_node(*reader)), i as int),
            struct_unlimited(*reader),
        ) && payload_readable(
            crate::node::struct_at(Some(struct_node(*reader)), i as int),
            struct_unlimited(*reader),
        ) ==> node is Ok,
{
    match struct_field(reader, i) {
        Ok(payload) => {
            proof {
                let target = crate::node::struct_at(Some(struct_node(*reader)), i as int);
                if target is None {
                    lemma_empty_struct(struct_node(payload));
                    assert(crate::node::list_at(Some(struct_node(payload)), 1)
                        =~= crate::node::list_at(target, 1));
                }
            }
            read_payload(&payload)
        },
        Err(error) => Err(error),
    }
}

/// The fields of two calls are the same.
spec fn same_call(node: Option<StructNode>, other: Option<StructNode>) -> bool {
    &&& crate::node::u32_at(node, 0) == crate::node::u32_at(other, 0)
    &&& crate::node::u64_at(node, 1) == crate::node::u64_at(other, 1)
    &&& crate::node::u16_at(node, 2) == crate::node::u16_at(other, 2)
    &&& crate::schema::message_target_of(crate::node::struct_at(node, 0))
        == crate::schema::message_target_of(crate::node::struct_at(other, 0))
    &&& same_payload(crate::node::struct_at(node, 1), crate::node::struct_at(other, 1))
}

fn read_call(reader: &StructReader<'_>) -> (node: Result<StructNode, capnp::Error>)
    ensures
        node matches Ok(node) ==> {
            &&& call_readable(Some(struct_node(*reader)), true)
            &&& same_call(Some(node), Some(struct_node(*reader)))
        },
        call_readable(Some(struct_node(*reader)), struct_unlimited(*reader)) ==> node is Ok,
{
    let target = match struct_field(reader, 0) {
        Ok(target) => target,
        Err(error) => return Err(error),
    };
    proof {
        let field = crate::node::struct_at(Some(struct_node(*reader)), 0);
        if field is None {
            lemma_empty_struct(struct_node(target));
            assert(crate::schema::message_target_of(Some(struct_node(target)))
                =~= crate::schema::message_target_of(field));
        }
    }
    let target_node = match read_message_target(&target) {
        Ok(node) => node,
        Err(error) => return Err(error),
    };
    let params_node = match read_payload_field(reader, 1) {
        Ok(node) => node,
        Err(error) => return Err(error),
    };
    let mut pointers: Vec<PointerNode> = Vec::new();
    pointers.push(PointerNode::Struct(target_node));
    pointers.push(PointerNode::Struct(params_node));
    let node = StructNode { data: read_data(reader, 16), pointers };
    proof {
        lemma_u32_was_read(node, *reader, 0);
        lemma_u64_was_read(node, *reader, 1);
        lemma_u16_was_read(node, *reader, 2);
        assert(crate::node::struct_at(Some(node), 0) == Some(target_node));
        assert(crate::node::struct_at(Some(node), 1) == Some(params_node));
    }
    Ok(node)
}

/// The struct of the exception that pointer `i` leads to.
fn read_exception_field(reader: &StructReader<'_>, i: usize) -> (node: Result<
    StructNode,
    capnp::Error,
>)
    ensures
        node matches Ok(node) ==> {
            let field = crate::node::struct_at(Some(struct_node(*reader)), i as int);
            &&& to_struct(crate::node::pointer(Some(struct_node(*reader)), i as int), true)
            &&& exception_readable(field, true)
            &&& crate::schema::exception_of(Some(node)) == crate::schema::exception_of(field)
        },
        to_struct(
            crate::node::pointer(Some(struct_node(*reader)), i as int),
            struct_unlimited(*reader),
        ) && exception_readable(
            crate::node::struct_at(Some(struct_node(*reader)), i as int),
            struct_unlimited(*reader),
        ) ==> node is Ok,
{
    let exception = match struct_field(reader, i) {
        Ok(exception) => exception,
        Err(error) => return Err(error),
    };
    proof {
        if crate::node::struct_at(Some(struct_node(*reader)), i as int) is None {
            lemma_empty_struct(struct_node(exception));
        }
    }
    let text = match text_field(&exception, 0) {
        Ok(text) => text,
        Err(error) => return Err(error),
    };
    let mut pointers: Vec<PointerNode> = Vec::new();
    pointers.push(PointerNode::Text(text));
    let node = StructNode { data: Vec::new(), pointers };
    proof {
        assert(crate::node::text_at(Some(node), 0) == text@);
        let field = crate::node::struct_at(Some(struct_node(*reader)), i as int);
        if field is None {
            assert(crate::node::text_at(Some(struct_node(exception)), 0) =~= crate::node::text_at(
                field,
                0,
            ));
        }
    }
    Ok(node)
}

/// The struct of the exception of a return that pointer `i` leads to, without
/// the reason if that cannot be read.
fn read_return_exception_field(reader: &StructReader<'_>, i: usize) -> (node: Result<
    StructNode,
    capnp::Error,
>)
    ensures
        node matches Ok(node) ==> {
            let field = crate::node::struct_at(Some(struct_node(*reader)), i as int);
            &&& to_struct(crate::node::pointer(Some(struct_node(*reader)), i as int), true)
            &&& same_exception(Some(node), field, struct_unlimited(*reader))
        },
        to_struct(
            crate::node::pointer(Some(struct_node(*reader)), i as int),
            struct_unlimited(*reader),
        ) ==> node is Ok,
{
    let exception = match struct_field(reader, i) {
        Ok(exception) => exception,
        Err(error) => return Err(error),
    };
    let ghost field = crate::node::struct_at(Some(struct_node(*reader)), i as int);
    proof {
        if field is None {
            lemma_empty_struct(struct_node(exception));
            assert(crate::node::text_at(Some(struct_node(exception)), 0) =~= crate::node::text_at(
                field,
                0,
            ));
        }
    }
    let mut pointers: Vec<PointerNode> = Vec::new();
    match text_field(&exception, 0) {
        Ok(text) => {
            pointers.push(PointerNode::Text(text));
        },
        Err(_) => {},
    }
    let node = StructNode { data: Vec::new(), pointers };
    assert(crate::node::text_at(Some(node), 0) == if pointers@.len() > 0 {
        pointers@[0]->Text_0@
    } else {
        Seq::empty()
    });
    Ok(node)
}

/// The reasons of two exceptions are the same, or the first one is empty
/// because the second one cannot be read.
spec fn same_exception(node: Option<StructNode>, other: Option<StructNode>, free: bool) -> bool {
    ||| crate::schema::exception_of(node) == crate::schema::exception_of(other)
    ||| {
        &&& crate::schema::exception_of(node).reason == Seq::<u8>::empty()
        &&& !exception_readable(other, free)
    }
}

/// The fields of two returns are the same, but for a reason that cannot be
/// read.
spec fn same_return(node: Option<StructNode>, other: Option<StructNode>, free: bool) -> bool {
    let tag = crate::node::u16_at(node, 3);
    &&& crate::node::u32_at(node, 0) == crate::node::u32_at(other, 0)
    &&& crate::node::u32_at(node, 2) == crate::node::u32_at(other, 2)
    &&& tag == crate::node::u16_at(other, 3)
    &&& tag == 0 ==> same_payload(
        crate::node::struct_at(node, 0),
        crate::node::struct_at(other, 0),
    )
    &&& tag == 1 ==> same_exception(
        crate::node::struct_at(node, 0),
        crate::node::struct_at(other, 0),
        free,
    )
}

fn read_return(reader: &StructReader<'_>) -> (node: Result<StructNode, capnp::Error>)
    ensures
        node matches Ok(node) ==> {
            &&& return_readable(Some(struct_node(*reader)), true)
            &&& same_return(Some(node), Some(struct_node(*reader)), struct_unlimited(*reader))
        },
        return_readable(Some(struct_node(*reader)), struct_unlimited(*reader)) ==> node is Ok,
{
    let mut node = StructNode { data: read_data(reader, 16), pointers: Vec::new() };
    let ghost start = node;
    proof {
        lemma_u32_was_read(node, *reader, 0);
        lemma_u16_was_read(node, *reader, 3);
        lemma_u32_was_read(node, *reader, 2);
    }
    let tag: u16 = node.u16_at(3);
    if tag == 0 {
        match read_payload_field(reader, 0) {
            Ok(payload) => {
                node.pointers.push(PointerNode::Struct(payload));
                assert(crate::node::struct_at(Some(node), 0) == Some(payload));
            },
            Err(error) => return Err(error),
        }
    } else if tag == 1 {
        match read_return_exception_field(reader, 0) {
            Ok(exception) => {
                node.pointers.push(PointerNode::Struct(exception));
                assert(crate::node::struct_at(Some(node), 0) == Some(exception));
            },
            Err(error) => return Err(error),
        }
    }
    proof {
        lemma_same_data(start, node, 0);
        lemma_same_data(start, node, 2);
        lemma_same_data(start, node, 3);
    }
    Ok(node)
}

/// The numbers in the first word of two structs are the same.
spec fn same_word(node: Option<StructNode>, other: Option<StructNode>) -> bool {
    &&& crate::node::u32_at(node, 0) == crate::node::u32_at(other, 0)
    &&& crate::node::u32_at(node, 1) == crate::node::u32_at(other, 1)
    &&& crate::node::bit_at(node, 4) == crate::node::bit_at(other, 4)
}

/// The struct that pointer `i` leads to, without what it points to.
fn read_word_field(reader: &StructReader<'_>, i: usize) -> (node: Result<StructNode, capnp::Error>)
    ensures
        node matches Ok(node) ==> {
            &&& to_struct(crate::node::pointer(Some(struct_node(*reader)), i as int), true)
            &&& same_word(
                Some(node),
                crate::node::struct_at(Some(struct_node(*reader)), i as int),
            )
        },
        to_struct(
            crate::node::pointer(Some(struct_node(*reader)), i as int),
            struct_unlimited(*reader),
        ) ==> node is Ok,
{
    match struct_field(reader, i) {
        Ok(field) => {
            let node = StructNode { data: read_data(&field, 8), pointers: Vec::new() };
            proof {
                lemma_u32_was_read(node, field, 0);
                lemma_u32_was_read(node, field, 1);
                assert(node.data@[4] == crate::node::byte(Some(struct_node(field)), 4));
            }
            Ok(node)
        },
        Err(error) => Err(error),
    }
}

/// The messages that two root structs stand for are the same, but for what
/// they carry for their user and for a reason that cannot be read.
spec fn same_message(node: Option<StructNode>, other: Option<StructNode>, free: bool) -> bool {
    let tag = crate::node::u16_at(node, 0);
    let node_body = crate::node::struct_at(node, 0);
    let other_body = crate::node::struct_at(other, 0);
    &&& tag == crate::node::u16_at(other, 0)
    &&& tag == 1 ==> crate::schema::exception_of(node_body) == crate::schema::exception_of(
        other_body,
    )
    &&& tag == 2 ==> same_call(node_body, other_body)
    &&& tag == 3 ==> same_return(node_body, other_body, free)
    &&& (tag == 4 || tag == 6 || tag == 8) ==> same_word(node_body, other_body)
}

proof fn lemma_same_message<P: Runtime>(
    node: Option<StructNode>,
    other: Option<StructNode>,
    content: AnyPointer<P>,
    free: bool,
)
    requires
        same_message(node, other, free),
    ensures
        ({
            let message = crate::schema::message_of(other, content);
            ||| crate::schema::message_of(node, content) == message
            ||| {
                &&& crate::schema::message_of(node, content) == without_reason(message)
                &&& !reason_readable(other, free)
            }
        }),
{
}

/// The root struct of the message, with what the message is read from.
fn read_root(reader: &StructReader<'_>) -> (node: Result<StructNode, capnp::Error>)
    ensures
        node matches Ok(node) ==> {
            &&& message_readable(Some(struct_node(*reader)), true)
            &&& same_message(Some(node), Some(struct_node(*reader)), struct_unlimited(*reader))
        },
        message_readable(Some(struct_node(*reader)), struct_unlimited(*reader)) ==> node is Ok,
{
    let mut node = StructNode { data: read_data(reader, 8), pointers: Vec::new() };
    let ghost start = node;
    proof {
        lemma_u16_was_read(node, *reader, 0);
    }
    let tag: u16 = node.u16_at(0);
    let body: Option<StructNode> = if tag == 1 {
        match read_exception_field(reader, 0) {
            Ok(body) => Some(body),
            Err(error) => return Err(error),
        }
    } else if tag == 2 {
        match read_call_field(reader) {
            Ok(body) => Some(body),
            Err(error) => return Err(error),
        }
    } else if tag == 3 {
        match read_return_field(reader) {
            Ok(body) => Some(body),
            Err(error) => return Err(error),
        }
    } else if tag == 4 || tag == 6 || tag == 8 {
        match read_word_field(reader, 0) {
            Ok(body) => Some(body),
            Err(error) => return Err(error),
        }
    } else {
        None
    };
    match body {
        Some(body) => {
            node.pointers.push(PointerNode::Struct(body));
            proof {
                lemma_same_data(start, node, 0);
                assert(crate::node::struct_at(Some(node), 0) == Some(body));
            }
        },
        None => {},
    }
    Ok(node)
}

/// The struct of the call that the first pointer leads to.
fn read_call_field(reader: &StructReader<'_>) -> (node: Result<StructNode, capnp::Error>)
    ensures
        node matches Ok(node) ==> {
            let field = crate::node::struct_at(Some(struct_node(*reader)), 0);
            &&& to_struct(crate::node::pointer(Some(struct_node(*reader)), 0), true)
            &&& call_readable(field, true)
            &&& same_call(Some(node), field)
        },
        to_struct(crate::node::pointer(Some(struct_node(*reader)), 0), struct_unlimited(*reader))
            && call_readable(
            crate::node::struct_at(Some(struct_node(*reader)), 0),
            struct_unlimited(*reader),
        ) ==> node is Ok,
{
    match struct_field(reader, 0) {
        Ok(call) => {
            proof {
                let field = crate::node::struct_at(Some(struct_node(*reader)), 0);
                if field is None {
                    lemma_empty_struct(struct_node(call));
                    assert(same_call(Some(struct_node(call)), field));
                }
            }
            read_call(&call)
        },
        Err(error) => Err(error),
    }
}

/// The struct of the return that the first pointer leads to.
fn read_return_field(reader: &StructReader<'_>) -> (node: Result<StructNode, capnp::Error>)
    ensures
        node matches Ok(node) ==> {
            let field = crate::node::struct_at(Some(struct_node(*reader)), 0);
            &&& to_struct(crate::node::pointer(Some(struct_node(*reader)), 0), true)
            &&& return_readable(field, true)
            &&& same_return(Some(node), field, struct_unlimited(*reader))
        },
        to_struct(crate::node::pointer(Some(struct_node(*reader)), 0), struct_unlimited(*reader))
            && return_readable(
            crate::node::struct_at(Some(struct_node(*reader)), 0),
            struct_unlimited(*reader),
        ) ==> node is Ok,
{
    match struct_field(reader, 0) {
        Ok(ret) => {
            proof {
                let field = crate::node::struct_at(Some(struct_node(*reader)), 0);
                if field is None {
                    lemma_empty_struct(struct_node(ret));
                    assert(same_return(Some(struct_node(ret)), field, true));
                }
            }
            read_return(&ret)
        },
        Err(error) => Err(error),
    }
}

/// A message could not be read.
pub struct ReadError {
    pub cause: capnp::Error,
}

/// The struct that the root pointer of a message leads to.
pub open spec fn root_node(root: capnp::any_pointer::Reader<'_>) -> Option<StructNode> {
    match pointer_node(root) {
        PointerNode::Struct(node) => Some(node),
        _ => None,
    }
}

/// The message that `root` leads to, where `content` is what it carries for
/// its user. It fails where a pointer on the way does not lead to what is
/// expected there. It may also fail because too much of the message is read,
/// but not where there is no limit on that, nor where there is nothing to read.
/// The reason of an exception that is returned is left out if it cannot be
/// read: nothing here depends on it.
pub fn read_message<P: Runtime>(
    root: &capnp::any_pointer::Reader<'_>,
    content: AnyPointer<P>,
) -> (message: Result<Message<P>, ReadError>)
    ensures
        message matches Ok(message) ==> {
            &&& to_struct(pointer_node(*root), true)
            &&& message_readable(root_node(*root), true)
            &&& {
                let whole = crate::schema::message_of(root_node(*root), content);
                ||| message@ == whole
                ||| message@ == without_reason(whole) && !reason_readable(
                    root_node(*root),
                    pointer_unlimited(*root),
                )
            }
        },
        to_struct(pointer_node(*root), pointer_unlimited(*root)) && message_readable(
            root_node(*root),
            pointer_unlimited(*root),
        ) ==> message is Ok,
{
    let reader = match root_struct(root) {
        Ok(reader) => reader,
        Err(cause) => return Err(ReadError { cause }),
    };
    proof {
        if root_node(*root) is None {
            lemma_empty_struct(struct_node(reader));
        }
    }
    let node = match read_root(&reader) {
        Ok(node) => node,
        Err(cause) => return Err(ReadError { cause }),
    };
    proof {
        lemma_same_message(
            Some(node),
            Some(struct_node(reader)),
            content,
            struct_unlimited(reader),
        );
    }
    Ok(decode_message(&node, content))
}

} // verus!
