//! The structs that a message is made of, as plain values: a data section of
//! bytes and a pointer section.

use vstd::prelude::*;

verus! {

/// A struct of a message.
#[derive(Debug)]
pub struct StructNode {
    pub data: Vec<u8>,
    pub pointers: Vec<PointerNode>,
}

/// What a pointer of a struct leads to.
#[derive(Debug)]
pub enum PointerNode {
    Null,
    Struct(StructNode),
    /// A list, each element taken as a struct.
    List(Vec<StructNode>),
    /// A text, without the zero byte that ends it.
    Text(Vec<u8>),
    /// The value of any type that the message carries for its user.
    Content,
}

/// Byte `i` of the data section. Where there is no struct, or its data section
/// is shorter, the byte is zero.
pub open spec fn byte(node: Option<StructNode>, i: int) -> u8 {
    match node {
        Some(node) => if 0 <= i < node.data@.len() {
            node.data@[i]
        } else {
            0
        },
        None => 0,
    }
}

/// The number in the two bytes from byte `2 * k` on, the lower byte first.
pub open spec fn u16_at(node: Option<StructNode>, k: int) -> u16 {
    (byte(node, 2 * k) + 0x100 * byte(node, 2 * k + 1)) as u16
}

/// The number in the four bytes from byte `4 * k` on, the lowest byte first.
pub open spec fn u32_at(node: Option<StructNode>, k: int) -> u32 {
    (u16_at(node, 2 * k) + 0x1_0000 * u16_at(node, 2 * k + 1)) as u32
}

/// The number in the eight bytes from byte `8 * k` on, the lowest byte first.
pub open spec fn u64_at(node: Option<StructNode>, k: int) -> u64 {
    (u32_at(node, 2 * k) + 0x1_0000_0000 * u32_at(node, 2 * k + 1)) as u64
}

/// The lowest bit of byte `i`.
pub open spec fn bit_at(node: Option<StructNode>, i: int) -> bool {
    byte(node, i) % 2 == 1
}

/// Pointer `i`. Where there is no struct, or its pointer section is shorter,
/// the pointer is null.
pub open spec fn pointer(node: Option<StructNode>, i: int) -> PointerNode {
    match node {
        Some(node) => if 0 <= i < node.pointers@.len() {
            node.pointers@[i]
        } else {
            PointerNode::Null
        },
        None => PointerNode::Null,
    }
}

/// The struct that pointer `i` leads to.
pub open spec fn struct_at(node: Option<StructNode>, i: int) -> Option<StructNode> {
    match pointer(node, i) {
        PointerNode::Struct(target) => Some(target),
        _ => None,
    }
}

/// The elements of the list that pointer `i` leads to.
pub open spec fn list_at(node: Option<StructNode>, i: int) -> Seq<StructNode> {
    match pointer(node, i) {
        PointerNode::List(elements) => elements@,
        _ => Seq::empty(),
    }
}

/// A list is a text if its elements are bytes and the last one is zero.
pub open spec fn is_text(elements: Seq<StructNode>) -> bool {
    &&& elements.len() > 0
    &&& elements[0].data@.len() == 1
    &&& byte(Some(elements.last()), 0) == 0
}

/// The text that pointer `i` leads to, if it leads to one. In a list of bytes
/// it is what stands before the last one.
pub open spec fn text_at(node: Option<StructNode>, i: int) -> Seq<u8> {
    match pointer(node, i) {
        PointerNode::Text(text) => text@,
        PointerNode::List(elements) => if is_text(elements@) {
            elements@.drop_last().map_values(|element: StructNode| byte(Some(element), 0))
        } else {
            Seq::empty()
        },
        _ => Seq::empty(),
    }
}

/// The bytes of a number, the lower one first.
pub open spec fn le16(value: u16) -> Seq<u8> {
    seq![(value % 0x100) as u8, (value / 0x100) as u8]
}

pub open spec fn le32(value: u32) -> Seq<u8> {
    le16((value % 0x1_0000) as u16) + le16((value / 0x1_0000) as u16)
}

pub open spec fn le64(value: u64) -> Seq<u8> {
    le32((value % 0x1_0000_0000) as u32) + le32((value / 0x1_0000_0000) as u32)
}

/// Appends the bytes of `value`.
pub fn push_u16(data: &mut Vec<u8>, value: u16)
    ensures
        final(data)@ == old(data)@ + le16(value),
{
    data.push((value % 0x100) as u8);
    data.push((value / 0x100) as u8);
}

pub fn push_u32(data: &mut Vec<u8>, value: u32)
    ensures
        final(data)@ == old(data)@ + le32(value),
{
    push_u16(data, (value % 0x1_0000) as u16);
    push_u16(data, (value / 0x1_0000) as u16);
}

pub fn push_u64(data: &mut Vec<u8>, value: u64)
    ensures
        final(data)@ == old(data)@ + le64(value),
{
    push_u32(data, (value % 0x1_0000_0000) as u32);
    push_u32(data, (value / 0x1_0000_0000) as u32);
}

/// A number that stands in the data section is read back.
pub proof fn law_u16_is_read_back(node: StructNode, k: int, value: u16)
    requires
        0 <= k,
        2 * k + 2 <= node.data@.len(),
        node.data@.subrange(2 * k, 2 * k + 2) == le16(value),
    ensures
        u16_at(Some(node), k) == value,
{
    let part = node.data@.subrange(2 * k, 2 * k + 2);
    assert(part[0] == node.data@[2 * k] && part[1] == node.data@[2 * k + 1]);
}

pub proof fn law_u32_is_read_back(node: StructNode, k: int, value: u32)
    requires
        0 <= k,
        4 * k + 4 <= node.data@.len(),
        node.data@.subrange(4 * k, 4 * k + 4) == le32(value),
    ensures
        u32_at(Some(node), k) == value,
{
    let part = node.data@.subrange(4 * k, 4 * k + 4);
    let low = (value % 0x1_0000) as u16;
    let high = (value / 0x1_0000) as u16;
    assert(node.data@.subrange(2 * (2 * k), 2 * (2 * k) + 2) =~= le16(low)) by {
        assert(le16(low) =~= part.subrange(0, 2));
    }
    assert(node.data@.subrange(2 * (2 * k + 1), 2 * (2 * k + 1) + 2) =~= le16(high)) by {
        assert(le16(high) =~= part.subrange(2, 4));
    }
    law_u16_is_read_back(node, 2 * k, low);
    law_u16_is_read_back(node, 2 * k + 1, high);
}

pub proof fn law_u64_is_read_back(node: StructNode, k: int, value: u64)
    requires
        0 <= k,
        8 * k + 8 <= node.data@.len(),
        node.data@.subrange(8 * k, 8 * k + 8) == le64(value),
    ensures
        u64_at(Some(node), k) == value,
{
    let part = node.data@.subrange(8 * k, 8 * k + 8);
    let low = (value % 0x1_0000_0000) as u32;
    let high = (value / 0x1_0000_0000) as u32;
    assert(node.data@.subrange(4 * (2 * k), 4 * (2 * k) + 4) =~= le32(low)) by {
        assert(le32(low) =~= part.subrange(0, 4));
    }
    assert(node.data@.subrange(4 * (2 * k + 1), 4 * (2 * k + 1) + 4) =~= le32(high)) by {
        assert(le32(high) =~= part.subrange(4, 8));
    }
    law_u32_is_read_back(node, 2 * k, low);
    law_u32_is_read_back(node, 2 * k + 1, high);
}

impl StructNode {
    pub fn byte(&self, i: usize) -> (value: u8)
        ensures
            value == byte(Some(*self), i as int),
    {
        if i < self.data.len() {
            self.data[i]
        } else {
            0
        }
    }

    pub fn u16_at(&self, k: usize) -> (value: u16)
        requires
            2 * k + 1 <= usize::MAX,
        ensures
            value == u16_at(Some(*self), k as int),
    {
        self.byte(2 * k) as u16 + 0x100 * (self.byte(2 * k + 1) as u16)
    }

    pub fn u32_at(&self, k: usize) -> (value: u32)
        requires
            4 * k + 3 <= usize::MAX,
        ensures
            value == u32_at(Some(*self), k as int),
    {
        self.u16_at(2 * k) as u32 + 0x1_0000 * (self.u16_at(2 * k + 1) as u32)
    }

    pub fn u64_at(&self, k: usize) -> (value: u64)
        requires
            8 * k + 7 <= usize::MAX,
        ensures
            value == u64_at(Some(*self), k as int),
    {
        self.u32_at(2 * k) as u64 + 0x1_0000_0000 * (self.u32_at(2 * k + 1) as u64)
    }

    pub fn bit_at(&self, i: usize) -> (value: bool)
        ensures
            value == bit_at(Some(*self), i as int),
    {
        self.byte(i) % 2 == 1
    }

    /// The struct that pointer `i` leads to, if it leads to one.
    pub fn struct_at(&self, i: usize) -> (target: Option<&StructNode>)
        ensures
            match target {
                Some(target) => struct_at(Some(*self), i as int) == Some(*target),
                None => struct_at(Some(*self), i as int) is None,
            },
    {
        if i < self.pointers.len() {
            match &self.pointers[i] {
                PointerNode::Struct(target) => Some(target),
                _ => None,
            }
        } else {
            None
        }
    }

    /// The list that pointer `i` leads to, if it leads to one.
    pub fn list_at(&self, i: usize) -> (elements: Option<&Vec<StructNode>>)
        ensures
            match elements {
                Some(elements) => list_at(Some(*self), i as int) == elements@,
                None => list_at(Some(*self), i as int) == Seq::<StructNode>::empty(),
            },
    {
        if i < self.pointers.len() {
            match &self.pointers[i] {
                PointerNode::List(elements) => Some(elements),
                _ => None,
            }
        } else {
            None
        }
    }

    /// The text that pointer `i` leads to.
    pub fn text_at(&self, i: usize) -> (text: Vec<u8>)
        ensures
            text@ == text_at(Some(*self), i as int),
    {
        let mut text: Vec<u8> = Vec::new();
        if i < self.pointers.len() {
            match &self.pointers[i] {
                PointerNode::Text(bytes) => {
                    let mut j: usize = 0;
                    while j < bytes.len()
                        invariant
                            j <= bytes@.len(),
                            text@ == bytes@.take(j as int),
                        decreases bytes@.len() - j,
                    {
                        text.push(bytes[j]);
                        j = j + 1;
                        assert(bytes@.take(j as int) =~= bytes@.take(j - 1).push(bytes@[j - 1]));
                    }
                    assert(bytes@.take(j as int) =~= bytes@);
                },
                PointerNode::List(elements) => {
                    let ghost expected = text_at(Some(*self), i as int);
                    let end: usize = if elements.len() > 0 && elements[0].data.len() == 1
                        && elements[elements.len() - 1].byte(0) == 0 {
                        elements.len() - 1
                    } else {
                        0
                    };
                    let mut j: usize = 0;
                    while j < end
                        invariant
                            j <= end,
                            end <= elements@.len(),
                            expected.len() == end,
                            forall|n: int|
                                0 <= n < expected.len() ==> expected[n] == byte(
                                    Some(#[trigger] elements@[n]),
                                    0,
                                ),
                            text@ == expected.take(j as int),
                        decreases end - j,
                    {
                        text.push(elements[j].byte(0));
                        j = j + 1;
                        assert(expected.take(j as int) =~= expected.take(j - 1).push(
                            expected[j - 1],
                        ));
                    }
                    assert(expected.take(j as int) =~= expected);
                },
                _ => {},
            }
        }
        text
    }
}

} // verus!
