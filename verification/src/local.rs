//! The capabilities of this side that go out in payloads: each has to be
//! exported before it can be described.

use crate::caps::{has_payload, OutgoingCap, OwnedCapDescriptor};
use crate::connection::RpcEvent;
use crate::message::{CapDescriptorView, Message};
use crate::runtime::Runtime;
use crate::tables::ExportId;
use std::sync::mpsc::Receiver;
use vstd::prelude::*;

verus! {

/// What a capability that goes out says of itself.
pub enum HookDescriptor<P: Runtime> {
    /// It is not of this side, and is to be described like this.
    Owned(OwnedCapDescriptor),
    /// It is of this side, and has to be exported.
    Local(P::Hook),
}

/// The capabilities of this side among `caps`, in the order of the table.
pub open spec fn local_hooks<P: Runtime>(caps: Seq<Option<HookDescriptor<P>>>) -> Seq<P::Hook>
    decreases caps.len(),
{
    if caps.len() == 0 {
        Seq::empty()
    } else {
        let hooks = local_hooks(caps.drop_last());
        match caps.last() {
            Some(HookDescriptor::Local(hook)) => hooks.push(hook),
            _ => hooks,
        }
    }
}

/// `caps` once those of this side were exported under the numbers `ids`, in the
/// order of the table.
pub open spec fn numbered<P: Runtime>(
    caps: Seq<Option<HookDescriptor<P>>>,
    ids: Seq<ExportId>,
) -> Seq<Option<OutgoingCap>>
    decreases caps.len(),
{
    if caps.len() == 0 {
        Seq::empty()
    } else {
        let before = caps.drop_last();
        numbered(before, ids).push(
            match caps.last() {
                Some(HookDescriptor::Owned(descriptor)) => Some(OutgoingCap::Described(descriptor)),
                Some(HookDescriptor::Local(_)) => Some(
                    OutgoingCap::Exported(ids[local_hooks(before).len() as int]),
                ),
                None => None,
            },
        )
    }
}

/// `request` asks for a number for `hook`, and the number comes out of the port
/// that is with it.
pub open spec fn is_export_request<P: Runtime>(
    request: (RpcEvent<P>, Receiver<ExportId>),
    hook: P::Hook,
) -> bool {
    request.0 matches RpcEvent::NewLocalServer(copy, chan) && cloned(hook, copy)
        && crate::channel::paired(chan, request.1)
}

/// The events that ask for the numbers of the capabilities of this side among
/// `caps`, which go out in `message`: one for each of them, in the order of the
/// table, with the port that its number comes out of. There are none if the
/// message has no payload. Each is to be answered before the next one is made
/// known to the connection.
pub fn export_requests<P: Runtime>(
    message: &Message<P>,
    caps: &Vec<Option<HookDescriptor<P>>>,
) -> (requests: Vec<(RpcEvent<P>, Receiver<ExportId>)>)
    ensures
        crate::caps::carries_caps(*message) ==> {
            &&& requests@.len() == local_hooks(caps@).len()
            &&& forall|k: int|
                0 <= k < requests@.len() ==> is_export_request(
                    #[trigger] requests@[k],
                    local_hooks(caps@)[k],
                )
        },
        !crate::caps::carries_caps(*message) ==> requests@.len() == 0,
{
    let mut requests: Vec<(RpcEvent<P>, Receiver<ExportId>)> = Vec::new();
    if !has_payload(message) {
        return requests;
    }
    let mut i: usize = 0;
    while i < caps.len()
        invariant
            i <= caps@.len(),
            requests@.len() == local_hooks(caps@.take(i as int)).len(),
            forall|k: int|
                0 <= k < requests@.len() ==> is_export_request(
                    #[trigger] requests@[k],
                    local_hooks(caps@.take(i as int))[k],
                ),
        decreases caps@.len() - i,
    {
        assert(caps@.take(i + 1).drop_last() =~= caps@.take(i as int));
        match &caps[i] {
            Some(HookDescriptor::Local(hook)) => {
                requests.push(RpcEvent::new_local_server(hook));
            },
            _ => {},
        }
        i = i + 1;
    }
    assert(caps@.take(i as int) =~= caps@);
    requests
}

/// Puts the numbers `ids` to the capabilities of this side among `caps`, in the
/// order of the table.
pub fn number_caps<P: Runtime>(caps: Vec<Option<HookDescriptor<P>>>, ids: &Vec<ExportId>) -> (out:
    Vec<Option<OutgoingCap>>)
    requires
        ids@.len() == local_hooks(caps@).len(),
    ensures
        out@ == numbered(caps@, ids@),
{
    let ghost all = caps@;
    let mut caps = caps;
    let mut left: usize = ids.len();
    let mut reversed: Vec<Option<OutgoingCap>> = Vec::new();
    while caps.len() > 0
        invariant
            numbered(all, ids@) =~= numbered(caps@, ids@) + reversed@.reverse(),
            left == local_hooks(caps@).len(),
            left <= ids@.len(),
        decreases caps@.len(),
    {
        let ghost before = caps@;
        match caps.pop() {
            Some(cap) => {
                assert(caps@ =~= before.drop_last());
                let numbered_cap = match cap {
                    Some(HookDescriptor::Owned(descriptor)) => Some(
                        OutgoingCap::Described(descriptor),
                    ),
                    Some(HookDescriptor::Local(_)) => {
                        left = left - 1;
                        Some(OutgoingCap::Exported(ids[left]))
                    },
                    None => None,
                };
                reversed.push(numbered_cap);
            },
            None => {},
        }
    }
    let mut out: Vec<Option<OutgoingCap>> = Vec::new();
    while reversed.len() > 0
        invariant
            numbered(all, ids@) =~= out@ + reversed@.reverse(),
        decreases reversed@.len(),
    {
        match reversed.pop() {
            Some(cap) => {
                out.push(cap);
            },
            None => {},
        }
    }
    out
}

/// How many places of a table hold a capability.
pub open spec fn present<P: Runtime>(caps: Seq<Option<HookDescriptor<P>>>) -> nat
    decreases caps.len(),
{
    if caps.len() == 0 {
        0
    } else {
        present(caps.drop_last()) + if caps.last() is Some {
            1nat
        } else {
            0nat
        }
    }
}

/// What was said of a part of a table holds of it in the whole table.
proof fn lemma_local_prefix<P: Runtime>(
    caps: Seq<Option<HookDescriptor<P>>>,
    ids: Seq<ExportId>,
    n: int,
)
    requires
        0 <= n <= caps.len(),
    ensures
        ({
            let table = crate::caps::outgoing_cap_table(numbered(caps, ids));
            let part = crate::caps::outgoing_cap_table(numbered(caps.take(n), ids));
            &&& local_hooks(caps.take(n)).is_prefix_of(local_hooks(caps))
            &&& part.is_prefix_of(table)
            &&& part.len() == present(caps.take(n))
        }),
    decreases caps.len(),
{
    if caps.len() == 0 {
        assert(caps.take(n) =~= caps);
    } else if n < caps.len() {
        lemma_local_prefix(caps.drop_last(), ids, n);
        assert(caps.drop_last().take(n) =~= caps.take(n));
        assert(numbered(caps, ids).drop_last() =~= numbered(caps.drop_last(), ids));
    } else {
        assert(caps.take(n) =~= caps);
        lemma_local_prefix(caps.drop_last(), ids, n - 1);
        assert(caps.drop_last().take(n - 1) =~= caps.drop_last());
        assert(numbered(caps, ids).drop_last() =~= numbered(caps.drop_last(), ids));
    }
}

/// A capability of this side has an event of its own that asks for its number,
/// at its place among those of this side, and the table of the message says at
/// its place, places without a capability left out, that the sender hosts it
/// under the number that came of that event. That holds of each such place,
/// even where the capabilities at two of them are the same.
pub proof fn law_a_local_cap_is_described_by_its_number<P: Runtime>(
    caps: Seq<Option<HookDescriptor<P>>>,
    ids: Seq<ExportId>,
    i: int,
)
    requires
        0 <= i < caps.len(),
        caps[i] is Some,
        caps[i]->0 is Local,
        ids.len() == local_hooks(caps).len(),
    ensures
        ({
            let k = local_hooks(caps.take(i)).len();
            let place = present(caps.take(i));
            let table = crate::caps::outgoing_cap_table(numbered(caps, ids));
            &&& k < local_hooks(caps).len()
            &&& local_hooks(caps)[k as int] == caps[i]->0->Local_0
            &&& place < table.len()
            &&& table[place as int] == CapDescriptorView::SenderHosted(ids[k as int])
        }),
{
    lemma_local_prefix(caps, ids, i);
    lemma_local_prefix(caps, ids, i + 1);
    let part = caps.take(i + 1);
    assert(part.drop_last() =~= caps.take(i));
    assert(part.last() == caps[i]);
    assert(numbered(part, ids).drop_last() =~= numbered(caps.take(i), ids));
    let k = local_hooks(caps.take(i)).len() as int;
    let place = present(caps.take(i)) as int;
    let described = crate::caps::outgoing_cap_table(numbered(part, ids));
    assert(local_hooks(part)[k] == caps[i]->0->Local_0);
    assert(local_hooks(caps)[k] == local_hooks(part)[k]);
    assert(described[place] == CapDescriptorView::SenderHosted(ids[k]));
    assert(crate::caps::outgoing_cap_table(numbered(caps, ids))[place] == described[place]);
}

/// Every capability that goes out keeps its place. One that is not of this side
/// goes out under the very descriptor that it gives of itself, and the table
/// says so at its place; one of this side goes out under a number that it was
/// given.
pub proof fn law_caps_go_out_as_they_say<P: Runtime>(
    caps: Seq<Option<HookDescriptor<P>>>,
    ids: Seq<ExportId>,
    i: int,
)
    requires
        0 <= i < caps.len(),
    ensures
        numbered(caps, ids).len() == caps.len(),
        match caps[i] {
            None => numbered(caps, ids)[i] is None,
            Some(HookDescriptor::Owned(descriptor)) => {
                &&& numbered(caps, ids)[i] == Some(OutgoingCap::Described(descriptor))
                &&& present(caps.take(i)) < crate::caps::outgoing_cap_table(
                    numbered(caps, ids),
                ).len()
                &&& crate::caps::outgoing_cap_table(numbered(caps, ids))[present(
                    caps.take(i),
                ) as int] == crate::caps::outgoing_descriptor(OutgoingCap::Described(descriptor))
            },
            Some(HookDescriptor::Local(_)) => numbered(caps, ids)[i] == Some(
                OutgoingCap::Exported(ids[local_hooks(caps.take(i)).len() as int]),
            ),
        },
{
    lemma_numbered_at(caps, ids, i);
    lemma_local_prefix(caps, ids, i);
    lemma_local_prefix(caps, ids, i + 1);
    let part = caps.take(i + 1);
    assert(part.drop_last() =~= caps.take(i));
    assert(part.last() == caps[i]);
    assert(numbered(part, ids).drop_last() =~= numbered(caps.take(i), ids));
    if caps[i] is Some {
        let place = present(caps.take(i)) as int;
        let described = crate::caps::outgoing_cap_table(numbered(part, ids));
        assert(described[place] == crate::caps::outgoing_descriptor(numbered(part, ids).last()->0));
        assert(crate::caps::outgoing_cap_table(numbered(caps, ids))[place] == described[place]);
        lemma_numbered_at(part, ids, i);
        assert(part.take(i) =~= caps.take(i));
    }
}

proof fn lemma_numbered_at<P: Runtime>(
    caps: Seq<Option<HookDescriptor<P>>>,
    ids: Seq<ExportId>,
    i: int,
)
    requires
        0 <= i < caps.len(),
    ensures
        numbered(caps, ids).len() == caps.len(),
        numbered(caps, ids)[i] == (match caps[i] {
            None => None,
            Some(HookDescriptor::Owned(descriptor)) => Some(OutgoingCap::Described(descriptor)),
            Some(HookDescriptor::Local(_)) => Some(
                OutgoingCap::Exported(ids[local_hooks(caps.take(i)).len() as int]),
            ),
        }),
    decreases caps.len(),
{
    if i < caps.len() - 1 {
        lemma_numbered_at(caps.drop_last(), ids, i);
        assert(caps.drop_last().take(i) =~= caps.take(i));
    } else {
        assert(caps.take(i) =~= caps.drop_last());
        if i > 0 {
            lemma_numbered_at(caps.drop_last(), ids, i - 1);
        } else {
            assert(caps.drop_last().len() == 0);
        }
    }
}

/// The capabilities of this side in two rows, one behind the other, are those
/// of the first and then those of the second; a row of one has the capability
/// if it is of this side.
pub proof fn law_local_caps_keep_their_order<P: Runtime>(
    one: Seq<Option<HookDescriptor<P>>>,
    other: Seq<Option<HookDescriptor<P>>>,
    hook: P::Hook,
    descriptor: OwnedCapDescriptor,
)
    ensures
        local_hooks(one + other) == local_hooks(one) + local_hooks(other),
        present(one + other) == present(one) + present(other),
        local_hooks(seq![Some(HookDescriptor::<P>::Local(hook))]) == seq![hook],
        present(seq![Some(HookDescriptor::<P>::Local(hook))]) == 1,
        local_hooks(seq![Some(HookDescriptor::<P>::Owned(descriptor))]) == Seq::<P::Hook>::empty(),
        present(seq![Some(HookDescriptor::<P>::Owned(descriptor))]) == 1,
        local_hooks(seq![None::<HookDescriptor<P>>]) == Seq::<P::Hook>::empty(),
        present(seq![None::<HookDescriptor<P>>]) == 0,
{
    lemma_local_hooks_of_both(one, other);
    reveal_with_fuel(local_hooks, 2);
    reveal_with_fuel(present, 2);
    let local = seq![Some(HookDescriptor::<P>::Local(hook))];
    let owned = seq![Some(HookDescriptor::<P>::Owned(descriptor))];
    let none = seq![None::<HookDescriptor<P>>];
    assert(local.drop_last() =~= Seq::empty());
    assert(owned.drop_last() =~= Seq::empty());
    assert(none.drop_last() =~= Seq::empty());
    assert(local_hooks(local) =~= seq![hook]);
}

proof fn lemma_local_hooks_of_both<P: Runtime>(
    one: Seq<Option<HookDescriptor<P>>>,
    other: Seq<Option<HookDescriptor<P>>>,
)
    ensures
        local_hooks(one + other) == local_hooks(one) + local_hooks(other),
        present(one + other) == present(one) + present(other),
    decreases other.len(),
{
    if other.len() == 0 {
        assert(one + other =~= one);
        assert(local_hooks(one) + local_hooks(other) =~= local_hooks(one));
    } else {
        lemma_local_hooks_of_both(one, other.drop_last());
        assert((one + other).drop_last() =~= one + other.drop_last());
        assert((one + other).last() == other.last());
        assert(local_hooks(one + other) =~= local_hooks(one) + local_hooks(other));
    }
}

/// A request for a number hands over a clone of the capability and the sending
/// end of the channel that the number comes out of.
pub proof fn law_a_request_for_a_number_is_answered_on_its_port<P: Runtime>(
    request: (RpcEvent<P>, Receiver<ExportId>),
    hook: P::Hook,
)
    requires
        is_export_request(request, hook),
    ensures
        request.0 is NewLocalServer,
        cloned(hook, request.0->NewLocalServer_0),
        crate::channel::paired(request.0->NewLocalServer_1, request.1),
{
}

} // verus!
