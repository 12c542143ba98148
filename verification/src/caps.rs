//! The capabilities in the payloads of messages.

use crate::answer::{Answer, AnswerView};
use crate::client::{ImportClient, PromisedAnswerClient};
use crate::fault::Fault;
use crate::message::{
    CallView, CapDescriptor, CapDescriptorView, Message, MessageView, Payload, PayloadView,
    PipelineOp, PromisedAnswer, PromisedAnswerView, ReturnBody, ReturnBodyView, ReturnView,
    TransformOp,
};
use crate::runtime::Runtime;
use crate::tables::{ExportId, ImportId, ImportTable, QuestionId};
use vstd::prelude::*;

verus! {

/// How a capability that this side sends is to be described to the other one.
#[derive(Debug)]
pub enum OwnedCapDescriptor {
    NoDescriptor,
    SenderHosted(ExportId),
    SenderPromise(ExportId),
    ReceiverHosted(ImportId),
    ReceiverAnswer(QuestionId, Vec<PipelineOp>),
}

/// A step as it is put into a message.
pub open spec fn transform_op(op: PipelineOp) -> TransformOp {
    match op {
        PipelineOp::Noop => TransformOp::Noop,
        PipelineOp::GetPointerField(index) => TransformOp::GetPointerField(index),
    }
}

/// Steps as they are put into a message.
pub open spec fn transform(ops: Seq<PipelineOp>) -> Seq<TransformOp> {
    ops.map_values(|op: PipelineOp| transform_op(op))
}

/// The steps that are found in a message; those of an unknown kind are left
/// out.
pub open spec fn pipeline_ops(transform: Seq<TransformOp>) -> Seq<PipelineOp>
    decreases transform.len(),
{
    if transform.len() == 0 {
        Seq::empty()
    } else {
        let ops = pipeline_ops(transform.drop_last());
        match transform.last() {
            TransformOp::Noop => ops.push(PipelineOp::Noop),
            TransformOp::GetPointerField(index) => ops.push(PipelineOp::GetPointerField(index)),
            TransformOp::Unknown(_) => ops,
        }
    }
}

/// Steps that were put into a message are found there again.
pub proof fn law_steps_are_found_again(ops: Seq<PipelineOp>)
    ensures
        pipeline_ops(transform(ops)) == ops,
    decreases ops.len(),
{
    if ops.len() > 0 {
        law_steps_are_found_again(ops.drop_last());
        assert(transform(ops).drop_last() =~= transform(ops.drop_last()));
        assert(ops =~= ops.drop_last().push(ops.last()));
    } else {
        assert(pipeline_ops(transform(ops)) =~= ops);
    }
}

/// Puts steps into the form that they have in a message.
pub fn to_transform(ops: &Vec<PipelineOp>) -> (steps: Vec<TransformOp>)
    ensures
        steps@ == transform(ops@),
{
    let mut steps: Vec<TransformOp> = Vec::new();
    let mut i: usize = 0;
    while i < ops.len()
        invariant
            i <= ops@.len(),
            steps@ =~= transform(ops@.take(i as int)),
        decreases ops@.len() - i,
    {
        match ops[i] {
            PipelineOp::Noop => steps.push(TransformOp::Noop),
            PipelineOp::GetPointerField(index) => steps.push(TransformOp::GetPointerField(index)),
        }
        i = i + 1;
        assert(ops@.take(i as int) =~= ops@.take(i - 1).push(ops@[i - 1]));
    }
    assert(ops@.take(i as int) =~= ops@);
    steps
}

/// The steps that a promised answer holds.
pub fn get_pipeline_ops(promised_answer: &PromisedAnswer) -> (ops: Vec<PipelineOp>)
    ensures
        ops@ == pipeline_ops(promised_answer@.transform),
{
    let mut ops: Vec<PipelineOp> = Vec::new();
    let steps = &promised_answer.transform;
    let mut i: usize = 0;
    while i < steps.len()
        invariant
            i <= steps@.len(),
            ops@ == pipeline_ops(steps@.take(i as int)),
        decreases steps@.len() - i,
    {
        match steps[i] {
            TransformOp::Noop => ops.push(PipelineOp::Noop),
            TransformOp::GetPointerField(index) => ops.push(PipelineOp::GetPointerField(index)),
            TransformOp::Unknown(_) => {},
        }
        i = i + 1;
        assert(steps@.take(i as int).drop_last() =~= steps@.take(i - 1));
    }
    assert(steps@.take(i as int) =~= steps@);
    ops
}

/// A capability that came in a payload.
pub enum ImportedCap<P: Runtime> {
    Import(ImportClient),
    PromisedAnswer(PromisedAnswerClient<P>),
}

/// Why the capability that `descriptor` describes cannot be had, if it cannot.
pub open spec fn cap_fault<P: Runtime>(
    descriptor: CapDescriptorView,
    answers: Map<u32, AnswerView<P>>,
) -> Option<Fault> {
    match descriptor {
        CapDescriptorView::NoDescriptor => None,
        CapDescriptorView::SenderHosted(_) => None,
        CapDescriptorView::SenderPromise(_) => None,
        CapDescriptorView::ReceiverHosted(_) => Some(Fault::ReceiverHostedCap),
        CapDescriptorView::ReceiverAnswer(answer) => if answers.contains_key(answer.question_id) {
            None
        } else {
            Some(Fault::NoSuchAnswer(answer.question_id))
        },
        CapDescriptorView::ThirdPartyHosted => Some(Fault::ThirdPartyHostedCap),
        CapDescriptorView::Unknown(_) => Some(Fault::UnknownCapDescriptor),
    }
}

/// `cap` is the capability that `descriptor` describes. A promise of the
/// sender is not followed, so there is none.
pub open spec fn is_described<P: Runtime>(
    cap: Option<ImportedCap<P>>,
    descriptor: CapDescriptorView,
    answers: Map<u32, AnswerView<P>>,
) -> bool {
    match descriptor {
        CapDescriptorView::SenderHosted(id) => cap == Some(
            ImportedCap::<P>::Import(ImportClient { import_id: id }),
        ),
        CapDescriptorView::ReceiverAnswer(answer) => {
            &&& cap matches Some(ImportedCap::PromisedAnswer(client))
            &&& client.ops@ == pipeline_ops(answer.transform)
            &&& cloned(answers[answer.question_id].answer_ref, client.answer_ref)
        },
        _ => cap is None,
    }
}

/// `caps` are the capabilities that `table` describes, each at its place.
pub open spec fn are_described<P: Runtime>(
    caps: Seq<Option<ImportedCap<P>>>,
    table: Seq<CapDescriptorView>,
    answers: Map<u32, AnswerView<P>>,
) -> bool {
    &&& caps.len() == table.len()
    &&& forall|i: int|
        0 <= i < caps.len() ==> is_described(#[trigger] caps[i], table[i], answers)
}

/// Why the first capability of `table` that cannot be had cannot, if there is
/// one.
pub open spec fn first_cap_fault<P: Runtime>(
    table: Seq<CapDescriptorView>,
    answers: Map<u32, AnswerView<P>>,
) -> Option<Fault>
    decreases table.len(),
{
    if table.len() == 0 {
        None
    } else {
        match first_cap_fault(table.drop_last(), answers) {
            Some(fault) => Some(fault),
            None => cap_fault(table.last(), answers),
        }
    }
}

/// The capability that `descriptor` describes.
fn client_hook<P: Runtime>(
    descriptor: &CapDescriptor,
    answers: &ImportTable<Answer<P>>,
) -> (cap: Result<Option<ImportedCap<P>>, Fault>)
    ensures
        match cap {
            Ok(cap) => cap_fault(descriptor@, crate::answer::answer_views(answers@)) is None && is_described(
                cap,
                descriptor@,
                crate::answer::answer_views(answers@),
            ),
            Err(fault) => cap_fault(descriptor@, crate::answer::answer_views(answers@)) == Some(fault),
        },
{
    match descriptor {
        CapDescriptor::NoDescriptor => Ok(None),
        CapDescriptor::SenderHosted(id) => Ok(
            Some(ImportedCap::Import(ImportClient { import_id: *id })),
        ),
        CapDescriptor::SenderPromise(_) => Ok(None),
        CapDescriptor::ReceiverHosted(_) => Err(Fault::ReceiverHostedCap),
        CapDescriptor::ReceiverAnswer(promised_answer) => {
            match answers.get(promised_answer.question_id) {
                Some(answer) => Ok(
                    Some(
                        ImportedCap::PromisedAnswer(
                            PromisedAnswerClient {
                                ops: get_pipeline_ops(promised_answer),
                                answer_ref: answer.answer_ref.clone(),
                            },
                        ),
                    ),
                ),
                None => Err(Fault::NoSuchAnswer(promised_answer.question_id)),
            }
        },
        CapDescriptor::ThirdPartyHosted => Err(Fault::ThirdPartyHostedCap),
        CapDescriptor::Unknown(_) => Err(Fault::UnknownCapDescriptor),
    }
}

/// The capabilities that a payload brings.
pub fn client_hooks_of_payload<P: Runtime>(
    payload: &Payload<P>,
    answers: &ImportTable<Answer<P>>,
) -> (caps: Result<Vec<Option<ImportedCap<P>>>, Fault>)
    ensures
        match caps {
            Ok(caps) => first_cap_fault(payload@.cap_table, crate::answer::answer_views(answers@)) is None && are_described(
                caps@,
                payload@.cap_table,
                crate::answer::answer_views(answers@),
            ),
            Err(fault) => first_cap_fault(payload@.cap_table, crate::answer::answer_views(answers@)) == Some(fault),
        },
{
    let mut caps: Vec<Option<ImportedCap<P>>> = Vec::new();
    let ghost table = payload@.cap_table;
    let mut i: usize = 0;
    while i < payload.cap_table.len()
        invariant
            i <= payload.cap_table@.len(),
            table == payload@.cap_table,
            first_cap_fault(table.take(i as int), crate::answer::answer_views(answers@)) is None,
            are_described(caps@, table.take(i as int), crate::answer::answer_views(answers@)),
        decreases payload.cap_table@.len() - i,
    {
        assert(table.take(i + 1).drop_last() =~= table.take(i as int));
        assert(table.take(i + 1).last() == payload.cap_table@[i as int]@);
        match client_hook(&payload.cap_table[i], answers) {
            Ok(cap) => {
                caps.push(cap);
            },
            Err(fault) => {
                proof {
                    lemma_first_cap_fault(table, i + 1, crate::answer::answer_views(answers@));
                }
                return Err(fault);
            },
        }
        i = i + 1;
    }
    assert(table.take(i as int) =~= table);
    Ok(caps)
}

/// A fault in the first part of a table is the fault of the table.
proof fn lemma_first_cap_fault<P: Runtime>(
    table: Seq<CapDescriptorView>,
    n: int,
    answers: Map<u32, AnswerView<P>>,
)
    requires
        0 <= n <= table.len(),
        first_cap_fault(table.take(n), answers) is Some,
    ensures
        first_cap_fault(table, answers) == first_cap_fault(table.take(n), answers),
    decreases table.len(),
{
    if n < table.len() {
        assert(table.drop_last().take(n) =~= table.take(n));
        lemma_first_cap_fault(table.drop_last(), n, answers);
    } else {
        assert(table.take(n) =~= table);
    }
}

/// The capability table of a message that has one.
pub open spec fn cap_table<P: Runtime>(message: MessageView<P>) -> Seq<CapDescriptorView> {
    match message {
        MessageView::Call(call) => call.params.cap_table,
        MessageView::Return(ret) => match ret.body {
            ReturnBodyView::Results(payload) => payload.cap_table,
            _ => Seq::empty(),
        },
        _ => Seq::empty(),
    }
}

/// The capabilities that a message brings.
pub fn populate_cap_table<P: Runtime>(
    message: &Message<P>,
    answers: &ImportTable<Answer<P>>,
) -> (caps: Result<Vec<Option<ImportedCap<P>>>, Fault>)
    ensures
        match caps {
            Ok(caps) => first_cap_fault(cap_table(message@), crate::answer::answer_views(answers@)) is None && are_described(
                caps@,
                cap_table(message@),
                crate::answer::answer_views(answers@),
            ),
            Err(fault) => first_cap_fault(cap_table(message@), crate::answer::answer_views(answers@)) == Some(fault),
        },
{
    match message {
        Message::Return(ret) => match &ret.body {
            ReturnBody::Results(payload) => client_hooks_of_payload(payload, answers),
            _ => Ok(Vec::new()),
        },
        Message::Call(call) => client_hooks_of_payload(&call.params, answers),
        _ => Ok(Vec::new()),
    }
}

/// A capability that goes out in a payload.
#[derive(Debug)]
pub enum OutgoingCap {
    /// It is not of this side, and knows how it is to be described.
    Described(OwnedCapDescriptor),
    /// It is of this side, and was exported under this number.
    Exported(ExportId),
}

/// How a capability that goes out is described in the message.
pub open spec fn outgoing_descriptor(cap: OutgoingCap) -> CapDescriptorView {
    match cap {
        OutgoingCap::Described(OwnedCapDescriptor::NoDescriptor) => CapDescriptorView::NoDescriptor,
        OutgoingCap::Described(OwnedCapDescriptor::SenderHosted(id)) =>
            CapDescriptorView::SenderHosted(id),
        OutgoingCap::Described(OwnedCapDescriptor::SenderPromise(_)) =>
            CapDescriptorView::NoDescriptor,
        OutgoingCap::Described(OwnedCapDescriptor::ReceiverHosted(id)) =>
            CapDescriptorView::ReceiverHosted(id),
        OutgoingCap::Described(OwnedCapDescriptor::ReceiverAnswer(id, ops)) =>
            CapDescriptorView::ReceiverAnswer(
            PromisedAnswerView { question_id: id, transform: transform(ops@) },
        ),
        OutgoingCap::Exported(id) => CapDescriptorView::SenderHosted(id),
    }
}

/// The table that describes the capabilities that go out. A place without a
/// capability is left out.
pub open spec fn outgoing_cap_table(caps: Seq<Option<OutgoingCap>>) -> Seq<CapDescriptorView>
    decreases caps.len(),
{
    if caps.len() == 0 {
        Seq::empty()
    } else {
        let table = outgoing_cap_table(caps.drop_last());
        match caps.last() {
            Some(cap) => table.push(outgoing_descriptor(cap)),
            None => table,
        }
    }
}

fn write_descriptor(cap: &OutgoingCap) -> (descriptor: CapDescriptor)
    ensures
        descriptor@ == outgoing_descriptor(*cap),
{
    match cap {
        OutgoingCap::Described(owned) => match owned {
            OwnedCapDescriptor::NoDescriptor => CapDescriptor::NoDescriptor,
            OwnedCapDescriptor::ReceiverHosted(import_id) => CapDescriptor::ReceiverHosted(
                *import_id,
            ),
            OwnedCapDescriptor::ReceiverAnswer(question_id, ops) => CapDescriptor::ReceiverAnswer(
                PromisedAnswer { question_id: *question_id, transform: to_transform(ops) },
            ),
            OwnedCapDescriptor::SenderHosted(export_id) => CapDescriptor::SenderHosted(*export_id),
            OwnedCapDescriptor::SenderPromise(_) => CapDescriptor::NoDescriptor,
        },
        OutgoingCap::Exported(export_id) => CapDescriptor::SenderHosted(*export_id),
    }
}

/// Describes the capabilities `caps` in `payload`.
fn write_payload<P: Runtime>(caps: &Vec<Option<OutgoingCap>>, payload: &mut Payload<P>)
    ensures
        final(payload)@ == (PayloadView {
            cap_table: outgoing_cap_table(caps@),
            ..old(payload)@
        }),
{
    let mut new_cap_table: Vec<CapDescriptor> = Vec::new();
    let mut i: usize = 0;
    assert(crate::message::descriptors(new_cap_table@) =~= outgoing_cap_table(caps@.take(0)));
    while i < caps.len()
        invariant
            i <= caps@.len(),
            crate::message::descriptors(new_cap_table@) == outgoing_cap_table(
                caps@.take(i as int),
            ),
        decreases caps@.len() - i,
    {
        assert(caps@.take(i + 1).drop_last() =~= caps@.take(i as int));
        match &caps[i] {
            Some(cap) => {
                let ghost before = new_cap_table@;
                new_cap_table.push(write_descriptor(cap));
                assert(crate::message::descriptors(new_cap_table@)
                    =~= crate::message::descriptors(before).push(outgoing_descriptor(*cap)));
            },
            None => {},
        }
        i = i + 1;
    }
    assert(caps@.take(i as int) =~= caps@);
    payload.cap_table = new_cap_table;
}

/// `message` with its capability table replaced, if it has one.
pub open spec fn with_cap_table<P: Runtime>(
    message: MessageView<P>,
    table: Seq<CapDescriptorView>,
) -> MessageView<P> {
    match message {
        MessageView::Call(call) => MessageView::Call(
            CallView { params: PayloadView { cap_table: table, ..call.params }, ..call },
        ),
        MessageView::Return(ret) => match ret.body {
            ReturnBodyView::Results(payload) => MessageView::Return(
                ReturnView {
                    body: ReturnBodyView::Results(PayloadView { cap_table: table, ..payload }),
                    ..ret
                },
            ),
            _ => message,
        },
        _ => message,
    }
}

/// Describes the capabilities `caps` in `message`, if it has a payload.
pub fn write_outgoing_cap_table<P: Runtime>(
    message: &mut Message<P>,
    caps: &Vec<Option<OutgoingCap>>,
)
    ensures
        final(message)@ == with_cap_table(old(message)@, outgoing_cap_table(caps@)),
{
    match message {
        Message::Call(call) => {
            write_payload(caps, &mut call.params);
        },
        Message::Return(ret) => match &mut ret.body {
            ReturnBody::Results(payload) => {
                write_payload(caps, payload);
            },
            _ => {},
        },
        _ => {},
    }
}

/// `message` has a payload, so that the capabilities in it have to be
/// described.
pub open spec fn carries_caps<P: Runtime>(message: Message<P>) -> bool {
    message is Call || (message matches Message::Return(ret) && ret.body is Results)
}

/// Whether `message` has a payload.
pub fn has_payload<P: Runtime>(message: &Message<P>) -> (yes: bool)
    ensures
        yes == carries_caps(*message),
{
    match message {
        Message::Call(_) => true,
        Message::Return(ret) => match ret.body {
            ReturnBody::Results(_) => true,
            _ => false,
        },
        _ => false,
    }
}

/// Where there is a capability at every place, the table describes each of
/// them at its place.
pub proof fn law_caps_keep_their_places(caps: Seq<Option<OutgoingCap>>)
    requires
        forall|i: int| 0 <= i < caps.len() ==> #[trigger] caps[i] is Some,
    ensures
        outgoing_cap_table(caps) == Seq::new(
            caps.len(),
            |i: int| outgoing_descriptor(caps[i]->0),
        ),
    decreases caps.len(),
{
    if caps.len() > 0 {
        assert forall|i: int| 0 <= i < caps.len() - 1 implies #[trigger]
            caps.drop_last()[i] is Some by {
            assert(caps.drop_last()[i] == caps[i]);
        }
        assert(caps.last() is Some);
        law_caps_keep_their_places(caps.drop_last());
    }
    assert(outgoing_cap_table(caps) =~= Seq::new(
        caps.len(),
        |i: int| outgoing_descriptor(caps[i]->0),
    ));
}

/// A capability that one side exports and sends is one that the other side
/// imports, under the same number.
pub proof fn law_an_exported_cap_is_imported<P: Runtime>(
    id: ExportId,
    answers: Map<u32, AnswerView<P>>,
    cap: Option<ImportedCap<P>>,
)
    ensures
        cap_fault(outgoing_descriptor(OutgoingCap::Exported(id)), answers) is None,
        is_described(cap, outgoing_descriptor(OutgoingCap::Exported(id)), answers) <==> cap == Some(
            ImportedCap::<P>::Import(ImportClient { import_id: id }),
        ),
{
}

/// A capability in the results of a question that one side sends is, for the
/// side that owes the answer, what the same steps lead to in that answer.
pub proof fn law_a_pipelined_cap_comes_home<P: Runtime>(
    id: QuestionId,
    ops: Vec<PipelineOp>,
    answers: Map<u32, AnswerView<P>>,
    cap: Option<ImportedCap<P>>,
)
    requires
        answers.contains_key(id),
    ensures
        ({
            let sent = outgoing_descriptor(
                OutgoingCap::Described(OwnedCapDescriptor::ReceiverAnswer(id, ops)),
            );
            &&& cap_fault(sent, answers) is None
            &&& is_described(cap, sent, answers) <==> (cap matches Some(
                ImportedCap::PromisedAnswer(client),
            ) && client.ops@ == ops@ && cloned(answers[id].answer_ref, client.answer_ref))
        }),
{
    law_steps_are_found_again(ops@);
}

/// Steps are put into a message one for one, and are found there one for one
/// but for those of an unknown kind.
pub proof fn law_steps_keep_their_order_and_their_fields(
    ops: Seq<PipelineOp>,
    i: int,
    one: Seq<TransformOp>,
    other: Seq<TransformOp>,
    field: u16,
)
    ensures
        transform(ops).len() == ops.len(),
        0 <= i < ops.len() ==> match ops[i] {
            PipelineOp::Noop => transform(ops)[i] == TransformOp::Noop,
            PipelineOp::GetPointerField(index) => transform(ops)[i]
                == TransformOp::GetPointerField(index),
        },
        pipeline_ops(one + other) == pipeline_ops(one) + pipeline_ops(other),
        pipeline_ops(seq![TransformOp::Noop]) == seq![PipelineOp::Noop],
        pipeline_ops(seq![TransformOp::GetPointerField(field)]) == seq![
            PipelineOp::GetPointerField(field),
        ],
        pipeline_ops(seq![TransformOp::Unknown(field)]) == Seq::<PipelineOp>::empty(),
        pipeline_ops(Seq::empty()) == Seq::<PipelineOp>::empty(),
{
    lemma_pipeline_ops_of_both(one, other);
    assert forall|op: TransformOp| (#[trigger] seq![op]).drop_last() =~= Seq::<
        TransformOp,
    >::empty() by {}
    reveal_with_fuel(pipeline_ops, 2);
    assert(seq![TransformOp::Noop].drop_last() =~= Seq::<TransformOp>::empty());
    assert(seq![TransformOp::GetPointerField(field)].drop_last() =~= Seq::<TransformOp>::empty());
    assert(seq![TransformOp::Unknown(field)].drop_last() =~= Seq::<TransformOp>::empty());
    assert(pipeline_ops(seq![TransformOp::Noop]) =~= seq![PipelineOp::Noop]);
    assert(pipeline_ops(seq![TransformOp::GetPointerField(field)]) =~= seq![
        PipelineOp::GetPointerField(field),
    ]);
}

proof fn lemma_pipeline_ops_of_both(one: Seq<TransformOp>, other: Seq<TransformOp>)
    ensures
        pipeline_ops(one + other) == pipeline_ops(one) + pipeline_ops(other),
    decreases other.len(),
{
    if other.len() == 0 {
        assert(one + other =~= one);
        assert(pipeline_ops(one) + pipeline_ops(other) =~= pipeline_ops(one));
    } else {
        lemma_pipeline_ops_of_both(one, other.drop_last());
        assert((one + other).drop_last() =~= one + other.drop_last());
        assert((one + other).last() == other.last());
        assert(pipeline_ops(one + other) =~= pipeline_ops(one) + pipeline_ops(other));
    }
}

/// The capabilities that can be had are those that the sender hosts or
/// promises, those that are missing, and those in answers that are owed. For
/// each of the others the fault says what it is.
pub proof fn law_what_caps_can_be_had<P: Runtime>(
    descriptor: CapDescriptorView,
    answers: Map<u32, AnswerView<P>>,
)
    ensures
        descriptor is NoDescriptor || descriptor is SenderHosted || descriptor is SenderPromise
            ==> cap_fault(descriptor, answers) is None,
        descriptor matches CapDescriptorView::ReceiverAnswer(answer) ==> {
            &&& answers.contains_key(answer.question_id) ==> cap_fault(descriptor, answers) is None
            &&& !answers.contains_key(answer.question_id) ==> cap_fault(descriptor, answers)
                == Some(Fault::NoSuchAnswer(answer.question_id))
        },
        descriptor is ReceiverHosted ==> cap_fault(descriptor, answers) == Some(
            Fault::ReceiverHostedCap,
        ),
        descriptor is ThirdPartyHosted ==> cap_fault(descriptor, answers) == Some(
            Fault::ThirdPartyHostedCap,
        ),
        descriptor is Unknown ==> cap_fault(descriptor, answers) == Some(
            Fault::UnknownCapDescriptor,
        ),
{
}

/// A table is at fault exactly if one of its descriptors is, and then in the
/// way of the first one that is.
pub proof fn law_the_first_fault_of_a_table_counts<P: Runtime>(
    table: Seq<CapDescriptorView>,
    answers: Map<u32, AnswerView<P>>,
    i: int,
)
    ensures
        (forall|j: int| 0 <= j < table.len() ==> cap_fault(#[trigger] table[j], answers) is None)
            <==> first_cap_fault(table, answers) is None,
        0 <= i < table.len() && cap_fault(table[i], answers) is Some && (forall|j: int|
            0 <= j < i ==> cap_fault(#[trigger] table[j], answers) is None) ==> first_cap_fault(
            table,
            answers,
        ) == cap_fault(table[i], answers),
    decreases table.len(),
{
    if table.len() > 0 {
        let part = table.drop_last();
        law_the_first_fault_of_a_table_counts(part, answers, i);
        assert forall|j: int| 0 <= j < part.len() implies part[j] == table[j] by {}
        if first_cap_fault(table, answers) is None {
            assert forall|j: int| 0 <= j < table.len() implies cap_fault(
                #[trigger] table[j],
                answers,
            ) is None by {
                if j < part.len() {
                    assert(cap_fault(part[j], answers) is None);
                }
            }
        }
        if forall|j: int| 0 <= j < table.len() ==> cap_fault(#[trigger] table[j], answers) is None {
            assert forall|j: int| 0 <= j < part.len() implies cap_fault(
                #[trigger] part[j],
                answers,
            ) is None by {
                assert(part[j] == table[j]);
            }
        }
        if 0 <= i < part.len() && (forall|j: int|
            0 <= j < i ==> cap_fault(#[trigger] table[j], answers) is None) {
            assert forall|j: int| 0 <= j < i implies cap_fault(
                #[trigger] part[j],
                answers,
            ) is None by {
                assert(part[j] == table[j]);
            }
        }
        if i == part.len() && (forall|j: int|
            0 <= j < i ==> cap_fault(#[trigger] table[j], answers) is None) {
            assert forall|j: int| 0 <= j < part.len() implies cap_fault(
                #[trigger] part[j],
                answers,
            ) is None by {
                assert(part[j] == table[j]);
            }
        }
    }
}

/// There is one capability for each descriptor, at its place: an import under
/// the number that the sender hosts it under, what the steps lead to in an
/// answer that is owed, and none where there is none or only a promise.
pub proof fn law_caps_are_at_the_places_of_their_descriptors<P: Runtime>(
    caps: Seq<Option<ImportedCap<P>>>,
    table: Seq<CapDescriptorView>,
    answers: Map<u32, AnswerView<P>>,
    i: int,
)
    requires
        are_described(caps, table, answers),
    ensures
        caps.len() == table.len(),
        0 <= i < table.len() ==> match table[i] {
            CapDescriptorView::SenderHosted(id) => caps[i] matches Some(ImportedCap::Import(client))
                && client.import_id == id,
            CapDescriptorView::ReceiverAnswer(answer) => caps[i] matches Some(
                ImportedCap::PromisedAnswer(client),
            ) && client.ops@ == pipeline_ops(answer.transform) && cloned(
                answers[answer.question_id].answer_ref,
                client.answer_ref,
            ),
            _ => caps[i] is None,
        },
{
    if 0 <= i < table.len() {
        assert(is_described(caps[i], table[i], answers));
    }
}

/// The capability table of a message is that of its parameters or results, and
/// putting another one there changes nothing else of the message.
pub proof fn law_the_cap_table_is_that_of_the_payload<P: Runtime>(
    message: MessageView<P>,
    table: Seq<CapDescriptorView>,
)
    ensures
        message matches MessageView::Call(call) ==> {
            &&& cap_table(message) == call.params.cap_table
            &&& with_cap_table(message, table) matches MessageView::Call(after) && {
                &&& after.params.cap_table == table
                &&& after.params.content == call.params.content
                &&& after.question_id == call.question_id
                &&& after.target == call.target
                &&& after.interface_id == call.interface_id
                &&& after.method_id == call.method_id
            }
        },
        message is Return && message->Return_0.body is Results ==> {
            let payload = message->Return_0.body->Results_0;
            &&& cap_table(message) == payload.cap_table
            &&& with_cap_table(message, table) matches MessageView::Return(after) && {
                &&& after.answer_id == message->Return_0.answer_id
                &&& after.body matches ReturnBodyView::Results(changed) && changed.cap_table
                    == table && changed.content == payload.content
            }
        },
        !(message is Call) && !(message matches MessageView::Return(ret) && ret.body is Results)
            ==> cap_table(message).len() == 0 && with_cap_table(message, table) == message,
{
}

/// A message takes the capabilities in it along exactly if it is a call or a
/// return with results.
pub proof fn law_calls_and_results_carry_caps<P: Runtime>(message: Message<P>)
    ensures
        message is Call ==> carries_caps(message),
        message matches Message::Return(ret) ==> (carries_caps(message) <==> ret.body is Results),
        !(message is Call) && !(message is Return) ==> !carries_caps(message),
{
}

/// What a capability that goes out says of itself is what the table says of it:
/// only a promise of this side is not told. An exported one is hosted by this
/// side under its number.
pub proof fn law_outgoing_caps_are_described_as_they_say(
    id: u32,
    ops: Vec<PipelineOp>,
    one: Seq<Option<OutgoingCap>>,
    other: Seq<Option<OutgoingCap>>,
    cap: OutgoingCap,
)
    ensures
        outgoing_descriptor(OutgoingCap::Exported(id)) == CapDescriptorView::SenderHosted(id),
        outgoing_descriptor(OutgoingCap::Described(OwnedCapDescriptor::SenderHosted(id)))
            == CapDescriptorView::SenderHosted(id),
        outgoing_descriptor(OutgoingCap::Described(OwnedCapDescriptor::ReceiverHosted(id)))
            == CapDescriptorView::ReceiverHosted(id),
        outgoing_descriptor(
            OutgoingCap::Described(OwnedCapDescriptor::ReceiverAnswer(id, ops)),
        ) matches CapDescriptorView::ReceiverAnswer(answer) && answer.question_id == id
            && answer.transform == transform(ops@),
        outgoing_descriptor(OutgoingCap::Described(OwnedCapDescriptor::NoDescriptor))
            == CapDescriptorView::NoDescriptor,
        outgoing_descriptor(OutgoingCap::Described(OwnedCapDescriptor::SenderPromise(id)))
            == CapDescriptorView::NoDescriptor,
        outgoing_cap_table(one + other) == outgoing_cap_table(one) + outgoing_cap_table(other),
        outgoing_cap_table(seq![Some(cap)]) == seq![outgoing_descriptor(cap)],
        outgoing_cap_table(seq![None]) == Seq::<CapDescriptorView>::empty(),
        outgoing_cap_table(Seq::empty()) == Seq::<CapDescriptorView>::empty(),
{
    lemma_outgoing_table_of_both(one, other);
    reveal_with_fuel(outgoing_cap_table, 2);
    assert(seq![Some(cap)].drop_last() =~= Seq::<Option<OutgoingCap>>::empty());
    assert(seq![None::<OutgoingCap>].drop_last() =~= Seq::<Option<OutgoingCap>>::empty());
    assert(outgoing_cap_table(seq![Some(cap)]) =~= seq![outgoing_descriptor(cap)]);
}

proof fn lemma_outgoing_table_of_both(
    one: Seq<Option<OutgoingCap>>,
    other: Seq<Option<OutgoingCap>>,
)
    ensures
        outgoing_cap_table(one + other) == outgoing_cap_table(one) + outgoing_cap_table(other),
    decreases other.len(),
{
    if other.len() == 0 {
        assert(one + other =~= one);
        assert(outgoing_cap_table(one) + outgoing_cap_table(other) =~= outgoing_cap_table(one));
    } else {
        lemma_outgoing_table_of_both(one, other.drop_last());
        assert((one + other).drop_last() =~= one + other.drop_last());
        assert((one + other).last() == other.last());
        assert(outgoing_cap_table(one + other) =~= outgoing_cap_table(one) + outgoing_cap_table(
            other,
        ));
    }
}

} // verus!
