//! What holds of the operations that change an answer or a connection: how what
//! comes out of them depends on what went in.

use crate::answer::{AnswerRef, AnswerStatus, Dispatch};
use crate::caps::{ImportedCap, OutgoingCap};
use crate::connection::{Action, OutgoingMessage, RpcConnectionState, RpcEvent};
use crate::context::{Response, RpcCallContext};
use crate::fault::Fault;
use crate::local::HookDescriptor;
use crate::message::{
    AnyPointer, Call, CapDescriptor, Message, MessageTarget, PipelineOp, Return, ReturnBody,
};
use crate::node::StructNode;
use crate::runtime::Runtime;
use crate::tables::{ExportId, ExportTable};
use std::sync::mpsc::Sender;
use vstd::prelude::*;

verus! {

/// When results are sent, whatever is in them, each call that waited for them is
/// made as it came, at its place in the row. When an exception is sent, none is.
pub proof fn law_calls_that_waited_are_made<P: Runtime>(
    answer: &mut AnswerRef<P>,
    message: Message<P>,
    done: Vec<Dispatch<P>>,
    i: int,
)
    requires
        old(answer).status is Pending,
        message is Return,
        call_ensures(AnswerRef::<P>::sent, (answer, message), done),
    ensures
        ({
            let waiting = old(answer).status->Pending_0@;
            &&& done@.len() == waiting.len()
            &&& 0 <= i < waiting.len() && message->Return_0.body is Results ==> done@[i] == (
            Dispatch::<P>::Call {
                interface_id: waiting[i].0,
                method_id: waiting[i].1,
                ops: waiting[i].2,
                context: waiting[i].3,
            })
            &&& 0 <= i < waiting.len() && message->Return_0.body is Exception ==> done@[i] == (
            Dispatch::<P>::Ignore { context: waiting[i].3 })
        }),
        final(answer).status == AnswerStatus::Sent(message),
{
}

/// A call on an answer that was sent with results, whatever is in them, is made
/// as it came, and one on an exception is not. A call on an answer that was not
/// sent waits behind those that came before it.
pub proof fn law_a_call_on_an_answer_is_made_or_waits<P: Runtime>(
    answer: &mut AnswerRef<P>,
    interface_id: u64,
    method_id: u16,
    ops: Vec<PipelineOp>,
    context: P::Context,
    done: Option<Dispatch<P>>,
)
    requires
        call_ensures(
            AnswerRef::<P>::receive,
            (answer, interface_id, method_id, ops, context),
            done,
        ),
    ensures
        old(answer).status matches AnswerStatus::Sent(Message::Return(ret)) ==> {
            &&& ret.body is Results ==> done == Some(
                Dispatch::<P>::Call { interface_id, method_id, ops, context },
            )
            &&& ret.body is Exception ==> done == Some(Dispatch::<P>::Ignore { context })
            &&& final(answer).status == AnswerStatus::Sent(Message::Return(ret))
        },
        old(answer).status matches AnswerStatus::Pending(waiting) ==> {
            &&& done is None
            &&& final(answer).status is Pending
            &&& final(answer).status->Pending_0@ == waiting@.push(
                (interface_id, method_id, ops, context),
            )
        },
{
}

/// The capability that `descriptor` stands for can be had: it is none, the
/// other side hosts it, or it is in an answer that is owed.
pub open spec fn can_be_had<P: Runtime>(
    descriptor: CapDescriptor,
    state: RpcConnectionState<P>,
) -> bool {
    match descriptor {
        CapDescriptor::NoDescriptor => true,
        CapDescriptor::SenderHosted(_) => true,
        CapDescriptor::SenderPromise(_) => true,
        CapDescriptor::ReceiverAnswer(promised) => state@.answers.contains_key(
            promised.question_id,
        ),
        _ => false,
    }
}

/// `cap` is what `descriptor` stands for: one that the other side hosts, under
/// its number, what its steps lead to in an answer that is owed, or none.
pub open spec fn stands_for<P: Runtime>(
    cap: Option<ImportedCap<P>>,
    descriptor: CapDescriptor,
    state: RpcConnectionState<P>,
) -> bool {
    match descriptor {
        CapDescriptor::SenderHosted(id) => cap matches Some(ImportedCap::Import(client))
            && client.import_id == id,
        CapDescriptor::ReceiverAnswer(promised) => cap matches Some(
            ImportedCap::PromisedAnswer(client),
        ) && client.ops@ == crate::caps::pipeline_ops(promised.transform@) && cloned(
            state@.answers[promised.question_id].answer_ref,
            client.answer_ref,
        ),
        _ => cap is None,
    }
}

/// If every capability in a table can be had, there is no fault in it.
proof fn lemma_no_fault_if_all_can_be_had<P: Runtime>(
    table: Seq<CapDescriptor>,
    state: RpcConnectionState<P>,
)
    requires
        forall|i: int| 0 <= i < table.len() ==> can_be_had(#[trigger] table[i], state),
    ensures
        crate::caps::first_cap_fault(crate::message::descriptors(table), state@.answers) is None,
    decreases table.len(),
{
    if table.len() > 0 {
        lemma_no_fault_if_all_can_be_had(table.drop_last(), state);
        assert(crate::message::descriptors(table).drop_last() =~= crate::message::descriptors(
            table.drop_last(),
        ));
        assert(can_be_had(table.last(), state));
    }
}

/// A return to an open question whose capabilities can be had is taken, whatever
/// came of the call, and is handed over as it came, with what each descriptor
/// stands for at its place.
pub proof fn law_a_return_to_an_open_question_is_taken<P: Runtime>(
    state: &mut RpcConnectionState<P>,
    ret: Return<P>,
    whole: P::Content,
    answer_ref: P::Answer,
    restored: Option<P::Hook>,
    done: Result<Action<P>, Fault>,
    i: int,
)
    requires
        old(state)@.questions.live(ret.answer_id),
        ret.body matches ReturnBody::Results(results) ==> forall|j: int|
            0 <= j < results.cap_table@.len() ==> can_be_had(
                #[trigger] results.cap_table@[j],
                *old(state),
            ),
        call_ensures(
            RpcConnectionState::<P>::step_restored,
            (
                state,
                RpcEvent::IncomingMessage(Message::Return(ret), whole),
                answer_ref,
                restored,
            ),
            done,
        ),
    ensures
        done matches Ok(Action::Respond { question_id, response: Response::Rpc(response) }) && {
            let caps = response.message.cap_table@;
            &&& question_id == ret.answer_id
            &&& response.message.message == Message::Return(ret)
            &&& response.message.whole == whole
            &&& ret.body matches ReturnBody::Results(results) ==> {
                &&& caps.len() == results.cap_table@.len()
                &&& 0 <= i < caps.len() ==> stands_for(
                    caps[i],
                    results.cap_table@[i],
                    *old(state),
                )
            }
            &&& !(ret.body is Results) ==> caps.len() == 0
        },
        !final(state)@.questions.at(ret.answer_id).is_awaiting_return,
{
    if ret.body is Results {
        lemma_no_fault_if_all_can_be_had(ret.body->Results_0.cap_table@, *old(state));
    } else {
        assert(crate::caps::cap_table(Message::Return(ret)@).len() == 0);
    }
    crate::laws::law_when_an_incoming_message_is_at_fault(
        old(state)@,
        Message::Return(ret),
        whole,
        restored,
    );
    crate::laws::law_a_return_is_handed_over_with_all_that_came(
        old(state)@,
        ret,
        whole,
        answer_ref,
        restored,
        final(state)@,
        done->Ok_0,
        i,
    );
}

/// The context of `call`, which came as `whole`, holds the message, what each
/// descriptor of its parameters stands for at its place, and empty results under
/// its number.
pub open spec fn is_context_of<P: Runtime>(
    context: RpcCallContext<P>,
    call: Call<P>,
    whole: P::Content,
    state: RpcConnectionState<P>,
) -> bool {
    let table = call.params.cap_table@;
    let caps = context.params_message.cap_table@;
    &&& context.params_message.message == Message::Call(call)
    &&& context.params_message.whole == whole
    &&& caps.len() == table.len()
    &&& forall|i: int| 0 <= i < table.len() ==> stands_for(#[trigger] caps[i], table[i], state)
    &&& context.results_message matches Message::Return(ret) && ret.answer_id == call.question_id
        && (ret.body matches ReturnBody::Results(results) && results.content is Null
        && results.cap_table@.len() == 0)
}

/// A call on an export, or on an answer that is owed, whose capabilities can be
/// had is taken and made as it came.
pub proof fn law_a_call_on_what_is_there_is_taken<P: Runtime>(
    state: &mut RpcConnectionState<P>,
    call: Call<P>,
    whole: P::Content,
    answer_ref: P::Answer,
    restored: Option<P::Hook>,
    done: Result<Action<P>, Fault>,
)
    requires
        match call.target {
            MessageTarget::ImportedCap(id) => old(state)@.exports.live(id),
            MessageTarget::PromisedAnswer(promised) => old(state)@.answers.contains_key(
                promised.question_id,
            ) || promised.question_id == call.question_id,
            MessageTarget::Unknown(_) => false,
        },
        forall|j: int|
            0 <= j < call.params.cap_table@.len() ==> can_be_had(
                #[trigger] call.params.cap_table@[j],
                *old(state),
            ),
        call_ensures(
            RpcConnectionState::<P>::step_restored,
            (
                state,
                RpcEvent::IncomingMessage(Message::Call(call), whole),
                answer_ref,
                restored,
            ),
            done,
        ),
    ensures
        match call.target {
            MessageTarget::ImportedCap(id) => done matches Ok(
                Action::CallExport { export_id, interface_id, method_id, context },
            ) && {
                &&& export_id == id
                &&& interface_id == call.interface_id
                &&& method_id == call.method_id
                &&& is_context_of(context, call, whole, *old(state))
            },
            MessageTarget::PromisedAnswer(promised) => done matches Ok(
                Action::CallAnswer { answer_ref: called, interface_id, method_id, ops, context },
            ) && {
                &&& cloned(
                    if promised.question_id == call.question_id {
                        answer_ref
                    } else {
                        old(state)@.answers[promised.question_id].answer_ref
                    },
                    called,
                )
                &&& ops@ == crate::caps::pipeline_ops(promised.transform@)
                &&& interface_id == call.interface_id
                &&& method_id == call.method_id
                &&& is_context_of(context, call, whole, *old(state))
            },
            MessageTarget::Unknown(_) => false,
        },
        final(state)@.answers.contains_key(call.question_id),
        final(state)@.answers[call.question_id].answer_ref == answer_ref,
{
    let before = old(state)@;
    let after = final(state)@;
    lemma_no_fault_if_all_can_be_had(call.params.cap_table@, *old(state));
    crate::laws::law_when_an_incoming_message_is_at_fault(
        before,
        Message::Call(call),
        whole,
        restored,
    );
    let action = done->Ok_0;
    if call.target is ImportedCap {
        let context = action->CallExport_context;
        crate::laws::law_a_call_on_an_export_is_made_with_all_that_came(
            before, call, whole, answer_ref, restored, after, action, 0,
        );
        assert forall|i: int| 0 <= i < call.params.cap_table@.len() implies stands_for(
            #[trigger] context.params_message.cap_table@[i],
            call.params.cap_table@[i],
            *old(state),
        ) by {
            crate::laws::law_a_call_on_an_export_is_made_with_all_that_came(
                before, call, whole, answer_ref, restored, after, action, i,
            );
        }
    } else {
        let context = action->CallAnswer_context;
        crate::laws::law_a_call_on_an_answer_is_made_with_all_that_came(
            before, call, whole, answer_ref, restored, after, action, 0,
        );
        assert forall|i: int| 0 <= i < call.params.cap_table@.len() implies stands_for(
            #[trigger] context.params_message.cap_table@[i],
            call.params.cap_table@[i],
            *old(state),
        ) by {
            crate::laws::law_a_call_on_an_answer_is_made_with_all_that_came(
                before, call, whole, answer_ref, restored, after, action, i,
            );
        }
    }
}

/// A call that is sent goes out as it was handed over, in nothing changed but its
/// number.
pub proof fn law_a_call_is_sent_as_it_was_handed_over<P: Runtime>(
    state: &mut RpcConnectionState<P>,
    outgoing: OutgoingMessage<P>,
    answer_ref: P::Answer,
    restored: Option<P::Hook>,
    done: Result<Action<P>, Fault>,
)
    requires
        old(state).wf(),
        outgoing.message is Call,
        call_ensures(
            RpcConnectionState::<P>::step_restored,
            (state, RpcEvent::Outgoing(outgoing), answer_ref, restored),
            done,
        ),
    ensures
        done matches Ok(Action::Ask { question_ref, question_chan, message: Message::Call(sent) })
            && {
            let call = outgoing.message->Call_0;
            &&& sent.question_id == question_ref.id
            &&& sent.target == call.target
            &&& sent.interface_id == call.interface_id
            &&& sent.method_id == call.method_id
            &&& sent.params == call.params
            &&& question_chan == outgoing.question_chan
            &&& final(state)@.questions.live(question_ref.id)
            &&& final(state)@.questions.at(question_ref.id).chan == outgoing.answer_chan
            &&& final(state)@.questions.at(question_ref.id).is_awaiting_return
            &&& old(state)@.questions.consistent() ==> !old(state)@.questions.live(
                question_ref.id,
            )
        },
{
    old(state).law_wf();
    crate::laws::law_when_another_event_is_at_fault(
        old(state)@,
        RpcEvent::Outgoing(outgoing),
        restored,
    );
    crate::laws::law_what_goes_out_is_what_was_handed_over(
        old(state)@,
        outgoing,
        answer_ref,
        restored,
        final(state)@,
        done->Ok_0,
    );
}

/// A capability that has a descriptor of its own keeps it when the local ones get
/// their numbers, and the table says what it describes; one that is not there
/// stays away.
pub proof fn law_numbers_are_for_local_caps_only<P: Runtime>(
    caps: Vec<Option<HookDescriptor<P>>>,
    ids: Vec<ExportId>,
    out: Vec<Option<OutgoingCap>>,
    i: int,
)
    requires
        0 <= i < caps@.len(),
        call_ensures(crate::local::number_caps::<P>, (caps, &ids), out),
    ensures
        out@.len() == caps@.len(),
        caps@[i] is None ==> out@[i] is None,
        caps@[i] matches Some(HookDescriptor::Owned(descriptor)) ==> {
            &&& out@[i] == Some(OutgoingCap::Described(descriptor))
            &&& crate::caps::outgoing_cap_table(out@).contains(
                crate::caps::outgoing_descriptor(OutgoingCap::Described(descriptor)),
            )
        },
        caps@[i] matches Some(HookDescriptor::Local(_)) ==> out@[i] == Some(
            OutgoingCap::Exported(
                ids@[crate::local::local_hooks(caps@.take(i)).len() as int],
            ),
        ),
{
    crate::local::law_caps_go_out_as_they_say(caps@, ids@, i);
}

/// What is put into structs is found in them again.
pub proof fn law_what_is_encoded_is_decoded<P: Runtime>(
    message: Message<P>,
    node: StructNode,
    content: AnyPointer<P>,
    back: Message<P>,
)
    requires
        crate::encode::message_valid(message@),
        crate::encode::carries(message@, content),
        call_ensures(crate::encode::encode_message::<P>, (&message,), node),
        call_ensures(crate::schema::decode_message::<P>, (&node, content), back),
    ensures
        back@ == message@,
{
    crate::encode::law_message_is_read_back(node, message@, content);
}

/// The results that were sent are there, and an exception has none.
pub proof fn law_sent_results_are_there<P: Runtime>(
    answer: &mut AnswerRef<P>,
    ret: Return<P>,
    done: Vec<Dispatch<P>>,
    yes: bool,
    content: Option<&AnyPointer<P>>,
)
    requires
        call_ensures(AnswerRef::<P>::sent, (answer, Message::Return(ret)), done),
        call_ensures(AnswerRef::<P>::is_sent, (&*final(answer),), yes),
        call_ensures(AnswerRef::<P>::content, (&*final(answer),), content),
    ensures
        yes,
        match ret.body {
            ReturnBody::Results(results) => content matches Some(there) && *there
                == results.content,
            _ => content is None,
        },
{
}

/// A local server that was exported is what is found under its number.
pub proof fn law_an_exported_server_is_found<P: Runtime>(
    state: &mut RpcConnectionState<P>,
    hook: P::Hook,
    chan: Sender<ExportId>,
    answer_ref: P::Answer,
    restored: Option<P::Hook>,
    done: Result<Action<P>, Fault>,
    found: Option<&P::Hook>,
)
    requires
        old(state).wf(),
        call_ensures(
            RpcConnectionState::<P>::step_restored,
            (state, RpcEvent::NewLocalServer(hook, chan), answer_ref, restored),
            done,
        ),
        done is Ok ==> call_ensures(
            RpcConnectionState::<P>::export_hook,
            (&*final(state), done->Ok_0->Exported_export_id),
            found,
        ),
    ensures
        done matches Ok(Action::Exported { export_id, export_chan }) && export_chan == chan,
        found matches Some(there) && *there == hook,
{
    let before = old(state)@;
    old(state).law_wf();
    crate::laws::law_when_another_event_is_at_fault(
        before,
        RpcEvent::NewLocalServer(hook, chan),
        restored,
    );
    crate::laws::law_a_new_server_is_exported_as_it_is(
        before,
        hook,
        chan,
        answer_ref,
        restored,
        final(state)@,
        done->Ok_0,
    );
}

/// The response to a question that was asked goes to whoever asked it.
pub proof fn law_the_response_goes_to_who_asked<P: Runtime>(
    state: &mut RpcConnectionState<P>,
    outgoing: OutgoingMessage<P>,
    answer_ref: P::Answer,
    restored: Option<P::Hook>,
    done: Result<Action<P>, Fault>,
    chan: Option<&Sender<Response<P>>>,
)
    requires
        old(state).wf(),
        outgoing.message is Call || outgoing.message is Bootstrap,
        call_ensures(
            RpcConnectionState::<P>::step_restored,
            (state, RpcEvent::Outgoing(outgoing), answer_ref, restored),
            done,
        ),
        done is Ok ==> call_ensures(
            RpcConnectionState::<P>::answer_chan,
            (&*final(state), done->Ok_0->question_ref.id),
            chan,
        ),
    ensures
        done matches Ok(Action::Ask { question_ref, question_chan, message })
            && question_chan == outgoing.question_chan,
        chan matches Some(there) && *there == outgoing.answer_chan,
{
    old(state).law_wf();
    crate::laws::law_when_another_event_is_at_fault(
        old(state)@,
        RpcEvent::Outgoing(outgoing),
        restored,
    );
    crate::laws::law_what_goes_out_is_what_was_handed_over(
        old(state)@,
        outgoing,
        answer_ref,
        restored,
        final(state)@,
        done->Ok_0,
    );
}

/// A question ends, and the other side is told so, exactly if no reference to it
/// is left.
pub proof fn law_a_question_ends_if_unreferenced<P: Runtime>(
    state: &mut RpcConnectionState<P>,
    id: u32,
    unreferenced: bool,
    message: Option<Message<P>>,
)
    requires
        old(state).wf(),
        old(state)@.questions.live(id),
        call_ensures(RpcConnectionState::<P>::finish_if, (state, id, unreferenced), message),
    ensures
        message is Some <==> unreferenced,
        message matches Some(Message::Finish(finish)) ==> finish.question_id == id
            && !finish.release_result_caps,
        message is Some ==> message->0 is Finish,
        final(state)@.questions.live(id) <==> !unreferenced,
        final(state)@.exports == old(state)@.exports,
        final(state)@.answers == old(state)@.answers,
{
}

/// What is put into a table is found under its number, and is gone once it is
/// taken out.
pub proof fn law_what_is_put_into_a_table_is_found<T>(
    table: &mut ExportTable<T>,
    val: T,
    id: u32,
    found: Option<&T>,
    later: &mut ExportTable<T>,
    gone: Option<&T>,
)
    requires
        old(table).wf(),
        call_ensures(ExportTable::<T>::push, (table, val), id),
        call_ensures(ExportTable::<T>::get, (&*final(table), id), found),
        *old(later) == *final(table),
        call_ensures(ExportTable::<T>::erase, (later, id), ()),
        call_ensures(ExportTable::<T>::get, (&*final(later), id), gone),
    ensures
        found matches Some(there) && *there == val,
        gone is None,
{
}

} // verus!
