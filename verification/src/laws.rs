//! What holds of a connection over one event and over several.

use crate::caps::{ImportedCap, OutgoingCap};
use crate::connection::{Action, Notice, OutgoingMessage, RpcConnectionStateView, RpcEvent};
use crate::context::{Response, RpcCallContext};
use crate::fault::Fault;
use crate::message::{
    AnyPointer, Bootstrap, Call, CapDescriptor, CapDescriptorView, Message, MessageTarget,
    MessageTargetView, MessageView, PipelineOp, PromisedAnswerView, Return, ReturnBody,
};
use crate::question::{Question, QuestionRef};
use crate::runtime::Runtime;
use crate::tables::{AnswerId, ExportId, QuestionId};
use std::sync::mpsc::Sender;
use vstd::prelude::*;

verus! {

/// `event` is the release of an export that is not there.
pub open spec fn releases_nothing<P: Runtime>(
    state: RpcConnectionStateView<P>,
    event: RpcEvent<P>,
) -> bool {
    event matches RpcEvent::IncomingMessage(Message::Release(release), _) && release.reference_count
        == 1 && !state.exports.live(release.id)
}

/// `event` comes to `after` and `action`, and there was room for it.
pub open spec fn happens<P: Runtime>(
    before: RpcConnectionStateView<P>,
    event: RpcEvent<P>,
    answer_ref: P::Answer,
    restored: Option<P::Hook>,
    after: RpcConnectionStateView<P>,
    action: Action<P>,
) -> bool {
    &&& before.has_room_for(event)
    &&& before.fault(event, restored) is None
    &&& before.handles(event, answer_ref, restored, after, action)
}

/// A new connection is consistent.
pub proof fn law_a_new_connection_is_consistent<P: Runtime>()
    ensures
        RpcConnectionStateView::<P>::empty().consistent(),
{
    crate::tables::ExportTableView::<crate::connection::Export<P::Hook>>::law_empty_is_consistent();
    crate::tables::ExportTableView::<Question<P>>::law_empty_is_consistent();
}

/// No event makes a consistent connection inconsistent, but for the release of
/// an export that is not there.
pub proof fn law_events_keep_a_connection_consistent<P: Runtime>(
    before: RpcConnectionStateView<P>,
    event: RpcEvent<P>,
    answer_ref: P::Answer,
    restored: Option<P::Hook>,
    after: RpcConnectionStateView<P>,
    action: Action<P>,
)
    requires
        before.consistent(),
        happens(before, event, answer_ref, restored, after, action),
        !releases_nothing(before, event),
    ensures
        after.consistent(),
{
    match event {
        RpcEvent::IncomingMessage(Message::Bootstrap(bootstrap), _) => {
            let hook = restored->0;
            let (export_id, copy) = choose|export_id: ExportId, copy: P::Hook| #[trigger]
                before.is_started(
                    bootstrap.question_id,
                    hook,
                    answer_ref,
                    after,
                    action->Answer_message@,
                    export_id,
                    copy,
                );
            before.exports.law_push_uses_the_lowest_unused_id(
                export_id,
                crate::connection::Export { hook: copy, reference_count: 0 },
            );
        },
        RpcEvent::IncomingMessage(message, _) => match message@ {
            MessageView::Return(ret) => {
                lemma_set_keeps_consistent(
                    before.questions,
                    ret.answer_id,
                    before.questions.at(ret.answer_id).returned(),
                );
            },
            MessageView::Release(release) => {
                if release.reference_count == 1 {
                    before.exports.law_erase_frees_a_live_id(release.id);
                }
            },
            _ => {},
        },
        RpcEvent::Outgoing(outgoing) => {
            if !(outgoing.message is Return) {
                let id = action->question_ref.id;
                before.questions.law_push_uses_the_lowest_unused_id(id, after.questions.at(id));
            }
        },
        RpcEvent::NewLocalServer(hook, _) => {
            before.exports.law_push_uses_the_lowest_unused_id(
                action->Exported_export_id,
                crate::connection::Export { hook, reference_count: 0 },
            );
        },
        RpcEvent::DoneWithQuestion(id) => {
            if before.is_awaiting(id) {
                before.questions.law_erase_frees_a_live_id(id);
            }
        },
        _ => {},
    }
}

proof fn lemma_set_keeps_consistent<T>(
    table: crate::tables::ExportTableView<T>,
    id: u32,
    val: T,
)
    requires
        table.wf(),
        table.consistent(),
        table.live(id),
    ensures
        table.set(id, val).wf(),
        table.set(id, val).consistent(),
{
    let after = table.set(id, val);
    assert forall|other: u32| #[trigger] after.free.contains(other) implies after.has_slot(
        other,
    ) by {
        assert(table.free.contains(other));
    }
    assert forall|other: u32| #[trigger]
        after.free.count(other) == (if after.has_slot(other) && !after.live(other) {
            1nat
        } else {
            0nat
        }) by {
        assert(table.free.count(other) == if table.has_slot(other) && !table.live(other) {
            1nat
        } else {
            0nat
        });
    }
}

/// `before` becomes `after`: by an event, or because a question to which the
/// response was handed over is ended.
pub open spec fn moves<P: Runtime>(
    before: RpcConnectionStateView<P>,
    after: RpcConnectionStateView<P>,
) -> bool {
    ||| exists|
        event: RpcEvent<P>,
        answer_ref: P::Answer,
        restored: Option<P::Hook>,
        action: Action<P>,
    |
        #[trigger] happens(before, event, answer_ref, restored, after, action)
            && !releases_nothing(before, event)
    ||| exists|id: QuestionId| before.questions.live(id) && after == #[trigger] before.finished(id)
}

/// `states` are what a new connection goes through, one after the other.
pub open spec fn is_history<P: Runtime>(states: Seq<RpcConnectionStateView<P>>) -> bool {
    &&& states.len() > 0
    &&& states[0] == RpcConnectionStateView::<P>::empty()
    &&& forall|i: int, j: int|
        0 <= i && j == i + 1 && j < states.len() ==> moves(#[trigger] states[i], #[trigger] states[j])
}

/// A connection on which the other side never releases an export that is not
/// there is consistent at every time.
pub proof fn law_a_connection_is_always_consistent<P: Runtime>(
    states: Seq<RpcConnectionStateView<P>>,
    i: int,
)
    requires
        is_history(states),
        0 <= i < states.len(),
    ensures
        states[i].consistent(),
    decreases i,
{
    if i == 0 {
        law_a_new_connection_is_consistent::<P>();
    } else {
        law_a_connection_is_always_consistent(states, i - 1);
        let before = states[i - 1];
        let after = states[i];
        assert(moves(before, after));
        if exists|id: QuestionId|
            before.questions.live(id) && after == #[trigger] before.finished(id) {
            let id = choose|id: QuestionId|
                before.questions.live(id) && after == #[trigger] before.finished(id);
            before.questions.law_erase_frees_a_live_id(id);
        } else {
            let (event, answer_ref, restored, action) = choose|
                event: RpcEvent<P>,
                answer_ref: P::Answer,
                restored: Option<P::Hook>,
                action: Action<P>,
            |
                #[trigger] happens(before, event, answer_ref, restored, after, action)
                    && !releases_nothing(before, event);
            law_events_keep_a_connection_consistent(
                before,
                event,
                answer_ref,
                restored,
                after,
                action,
            );
        }
    }
}

/// A question is sent under the lowest number that no open question has, its
/// return is then awaited, its response goes into its own channel, and no
/// other question is touched.
pub proof fn law_a_question_gets_a_number_of_its_own<P: Runtime>(
    before: RpcConnectionStateView<P>,
    outgoing: OutgoingMessage<P>,
    answer_ref: P::Answer,
    after: RpcConnectionStateView<P>,
    action: Action<P>,
)
    requires
        before.consistent(),
        !(outgoing.message is Return),
        happens(before, RpcEvent::Outgoing(outgoing), answer_ref, None, after, action),
    ensures
        action matches Action::Ask { question_ref, question_chan, message } && {
            let id = question_ref.id;
            &&& !before.questions.live(id)
            &&& forall|lower: QuestionId| lower < id ==> #[trigger] before.questions.live(lower)
            &&& after.is_awaiting(id)
            &&& after.questions.at(id).chan == outgoing.answer_chan
            &&& question_chan == outgoing.question_chan
            &&& match message@ {
                MessageView::Call(call) => call.question_id == id,
                MessageView::Bootstrap(bootstrap) => bootstrap.question_id == id,
                _ => false,
            }
            &&& forall|other: QuestionId|
                other != id ==> #[trigger] after.questions.live(other) == before.questions.live(
                    other,
                )
            &&& forall|other: QuestionId|
                other != id && before.questions.live(other) ==> #[trigger] after.questions.at(other)
                    == before.questions.at(other)
        },
{
    let id = action->question_ref.id;
    before.questions.law_push_uses_the_lowest_unused_id(id, after.questions.at(id));
}

/// The reference to a question that this side is given is counted with the
/// question, and so is every reference that is made of it by cloning.
pub proof fn law_references_to_a_question_are_counted<P: Runtime>(
    before: RpcConnectionStateView<P>,
    outgoing: OutgoingMessage<P>,
    answer_ref: P::Answer,
    after: RpcConnectionStateView<P>,
    action: Action<P>,
    generation: nat,
    reference: QuestionRef,
    other: QuestionRef,
)
    requires
        !(outgoing.message is Return),
        happens(before, RpcEvent::Outgoing(outgoing), answer_ref, None, after, action),
    ensures
        action matches Action::Ask { question_ref, .. } && {
            let counter = after.questions.at(question_ref.id).ref_counter;
            &&& crate::channel::counts(question_ref.ref_count, counter, 0)
            &&& reference.id == question_ref.id && crate::channel::counts(
                reference.ref_count,
                counter,
                generation,
            ) && reference.has_clone(other) ==> {
                &&& other.id == question_ref.id
                &&& crate::channel::counts(other.ref_count, counter, generation + 1)
            }
        },
{
    let counter = after.questions.at(action->question_ref.id).ref_counter;
    if crate::channel::counts(reference.ref_count, counter, generation) && reference.has_clone(
        other,
    ) {
        crate::channel::law_a_clone_counts(
            reference.ref_count,
            other.ref_count,
            counter,
            generation,
        );
    }
}

/// What is returned to an open question goes to it, and to no other: the
/// response holds the message, whole as it came, and nothing else changes.
pub proof fn law_a_return_reaches_its_question<P: Runtime>(
    before: RpcConnectionStateView<P>,
    message: Message<P>,
    whole: P::Content,
    answer_ref: P::Answer,
    after: RpcConnectionStateView<P>,
    action: Action<P>,
)
    requires
        message is Return,
        happens(before, RpcEvent::IncomingMessage(message, whole), answer_ref, None, after, action),
    ensures
        ({
            let id = message->Return_0.answer_id;
            &&& before.questions.live(id)
            &&& action matches Action::Respond { question_id, response: Response::Rpc(response) }
            &&& question_id == id
            &&& response.message.message == message
            &&& response.message.whole == whole
            &&& after.questions.at(id).chan == before.questions.at(id).chan
            &&& !after.is_awaiting(id)
            &&& forall|other: QuestionId| #[trigger]
                after.questions.live(other) == before.questions.live(other)
            &&& forall|other: QuestionId|
                other != id && before.questions.live(other) ==> #[trigger] after.questions.at(other)
                    == before.questions.at(other)
            &&& after.exports == before.exports
            &&& after.answers == before.answers
        }),
{
}

/// A question stays open, and keeps its channel, until this side gives it up;
/// its return stays awaited until it comes.
pub proof fn law_a_question_stays_open<P: Runtime>(
    before: RpcConnectionStateView<P>,
    event: RpcEvent<P>,
    answer_ref: P::Answer,
    restored: Option<P::Hook>,
    after: RpcConnectionStateView<P>,
    action: Action<P>,
    id: QuestionId,
)
    requires
        before.consistent(),
        happens(before, event, answer_ref, restored, after, action),
        before.questions.live(id),
        event != RpcEvent::<P>::DoneWithQuestion(id),
    ensures
        after.questions.live(id),
        after.questions.at(id).chan == before.questions.at(id).chan,
        after.questions.at(id).ref_counter == before.questions.at(id).ref_counter,
        before.is_awaiting(id) && !(event matches RpcEvent::IncomingMessage(Message::Return(ret), _)
            && ret.answer_id == id) ==> after.is_awaiting(id),
{
    match event {
        RpcEvent::Outgoing(outgoing) => {
            if !(outgoing.message is Return) {
                let new = action->question_ref.id;
                before.questions.law_push_uses_the_lowest_unused_id(new, after.questions.at(new));
            }
        },
        RpcEvent::DoneWithQuestion(other) => {
            if before.is_awaiting(other) {
                before.questions.law_erase_frees_a_live_id(other);
            }
        },
        _ => {},
    }
}

/// A question that was ended is open no longer, no other question is touched,
/// and the connection stays consistent.
pub proof fn law_a_finished_question_is_gone<P: Runtime>(
    before: RpcConnectionStateView<P>,
    id: QuestionId,
)
    requires
        before.consistent(),
        before.questions.live(id),
    ensures
        before.finished(id).consistent(),
        !before.finished(id).questions.live(id),
        forall|other: QuestionId|
            other != id ==> #[trigger] before.finished(id).questions.live(other)
                == before.questions.live(other),
        forall|other: QuestionId|
            other != id && before.questions.live(other) ==> #[trigger] before.finished(
                id,
            ).questions.at(other) == before.questions.at(other),
{
    before.questions.law_erase_frees_a_live_id(id);
}

/// Once a question is ended, a return under its number is a fault.
pub proof fn law_a_return_to_a_finished_question_is_a_fault<P: Runtime>(
    before: RpcConnectionStateView<P>,
    id: QuestionId,
    message: Message<P>,
    whole: P::Content,
)
    requires
        before.consistent(),
        before.questions.live(id),
        message matches Message::Return(ret) && ret.answer_id == id,
        crate::caps::first_cap_fault(crate::caps::cap_table(message@), before.answers) is None,
    ensures
        before.finished(id).fault(RpcEvent::IncomingMessage(message, whole), None) == Some(
            Fault::NoSuchQuestion(id),
        ),
{
    before.questions.law_erase_frees_a_live_id(id);
}

/// An export stays, the same capability, until the other side releases it.
pub proof fn law_an_export_stays<P: Runtime>(
    before: RpcConnectionStateView<P>,
    event: RpcEvent<P>,
    answer_ref: P::Answer,
    restored: Option<P::Hook>,
    after: RpcConnectionStateView<P>,
    action: Action<P>,
    id: ExportId,
)
    requires
        before.consistent(),
        happens(before, event, answer_ref, restored, after, action),
        before.exports.live(id),
        !(event matches RpcEvent::IncomingMessage(Message::Release(release), _)
            && release.reference_count == 1 && release.id == id),
    ensures
        after.exports.live(id),
        after.exports.at(id) == before.exports.at(id),
{
    match event {
        RpcEvent::IncomingMessage(Message::Bootstrap(bootstrap), _) => {
            let hook = restored->0;
            let (export_id, copy) = choose|export_id: ExportId, copy: P::Hook| #[trigger]
                before.is_started(
                    bootstrap.question_id,
                    hook,
                    answer_ref,
                    after,
                    action->Answer_message@,
                    export_id,
                    copy,
                );
            before.exports.law_push_uses_the_lowest_unused_id(
                export_id,
                crate::connection::Export { hook: copy, reference_count: 0 },
            );
        },
        RpcEvent::NewLocalServer(hook, _) => {
            before.exports.law_push_uses_the_lowest_unused_id(
                action->Exported_export_id,
                crate::connection::Export { hook, reference_count: 0 },
            );
        },
        _ => {},
    }
}

/// An answer stays owed, through the same handle, until the other side
/// finishes its question or asks another one under its number.
pub proof fn law_an_answer_stays_owed<P: Runtime>(
    before: RpcConnectionStateView<P>,
    event: RpcEvent<P>,
    answer_ref: P::Answer,
    restored: Option<P::Hook>,
    after: RpcConnectionStateView<P>,
    action: Action<P>,
    id: AnswerId,
)
    requires
        happens(before, event, answer_ref, restored, after, action),
        before.answers.contains_key(id),
        match event {
            RpcEvent::IncomingMessage(Message::Finish(finish), _) => finish.question_id != id,
            RpcEvent::IncomingMessage(Message::Call(call), _) => call.question_id != id,
            RpcEvent::IncomingMessage(Message::Bootstrap(bootstrap), _) => bootstrap.question_id != id,
            _ => true,
        },
    ensures
        after.answers.contains_key(id),
        after.answers[id] == before.answers[id],
{
}

/// What is returned of a call that was taken goes to the answer that the call
/// is owed.
pub proof fn law_a_call_is_answered_under_its_number<P: Runtime>(
    before: RpcConnectionStateView<P>,
    message: Message<P>,
    whole: P::Content,
    answer_ref: P::Answer,
    after: RpcConnectionStateView<P>,
    action: Action<P>,
    answer: Message<P>,
    unused: P::Answer,
    last: RpcConnectionStateView<P>,
    reply: Action<P>,
)
    requires
        message is Call,
        happens(before, RpcEvent::IncomingMessage(message, whole), answer_ref, None, after, action),
        answer matches Message::Return(ret) && ret.answer_id == message->Call_0.question_id,
        happens(after, RpcEvent::Return(answer), unused, None, last, reply),
    ensures
        reply matches Action::Answer { answer_ref: called, message: written } && cloned(
            answer_ref,
            called,
        ) && written == answer,
        last == after,
{
}

/// Once its question is finished, an answer cannot be returned any more.
pub proof fn law_a_finished_answer_cannot_be_returned<P: Runtime>(
    before: RpcConnectionStateView<P>,
    finish: Message<P>,
    whole: P::Content,
    answer_ref: P::Answer,
    after: RpcConnectionStateView<P>,
    action: Action<P>,
    answer: Message<P>,
    last: RpcConnectionStateView<P>,
    reply: Action<P>,
)
    requires
        finish is Finish,
        happens(before, RpcEvent::IncomingMessage(finish, whole), answer_ref, None, after, action),
        answer matches Message::Return(ret) && ret.answer_id == finish->Finish_0.question_id,
        happens(after, RpcEvent::Return(answer), answer_ref, None, last, reply),
    ensures
        reply == (Action::WriteAndFail {
            message: answer,
            fault: Fault::NoSuchAnswer(finish->Finish_0.question_id),
        }),
{
}

/// The answer to a request to start names an export that was not in use and is
/// now the capability that was found. A call that the other side makes on that
/// export, with parameters that can be had, is taken and made on it.
pub proof fn law_what_is_started_from_can_be_called<P: Runtime>(
    before: RpcConnectionStateView<P>,
    message: Message<P>,
    whole: P::Content,
    answer_ref: P::Answer,
    hook: P::Hook,
    after: RpcConnectionStateView<P>,
    action: Action<P>,
    id: ExportId,
    call: Message<P>,
    called_whole: P::Content,
    unused: P::Answer,
    made: Action<P>,
)
    requires
        before.consistent(),
        message is Bootstrap,
        happens(before, RpcEvent::IncomingMessage(message, whole), answer_ref, Some(hook), after, action),
        before.exports.next_is(id),
    ensures
        !before.exports.live(id),
        after.exports.live(id),
        cloned(hook, after.exports.at(id).hook),
        action matches Action::Answer { answer_ref: _, message: answer } && answer@
            == RpcConnectionStateView::<P>::bootstrap_answer(
            message->Bootstrap_0.question_id,
            id,
            hook,
        ),
        call is Call && call->Call_0.target@ == MessageTargetView::ImportedCap(id)
            && crate::caps::first_cap_fault(crate::caps::cap_table(call@), after.answers) is None
            ==> {
            &&& after.fault(RpcEvent::IncomingMessage(call, called_whole), None) is None
            &&& after.is_incoming_action(call, called_whole, unused, made) ==> (made matches Action::CallExport {
                export_id,
                ..
            } && export_id == id)
        },
{
    let question_id = message->Bootstrap_0.question_id;
    let (export_id, copy) = choose|export_id: ExportId, copy: P::Hook| #[trigger]
        before.is_started(
            question_id,
            hook,
            answer_ref,
            after,
            action->Answer_message@,
            export_id,
            copy,
        );
    before.exports.law_next_id_is_unique(export_id, id);
    before.exports.law_push_uses_the_lowest_unused_id(
        id,
        crate::connection::Export { hook: copy, reference_count: 0 },
    );
}

/// What this side exports under the number that it is told can be called under
/// that number.
pub proof fn law_a_new_server_can_be_called<P: Runtime>(
    before: RpcConnectionStateView<P>,
    event: RpcEvent<P>,
    answer_ref: P::Answer,
    after: RpcConnectionStateView<P>,
    action: Action<P>,
)
    requires
        before.consistent(),
        event is NewLocalServer,
        happens(before, event, answer_ref, None, after, action),
    ensures
        action matches Action::Exported { export_id, export_chan } && {
            &&& !before.exports.live(export_id)
            &&& after.exports.live(export_id)
            &&& after.exports.at(export_id).hook == event->NewLocalServer_0
            &&& export_chan == event->NewLocalServer_1
        },
{
    before.exports.law_push_uses_the_lowest_unused_id(
        action->Exported_export_id,
        crate::connection::Export { hook: event->NewLocalServer_0, reference_count: 0 },
    );
}

/// A call made on what `ops` lead to in the results of a question is made, on
/// the other side, on what the same `ops` lead to in the answer that is owed
/// under the number of the question.
pub proof fn law_a_pipelined_call_reaches_its_answer<P: Runtime>(
    asked: QuestionId,
    ops: Seq<PipelineOp>,
    interface_id: u64,
    method_id: u16,
    caps: Seq<Option<OutgoingCap>>,
    id: QuestionId,
    before: RpcConnectionStateView<P>,
    message: Message<P>,
    whole: P::Content,
    answer_ref: P::Answer,
    after: RpcConnectionStateView<P>,
    action: Action<P>,
)
    requires
        message@ == RpcConnectionStateView::<P>::asking(
            crate::caps::with_cap_table(
                crate::client::new_call::<P>(
                    MessageTargetView::PromisedAnswer(
                        PromisedAnswerView {
                            question_id: asked,
                            transform: crate::caps::transform(ops),
                        },
                    ),
                    interface_id,
                    method_id,
                ),
                crate::caps::outgoing_cap_table(caps),
            ),
            id,
        ),
        id != asked,
        happens(before, RpcEvent::IncomingMessage(message, whole), answer_ref, None, after, action),
    ensures
        action matches Action::CallAnswer {
            answer_ref: called,
            interface_id: called_interface,
            method_id: called_method,
            ops: called_ops,
            context,
        } && {
            &&& cloned(before.answers[asked].answer_ref, called)
            &&& called_interface == interface_id
            &&& called_method == method_id
            &&& called_ops@ == ops
            &&& context.answer_id() == id
        },
{
    crate::caps::law_steps_are_found_again(ops);
}

/// If a capability that a message brings cannot be had, that is the fault of the
/// message. Otherwise a call is at fault exactly if what it is made on is not
/// there, a return exactly if its question is not open, whatever it returns, a
/// release exactly if it is of one reference to a number that was never handed
/// out, and no other message is.
pub proof fn law_when_an_incoming_message_is_at_fault<P: Runtime>(
    state: RpcConnectionStateView<P>,
    message: Message<P>,
    whole: P::Content,
    restored: Option<P::Hook>,
)
    requires
        !(message is Bootstrap),
    ensures
        ({
            let fault = state.fault(RpcEvent::IncomingMessage(message, whole), restored);
            match crate::caps::first_cap_fault(crate::caps::cap_table(message@), state.answers) {
                Some(first) => fault == Some(first),
                None => match message {
                    Message::Call(call) => match call.target {
                        MessageTarget::ImportedCap(id) => if id < state.exports.slots.len()
                            && state.exports.slots[id as int] is Some {
                            fault is None
                        } else {
                            fault == Some(Fault::NoSuchExport(id))
                        },
                        MessageTarget::PromisedAnswer(promised) => if state.answers.contains_key(
                            promised.question_id,
                        ) || promised.question_id == call.question_id {
                            fault is None
                        } else {
                            fault == Some(Fault::NoSuchAnswer(promised.question_id))
                        },
                        MessageTarget::Unknown(_) => fault == Some(Fault::UnknownCallTarget),
                    },
                    Message::Return(ret) => if ret.answer_id < state.questions.slots.len()
                        && state.questions.slots[ret.answer_id as int] is Some {
                        fault is None
                    } else {
                        fault == Some(Fault::NoSuchQuestion(ret.answer_id))
                    },
                    Message::Release(release) => if release.reference_count == 1 && release.id
                        >= state.exports.slots.len() {
                        fault == Some(Fault::NoSuchExport(release.id))
                    } else {
                        fault is None
                    },
                    _ => fault is None,
                },
            }
        }),
{
}

/// A return to an open question that brings no capability is no fault, whatever
/// came of the call.
pub proof fn law_a_return_to_an_open_question_is_no_fault<P: Runtime>(
    state: RpcConnectionStateView<P>,
    ret: Return<P>,
    whole: P::Content,
    restored: Option<P::Hook>,
)
    requires
        ret.answer_id < state.questions.slots.len(),
        state.questions.slots[ret.answer_id as int] is Some,
        ret.body is Results ==> ret.body->Results_0.cap_table@.len() == 0,
    ensures
        state.fault(RpcEvent::IncomingMessage(Message::Return(ret), whole), restored) is None,
{
    let table = crate::caps::cap_table(Message::Return(ret)@);
    assert(table.len() == 0);
}

/// A request to start is at fault exactly if there is nothing to start from, and
/// a message that goes out exactly if it is not a return, a call or a request to
/// start. To be done with a question is a fault exactly if its number was never
/// handed out. Nothing else that happens on this side is a fault.
pub proof fn law_when_another_event_is_at_fault<P: Runtime>(
    state: RpcConnectionStateView<P>,
    event: RpcEvent<P>,
    restored: Option<P::Hook>,
)
    ensures
        event matches RpcEvent::IncomingMessage(message, _) && message is Bootstrap
            ==> state.fault(event, restored) == (if restored is Some {
            None
        } else {
            Some(Fault::NotRestored)
        }),
        event matches RpcEvent::Outgoing(outgoing) ==> state.fault(event, restored) == (
        if outgoing.message is Return || outgoing.message is Call || outgoing.message is Bootstrap {
            None
        } else {
            Some(Fault::UnexpectedOutgoing)
        }),
        event matches RpcEvent::DoneWithQuestion(id) ==> state.fault(event, restored) == (if id
            < state.questions.slots.len() {
            None
        } else {
            Some(Fault::NoSuchQuestion(id))
        }),
        event is NewLocalServer || event is Return || event is Shutdown ==> state.fault(
            event,
            restored,
        ) is None,
{
}

/// A call on an export is made on it as it came: the same interface and method,
/// in a context that holds the message, whole as it came, one capability for
/// each descriptor of its parameters at its place, and empty results under its
/// number. It is owed an answer under its number, and nothing else changes.
pub proof fn law_a_call_on_an_export_is_made_with_all_that_came<P: Runtime>(
    before: RpcConnectionStateView<P>,
    call: Call<P>,
    whole: P::Content,
    answer_ref: P::Answer,
    restored: Option<P::Hook>,
    after: RpcConnectionStateView<P>,
    action: Action<P>,
    i: int,
)
    requires
        call.target is ImportedCap,
        before.handles(
            RpcEvent::IncomingMessage(Message::Call(call), whole),
            answer_ref,
            restored,
            after,
            action,
        ),
    ensures
        action matches Action::CallExport { export_id, interface_id, method_id, context } && {
            let table = call.params.cap_table@;
            let caps = context.params_message.cap_table@;
            &&& export_id == call.target->ImportedCap_0
            &&& interface_id == call.interface_id
            &&& method_id == call.method_id
            &&& context.params_message.message == Message::Call(call)
            &&& context.params_message.whole == whole
            &&& caps.len() == table.len()
            &&& 0 <= i < table.len() ==> match table[i] {
                CapDescriptor::SenderHosted(id) => caps[i] matches Some(
                    ImportedCap::Import(client),
                ) && client.import_id == id,
                CapDescriptor::ReceiverAnswer(promised) => caps[i] matches Some(
                    ImportedCap::PromisedAnswer(client),
                ) && client.ops@ == crate::caps::pipeline_ops(promised.transform@) && cloned(
                    before.answers[promised.question_id].answer_ref,
                    client.answer_ref,
                ),
                _ => caps[i] is None,
            }
            &&& context.results_message matches Message::Return(ret) && {
                &&& ret.answer_id == call.question_id
                &&& ret.body matches ReturnBody::Results(results) && results.content is Null
                    && results.cap_table@.len() == 0
            }
            &&& !context.aborter.succeeded
            &&& context.aborter.answer_id == call.question_id
            &&& context.aborter.message@ == "aborted"@
        },
        after.answers.dom() == before.answers.dom().insert(call.question_id),
        after.answers[call.question_id].answer_ref == answer_ref,
        after.answers[call.question_id].result_exports.len() == 0,
        forall|id: u32|
            id != call.question_id && before.answers.contains_key(id)
                ==> #[trigger] after.answers[id] == before.answers[id],
        after.exports == before.exports,
        after.questions == before.questions,
        after.imports == before.imports,
{
    lemma_context_has_the_caps(before, call, whole, action->CallExport_context, i);
}

/// A call on an answer is made on it as it came, in the same way, with the steps
/// that the call names.
pub proof fn law_a_call_on_an_answer_is_made_with_all_that_came<P: Runtime>(
    before: RpcConnectionStateView<P>,
    call: Call<P>,
    whole: P::Content,
    answer_ref: P::Answer,
    restored: Option<P::Hook>,
    after: RpcConnectionStateView<P>,
    action: Action<P>,
    i: int,
)
    requires
        call.target is PromisedAnswer,
        before.handles(
            RpcEvent::IncomingMessage(Message::Call(call), whole),
            answer_ref,
            restored,
            after,
            action,
        ),
    ensures
        action matches Action::CallAnswer {
            answer_ref: called,
            interface_id,
            method_id,
            ops,
            context,
        } && {
            let table = call.params.cap_table@;
            let caps = context.params_message.cap_table@;
            let promised = call.target->PromisedAnswer_0;
            &&& cloned(
                if promised.question_id == call.question_id {
                    answer_ref
                } else {
                    before.answers[promised.question_id].answer_ref
                },
                called,
            )
            &&& ops@ == crate::caps::pipeline_ops(promised.transform@)
            &&& interface_id == call.interface_id
            &&& method_id == call.method_id
            &&& context.params_message.message == Message::Call(call)
            &&& context.params_message.whole == whole
            &&& caps.len() == table.len()
            &&& 0 <= i < table.len() ==> match table[i] {
                CapDescriptor::SenderHosted(id) => caps[i] matches Some(
                    ImportedCap::Import(client),
                ) && client.import_id == id,
                CapDescriptor::ReceiverAnswer(promised) => caps[i] matches Some(
                    ImportedCap::PromisedAnswer(client),
                ) && client.ops@ == crate::caps::pipeline_ops(promised.transform@) && cloned(
                    before.answers[promised.question_id].answer_ref,
                    client.answer_ref,
                ),
                _ => caps[i] is None,
            }
            &&& context.results_message matches Message::Return(ret) && {
                &&& ret.answer_id == call.question_id
                &&& ret.body matches ReturnBody::Results(results) && results.content is Null
                    && results.cap_table@.len() == 0
            }
            &&& !context.aborter.succeeded
            &&& context.aborter.answer_id == call.question_id
            &&& context.aborter.message@ == "aborted"@
        },
        after.answers.dom() == before.answers.dom().insert(call.question_id),
        after.answers[call.question_id].answer_ref == answer_ref,
        after.answers[call.question_id].result_exports.len() == 0,
        forall|id: u32|
            id != call.question_id && before.answers.contains_key(id)
                ==> #[trigger] after.answers[id] == before.answers[id],
        after.exports == before.exports,
        after.questions == before.questions,
        after.imports == before.imports,
{
    lemma_context_has_the_caps(before, call, whole, action->CallAnswer_context, i);
}

proof fn lemma_context_has_the_caps<P: Runtime>(
    state: RpcConnectionStateView<P>,
    call: Call<P>,
    whole: P::Content,
    context: RpcCallContext<P>,
    i: int,
)
    requires
        state.is_new_context(context, Message::Call(call), whole),
    ensures
        context.params_message.cap_table@.len() == call.params.cap_table@.len(),
        0 <= i < call.params.cap_table@.len() ==> crate::caps::is_described(
            context.params_message.cap_table@[i],
            call.params.cap_table@[i]@,
            state.answers,
        ),
        context.results_message is Return,
        context.results_message->Return_0.body is Results,
        context.results_message->Return_0.body->Results_0.cap_table@.len() == 0,
{
    let caps = context.params_message.cap_table@;
    let table = crate::caps::cap_table(Message::Call(call)@);
    assert(table == crate::message::descriptors(call.params.cap_table@));
    if 0 <= i < call.params.cap_table@.len() {
        assert(crate::caps::is_described(caps[i], table[i], state.answers));
        assert(table[i] == call.params.cap_table@[i]@);
    }
    let results = context.results_message->Return_0.body->Results_0;
    assert(results@.cap_table.len() == results.cap_table@.len());
}

/// What is returned goes to its question with the message, whole as it came, and
/// one capability for each descriptor at its place. The question is not awaited
/// any more; nothing else changes.
pub proof fn law_a_return_is_handed_over_with_all_that_came<P: Runtime>(
    before: RpcConnectionStateView<P>,
    ret: Return<P>,
    whole: P::Content,
    answer_ref: P::Answer,
    restored: Option<P::Hook>,
    after: RpcConnectionStateView<P>,
    action: Action<P>,
    i: int,
)
    requires
        ret.answer_id < before.questions.slots.len(),
        before.questions.slots[ret.answer_id as int] is Some,
        before.handles(
            RpcEvent::IncomingMessage(Message::Return(ret), whole),
            answer_ref,
            restored,
            after,
            action,
        ),
    ensures
        action matches Action::Respond { question_id, response: Response::Rpc(response) } && {
            let caps = response.message.cap_table@;
            &&& question_id == ret.answer_id
            &&& response.message.message == Message::Return(ret)
            &&& response.message.whole == whole
            &&& !(ret.body is Results) ==> caps.len() == 0
            &&& ret.body is Results ==> {
                let table = ret.body->Results_0.cap_table@;
                &&& caps.len() == table.len()
                &&& 0 <= i < table.len() ==> match table[i] {
                    CapDescriptor::SenderHosted(id) => caps[i] matches Some(
                        ImportedCap::Import(client),
                    ) && client.import_id == id,
                    CapDescriptor::ReceiverAnswer(promised) => caps[i] matches Some(
                        ImportedCap::PromisedAnswer(client),
                    ) && client.ops@ == crate::caps::pipeline_ops(promised.transform@) && cloned(
                        before.answers[promised.question_id].answer_ref,
                        client.answer_ref,
                    ),
                    _ => caps[i] is None,
                }
            }
        },
        after.questions.slots.len() == before.questions.slots.len(),
        after.questions.slots[ret.answer_id as int] matches Some(question) && {
            let old_question = before.questions.slots[ret.answer_id as int]->0;
            &&& !question.is_awaiting_return
            &&& question.chan == old_question.chan
            &&& question.ref_counter == old_question.ref_counter
        },
        forall|id: int|
            0 <= id < before.questions.slots.len() && id != ret.answer_id
                ==> #[trigger] after.questions.slots[id] == before.questions.slots[id],
        after.questions.free == before.questions.free,
        after.exports == before.exports,
        after.answers == before.answers,
        after.imports == before.imports,
{
    let table = crate::caps::cap_table(Message::Return(ret)@);
    let caps = action->response->Rpc_0.message.cap_table@;
    if ret.body is Results {
        assert(table == crate::message::descriptors(ret.body->Results_0.cap_table@));
        if 0 <= i < table.len() {
            assert(crate::caps::is_described(caps[i], table[i], before.answers));
            assert(table[i] == ret.body->Results_0.cap_table@[i]@);
        }
    }
}

/// Of the messages that are for nobody, a finish takes the answer out that it
/// names, and a release of one reference empties the slot of the export that it
/// names; nothing else changes by them. What there is to know of them is noted.
pub proof fn law_what_the_other_messages_change<P: Runtime>(
    before: RpcConnectionStateView<P>,
    message: Message<P>,
    whole: P::Content,
    answer_ref: P::Answer,
    restored: Option<P::Hook>,
    after: RpcConnectionStateView<P>,
    action: Action<P>,
)
    requires
        !(message is Call),
        !(message is Return),
        !(message is Bootstrap),
        before.handles(
            RpcEvent::IncomingMessage(message, whole),
            answer_ref,
            restored,
            after,
            action,
        ),
    ensures
        after.questions == before.questions,
        after.imports == before.imports,
        match message {
            Message::Finish(finish) => {
                &&& after.exports == before.exports
                &&& after.answers.dom() == before.answers.dom().remove(finish.question_id)
                &&& forall|id: u32| #[trigger]
                    after.answers.contains_key(id) ==> after.answers[id] == before.answers[id]
                &&& action == (Action::<P>::Note { notice: Notice::Finish })
            },
            Message::Release(release) => {
                &&& after.answers == before.answers
                &&& release.reference_count != 1 ==> {
                    &&& after.exports == before.exports
                    &&& action == (Action::<P>::Note {
                        notice: Notice::ReleaseCount(release.reference_count),
                    })
                }
                &&& release.reference_count == 1 && release.id < before.exports.slots.len() ==> {
                    &&& action is Nothing
                    &&& after.exports.slots.len() == before.exports.slots.len()
                    &&& after.exports.slots[release.id as int] is None
                    &&& forall|id: int|
                        0 <= id < before.exports.slots.len() && id != release.id
                            ==> #[trigger] after.exports.slots[id] == before.exports.slots[id]
                    &&& after.exports.free == before.exports.free.insert(release.id)
                }
            },
            _ => {
                &&& after == before
                &&& message is Unimplemented ==> action == (Action::<P>::Note {
                    notice: Notice::Unimplemented,
                })
                &&& message matches Message::Abort(exception) ==> action == (Action::<P>::Note {
                    notice: Notice::Abort(exception),
                })
                &&& message is Resolve ==> action == (Action::<P>::Note { notice: Notice::Resolve })
                &&& message is Disembargo ==> action == (Action::<P>::Note {
                    notice: Notice::Disembargo,
                })
                &&& message is Unknown ==> action == (Action::<P>::Note {
                    notice: Notice::UnknownMessage,
                })
                &&& message is ObsoleteSave || message is ObsoleteDelete || message is Provide
                    || message is Accept || message is Join ==> action is Nothing
            },
        },
{
}

/// A question goes out as it was handed over, in nothing changed but its number.
/// A return goes out as it is.
pub proof fn law_what_goes_out_is_what_was_handed_over<P: Runtime>(
    before: RpcConnectionStateView<P>,
    outgoing: OutgoingMessage<P>,
    answer_ref: P::Answer,
    restored: Option<P::Hook>,
    after: RpcConnectionStateView<P>,
    action: Action<P>,
)
    requires
        before.questions.wf(),
        before.handles(RpcEvent::Outgoing(outgoing), answer_ref, restored, after, action),
    ensures
        outgoing.message is Return ==> {
            &&& action matches Action::Write { message } && message == outgoing.message
            &&& after == before
        },
        outgoing.message matches Message::Call(call) ==> (action matches Action::Ask {
            question_ref,
            question_chan,
            message: Message::Call(sent),
        } && {
            &&& sent.question_id == question_ref.id
            &&& sent.target == call.target
            &&& sent.interface_id == call.interface_id
            &&& sent.method_id == call.method_id
            &&& sent.params == call.params
            &&& question_chan == outgoing.question_chan
        }),
        outgoing.message matches Message::Bootstrap(bootstrap) ==> (action matches Action::Ask {
            question_ref,
            question_chan,
            message: Message::Bootstrap(sent),
        } && {
            &&& sent.question_id == question_ref.id
            &&& sent.deprecated_object_id == bootstrap.deprecated_object_id
            &&& question_chan == outgoing.question_chan
        }),
        outgoing.message is Call || outgoing.message is Bootstrap ==> {
            let question_ref = action->question_ref;
            let id = question_ref.id;
            &&& before.questions.next_is(id)
            &&& after.questions.slots[id as int] matches Some(question) && {
                &&& question.chan == outgoing.answer_chan
                &&& question.is_awaiting_return
                &&& crate::channel::paired(question_ref.ref_count, question.ref_counter)
            }
            &&& id < after.questions.slots.len()
            &&& forall|other: int|
                0 <= other < before.questions.slots.len() && other != id
                    ==> #[trigger] after.questions.slots[other] == before.questions.slots[other]
            &&& after.exports == before.exports
            &&& after.answers == before.answers
            &&& after.imports == before.imports
        },
{
    if outgoing.message is Call || outgoing.message is Bootstrap {
        let id = action->question_ref.id;
        if before.questions.free.len() > 0 {
            assert(before.questions.free.contains(id));
            assert(before.questions.has_slot(id));
        }
        assert(after.questions.live(id));
    }
}

/// A request to start is answered, under its number, with results that are the
/// capability that was found and one descriptor, which names the next export.
/// That export is a clone of the capability; an answer is owed under the number
/// of the request; nothing else changes.
pub proof fn law_a_request_to_start_is_answered_with_the_capability<P: Runtime>(
    before: RpcConnectionStateView<P>,
    bootstrap: Bootstrap<P>,
    whole: P::Content,
    answer_ref: P::Answer,
    hook: P::Hook,
    after: RpcConnectionStateView<P>,
    action: Action<P>,
    id: ExportId,
)
    requires
        before.exports.wf(),
        before.exports.next_is(id),
        before.handles(
            RpcEvent::IncomingMessage(Message::Bootstrap(bootstrap), whole),
            answer_ref,
            Some(hook),
            after,
            action,
        ),
    ensures
        action matches Action::Answer { answer_ref: called, message: Message::Return(ret) } && {
            &&& cloned(answer_ref, called)
            &&& ret.answer_id == bootstrap.question_id
            &&& ret.body matches ReturnBody::Results(results) && {
                &&& results.content == AnyPointer::<P>::Capability(hook)
                &&& results.cap_table@.len() == 1
                &&& results.cap_table@[0] == CapDescriptor::SenderHosted(id)
            }
        },
        id < after.exports.slots.len(),
        after.exports.slots[id as int] matches Some(export) && cloned(hook, export.hook)
            && export.reference_count == 0,
        forall|other: int|
            0 <= other < before.exports.slots.len() && other != id
                ==> #[trigger] after.exports.slots[other] == before.exports.slots[other],
        after.answers.dom() == before.answers.dom().insert(bootstrap.question_id),
        after.answers[bootstrap.question_id].answer_ref == answer_ref,
        after.answers[bootstrap.question_id].result_exports.len() == 0,
        forall|other: u32|
            other != bootstrap.question_id && before.answers.contains_key(other)
                ==> #[trigger] after.answers[other] == before.answers[other],
        after.questions == before.questions,
        after.imports == before.imports,
{
    let message = action->Answer_message;
    let (export_id, copy) = choose|export_id: ExportId, copy: P::Hook| #[trigger]
        before.is_started(
            bootstrap.question_id,
            hook,
            answer_ref,
            after,
            message@,
            export_id,
            copy,
        );
    before.exports.law_next_id_is_unique(export_id, id);
    let export = crate::connection::Export { hook: copy, reference_count: 0 };
    before.exports.law_push_fills_one_slot(id, export, id);
    if before.exports.free.len() > 0 {
        assert(before.exports.free.contains(id));
        assert(before.exports.has_slot(id));
    }
    let results = message->Return_0.body->Results_0;
    let table = crate::message::descriptors(results.cap_table@);
    assert(table.len() == results.cap_table@.len());
    assert(table[0] == results.cap_table@[0]@);
    assert(table[0] == CapDescriptorView::SenderHosted(id));
}

/// An answer is written as it is. If one is owed under its number, it is kept as
/// that answer; if not, the connection cannot go on. What is no answer is only
/// written. The state does not change.
pub proof fn law_an_answer_is_written_as_it_is<P: Runtime>(
    before: RpcConnectionStateView<P>,
    message: Message<P>,
    answer_ref: P::Answer,
    restored: Option<P::Hook>,
    after: RpcConnectionStateView<P>,
    action: Action<P>,
)
    requires
        before.handles(RpcEvent::Return(message), answer_ref, restored, after, action),
    ensures
        after == before,
        message matches Message::Return(ret) && before.answers.contains_key(ret.answer_id) ==> (
        action matches Action::Answer { answer_ref: called, message: written } && written == message
            && cloned(before.answers[message->Return_0.answer_id].answer_ref, called)),
        message matches Message::Return(ret) && !before.answers.contains_key(ret.answer_id) ==> (
        action matches Action::WriteAndFail { message: written, fault } && written == message
            && fault == Fault::NoSuchAnswer(message->Return_0.answer_id)),
        !(message is Return) ==> (action matches Action::Write { message: written } && written
            == message),
{
}

/// A new server is exported as it is under the next number, which it is told;
/// nothing else changes.
pub proof fn law_a_new_server_is_exported_as_it_is<P: Runtime>(
    before: RpcConnectionStateView<P>,
    hook: P::Hook,
    chan: Sender<ExportId>,
    answer_ref: P::Answer,
    restored: Option<P::Hook>,
    after: RpcConnectionStateView<P>,
    action: Action<P>,
)
    requires
        before.exports.wf(),
        before.handles(
            RpcEvent::NewLocalServer(hook, chan),
            answer_ref,
            restored,
            after,
            action,
        ),
    ensures
        action matches Action::Exported { export_id, export_chan } && {
            &&& before.exports.next_is(export_id)
            &&& export_chan == chan
            &&& export_id < after.exports.slots.len()
            &&& after.exports.slots[export_id as int] matches Some(export) && export.hook == hook
                && export.reference_count == 0
            &&& forall|other: int|
                0 <= other < before.exports.slots.len() && other != export_id
                    ==> #[trigger] after.exports.slots[other] == before.exports.slots[other]
        },
        after.questions == before.questions,
        after.answers == before.answers,
        after.imports == before.imports,
{
    let id = action->Exported_export_id;
    if before.exports.free.len() > 0 {
        assert(before.exports.free.contains(id));
        assert(before.exports.has_slot(id));
    }
}

/// To be done with a question ends it exactly if its return is awaited: its slot
/// is emptied, its number is free once more, and the other side is told that it
/// is finished, its capabilities kept. A shutdown stops.
pub proof fn law_done_with_a_question_ends_it_if_awaited<P: Runtime>(
    before: RpcConnectionStateView<P>,
    id: QuestionId,
    answer_ref: P::Answer,
    restored: Option<P::Hook>,
    after: RpcConnectionStateView<P>,
    action: Action<P>,
    last: RpcConnectionStateView<P>,
    stop: Action<P>,
)
    requires
        id < before.questions.slots.len(),
        before.handles(RpcEvent::DoneWithQuestion(id), answer_ref, restored, after, action),
        before.handles(RpcEvent::Shutdown, answer_ref, restored, last, stop),
    ensures
        before.questions.slots[id as int] is Some && (
        before.questions.slots[id as int]->0).is_awaiting_return ==> {
            &&& action matches Action::Write { message: Message::Finish(finish) }
                && finish.question_id == id && !finish.release_result_caps
            &&& after.questions.slots.len() == before.questions.slots.len()
            &&& after.questions.slots[id as int] is None
            &&& forall|other: int|
                0 <= other < before.questions.slots.len() && other != id
                    ==> #[trigger] after.questions.slots[other] == before.questions.slots[other]
            &&& after.questions.free == before.questions.free.insert(id)
            &&& after.exports == before.exports
            &&& after.answers == before.answers
            &&& after.imports == before.imports
        },
        !(before.questions.slots[id as int] is Some && (
        before.questions.slots[id as int]->0).is_awaiting_return) ==> {
            &&& action is Nothing
            &&& after == before
        },
        last == before,
        stop is Stop,
{
}

/// A question that is ended leaves an empty slot and a free number, and nothing
/// else changes. A new connection has nothing in its tables.
pub proof fn law_what_ending_a_question_changes<P: Runtime>(
    state: RpcConnectionStateView<P>,
    id: QuestionId,
)
    requires
        id < state.questions.slots.len(),
    ensures
        state.finished(id).questions.slots == state.questions.slots.update(id as int, None),
        state.finished(id).questions.free == state.questions.free.insert(id),
        state.finished(id).exports == state.exports,
        state.finished(id).answers == state.answers,
        state.finished(id).imports == state.imports,
        MessageView::<P>::finish(id) matches MessageView::Finish(finish) && finish.question_id == id
            && !finish.release_result_caps,
        RpcConnectionStateView::<P>::empty().exports.slots.len() == 0,
        RpcConnectionStateView::<P>::empty().questions.slots.len() == 0,
        RpcConnectionStateView::<P>::empty().exports.free.len() == 0,
        RpcConnectionStateView::<P>::empty().questions.free.len() == 0,
        RpcConnectionStateView::<P>::empty().answers.dom() == Set::<u32>::empty(),
        RpcConnectionStateView::<P>::empty().imports.dom() == Set::<u32>::empty(),
{
}

/// There has to be room only for the export or the question that an event adds.
pub proof fn law_room_is_needed_only_for_what_is_added<P: Runtime>(
    state: RpcConnectionStateView<P>,
    event: RpcEvent<P>,
)
    ensures
        event is NewLocalServer ==> (state.has_room_for(event) <==> state.exports.free.len() > 0
            || state.exports.slots.len() < 0xffff_ffff),
        event matches RpcEvent::IncomingMessage(message, _) ==> (state.has_room_for(event) <==> !(
        message is Bootstrap) || state.exports.free.len() > 0 || state.exports.slots.len()
            < 0xffff_ffff),
        event matches RpcEvent::Outgoing(outgoing) ==> (state.has_room_for(event) <==> !(
        outgoing.message is Call || outgoing.message is Bootstrap) || state.questions.free.len() > 0
            || state.questions.slots.len() < 0xffff_ffff),
        event is Return || event is DoneWithQuestion || event is Shutdown ==> state.has_room_for(
            event,
        ),
{
}

} // verus!
