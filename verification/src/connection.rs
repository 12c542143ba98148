//! One side of a connection: its state, and what it does about each event.

use crate::answer::{Answer, AnswerView};
use crate::caps::{get_pipeline_ops, populate_cap_table};
use crate::channel::{channel, is_disconnected};
use crate::context::{IncomingMessage, Response, RpcCallContext, RpcResponse};
use crate::fault::Fault;
use crate::message::{
    AnyPointer, Bootstrap, Call, CallView, CapDescriptor, CapDescriptorView, Exception, Finish, Message,
    MessageTarget, MessageTargetView, MessageView, Payload, PayloadView, PipelineOp, Return,
    ReturnBody, ReturnBodyView, ReturnView,
};
use crate::question::{Question, QuestionRef};
use crate::runtime::Runtime;
use crate::tables::{
    AnswerId, ExportId, ExportTable, ExportTableView, Import, ImportTable, QuestionId,
};
use std::sync::mpsc::{Receiver, Sender};
use vstd::prelude::*;

verus! {

/// A message that this side wants to send.
#[verifier::reject_recursive_types(P)]
pub struct OutgoingMessage<P: Runtime> {
    pub message: Message<P>,
    /// Takes the response, if the message is a question.
    pub answer_chan: Sender<Response<P>>,
    /// Takes the reference to the question, if the message is one.
    pub question_chan: Sender<QuestionRef>,
}

/// Something that happens to a connection.
#[verifier::reject_recursive_types(P)]
pub enum RpcEvent<P: Runtime> {
    /// A message has come from the other side: what is known of it here, and
    /// the message as it came.
    IncomingMessage(Message<P>, P::Content),
    /// This side wants to send a message.
    Outgoing(OutgoingMessage<P>),
    /// This side has a capability to export, and wants to know its number.
    NewLocalServer(P::Hook, Sender<ExportId>),
    /// An answer is there.
    Return(Message<P>),
    /// This side needs the answer to a question no longer.
    DoneWithQuestion(QuestionId),
    /// The other side is gone.
    Shutdown,
}

impl<P: Runtime> RpcEvent<P> {
    /// `message`, to be sent, and the receiving ends of two new channels: the
    /// one for the response and the one for the reference to the question.
    pub fn new_outgoing(message: Message<P>) -> (made: (
        OutgoingMessage<P>,
        Receiver<Response<P>>,
        Receiver<QuestionRef>,
    ))
        ensures
            made.0.message == message,
            crate::channel::paired(made.0.answer_chan, made.1),
            crate::channel::paired(made.0.question_chan, made.2),
    {
        let (answer_chan, answer_port) = channel::<Response<P>>();
        let (question_chan, question_port) = channel::<QuestionRef>();
        (OutgoingMessage { message, answer_chan, question_chan }, answer_port, question_port)
    }

    /// The event that asks for a number for the capability `hook`, of which it
    /// takes a copy, and the receiving end of the new channel that the number
    /// is put into.
    pub fn new_local_server(hook: &P::Hook) -> (made: (RpcEvent<P>, Receiver<ExportId>))
        ensures
            made.0 matches RpcEvent::NewLocalServer(copy, chan) && cloned(*hook, copy)
                && crate::channel::paired(chan, made.1),
    {
        let (chan, port) = channel::<ExportId>();
        (RpcEvent::NewLocalServer(hook.clone(), chan), port)
    }
}

/// A capability that this side has exported.
pub struct Export<H> {
    pub hook: H,
    pub reference_count: i32,
}

impl<H> Export<H> {
    pub fn new(hook: H) -> (export: Export<H>)
        ensures
            export == (Export { hook, reference_count: 0 }),
    {
        Export { hook, reference_count: 0 }
    }
}

/// Finds the capability that the other side asks for to start from.
pub trait SturdyRefRestorer<P: Runtime> {
    fn restore(&self, _obj_id: &AnyPointer<P>) -> (hook: Option<P::Hook>)
        default_ensures
            hook is None,
    {
        None
    }
}

impl<P: Runtime> SturdyRefRestorer<P> for () {

}

/// Something that whoever runs the connection may want to know.
#[derive(Debug)]
pub enum Notice {
    /// The other side does not implement a message that this side has sent.
    Unimplemented,
    /// The other side has given the connection up.
    Abort(Exception),
    /// A question was finished.
    Finish,
    /// A promise was resolved, which is not followed.
    Resolve,
    /// References to an export were released, but not exactly one.
    ReleaseCount(u32),
    /// An embargo was to be lifted, of which there are none.
    Disembargo,
    /// A message is not known here.
    UnknownMessage,
}

/// What has to be done about an event.
#[verifier::reject_recursive_types(P)]
pub enum Action<P: Runtime> {
    Nothing,
    /// Pass the notice on.
    Note { notice: Notice },
    /// Put the response into the channel of the question, and tell the
    /// connection when that is done.
    Respond { question_id: QuestionId, response: Response<P> },
    /// Make the call on the exported capability.
    CallExport {
        export_id: ExportId,
        interface_id: u64,
        method_id: u16,
        context: RpcCallContext<P>,
    },
    /// Make the call on the answer, in which `ops` lead to the capability.
    CallAnswer {
        answer_ref: P::Answer,
        interface_id: u64,
        method_id: u16,
        ops: Vec<PipelineOp>,
        context: RpcCallContext<P>,
    },
    /// Write the message, and keep it as the answer.
    Answer { answer_ref: P::Answer, message: Message<P> },
    /// Write the message.
    Write { message: Message<P> },
    /// Put the reference to the question into its channel, and write the
    /// message.
    Ask { question_ref: QuestionRef, question_chan: Sender<QuestionRef>, message: Message<P> },
    /// Put the number into its channel.
    Exported { export_id: ExportId, export_chan: Sender<ExportId> },
    /// Write the message. The connection cannot go on then.
    WriteAndFail { message: Message<P>, fault: Fault },
    /// End the connection.
    Stop,
}

/// The state of one side of a connection.
#[verifier::reject_recursive_types(P)]
pub struct RpcConnectionState<P: Runtime> {
    exports: ExportTable<Export<P::Hook>>,
    questions: ExportTable<Question<P>>,
    answers: ImportTable<Answer<P>>,
    imports: ImportTable<Import>,
}

#[verifier::ext_equal]
#[verifier::reject_recursive_types(P)]
pub struct RpcConnectionStateView<P: Runtime> {
    pub exports: ExportTableView<Export<P::Hook>>,
    pub questions: ExportTableView<Question<P>>,
    pub answers: Map<u32, AnswerView<P>>,
    pub imports: Map<u32, Import>,
}

impl<P: Runtime> View for RpcConnectionState<P> {
    type V = RpcConnectionStateView<P>;

    closed spec fn view(&self) -> RpcConnectionStateView<P> {
        RpcConnectionStateView {
            exports: self.exports@,
            questions: self.questions@,
            answers: crate::answer::answer_views(self.answers@),
            imports: self.imports@,
        }
    }
}

impl<P: Runtime> RpcConnectionStateView<P> {
    /// Nothing was asked, answered, exported or imported.
    pub open spec fn empty() -> Self {
        RpcConnectionStateView {
            exports: ExportTableView::empty(),
            questions: ExportTableView::empty(),
            answers: Map::empty(),
            imports: Map::empty(),
        }
    }

    /// There is room for the export or the question that `event` may add.
    pub open spec fn has_room_for(self, event: RpcEvent<P>) -> bool {
        match event {
            RpcEvent::IncomingMessage(Message::Bootstrap(_), _) => self.exports.has_room(),
            RpcEvent::Outgoing(outgoing) => Self::is_question(outgoing.message@)
                ==> self.questions.has_room(),
            RpcEvent::NewLocalServer(_, _) => self.exports.has_room(),
            _ => true,
        }
    }

    /// The numbers of exports and questions that are not in use, and no
    /// others, may be handed out.
    pub open spec fn consistent(self) -> bool {
        &&& self.exports.wf()
        &&& self.exports.consistent()
        &&& self.questions.wf()
        &&& self.questions.consistent()
    }

    /// With an answer that is owed under `id`, in place of any other.
    pub open spec fn owing(self, id: AnswerId, answer_ref: P::Answer) -> Self {
        RpcConnectionStateView {
            answers: self.answers.insert(id, AnswerView::fresh(answer_ref)),
            ..self
        }
    }

    /// With `hook` exported under `id`.
    pub open spec fn exporting(self, id: ExportId, hook: P::Hook) -> Self {
        RpcConnectionStateView {
            exports: self.exports.push(id, Export { hook, reference_count: 0 }),
            ..self
        }
    }

    /// With the question `id` ended.
    pub open spec fn finished(self, id: QuestionId) -> Self {
        RpcConnectionStateView { questions: self.questions.erase(id), ..self }
    }

    /// Why a message other than a request to start cannot be taken, if it
    /// cannot.
    pub open spec fn incoming_fault(self, message: MessageView<P>) -> Option<Fault> {
        match crate::caps::first_cap_fault(crate::caps::cap_table(message), self.answers) {
            Some(fault) => Some(fault),
            None => match message {
                MessageView::Call(call) => match call.target {
                    MessageTargetView::ImportedCap(id) => if self.exports.live(id) {
                        None
                    } else {
                        Some(Fault::NoSuchExport(id))
                    },
                    MessageTargetView::PromisedAnswer(promised) => if promised.question_id
                        == call.question_id || self.answers.contains_key(promised.question_id) {
                        None
                    } else {
                        Some(Fault::NoSuchAnswer(promised.question_id))
                    },
                    MessageTargetView::Unknown(_) => Some(Fault::UnknownCallTarget),
                },
                MessageView::Return(ret) => if self.questions.live(ret.answer_id) {
                    None
                } else {
                    Some(Fault::NoSuchQuestion(ret.answer_id))
                },
                MessageView::Release(release) => if release.reference_count == 1
                    && !self.exports.has_slot(release.id) {
                    Some(Fault::NoSuchExport(release.id))
                } else {
                    None
                },
                _ => None,
            },
        }
    }

    /// The state after a message other than a request to start was taken. A
    /// call is owed the answer `answer_ref`.
    pub open spec fn after_incoming(
        self,
        message: MessageView<P>,
        answer_ref: P::Answer,
    ) -> Self {
        match message {
            MessageView::Call(call) => self.owing(call.question_id, answer_ref),
            MessageView::Return(ret) => RpcConnectionStateView {
                questions: self.questions.set(
                    ret.answer_id,
                    self.questions.at(ret.answer_id).returned(),
                ),
                ..self
            },
            MessageView::Finish(finish) => RpcConnectionStateView {
                answers: self.answers.remove(finish.question_id),
                ..self
            },
            MessageView::Release(release) => if release.reference_count == 1 {
                RpcConnectionStateView { exports: self.exports.erase(release.id), ..self }
            } else {
                self
            },
            _ => self,
        }
    }

    /// `incoming` is `message`, which came as `whole`, with the capabilities in
    /// it.
    pub open spec fn is_incoming(
        self,
        incoming: IncomingMessage<P>,
        message: Message<P>,
        whole: P::Content,
    ) -> bool {
        &&& incoming.message == message
        &&& incoming.whole == whole
        &&& crate::caps::are_described(
            incoming.cap_table@,
            crate::caps::cap_table(message@),
            self.answers,
        )
    }

    /// `context` is a new one for the call `message`, which came as `whole`.
    pub open spec fn is_new_context(
        self,
        context: RpcCallContext<P>,
        message: Message<P>,
        whole: P::Content,
    ) -> bool {
        &&& context.wf()
        &&& self.is_incoming(context.params_message, message, whole)
        &&& context.results_message@ == MessageView::<P>::empty_results(
            message->Call_0.question_id,
        )
        &&& !context.aborter.succeeded
        &&& context.aborter.message@ == "aborted"@
        &&& context.aborter.last_word::<P>() == Some(
            MessageView::<P>::exception(
                message->Call_0.question_id,
                vstd::utf8::encode_utf8("aborted"@),
            ),
        )
    }

    /// What there is to know of a message that is for nobody.
    pub open spec fn notice(message: Message<P>) -> Option<Notice> {
        match message {
            Message::Unimplemented => Some(Notice::Unimplemented),
            Message::Abort(exception) => Some(Notice::Abort(exception)),
            Message::Finish(_) => Some(Notice::Finish),
            Message::Resolve => Some(Notice::Resolve),
            Message::Release(release) => if release.reference_count == 1 {
                None
            } else {
                Some(Notice::ReleaseCount(release.reference_count))
            },
            Message::Disembargo => Some(Notice::Disembargo),
            Message::Unknown(_) => Some(Notice::UnknownMessage),
            _ => None,
        }
    }

    /// `action` is what has to be done about a message that is for nobody.
    pub open spec fn is_notice(message: Message<P>, action: Action<P>) -> bool {
        match Self::notice(message) {
            Some(known) => action matches Action::Note { notice } && notice == known,
            None => action is Nothing,
        }
    }

    /// `action` is what has to be done about a message other than a request to
    /// start, which came as `whole`.
    pub open spec fn is_incoming_action(
        self,
        message: Message<P>,
        whole: P::Content,
        answer_ref: P::Answer,
        action: Action<P>,
    ) -> bool {
        match message {
            Message::Call(call) => match call.target@ {
                MessageTargetView::ImportedCap(id) => {
                    &&& action matches Action::CallExport {
                        export_id,
                        interface_id,
                        method_id,
                        context,
                    }
                    &&& export_id == id
                    &&& interface_id == call.interface_id
                    &&& method_id == call.method_id
                    &&& self.is_new_context(context, message, whole)
                },
                MessageTargetView::PromisedAnswer(promised) => {
                    &&& action matches Action::CallAnswer {
                        answer_ref: called,
                        interface_id,
                        method_id,
                        ops,
                        context,
                    }
                    &&& cloned(
                        self.after_incoming(
                            message@,
                            answer_ref,
                        ).answers[promised.question_id].answer_ref,
                        called,
                    )
                    &&& interface_id == call.interface_id
                    &&& method_id == call.method_id
                    &&& ops@ == crate::caps::pipeline_ops(promised.transform)
                    &&& self.is_new_context(context, message, whole)
                },
                MessageTargetView::Unknown(_) => false,
            },
            Message::Return(ret) => {
                &&& action matches Action::Respond { question_id, response }
                &&& question_id == ret.answer_id
                &&& response matches Response::Rpc(response)
                &&& self.is_incoming(response.message, message, whole)
            },
            _ => Self::is_notice(message, action),
        }
    }

    /// What the request `question_id` to start is answered: results that are
    /// the capability `hook`, exported under `export_id`.
    pub open spec fn bootstrap_answer(
        question_id: QuestionId,
        export_id: ExportId,
        hook: P::Hook,
    ) -> MessageView<P> {
        MessageView::Return(
            ReturnView {
                answer_id: question_id,
                body: ReturnBodyView::Results(
                    PayloadView {
                        content: AnyPointer::Capability(hook),
                        cap_table: seq![CapDescriptorView::SenderHosted(export_id)],
                    },
                ),
            },
        )
    }

    /// `after` is the state in which the request `question_id` to start was
    /// answered with `message`: `copy`, a clone of `hook`, is exported under
    /// `export_id`.
    pub open spec fn is_started(
        self,
        question_id: QuestionId,
        hook: P::Hook,
        answer_ref: P::Answer,
        after: Self,
        message: MessageView<P>,
        export_id: ExportId,
        copy: P::Hook,
    ) -> bool {
        &&& self.exports.next_is(export_id)
        &&& cloned(hook, copy)
        &&& after == self.exporting(export_id, copy).owing(question_id, answer_ref)
        &&& message == Self::bootstrap_answer(question_id, export_id, hook)
    }

    /// `after` and `action` are what comes of the request `question_id` to
    /// start with `hook`.
    pub open spec fn is_bootstrap(
        self,
        question_id: QuestionId,
        hook: P::Hook,
        answer_ref: P::Answer,
        after: Self,
        action: Action<P>,
    ) -> bool {
        &&& action matches Action::Answer { answer_ref: called, message }
        &&& cloned(answer_ref, called)
        &&& exists|export_id: ExportId, copy: P::Hook| #[trigger]
            self.is_started(
                question_id,
                hook,
                answer_ref,
                after,
                message@,
                export_id,
                copy,
            )
    }

    /// `message` asks the other side for an answer.
    pub open spec fn is_question(message: MessageView<P>) -> bool {
        message is Call || message is Bootstrap
    }

    /// Whether `message` is one that this side sends of its own accord.
    pub open spec fn is_sendable(message: MessageView<P>) -> bool {
        message is Return || Self::is_question(message)
    }

    /// `message` with the number `id` for its question.
    pub open spec fn asking(message: MessageView<P>, id: QuestionId) -> MessageView<P> {
        match message {
            MessageView::Call(call) => MessageView::Call(CallView { question_id: id, ..call }),
            MessageView::Bootstrap(bootstrap) => MessageView::Bootstrap(
                Bootstrap { question_id: id, ..bootstrap },
            ),
            _ => message,
        }
    }

    /// `after` and `action` are what comes of sending `outgoing`.
    pub open spec fn is_outgoing(
        self,
        outgoing: OutgoingMessage<P>,
        after: Self,
        action: Action<P>,
    ) -> bool {
        if outgoing.message is Return {
            after == self && action == (Action::Write { message: outgoing.message })
        } else {
            &&& action matches Action::Ask { question_ref, question_chan, message }
            &&& self.questions.next_is(question_ref.id)
            &&& question_chan == outgoing.question_chan
            &&& message@ == Self::asking(outgoing.message@, question_ref.id)
            &&& message == (match outgoing.message {
                Message::Call(call) => Message::Call(Call { question_id: question_ref.id, ..call }),
                Message::Bootstrap(bootstrap) => Message::Bootstrap(
                    Bootstrap { question_id: question_ref.id, ..bootstrap },
                ),
                other => other,
            })
            &&& self.is_asked(question_ref, outgoing.answer_chan, after)
        }
    }

    /// `after` is the state with the new question that `question_ref` refers
    /// to, whose response goes into `answer_chan`.
    pub open spec fn is_asked(
        self,
        question_ref: QuestionRef,
        answer_chan: Sender<Response<P>>,
        after: Self,
    ) -> bool {
        let id = question_ref.id;
        &&& after == (RpcConnectionStateView {
            questions: self.questions.push(id, after.questions.at(id)),
            ..self
        })
        &&& after.questions.live(id)
        &&& after.questions.at(id).chan == answer_chan
        &&& after.questions.at(id).is_awaiting_return
        &&& crate::channel::paired(question_ref.ref_count, after.questions.at(id).ref_counter)
    }

    /// Whether the return of the question `id` is awaited.
    pub open spec fn is_awaiting(self, id: QuestionId) -> bool {
        self.questions.live(id) && self.questions.at(id).is_awaiting_return
    }

    /// `action` is what has to be done about the answer `message`.
    pub open spec fn is_return_action(self, message: Message<P>, action: Action<P>) -> bool {
        match message {
            Message::Return(ret) => if self.answers.contains_key(ret.answer_id) {
                &&& action matches Action::Answer { answer_ref, message: written }
                &&& cloned(self.answers[ret.answer_id].answer_ref, answer_ref)
                &&& written == message
            } else {
                action == (Action::WriteAndFail {
                    message,
                    fault: Fault::NoSuchAnswer(ret.answer_id),
                })
            },
            _ => action == (Action::Write { message }),
        }
    }

    /// Why `event` cannot be handled, if it cannot. To a request to start,
    /// `restored` is the capability that was found.
    pub open spec fn fault(self, event: RpcEvent<P>, restored: Option<P::Hook>) -> Option<Fault> {
        match event {
            RpcEvent::IncomingMessage(Message::Bootstrap(_), _) => if restored is Some {
                None
            } else {
                Some(Fault::NotRestored)
            },
            RpcEvent::IncomingMessage(message, _) => self.incoming_fault(message@),
            RpcEvent::Outgoing(outgoing) => if Self::is_sendable(outgoing.message@) {
                None
            } else {
                Some(Fault::UnexpectedOutgoing)
            },
            RpcEvent::DoneWithQuestion(id) => if self.questions.has_slot(id) {
                None
            } else {
                Some(Fault::NoSuchQuestion(id))
            },
            _ => None,
        }
    }

    /// `after` and `action` are what comes of `event`. A call or a request to
    /// start is owed the answer `answer_ref`; to the latter, `restored` is the
    /// capability that was found.
    pub open spec fn handles(
        self,
        event: RpcEvent<P>,
        answer_ref: P::Answer,
        restored: Option<P::Hook>,
        after: Self,
        action: Action<P>,
    ) -> bool {
        match event {
            RpcEvent::IncomingMessage(Message::Bootstrap(bootstrap), _) => self.is_bootstrap(
                bootstrap.question_id,
                restored->0,
                answer_ref,
                after,
                action,
            ),
            RpcEvent::IncomingMessage(message, whole) => {
                &&& after == self.after_incoming(message@, answer_ref)
                &&& self.is_incoming_action(message, whole, answer_ref, action)
            },
            RpcEvent::Outgoing(outgoing) => self.is_outgoing(outgoing, after, action),
            RpcEvent::NewLocalServer(hook, chan) => {
                &&& action matches Action::Exported { export_id, export_chan }
                &&& self.exports.next_is(export_id)
                &&& export_chan == chan
                &&& after == self.exporting(export_id, hook)
            },
            RpcEvent::Return(message) => after == self && self.is_return_action(message, action),
            RpcEvent::DoneWithQuestion(id) => if self.is_awaiting(id) {
                &&& after == self.finished(id)
                &&& action matches Action::Write { message }
                &&& message@ == MessageView::<P>::finish(id)
            } else {
                after == self && action is Nothing
            },
            RpcEvent::Shutdown => after == self && action is Stop,
        }
    }
}

/// Ends the question `id`. The message is for the other side.
fn finish_question<P: Runtime>(questions: &mut ExportTable<Question<P>>, id: u32) -> (message:
    Message<P>)
    requires
        old(questions).wf(),
        old(questions)@.has_slot(id),
    ensures
        final(questions).wf(),
        final(questions)@ == old(questions)@.erase(id),
        message@ == MessageView::<P>::finish(id),
{
    questions.erase(id);
    Message::Finish(Finish { question_id: id, release_result_caps: false })
}

/// What has to be done about a message that is for nobody.
fn notice_of<P: Runtime>(message: Message<P>) -> (action: Action<P>)
    ensures
        RpcConnectionStateView::<P>::is_notice(message, action),
{
    match message {
        Message::Unimplemented => Action::Note { notice: Notice::Unimplemented },
        Message::Abort(exception) => Action::Note { notice: Notice::Abort(exception) },
        Message::Finish(_) => Action::Note { notice: Notice::Finish },
        Message::Resolve => Action::Note { notice: Notice::Resolve },
        Message::Release(release) => {
            if release.reference_count == 1 {
                Action::Nothing
            } else {
                Action::Note { notice: Notice::ReleaseCount(release.reference_count) }
            }
        },
        Message::Disembargo => Action::Note { notice: Notice::Disembargo },
        Message::Unknown(_) => Action::Note { notice: Notice::UnknownMessage },
        _ => Action::Nothing,
    }
}

/// Who a message is for.
enum MessageReceiver {
    Nobody,
    Question(QuestionId),
    Export(ExportId),
    PromisedAnswer(AnswerId, Vec<PipelineOp>),
}

/// The number of the question, the interface and the method of a call.
fn get_call_ids<P: Runtime>(message: &Message<P>) -> (ids: (QuestionId, u64, u16))
    requires
        message is Call,
    ensures
        ids == (
            message->Call_0.question_id,
            message->Call_0.interface_id,
            message->Call_0.method_id,
        ),
{
    match message {
        Message::Call(call) => (call.question_id, call.interface_id, call.method_id),
        _ => (0, 0, 0),
    }
}

impl<P: Runtime> RpcConnectionState<P> {
    pub closed spec fn wf(self) -> bool {
        self.exports.wf() && self.questions.wf()
    }

    /// The tables of a well-formed connection hand out only numbers of slots
    /// that they have.
    pub proof fn law_wf(self)
        requires
            self.wf(),
        ensures
            self@.exports.wf(),
            self@.questions.wf(),
    {
        self.exports.law_wf();
        self.questions.law_wf();
    }

    pub fn new() -> (state: RpcConnectionState<P>)
        ensures
            state.wf(),
            state@ == RpcConnectionStateView::<P>::empty(),
    {
        let state = RpcConnectionState {
            exports: ExportTable::new(),
            questions: ExportTable::new(),
            answers: ImportTable::new(),
            imports: ImportTable::new(),
        };
        assert(state@.answers =~= Map::empty());
        state
    }

    /// Whether there is room for the export or the question that `event` may
    /// add.
    pub fn has_room_for(&self, event: &RpcEvent<P>) -> (yes: bool)
        requires
            self.wf(),
        ensures
            yes == self@.has_room_for(*event),
    {
        match event {
            RpcEvent::IncomingMessage(message, _) => match message {
                Message::Bootstrap(_) => self.exports.has_room(),
                _ => true,
            },
            RpcEvent::Outgoing(outgoing) => match outgoing.message {
                Message::Call(_) => self.questions.has_room(),
                Message::Bootstrap(_) => self.questions.has_room(),
                _ => true,
            },
            RpcEvent::NewLocalServer(_, _) => self.exports.has_room(),
            _ => true,
        }
    }

    /// The capability that is exported under `id`.
    pub fn export_hook(&self, id: ExportId) -> (hook: Option<&P::Hook>)
        requires
            self.wf(),
        ensures
            match hook {
                Some(hook) => self@.exports.live(id) && *hook == self@.exports.at(id).hook,
                None => !self@.exports.live(id),
            },
    {
        match self.exports.get(id) {
            Some(export) => Some(&export.hook),
            None => None,
        }
    }

    /// The channel that takes the response to the question `id`.
    pub fn answer_chan(&self, id: QuestionId) -> (chan: Option<&Sender<Response<P>>>)
        requires
            self.wf(),
        ensures
            match chan {
                Some(chan) => self@.questions.live(id) && *chan == self@.questions.at(id).chan,
                None => !self@.questions.live(id),
            },
    {
        match self.questions.get(id) {
            Some(question) => Some(&question.chan),
            None => None,
        }
    }

    /// Owes an answer under `id`.
    fn owe(&mut self, id: AnswerId, answer_ref: P::Answer)
        requires
            old(self).wf(),
        ensures
            final(self).wf(),
            final(self)@ == old(self)@.owing(id, answer_ref),
    {
        let answer = Answer::new(answer_ref);
        let ghost fresh = answer;
        self.answers.insert(id, answer);
        assert(self@.answers =~= old(self)@.answers.insert(id, fresh@));
    }

    /// Takes a message other than a request to start.
    fn receive(
        &mut self,
        message: Message<P>,
        whole: P::Content,
        answer_ref: P::Answer,
    ) -> (done: Result<Action<P>, Fault>)
        requires
            old(self).wf(),
            !(message is Bootstrap),
        ensures
            final(self).wf(),
            match done {
                Ok(action) => {
                    &&& old(self)@.incoming_fault(message@) is None
                    &&& final(self)@ == old(self)@.after_incoming(message@, answer_ref)
                    &&& old(self)@.is_incoming_action(message, whole, answer_ref, action)
                },
                Err(fault) => {
                    &&& old(self)@.incoming_fault(message@) == Some(fault)
                    &&& final(self)@ == old(self)@
                },
            },
    {
        let cap_table = match populate_cap_table(&message, &self.answers) {
            Ok(cap_table) => cap_table,
            Err(fault) => {
                return Err(fault);
            },
        };
        let receiver = match &message {
            Message::Call(call) => match &call.target {
                MessageTarget::ImportedCap(import_id) => MessageReceiver::Export(*import_id),
                MessageTarget::PromisedAnswer(promised_answer) => MessageReceiver::PromisedAnswer(
                    promised_answer.question_id,
                    get_pipeline_ops(promised_answer),
                ),
                MessageTarget::Unknown(_) => {
                    return Err(Fault::UnknownCallTarget);
                },
            },
            Message::Return(ret) => MessageReceiver::Question(ret.answer_id),
            Message::Finish(finish) => {
                self.answers.remove(finish.question_id);
                assert(self@.answers =~= old(self)@.answers.remove(finish.question_id));
                MessageReceiver::Nobody
            },
            Message::Release(release) => {
                if release.reference_count == 1 {
                    if !self.exports.has_slot(release.id) {
                        return Err(Fault::NoSuchExport(release.id));
                    }
                    self.exports.erase(release.id);
                }
                MessageReceiver::Nobody
            },
            _ => MessageReceiver::Nobody,
        };
        match receiver {
            MessageReceiver::Nobody => Ok(notice_of(message)),
            MessageReceiver::Question(id) => {
                match self.questions.get_mut(id) {
                    Some(question) => {
                        question.is_awaiting_return = false;
                    },
                    None => {
                        return Err(Fault::NoSuchQuestion(id));
                    },
                }
                let response = Response::Rpc(
                    RpcResponse::new(IncomingMessage { message, cap_table, whole }),
                );
                Ok(Action::Respond { question_id: id, response })
            },
            MessageReceiver::Export(id) => {
                if self.exports.get(id).is_none() {
                    return Err(Fault::NoSuchExport(id));
                }
                let (answer_id, interface_id, method_id) = get_call_ids(&message);
                let context = RpcCallContext::new(IncomingMessage { message, cap_table, whole });
                self.owe(answer_id, answer_ref);
                Ok(Action::CallExport { export_id: id, interface_id, method_id, context })
            },
            MessageReceiver::PromisedAnswer(id, ops) => {
                let (answer_id, interface_id, method_id) = get_call_ids(&message);
                if id != answer_id && self.answers.get(id).is_none() {
                    return Err(Fault::NoSuchAnswer(id));
                }
                let context = RpcCallContext::new(IncomingMessage { message, cap_table, whole });
                self.owe(answer_id, answer_ref);
                assert(self@.answers.contains_key(id));
                match self.answers.get(id) {
                    Some(answer) => Ok(
                        Action::CallAnswer {
                            answer_ref: answer.answer_ref.clone(),
                            interface_id,
                            method_id,
                            ops,
                            context,
                        },
                    ),
                    None => Err(Fault::NoSuchAnswer(id)),
                }
            },
        }
    }

    /// Answers the request `question_id` to start with the capability `hook`.
    fn bootstrap(&mut self, question_id: QuestionId, hook: P::Hook, answer_ref: P::Answer) -> (action:
        Action<P>)
        requires
            old(self).wf(),
            old(self)@.exports.has_room(),
        ensures
            final(self).wf(),
            old(self)@.is_bootstrap(question_id, hook, answer_ref, final(self)@, action),
    {
        let copy = hook.clone();
        let ghost copied = copy;
        let export_id = self.exports.push(Export::new(copy));
        let ghost between = self@;
        let mut cap_table: Vec<CapDescriptor> = Vec::new();
        cap_table.push(CapDescriptor::SenderHosted(export_id));
        let message = Message::Return(
            Return {
                answer_id: question_id,
                body: ReturnBody::Results(
                    Payload { content: AnyPointer::Capability(hook), cap_table },
                ),
            },
        );
        let called = answer_ref.clone();
        self.owe(question_id, answer_ref);
        proof {
            assert(crate::message::descriptors(cap_table@) =~= seq![
                CapDescriptorView::SenderHosted(export_id),
            ]);
            assert(between == old(self)@.exporting(export_id, copied));
            assert(old(self)@.is_started(
                question_id,
                hook,
                answer_ref,
                self@,
                message@,
                export_id,
                copied,
            ));
        }
        Action::Answer { answer_ref: called, message }
    }

    /// Sends a message.
    fn send(&mut self, outgoing: OutgoingMessage<P>) -> (done: Result<Action<P>, Fault>)
        requires
            old(self).wf(),
            RpcConnectionStateView::<P>::is_question(outgoing.message@)
                ==> old(self)@.questions.has_room(),
        ensures
            final(self).wf(),
            match done {
                Ok(action) => {
                    &&& RpcConnectionStateView::<P>::is_sendable(outgoing.message@)
                    &&& old(self)@.is_outgoing(outgoing, final(self)@, action)
                },
                Err(fault) => {
                    &&& !RpcConnectionStateView::<P>::is_sendable(outgoing.message@)
                    &&& fault == Fault::UnexpectedOutgoing
                    &&& final(self)@ == old(self)@
                },
            },
    {
        let OutgoingMessage { message, answer_chan, question_chan } = outgoing;
        match message {
            Message::Return(ret) => Ok(Action::Write { message: Message::Return(ret) }),
            Message::Call(call) => {
                let mut call = call;
                let question_ref = self.ask(answer_chan);
                call.question_id = question_ref.id;
                Ok(Action::Ask { question_ref, question_chan, message: Message::Call(call) })
            },
            Message::Bootstrap(bootstrap) => {
                let mut bootstrap = bootstrap;
                let question_ref = self.ask(answer_chan);
                bootstrap.question_id = question_ref.id;
                Ok(
                    Action::Ask {
                        question_ref,
                        question_chan,
                        message: Message::Bootstrap(bootstrap),
                    },
                )
            },
            _ => Err(Fault::UnexpectedOutgoing),
        }
    }

    /// Opens a question.
    fn ask(&mut self, answer_chan: Sender<Response<P>>) -> (question_ref: QuestionRef)
        requires
            old(self).wf(),
            old(self)@.questions.has_room(),
        ensures
            final(self).wf(),
            old(self)@.questions.next_is(question_ref.id),
            old(self)@.is_asked(question_ref, answer_chan, final(self)@),
    {
        let (question, ref_count) = Question::new(answer_chan);
        let id = self.questions.push(question);
        QuestionRef::new(id, ref_count)
    }

    /// Says what has to be done about `event`. If the event opens a question
    /// that this side has to answer, the answer is `answer_ref`.
    pub fn step<V: SturdyRefRestorer<P>>(
        &mut self,
        event: RpcEvent<P>,
        answer_ref: P::Answer,
        restorer: &V,
    ) -> (done: Result<Action<P>, Fault>)
        requires
            old(self).wf(),
            old(self)@.has_room_for(event),
        ensures
            final(self).wf(),
            exists|restored: Option<P::Hook>|
                {
                    &&& (event matches RpcEvent::IncomingMessage(Message::Bootstrap(bootstrap), _)
                        ==> call_ensures(
                        V::restore,
                        (restorer, &bootstrap.deprecated_object_id),
                        restored,
                    ))
                    &&& match done {
                        Ok(action) => {
                            &&& #[trigger] old(self)@.fault(event, restored) is None
                            &&& old(self)@.handles(
                                event,
                                answer_ref,
                                restored,
                                final(self)@,
                                action,
                            )
                        },
                        Err(fault) => {
                            &&& old(self)@.fault(event, restored) == Some(fault)
                            &&& final(self)@ == old(self)@
                        },
                    }
                },
    {
        let restored = match &event {
            RpcEvent::IncomingMessage(Message::Bootstrap(bootstrap), _) => restorer.restore(
                &bootstrap.deprecated_object_id,
            ),
            _ => None,
        };
        let ghost found = restored;
        let done = self.step_restored(event, answer_ref, restored);
        assert(old(self)@.fault(event, found) is None || done is Err);
        done
    }

    /// Says what has to be done about `event`. If the event opens a question
    /// that this side has to answer, the answer is `answer_ref`; if it is a
    /// request to start, `restored` is the capability that was found.
    pub fn step_restored(
        &mut self,
        event: RpcEvent<P>,
        answer_ref: P::Answer,
        restored: Option<P::Hook>,
    ) -> (done: Result<Action<P>, Fault>)
        requires
            old(self).wf(),
            old(self)@.has_room_for(event),
        ensures
            final(self).wf(),
            match done {
                Ok(action) => {
                    &&& old(self)@.fault(event, restored) is None
                    &&& old(self)@.handles(event, answer_ref, restored, final(self)@, action)
                },
                Err(fault) => {
                    &&& old(self)@.fault(event, restored) == Some(fault)
                    &&& final(self)@ == old(self)@
                },
            },
    {
        match event {
            RpcEvent::IncomingMessage(message, whole) => match message {
                Message::Bootstrap(bootstrap) => match restored {
                    Some(hook) => Ok(self.bootstrap(bootstrap.question_id, hook, answer_ref)),
                    None => Err(Fault::NotRestored),
                },
                message => self.receive(message, whole, answer_ref),
            },
            RpcEvent::Outgoing(outgoing) => self.send(outgoing),
            RpcEvent::NewLocalServer(hook, export_chan) => {
                let export_id = self.exports.push(Export::new(hook));
                Ok(Action::Exported { export_id, export_chan })
            },
            RpcEvent::Return(message) => {
                let answer_id = match &message {
                    Message::Return(ret) => ret.answer_id,
                    _ => {
                        return Ok(Action::Write { message });
                    },
                };
                match self.answers.get(answer_id) {
                    Some(answer) => Ok(
                        Action::Answer { answer_ref: answer.answer_ref.clone(), message },
                    ),
                    None => Ok(
                        Action::WriteAndFail { message, fault: Fault::NoSuchAnswer(answer_id) },
                    ),
                }
            },
            RpcEvent::DoneWithQuestion(id) => {
                if !self.questions.has_slot(id) {
                    return Err(Fault::NoSuchQuestion(id));
                }
                let erase_it = match self.questions.get(id) {
                    Some(question) => question.is_awaiting_return,
                    None => false,
                };
                if erase_it {
                    let message = finish_question(&mut self.questions, id);
                    Ok(Action::Write { message })
                } else {
                    Ok(Action::Nothing)
                }
            },
            RpcEvent::Shutdown => Ok(Action::Stop),
        }
    }

    /// After the response to the question `id` was put into its channel: ends
    /// the question if it is `unreferenced`. The message is for the other side.
    pub fn finish_if(&mut self, id: QuestionId, unreferenced: bool) -> (message: Option<Message<P>>)
        requires
            old(self).wf(),
            old(self)@.questions.live(id),
        ensures
            final(self).wf(),
            match message {
                Some(message) => {
                    &&& unreferenced
                    &&& final(self)@ == old(self)@.finished(id)
                    &&& message@ == MessageView::<P>::finish(id)
                },
                None => !unreferenced && final(self)@ == old(self)@,
            },
    {
        if unreferenced {
            Some(finish_question(&mut self.questions, id))
        } else {
            None
        }
    }

    /// After the response to the question `id` was put into its channel: ends
    /// the question if no reference to it is left. The message is for the
    /// other side.
    pub fn response_sent(&mut self, id: QuestionId) -> (message: Option<Message<P>>)
        requires
            old(self).wf(),
            old(self)@.questions.live(id),
        ensures
            final(self).wf(),
            match message {
                Some(message) => {
                    &&& final(self)@ == old(self)@.finished(id)
                    &&& message@ == MessageView::<P>::finish(id)
                },
                None => final(self)@ == old(self)@,
            },
            crate::channel::found_disconnected(
                old(self)@.questions.at(id).ref_counter,
                message is Some,
            ),
    {
        let unreferenced = match self.questions.get(id) {
            Some(question) => is_disconnected(&question.ref_counter),
            None => false,
        };
        self.finish_if(id, unreferenced)
    }
}

/// A connection is seen with all that is in each of its tables.
proof fn law_a_connection_shows_its_tables<P: Runtime>(state: RpcConnectionState<P>, id: u32)
    ensures
        state@.exports == state.exports@,
        state@.questions == state.questions@,
        state@.imports == state.imports@,
        state@.answers.contains_key(id) <==> state.answers@.contains_key(id),
        state.answers@.contains_key(id) ==> {
            &&& state@.answers[id].answer_ref == state.answers@[id].answer_ref
            &&& state@.answers[id].result_exports == state.answers@[id].result_exports@
        },
{
}

} // verus!
