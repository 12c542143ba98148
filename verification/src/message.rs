//! The messages of the protocol, as plain values.

use crate::runtime::Runtime;
use crate::tables::{AnswerId, ExportId, ImportId, QuestionId};
use vstd::prelude::*;

verus! {

/// One step on the way from the content of an answer to a capability in it.
#[derive(Clone, Copy, Debug, PartialEq, Eq, Structural)]
pub enum PipelineOp {
    Noop,
    GetPointerField(u16),
}

/// A step as it stands in a message, where it may be of a kind that is not
/// known here.
#[derive(Clone, Copy, Debug, PartialEq, Eq, Structural)]
pub enum TransformOp {
    Noop,
    GetPointerField(u16),
    Unknown(u16),
}

/// A capability in the results of a question that may not be answered yet.
#[derive(Debug)]
pub struct PromisedAnswer {
    pub question_id: QuestionId,
    pub transform: Vec<TransformOp>,
}

#[verifier::ext_equal]
pub struct PromisedAnswerView {
    pub question_id: QuestionId,
    pub transform: Seq<TransformOp>,
}

impl View for PromisedAnswer {
    type V = PromisedAnswerView;

    open spec fn view(&self) -> PromisedAnswerView {
        PromisedAnswerView { question_id: self.question_id, transform: self.transform@ }
    }
}

/// The object of a call.
#[derive(Debug)]
pub enum MessageTarget {
    ImportedCap(ImportId),
    PromisedAnswer(PromisedAnswer),
    Unknown(u16),
}

#[verifier::ext_equal]
pub enum MessageTargetView {
    ImportedCap(ImportId),
    PromisedAnswer(PromisedAnswerView),
    Unknown(u16),
}

impl View for MessageTarget {
    type V = MessageTargetView;

    open spec fn view(&self) -> MessageTargetView {
        match *self {
            MessageTarget::ImportedCap(id) => MessageTargetView::ImportedCap(id),
            MessageTarget::PromisedAnswer(answer) => MessageTargetView::PromisedAnswer(answer@),
            MessageTarget::Unknown(tag) => MessageTargetView::Unknown(tag),
        }
    }
}

/// How the receiver of a payload finds one of the capabilities in it.
#[derive(Debug)]
pub enum CapDescriptor {
    NoDescriptor,
    SenderHosted(ExportId),
    SenderPromise(ExportId),
    ReceiverHosted(ImportId),
    ReceiverAnswer(PromisedAnswer),
    ThirdPartyHosted,
    Unknown(u16),
}

#[verifier::ext_equal]
pub enum CapDescriptorView {
    NoDescriptor,
    SenderHosted(ExportId),
    SenderPromise(ExportId),
    ReceiverHosted(ImportId),
    ReceiverAnswer(PromisedAnswerView),
    ThirdPartyHosted,
    Unknown(u16),
}

impl View for CapDescriptor {
    type V = CapDescriptorView;

    open spec fn view(&self) -> CapDescriptorView {
        match *self {
            CapDescriptor::NoDescriptor => CapDescriptorView::NoDescriptor,
            CapDescriptor::SenderHosted(id) => CapDescriptorView::SenderHosted(id),
            CapDescriptor::SenderPromise(id) => CapDescriptorView::SenderPromise(id),
            CapDescriptor::ReceiverHosted(id) => CapDescriptorView::ReceiverHosted(id),
            CapDescriptor::ReceiverAnswer(answer) => CapDescriptorView::ReceiverAnswer(answer@),
            CapDescriptor::ThirdPartyHosted => CapDescriptorView::ThirdPartyHosted,
            CapDescriptor::Unknown(tag) => CapDescriptorView::Unknown(tag),
        }
    }
}

/// The descriptors of a capability table.
pub open spec fn descriptors(table: Seq<CapDescriptor>) -> Seq<CapDescriptorView> {
    table.map_values(|descriptor: CapDescriptor| descriptor@)
}

/// A pointer to a value of any type.
pub enum AnyPointer<P: Runtime> {
    Null,
    Capability(P::Hook),
    Content(P::Content),
}

/// The parameters or the results of a call.
pub struct Payload<P: Runtime> {
    pub content: AnyPointer<P>,
    pub cap_table: Vec<CapDescriptor>,
}

#[verifier::ext_equal]
pub struct PayloadView<P: Runtime> {
    pub content: AnyPointer<P>,
    pub cap_table: Seq<CapDescriptorView>,
}

impl<P: Runtime> View for Payload<P> {
    type V = PayloadView<P>;

    open spec fn view(&self) -> PayloadView<P> {
        PayloadView { content: self.content, cap_table: descriptors(self.cap_table@) }
    }
}

impl<P: Runtime> PayloadView<P> {
    /// Nothing, and no capabilities in it.
    pub open spec fn empty() -> Self {
        PayloadView { content: AnyPointer::Null, cap_table: Seq::empty() }
    }
}

impl<P: Runtime> Payload<P> {
    pub fn new() -> (payload: Payload<P>)
        ensures
            payload@ == PayloadView::<P>::empty(),
    {
        let payload = Payload { content: AnyPointer::Null, cap_table: Vec::new() };
        assert(descriptors(payload.cap_table@) =~= Seq::empty());
        payload
    }
}

/// A request to run a method.
pub struct Call<P: Runtime> {
    pub question_id: QuestionId,
    pub target: MessageTarget,
    pub interface_id: u64,
    pub method_id: u16,
    pub params: Payload<P>,
}

#[verifier::ext_equal]
pub struct CallView<P: Runtime> {
    pub question_id: QuestionId,
    pub target: MessageTargetView,
    pub interface_id: u64,
    pub method_id: u16,
    pub params: PayloadView<P>,
}

impl<P: Runtime> View for Call<P> {
    type V = CallView<P>;

    open spec fn view(&self) -> CallView<P> {
        CallView {
            question_id: self.question_id,
            target: self.target@,
            interface_id: self.interface_id,
            method_id: self.method_id,
            params: self.params@,
        }
    }
}

/// Why something failed: the text of the reason, in UTF-8.
#[derive(Debug)]
pub struct Exception {
    pub reason: Vec<u8>,
}

#[verifier::ext_equal]
pub struct ExceptionView {
    pub reason: Seq<u8>,
}

impl View for Exception {
    type V = ExceptionView;

    open spec fn view(&self) -> ExceptionView {
        ExceptionView { reason: self.reason@ }
    }
}

/// What came of a call.
pub enum ReturnBody<P: Runtime> {
    Results(Payload<P>),
    Exception(Exception),
    Canceled,
    ResultsSentElsewhere,
    TakeFromOtherQuestion(QuestionId),
    AcceptFromThirdParty,
    Unknown(u16),
}

#[verifier::ext_equal]
pub enum ReturnBodyView<P: Runtime> {
    Results(PayloadView<P>),
    Exception(ExceptionView),
    Canceled,
    ResultsSentElsewhere,
    TakeFromOtherQuestion(QuestionId),
    AcceptFromThirdParty,
    Unknown(u16),
}

impl<P: Runtime> View for ReturnBody<P> {
    type V = ReturnBodyView<P>;

    open spec fn view(&self) -> ReturnBodyView<P> {
        match *self {
            ReturnBody::Results(payload) => ReturnBodyView::Results(payload@),
            ReturnBody::Exception(exception) => ReturnBodyView::Exception(exception@),
            ReturnBody::Canceled => ReturnBodyView::Canceled,
            ReturnBody::ResultsSentElsewhere => ReturnBodyView::ResultsSentElsewhere,
            ReturnBody::TakeFromOtherQuestion(id) => ReturnBodyView::TakeFromOtherQuestion(id),
            ReturnBody::AcceptFromThirdParty => ReturnBodyView::AcceptFromThirdParty,
            ReturnBody::Unknown(tag) => ReturnBodyView::Unknown(tag),
        }
    }
}

/// The answer to a call.
pub struct Return<P: Runtime> {
    pub answer_id: AnswerId,
    pub body: ReturnBody<P>,
}

#[verifier::ext_equal]
pub struct ReturnView<P: Runtime> {
    pub answer_id: AnswerId,
    pub body: ReturnBodyView<P>,
}

impl<P: Runtime> View for Return<P> {
    type V = ReturnView<P>;

    open spec fn view(&self) -> ReturnView<P> {
        ReturnView { answer_id: self.answer_id, body: self.body@ }
    }
}

/// The side that asked a question needs its answer no longer.
#[derive(Clone, Copy, Debug, PartialEq, Eq, Structural)]
pub struct Finish {
    pub question_id: QuestionId,
    pub release_result_caps: bool,
}

/// The side that uses a capability gives up references to it.
#[derive(Clone, Copy, Debug, PartialEq, Eq, Structural)]
pub struct Release {
    pub id: ExportId,
    pub reference_count: u32,
}

/// A request for the capability that the other side starts from.
pub struct Bootstrap<P: Runtime> {
    pub question_id: QuestionId,
    pub deprecated_object_id: AnyPointer<P>,
}

/// What one side sends to the other.
pub enum Message<P: Runtime> {
    Unimplemented,
    Abort(Exception),
    Call(Call<P>),
    Return(Return<P>),
    Finish(Finish),
    Resolve,
    Release(Release),
    ObsoleteSave,
    Bootstrap(Bootstrap<P>),
    ObsoleteDelete,
    Provide,
    Accept,
    Join,
    Disembargo,
    Unknown(u16),
}

#[verifier::ext_equal]
pub enum MessageView<P: Runtime> {
    Unimplemented,
    Abort(ExceptionView),
    Call(CallView<P>),
    Return(ReturnView<P>),
    Finish(Finish),
    Resolve,
    Release(Release),
    ObsoleteSave,
    Bootstrap(Bootstrap<P>),
    ObsoleteDelete,
    Provide,
    Accept,
    Join,
    Disembargo,
    Unknown(u16),
}

impl<P: Runtime> View for Message<P> {
    type V = MessageView<P>;

    open spec fn view(&self) -> MessageView<P> {
        match *self {
            Message::Unimplemented => MessageView::Unimplemented,
            Message::Abort(exception) => MessageView::Abort(exception@),
            Message::Call(call) => MessageView::Call(call@),
            Message::Return(ret) => MessageView::Return(ret@),
            Message::Finish(finish) => MessageView::Finish(finish),
            Message::Resolve => MessageView::Resolve,
            Message::Release(release) => MessageView::Release(release),
            Message::ObsoleteSave => MessageView::ObsoleteSave,
            Message::Bootstrap(bootstrap) => MessageView::Bootstrap(bootstrap),
            Message::ObsoleteDelete => MessageView::ObsoleteDelete,
            Message::Provide => MessageView::Provide,
            Message::Accept => MessageView::Accept,
            Message::Join => MessageView::Join,
            Message::Disembargo => MessageView::Disembargo,
            Message::Unknown(tag) => MessageView::Unknown(tag),
        }
    }
}

impl<P: Runtime> MessageView<P> {
    /// A return with results, nothing in them yet.
    pub open spec fn empty_results(answer_id: AnswerId) -> Self {
        MessageView::Return(
            ReturnView { answer_id, body: ReturnBodyView::Results(PayloadView::empty()) },
        )
    }

    /// A return that says that the call failed.
    pub open spec fn exception(answer_id: AnswerId, reason: Seq<u8>) -> Self {
        MessageView::Return(
            ReturnView { answer_id, body: ReturnBodyView::Exception(ExceptionView { reason }) },
        )
    }

    /// The message that ends a question, the capabilities in its results kept.
    pub open spec fn finish(question_id: QuestionId) -> Self {
        MessageView::Finish(Finish { question_id, release_result_caps: false })
    }
}

impl<P: Runtime> Message<P> {
    pub fn empty_results(answer_id: AnswerId) -> (message: Message<P>)
        ensures
            message@ == MessageView::<P>::empty_results(answer_id),
    {
        Message::Return(Return { answer_id, body: ReturnBody::Results(Payload::new()) })
    }

    pub fn exception(answer_id: AnswerId, reason: Vec<u8>) -> (message: Message<P>)
        ensures
            message@ == MessageView::<P>::exception(answer_id, reason@),
    {
        Message::Return(Return { answer_id, body: ReturnBody::Exception(Exception { reason }) })
    }
}

} // verus!
