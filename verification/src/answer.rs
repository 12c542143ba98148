//! The answers that this side owes the other one, and the calls that are made
//! on them before they are there.

use crate::message::{AnyPointer, Message, PipelineOp, ReturnBody};
use crate::runtime::Runtime;
use crate::tables::ExportId;
use vstd::prelude::*;

verus! {

/// How far an answer has come.
pub enum AnswerStatus<P: Runtime> {
    /// It was sent.
    Sent(Message<P>),
    /// It is awaited, and so are the calls made on it: the interface, the
    /// method, the way to the capability in the results, and the context.
    Pending(Vec<(u64, u16, Vec<PipelineOp>, P::Context)>),
}

/// What an answer's status holds.
#[verifier::ext_equal]
pub enum AnswerStatusView<P: Runtime> {
    Sent(Message<P>),
    Pending(Seq<(u64, u16, Vec<PipelineOp>, P::Context)>),
}

impl<P: Runtime> View for AnswerStatus<P> {
    type V = AnswerStatusView<P>;

    open spec fn view(&self) -> AnswerStatusView<P> {
        match *self {
            AnswerStatus::Sent(message) => AnswerStatusView::Sent(message),
            AnswerStatus::Pending(waiters) => AnswerStatusView::Pending(waiters@),
        }
    }
}

/// What is to be done about a call on an answer that was sent.
pub enum Dispatch<P: Runtime> {
    /// Make the call on the capability that `ops` lead to in the results.
    Call { interface_id: u64, method_id: u16, ops: Vec<PipelineOp>, context: P::Context },
    /// Drop the call: the answer is an exception.
    Ignore { context: P::Context },
}

/// Calls can be made on `message` as an answer: it is a return with results or
/// with an exception.
pub open spec fn answerable<P: Runtime>(message: Message<P>) -> bool {
    message matches Message::Return(ret) && (ret.body is Results || ret.body is Exception)
}

/// Whether calls can be made on `message` as an answer.
pub fn is_answerable<P: Runtime>(message: &Message<P>) -> (yes: bool)
    ensures
        yes == answerable(*message),
{
    match message {
        Message::Return(ret) => match ret.body {
            ReturnBody::Results(_) => true,
            ReturnBody::Exception(_) => true,
            _ => false,
        },
        _ => false,
    }
}

/// What is to be done about `call` once `message` was sent as the answer.
pub open spec fn dispatch<P: Runtime>(
    message: Message<P>,
    call: (u64, u16, Vec<PipelineOp>, P::Context),
) -> Dispatch<P> {
    if message->Return_0.body is Results {
        Dispatch::Call { interface_id: call.0, method_id: call.1, ops: call.2, context: call.3 }
    } else {
        Dispatch::Ignore { context: call.3 }
    }
}

/// What is to be done about `calls`, in their order.
pub open spec fn dispatches<P: Runtime>(
    message: Message<P>,
    calls: Seq<(u64, u16, Vec<PipelineOp>, P::Context)>,
) -> Seq<Dispatch<P>> {
    calls.map_values(|call: (u64, u16, Vec<PipelineOp>, P::Context)| dispatch(message, call))
}

impl<P: Runtime> AnswerStatusView<P> {
    /// The status after a call was made on the answer.
    pub open spec fn received(self, call: (u64, u16, Vec<PipelineOp>, P::Context)) -> Self {
        match self {
            AnswerStatusView::Sent(_) => self,
            AnswerStatusView::Pending(waiters) => AnswerStatusView::Pending(waiters.push(call)),
        }
    }

    /// The status after a row of calls was made on the answer.
    pub open spec fn received_all(
        self,
        calls: Seq<(u64, u16, Vec<PipelineOp>, P::Context)>,
    ) -> Self
        decreases calls.len(),
    {
        if calls.len() == 0 {
            self
        } else {
            self.received_all(calls.drop_last()).received(calls.last())
        }
    }

    /// What is to be done at once about a call made on the answer.
    pub open spec fn at_once(self, call: (u64, u16, Vec<PipelineOp>, P::Context)) -> Option<
        Dispatch<P>,
    > {
        match self {
            AnswerStatusView::Sent(message) => Some(dispatch(message, call)),
            AnswerStatusView::Pending(_) => None,
        }
    }

    /// What is to be done at once about a row of calls made on the answer.
    pub open spec fn all_at_once(
        self,
        calls: Seq<(u64, u16, Vec<PipelineOp>, P::Context)>,
    ) -> Seq<Dispatch<P>>
        decreases calls.len(),
    {
        if calls.len() == 0 {
            Seq::empty()
        } else {
            let done = self.all_at_once(calls.drop_last());
            match self.received_all(calls.drop_last()).at_once(calls.last()) {
                Some(last) => done.push(last),
                None => done,
            }
        }
    }
}

/// The state of one answer.
pub struct AnswerRef<P: Runtime> {
    pub status: AnswerStatus<P>,
}

impl<P: Runtime> AnswerRef<P> {
    pub fn new() -> (answer: AnswerRef<P>)
        ensures
            answer.status@ == AnswerStatusView::<P>::Pending(Seq::empty()),
    {
        AnswerRef { status: AnswerStatus::Pending(Vec::new()) }
    }

    /// What is to be done about a call once `answer_message` was sent.
    fn do_call(
        answer_message: &Message<P>,
        interface_id: u64,
        method_id: u16,
        ops: Vec<PipelineOp>,
        context: P::Context,
    ) -> (done: Dispatch<P>)
        requires
            answerable(*answer_message),
        ensures
            done == dispatch(*answer_message, (interface_id, method_id, ops, context)),
    {
        match answer_message {
            Message::Return(ret) => match ret.body {
                ReturnBody::Results(_) => Dispatch::Call { interface_id, method_id, ops, context },
                _ => Dispatch::Ignore { context },
            },
            _ => Dispatch::Ignore { context },
        }
    }

    /// Takes a call on the answer: if the answer was sent, the call is to be
    /// made at once; if not, it waits.
    pub fn receive(
        &mut self,
        interface_id: u64,
        method_id: u16,
        ops: Vec<PipelineOp>,
        context: P::Context,
    ) -> (done: Option<Dispatch<P>>)
        requires
            old(self).status matches AnswerStatus::Sent(message) ==> answerable(message),
        ensures
            final(self).status@ == old(self).status@.received(
                (interface_id, method_id, ops, context),
            ),
            done == old(self).status@.at_once((interface_id, method_id, ops, context)),
    {
        match &mut self.status {
            AnswerStatus::Sent(answer_message) => Some(
                AnswerRef::do_call(answer_message, interface_id, method_id, ops, context),
            ),
            AnswerStatus::Pending(waiters) => {
                waiters.push((interface_id, method_id, ops, context));
                None
            },
        }
    }

    /// Keeps `message` as the answer that was sent, and returns what is to be
    /// done about the calls that have waited for it, in the order in which
    /// they came.
    pub fn sent(&mut self, message: Message<P>) -> (done: Vec<Dispatch<P>>)
        requires
            old(self).status is Pending,
            old(self).status->Pending_0@.len() > 0 ==> answerable(message),
        ensures
            final(self).status == AnswerStatus::Sent(message),
            done@ == dispatches(message, old(self).status->Pending_0@),
    {
        let mut done: Vec<Dispatch<P>> = Vec::new();
        let ghost calls = self.status->Pending_0@;
        match &mut self.status {
            AnswerStatus::Sent(_) => {},
            AnswerStatus::Pending(waiters) => {
                let mut reversed: Vec<(u64, u16, Vec<PipelineOp>, P::Context)> = Vec::new();
                while waiters.len() > 0
                    invariant
                        waiters@ + reversed@.reverse() =~= calls,
                    decreases waiters@.len(),
                {
                    match waiters.pop() {
                        Some(call) => {
                            reversed.push(call);
                        },
                        None => {},
                    }
                }
                assert(reversed@.reverse() =~= calls);
                while reversed.len() > 0
                    invariant
                        done@ + dispatches(message, reversed@.reverse()) =~= dispatches(
                            message,
                            calls,
                        ),
                        calls.len() > 0 ==> answerable(message),
                        reversed@.len() <= calls.len(),
                    decreases reversed@.len(),
                {
                    match reversed.pop() {
                        Some((interface_id, method_id, ops, context)) => {
                            done.push(
                                AnswerRef::do_call(&message, interface_id, method_id, ops, context),
                            );
                        },
                        None => {},
                    }
                }
            },
        }
        self.status = AnswerStatus::Sent(message);
        done
    }

    /// Whether the answer was sent.
    pub fn is_sent(&self) -> (yes: bool)
        ensures
            yes == (self.status is Sent),
    {
        match self.status {
            AnswerStatus::Sent(_) => true,
            AnswerStatus::Pending(_) => false,
        }
    }

    /// The content of the results that were sent, in which the capabilities
    /// are that calls on the answer are made on.
    pub fn content(&self) -> (content: Option<&AnyPointer<P>>)
        ensures
            match content {
                Some(content) => self.status matches AnswerStatus::Sent(message)
                    && message matches Message::Return(ret)
                    && ret.body matches ReturnBody::Results(payload) && *content == payload.content,
                None => !(self.status matches AnswerStatus::Sent(message)
                    && message matches Message::Return(ret) && ret.body is Results),
            },
    {
        match &self.status {
            AnswerStatus::Sent(Message::Return(ret)) => match &ret.body {
                ReturnBody::Results(payload) => Some(&payload.content),
                _ => None,
            },
            _ => None,
        }
    }
}

/// What this side keeps of a question that it has to answer.
pub struct Answer<P: Runtime> {
    pub answer_ref: P::Answer,
    pub result_exports: Vec<ExportId>,
}

#[verifier::ext_equal]
pub struct AnswerView<P: Runtime> {
    pub answer_ref: P::Answer,
    pub result_exports: Seq<ExportId>,
}

impl<P: Runtime> View for Answer<P> {
    type V = AnswerView<P>;

    open spec fn view(&self) -> AnswerView<P> {
        AnswerView { answer_ref: self.answer_ref, result_exports: self.result_exports@ }
    }
}

/// The answers of a table.
pub open spec fn answer_views<P: Runtime>(answers: Map<u32, Answer<P>>) -> Map<u32, AnswerView<P>> {
    answers.map_values(|answer: Answer<P>| answer@)
}

impl<P: Runtime> AnswerView<P> {
    /// An answer of which nothing is known yet.
    pub open spec fn fresh(answer_ref: P::Answer) -> Self {
        AnswerView { answer_ref, result_exports: Seq::empty() }
    }
}

impl<P: Runtime> Answer<P> {
    pub fn new(answer_ref: P::Answer) -> (answer: Answer<P>)
        ensures
            answer@ == AnswerView::<P>::fresh(answer_ref),
    {
        Answer { answer_ref, result_exports: Vec::new() }
    }
}

/// The calls made on an answer that is still awaited wait for it in the order
/// in which they were made.
pub proof fn law_calls_wait_in_order<P: Runtime>(
    waiting: Seq<(u64, u16, Vec<PipelineOp>, P::Context)>,
    calls: Seq<(u64, u16, Vec<PipelineOp>, P::Context)>,
)
    ensures
        AnswerStatusView::<P>::Pending(waiting).received_all(calls) == AnswerStatusView::<
            P,
        >::Pending(waiting + calls),
    decreases calls.len(),
{
    if calls.len() > 0 {
        law_calls_wait_in_order::<P>(waiting, calls.drop_last());
        assert(waiting + calls =~= (waiting + calls.drop_last()).push(calls.last()));
    } else {
        assert(waiting + calls =~= waiting);
    }
}

/// An answer that was sent does not change by the calls that are made on it,
/// and each of them is made at once.
proof fn lemma_sent_is_dispatched<P: Runtime>(
    message: Message<P>,
    calls: Seq<(u64, u16, Vec<PipelineOp>, P::Context)>,
)
    ensures
        AnswerStatusView::Sent(message).received_all(calls) == AnswerStatusView::Sent(message),
        AnswerStatusView::Sent(message).all_at_once(calls) == dispatches(message, calls),
    decreases calls.len(),
{
    if calls.len() > 0 {
        lemma_sent_is_dispatched(message, calls.drop_last());
        assert(dispatches(message, calls) =~= dispatches(message, calls.drop_last()).push(
            dispatch(message, calls.last()),
        ));
    } else {
        assert(dispatches(message, calls) =~= Seq::empty());
    }
}

/// While an answer is awaited, no call on it is made.
proof fn lemma_pending_is_not_dispatched<P: Runtime>(
    calls: Seq<(u64, u16, Vec<PipelineOp>, P::Context)>,
)
    ensures
        AnswerStatusView::<P>::Pending(Seq::empty()).all_at_once(calls) == Seq::<
            Dispatch<P>,
        >::empty(),
    decreases calls.len(),
{
    if calls.len() > 0 {
        lemma_pending_is_not_dispatched::<P>(calls.drop_last());
        law_calls_wait_in_order::<P>(Seq::empty(), calls.drop_last());
    }
}

/// Of the calls that are made on an answer before and after `message` is sent
/// as the answer, each is dispatched once, and in the order in which it came:
/// none of those before at once, all of them when the answer is sent, and each
/// of those after at once. None of the latter changes the answer.
pub proof fn law_every_call_is_dispatched_once<P: Runtime>(
    before: Seq<(u64, u16, Vec<PipelineOp>, P::Context)>,
    after: Seq<(u64, u16, Vec<PipelineOp>, P::Context)>,
    message: Message<P>,
)
    requires
        answerable(message),
    ensures
        ({
            let new = AnswerStatusView::<P>::Pending(Seq::empty());
            let waiting = new.received_all(before);
            let sent = AnswerStatusView::Sent(message);
            &&& new.all_at_once(before) == Seq::<Dispatch<P>>::empty()
            &&& waiting == AnswerStatusView::<P>::Pending(before)
            &&& dispatches(message, waiting->Pending_0) + sent.all_at_once(after) == dispatches(
                message,
                before + after,
            )
            &&& sent.received_all(after) == sent
        }),
{
    law_calls_wait_in_order::<P>(Seq::empty(), before);
    assert(Seq::<(u64, u16, Vec<PipelineOp>, P::Context)>::empty() + before =~= before);
    lemma_pending_is_not_dispatched::<P>(before);
    lemma_sent_is_dispatched(message, after);
    assert(dispatches(message, before) + dispatches(message, after) =~= dispatches(
        message,
        before + after,
    ));
}

/// A call on an answer that was sent with results, whatever is in them, is made
/// as it came: on the same interface, method, steps and context. It is dropped
/// only if the answer is an exception.
pub proof fn law_a_call_on_results_is_made_as_it_came<P: Runtime>(
    message: Message<P>,
    interface_id: u64,
    method_id: u16,
    ops: Vec<PipelineOp>,
    context: P::Context,
)
    ensures
        message matches Message::Return(ret) && ret.body is Results ==> dispatch(
            message,
            (interface_id, method_id, ops, context),
        ) == (Dispatch::<P>::Call { interface_id, method_id, ops, context }),
        message matches Message::Return(ret) && ret.body is Exception ==> dispatch(
            message,
            (interface_id, method_id, ops, context),
        ) == (Dispatch::<P>::Ignore { context }),
        answerable(message) <==> (message matches Message::Return(ret) && (ret.body is Results
            || ret.body is Exception)),
{
}

/// A row of calls on an answer that was sent with results is made one for one:
/// what is done about the call at a place is to make it as it came.
pub proof fn law_calls_on_results_are_made_one_for_one<P: Runtime>(
    message: Message<P>,
    calls: Seq<(u64, u16, Vec<PipelineOp>, P::Context)>,
    i: int,
)
    requires
        message matches Message::Return(ret) && ret.body is Results,
        0 <= i < calls.len(),
    ensures
        dispatches(message, calls).len() == calls.len(),
        dispatches(message, calls)[i] == (Dispatch::<P>::Call {
            interface_id: calls[i].0,
            method_id: calls[i].1,
            ops: calls[i].2,
            context: calls[i].3,
        }),
        AnswerStatusView::Sent(message).at_once(calls[i]) == Some(
            Dispatch::<P>::Call {
                interface_id: calls[i].0,
                method_id: calls[i].1,
                ops: calls[i].2,
                context: calls[i].3,
            },
        ),
        AnswerStatusView::Sent(message).all_at_once(calls) == dispatches(message, calls),
{
    lemma_sent_is_dispatched(message, calls);
}

/// A call on an answer that is awaited joins the end of the row and is not made
/// yet; a call on an answer that was sent leaves the answer as it is.
pub proof fn law_a_call_waits_at_the_end_of_the_row<P: Runtime>(
    waiting: Seq<(u64, u16, Vec<PipelineOp>, P::Context)>,
    call: (u64, u16, Vec<PipelineOp>, P::Context),
    message: Message<P>,
)
    ensures
        AnswerStatusView::<P>::Pending(waiting).received(call) matches AnswerStatusView::Pending(row)
            && {
            &&& row.len() == waiting.len() + 1
            &&& row[waiting.len() as int] == call
            &&& forall|i: int| 0 <= i < waiting.len() ==> #[trigger] row[i] == waiting[i]
        },
        AnswerStatusView::<P>::Pending(waiting).at_once(call) is None,
        AnswerStatusView::Sent(message).received(call) == AnswerStatusView::Sent(message),
{
}

/// What an answer's status holds is all that is in it, and a new answer has
/// nothing but its handle.
pub proof fn law_a_status_shows_all_that_is_in_it<P: Runtime>(
    status: AnswerStatus<P>,
    answer: Answer<P>,
    answers: Map<u32, Answer<P>>,
    answer_ref: P::Answer,
)
    ensures
        status matches AnswerStatus::Sent(message) ==> status@ == AnswerStatusView::Sent(message),
        status matches AnswerStatus::Pending(waiters) ==> status@ == AnswerStatusView::<P>::Pending(
            waiters@,
        ),
        answer@.answer_ref == answer.answer_ref,
        answer@.result_exports == answer.result_exports@,
        answer_views(answers).dom() == answers.dom(),
        forall|id: u32| #[trigger]
            answers.contains_key(id) ==> answer_views(answers)[id].answer_ref
                == answers[id].answer_ref,
        AnswerView::<P>::fresh(answer_ref).answer_ref == answer_ref,
        AnswerView::<P>::fresh(answer_ref).result_exports.len() == 0,
{
}

} // verus!
