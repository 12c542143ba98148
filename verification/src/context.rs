//! The contexts in which calls run, and the responses that come of them.

use crate::caps::{write_outgoing_cap_table, ImportedCap, OutgoingCap};
use crate::message::{
    AnyPointer, Exception, Message, MessageView, Payload, Return, ReturnBody, ReturnBodyView,
};
use crate::runtime::Runtime;
use crate::tables::AnswerId;
use std::sync::mpsc::Sender;
use vstd::prelude::*;

verus! {

/// A message that came from the other side, with the capabilities in it.
pub struct IncomingMessage<P: Runtime> {
    pub message: Message<P>,
    pub cap_table: Vec<Option<ImportedCap<P>>>,
    /// The message as it came, with what is not known of it here.
    pub whole: P::Content,
}

/// A response of the other side.
pub struct RpcResponse<P: Runtime> {
    pub message: IncomingMessage<P>,
}

impl<P: Runtime> RpcResponse<P> {
    pub fn new(message: IncomingMessage<P>) -> (response: RpcResponse<P>)
        ensures
            response.message == message,
    {
        RpcResponse { message }
    }

    pub fn get(&self) -> (message: &Message<P>)
        ensures
            *message == self.message.message,
    {
        &self.message.message
    }

    /// The message as it came.
    pub fn whole(&self) -> (whole: &P::Content)
        ensures
            *whole == self.message.whole,
    {
        &self.message.whole
    }
}

/// A response of this side.
pub struct LocalResponse<P: Runtime> {
    pub message: Message<P>,
}

impl<P: Runtime> LocalResponse<P> {
    pub fn new(message: Message<P>) -> (response: LocalResponse<P>)
        ensures
            response.message == message,
    {
        LocalResponse { message }
    }

    pub fn get(&self) -> (message: &Message<P>)
        ensures
            *message == self.message,
    {
        &self.message
    }
}

/// What came of a call, for the one who made it.
pub enum Response<P: Runtime> {
    Rpc(RpcResponse<P>),
    Local(LocalResponse<P>),
}

/// Sees to it that a call is answered even if it is dropped.
#[derive(Debug)]
pub struct Aborter {
    pub succeeded: bool,
    pub message: String,
    pub answer_id: AnswerId,
}

impl Aborter {
    /// What has to be returned when this is dropped: an exception, unless the
    /// call has succeeded.
    pub open spec fn last_word<P: Runtime>(self) -> Option<MessageView<P>> {
        if self.succeeded {
            None
        } else {
            Some(
                MessageView::exception(self.answer_id, vstd::utf8::encode_utf8(self.message@)),
            )
        }
    }

    /// The message that has to be returned when this is dropped, if any.
    pub fn on_drop<P: Runtime>(&self) -> (message: Option<Message<P>>)
        ensures
            match message {
                Some(message) => self.last_word::<P>() == Some(message@),
                None => self.last_word::<P>() is None,
            },
    {
        if self.succeeded {
            None
        } else {
            Some(Message::exception(self.answer_id, bytes_of(&self.message)))
        }
    }
}

/// The text in UTF-8.
fn bytes_of(text: &String) -> (bytes: Vec<u8>)
    ensures
        bytes@ == vstd::utf8::encode_utf8(text@),
{
    let all = text.as_str().as_bytes();
    let mut bytes: Vec<u8> = Vec::new();
    let mut i: usize = 0;
    while i < all.len()
        invariant
            i <= all@.len(),
            bytes@ == all@.take(i as int),
        decreases all@.len() - i,
    {
        bytes.push(all[i]);
        i = i + 1;
        assert(all@.take(i as int) =~= all@.take(i - 1).push(all@[i - 1]));
    }
    assert(all@.take(i as int) =~= all@);
    bytes
}

/// The content of the results in `message`, to be filled in.
pub open spec fn results_content<P: Runtime>(message: Message<P>) -> AnyPointer<P> {
    message->Return_0.body->Results_0.content
}

/// `message` is a return with results.
pub open spec fn is_results<P: Runtime>(message: Message<P>) -> bool {
    message matches Message::Return(ret) && ret.body is Results
}

/// `message` with the content of its results replaced.
pub open spec fn with_results_content<P: Runtime>(
    message: Message<P>,
    content: AnyPointer<P>,
) -> Message<P> {
    let ret = message->Return_0;
    Message::Return(
        Return {
            body: ReturnBody::Results(Payload { content, ..ret.body->Results_0 }),
            ..ret
        },
    )
}

/// The content of the parameters and of the results of a call.
fn get_contents<'a, P: Runtime>(params: &'a Message<P>, results: &'a mut Message<P>) -> (contents: (
    Option<&'a AnyPointer<P>>,
    Option<&'a mut AnyPointer<P>>,
))
    ensures
        match contents.0 {
            Some(content) => params is Call && *content == params->Call_0.params.content,
            None => !(params is Call),
        },
        match contents.1 {
            Some(content) => {
                &&& is_results(*old(results))
                &&& *content == results_content(*old(results))
                &&& *final(results) == with_results_content(*old(results), *final(content))
            },
            None => !is_results(*old(results)) && *final(results) == *old(results),
        },
{
    let params_content = match params {
        Message::Call(call) => Some(&call.params.content),
        _ => None,
    };
    let results_content = match results {
        Message::Return(ret) => match &mut ret.body {
            ReturnBody::Results(payload) => Some(&mut payload.content),
            _ => None,
        },
        _ => None,
    };
    (params_content, results_content)
}

/// The context of a call that the other side has made.
pub struct RpcCallContext<P: Runtime> {
    pub params_message: IncomingMessage<P>,
    pub results_message: Message<P>,
    pub aborter: Aborter,
}

impl<P: Runtime> RpcCallContext<P> {
    /// The parameters are those of a call, and the results those of the answer
    /// to it.
    pub open spec fn wf(self) -> bool {
        &&& self.params_message.message is Call
        &&& is_results(self.results_message)
        &&& self.results_message->Return_0.answer_id == self.answer_id()
        &&& self.aborter.answer_id == self.answer_id()
    }

    /// The number of the answer that is owed.
    pub open spec fn answer_id(self) -> AnswerId {
        self.params_message.message->Call_0.question_id
    }

    pub fn new(params_message: IncomingMessage<P>) -> (context: RpcCallContext<P>)
        requires
            params_message.message is Call,
        ensures
            context.wf(),
            context.params_message == params_message,
            context.results_message@ == MessageView::<P>::empty_results(context.answer_id()),
            !context.aborter.succeeded,
            context.aborter.message@ == "aborted"@,
    {
        let answer_id: u32 = match &params_message.message {
            Message::Call(call) => call.question_id,
            _ => 0,
        };
        let results_message = Message::empty_results(answer_id);
        RpcCallContext {
            params_message,
            results_message,
            aborter: Aborter { succeeded: false, message: "aborted".to_owned(), answer_id },
        }
    }

    /// The content of the parameters, and that of the results, to be filled
    /// in.
    pub fn get(&mut self) -> (contents: (&AnyPointer<P>, &mut AnyPointer<P>))
        requires
            old(self).wf(),
        ensures
            final(self).wf(),
            *contents.0 == old(self).params_message.message->Call_0.params.content,
            *contents.1 == results_content(old(self).results_message),
            *final(self) == (RpcCallContext {
                results_message: with_results_content(
                    old(self).results_message,
                    *final(contents.1),
                ),
                ..*old(self)
            }),
    {
        let contents = get_contents(&self.params_message.message, &mut self.results_message);
        (contents.0.unwrap(), contents.1.unwrap())
    }

    /// Gives the call up, because of `message`. What is returned of it is the
    /// last word of the aborter.
    pub fn fail(self, message: String) -> (aborter: Aborter)
        ensures
            aborter == (Aborter { succeeded: false, message, ..self.aborter }),
    {
        let RpcCallContext { params_message: _, results_message: _, aborter } = self;
        let mut aborter = aborter;
        aborter.succeeded = false;
        aborter.message = message;
        aborter
    }

    /// The message that returns the results, with the capabilities `caps` in
    /// them described, and the aborter, which has nothing more to say.
    pub fn done(self, caps: &Vec<Option<OutgoingCap>>) -> (done: (Message<P>, Aborter))
        ensures
            done.0@ == crate::caps::with_cap_table(
                self.results_message@,
                crate::caps::outgoing_cap_table(caps@),
            ),
            done.1 == (Aborter { succeeded: true, ..self.aborter }),
    {
        let RpcCallContext { params_message: _, results_message, aborter } = self;
        let mut aborter = aborter;
        aborter.succeeded = true;
        let mut results_message = results_message;
        write_outgoing_cap_table(&mut results_message, caps);
        (results_message, aborter)
    }
}

/// Whatever becomes of a call, one message is returned of it, and it carries
/// the number of the call: the results if the call is done, and an exception if
/// it fails or is dropped.
pub proof fn law_a_call_is_answered_once<P: Runtime>(
    context: RpcCallContext<P>,
    caps: Seq<Option<OutgoingCap>>,
    reason: String,
)
    requires
        context.wf(),
        !context.aborter.succeeded,
    ensures
        crate::caps::with_cap_table(
            context.results_message@,
            crate::caps::outgoing_cap_table(caps),
        ) matches MessageView::Return(ret) && ret.answer_id == context.answer_id()
            && ret.body is Results,
        (Aborter { succeeded: true, ..context.aborter }).last_word::<P>() is None,
        (Aborter { succeeded: false, message: reason, ..context.aborter }).last_word::<P>() == Some(
            MessageView::<P>::exception(
                context.answer_id(),
                vstd::utf8::encode_utf8(reason@),
            ),
        ),
        context.aborter.last_word::<P>() == Some(
            MessageView::<P>::exception(
                context.answer_id(),
                vstd::utf8::encode_utf8(context.aborter.message@),
            ),
        ),
{
}

/// The context of a call on an answer of this side.
#[verifier::reject_recursive_types(P)]
pub struct PromisedAnswerRpcCallContext<P: Runtime> {
    pub params_message: Message<P>,
    pub results_message: Message<P>,
    pub answer_chan: Sender<Response<P>>,
}

impl<P: Runtime> PromisedAnswerRpcCallContext<P> {
    pub open spec fn wf(self) -> bool {
        self.params_message is Call && is_results(self.results_message)
    }

    pub fn new(params_message: Message<P>, answer_chan: Sender<Response<P>>) -> (context:
        PromisedAnswerRpcCallContext<P>)
        ensures
            context.params_message == params_message,
            context.results_message@ == MessageView::<P>::empty_results(0),
            context.answer_chan == answer_chan,
            params_message is Call ==> context.wf(),
    {
        PromisedAnswerRpcCallContext {
            params_message,
            results_message: Message::empty_results(0),
            answer_chan,
        }
    }

    /// The content of the parameters, and that of the results, to be filled
    /// in.
    pub fn get(&mut self) -> (contents: (&AnyPointer<P>, &mut AnyPointer<P>))
        requires
            old(self).wf(),
        ensures
            final(self).wf(),
            *contents.0 == old(self).params_message->Call_0.params.content,
            *contents.1 == results_content(old(self).results_message),
            *final(self) == (PromisedAnswerRpcCallContext {
                results_message: with_results_content(
                    old(self).results_message,
                    *final(contents.1),
                ),
                ..*old(self)
            }),
    {
        let contents = get_contents(&self.params_message, &mut self.results_message);
        (contents.0.unwrap(), contents.1.unwrap())
    }

    /// The response that says that the call has failed, and where it goes.
    pub fn fail(self, message: String) -> (sent: (Sender<Response<P>>, Response<P>))
        requires
            self.results_message is Return,
        ensures
            sent.0 == self.answer_chan,
            sent.1 matches Response::Local(response) && response.message@ == MessageView::<
                P,
            >::exception(
                self.results_message->Return_0.answer_id,
                vstd::utf8::encode_utf8(message@),
            ),
    {
        let PromisedAnswerRpcCallContext { params_message: _, results_message, answer_chan } = self;
        let results_message = match results_message {
            Message::Return(ret) => Message::Return(
                Return {
                    answer_id: ret.answer_id,
                    body: ReturnBody::Exception(Exception { reason: bytes_of(&message) }),
                },
            ),
            other => other,
        };
        (answer_chan, Response::Local(LocalResponse::new(results_message)))
    }

    /// The response that holds the results, and where it goes.
    pub fn done(self) -> (sent: (Sender<Response<P>>, Response<P>))
        ensures
            sent.0 == self.answer_chan,
            sent.1 == Response::Local(LocalResponse { message: self.results_message }),
    {
        let PromisedAnswerRpcCallContext { params_message: _, results_message, answer_chan } = self;
        (answer_chan, Response::Local(LocalResponse::new(results_message)))
    }
}

/// A call that has not succeeded has a last word, which is an exception under
/// its number with the reason in UTF-8; one that has succeeded has none.
pub proof fn law_the_last_word_is_the_reason<P: Runtime>(aborter: Aborter)
    ensures
        aborter.succeeded ==> aborter.last_word::<P>() is None,
        !aborter.succeeded ==> (aborter.last_word::<P>() matches Some(MessageView::Return(ret)) && {
            &&& ret.answer_id == aborter.answer_id
            &&& ret.body matches ReturnBodyView::Exception(exception) && exception.reason
                == vstd::utf8::encode_utf8(aborter.message@)
        }),
{
}

/// Filling in the results of a call changes their content and nothing else.
pub proof fn law_filling_in_results_changes_their_content<P: Runtime>(
    message: Message<P>,
    content: AnyPointer<P>,
)
    requires
        message matches Message::Return(ret) && ret.body is Results,
    ensures
        is_results(message),
        results_content(message) == message->Return_0.body->Results_0.content,
        with_results_content(message, content) matches Message::Return(ret) && {
            &&& ret.answer_id == message->Return_0.answer_id
            &&& ret.body matches ReturnBody::Results(payload) && {
                &&& payload.content == content
                &&& payload.cap_table == message->Return_0.body->Results_0.cap_table
            }
        },
{
}

/// A context is well-formed exactly if it holds a call, results, and one number
/// for both and for the last word.
pub proof fn law_a_context_is_for_one_call<P: Runtime>(
    context: RpcCallContext<P>,
    local: PromisedAnswerRpcCallContext<P>,
)
    ensures
        context.wf() <==> (context.params_message.message matches Message::Call(call)
            && context.results_message matches Message::Return(ret) && ret.body is Results
            && ret.answer_id == call.question_id && context.aborter.answer_id == call.question_id),
        context.params_message.message matches Message::Call(call) ==> context.answer_id()
            == call.question_id,
        local.wf() <==> (local.params_message is Call && (local.results_message matches
            Message::Return(ret) && ret.body is Results)),
{
}

} // verus!
