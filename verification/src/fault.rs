//! What a connection cannot go on from.

use crate::tables::{AnswerId, ExportId, QuestionId};
use vstd::prelude::*;

verus! {

/// Why an event cannot be handled. The connection is of no use afterwards.
#[derive(Clone, Copy, Debug, PartialEq, Eq, Structural)]
pub enum Fault {
    /// A payload names a capability that this side hosts.
    ReceiverHostedCap,
    /// A payload names a capability that a third party hosts.
    ThirdPartyHostedCap,
    /// A payload names a capability in a way that is not known here.
    UnknownCapDescriptor,
    /// A call is made on something that is not known here.
    UnknownCallTarget,
    /// There is no such answer.
    NoSuchAnswer(AnswerId),
    /// No such question is open.
    NoSuchQuestion(QuestionId),
    /// No such capability is exported.
    NoSuchExport(ExportId),
    /// There is no capability to start from.
    NotRestored,
    /// A message was to go out that this side does not send.
    UnexpectedOutgoing,
}

} // verus!
