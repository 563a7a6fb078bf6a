//! What can go wrong between an address and its actor.

use vstd::prelude::*;
use vstd::string::StringExecFns;

use crate::util::oneshot::{OneshotRecvError, SendError};

verus! {

/// Why a request to an actor got no answer.
#[derive(Clone, Copy, PartialEq, Eq, Structural)]
pub enum ActixAsyncError {
    /// actor's channel is closed. happens when actor is shutdown.
    Closed,
    /// failed to send message to actor in time.
    SendTimeout,
    /// failed to receive result from actor in time.
    ReceiveTimeout,
    /// fail to receive result for given message. happens when actor is blocked or the
    /// thread it runs on panicked.
    Receive,
}

impl ActixAsyncError {
    /// The name of the error.
    pub open spec fn spec_cause(self) -> Seq<char> {
        match self {
            ActixAsyncError::Closed => "Closed"@,
            ActixAsyncError::SendTimeout => "SendTimeout"@,
            ActixAsyncError::ReceiveTimeout => "ReceiveTimeout"@,
            ActixAsyncError::Receive => "Receive"@,
        }
    }

    /// What the error means.
    pub open spec fn spec_description(self) -> Seq<char> {
        match self {
            ActixAsyncError::Closed => "Actor is already closed"@,
            ActixAsyncError::SendTimeout =>
                "MessageRequest is timed out. (Failed to send message to actor in time.)"@,
            ActixAsyncError::ReceiveTimeout =>
                "MessageRequest is timed out. (Failed to receive result from actor in time.)"@,
            ActixAsyncError::Receive => "Fail to receive result for given message."@,
        }
    }

    /// The name tells which error it is, and so does what it means. A request that is timed out is
    /// named for what was not done in time: to send the message, or to receive the result.
    pub proof fn law_texts_tell_the_error(self, other: ActixAsyncError)
        ensures
            self.spec_cause() == other.spec_cause() <==> self == other,
            self.spec_description() == other.spec_description() <==> self == other,
            self is SendTimeout ==> self.spec_cause() == "Send"@ + "Timeout"@,
            self is ReceiveTimeout && other is Receive ==> self.spec_cause() == other.spec_cause()
                + "Timeout"@,
            self is Receive ==> self.spec_cause() == "Receive"@,
            self is SendTimeout || self is ReceiveTimeout <==> "MessageRequest is timed out."@.is_prefix_of(
                self.spec_description(),
            ),
            self is SendTimeout ==> " (Failed to send message to actor in time.)"@.is_suffix_of(
                self.spec_description(),
            ),
            self is ReceiveTimeout ==> " (Failed to receive result from actor in time.)"@.is_suffix_of(
                self.spec_description(),
            ),
            self is Closed ==> self.spec_cause() == "Closed"@ && "closed"@.is_suffix_of(
                self.spec_description(),
            ),
    {
        reveal_strlit("Closed");
        reveal_strlit("SendTimeout");
        reveal_strlit("ReceiveTimeout");
        reveal_strlit("Receive");
        reveal_strlit("Send");
        reveal_strlit("Timeout");
        reveal_strlit("closed");
        reveal_strlit("Actor is already closed");
        reveal_strlit("MessageRequest is timed out. (Failed to send message to actor in time.)");
        reveal_strlit(
            "MessageRequest is timed out. (Failed to receive result from actor in time.)",
        );
        reveal_strlit("Fail to receive result for given message.");
        reveal_strlit("MessageRequest is timed out.");
        reveal_strlit(" (Failed to send message to actor in time.)");
        reveal_strlit(" (Failed to receive result from actor in time.)");
        assert("SendTimeout"@ =~= "Send"@ + "Timeout"@);
        assert("ReceiveTimeout"@ =~= "Receive"@ + "Timeout"@);
        assert("MessageRequest is timed out. (Failed to send message to actor in time.)"@.len()
            < "MessageRequest is timed out. (Failed to receive result from actor in time.)"@.len());
        assert(self != other ==> self.spec_description().len() != other.spec_description().len());
        assert("Actor is already closed"@[0] == 'A');
        assert("Fail to receive result for given message."@[0] == 'F');
        assert("MessageRequest is timed out."@[0] == 'M');
    }

    /// The name of the error.
    pub fn cause(&self) -> (text: &'static str)
        ensures
            text@ == self.spec_cause(),
    {
        match self {
            ActixAsyncError::Closed => "Closed",
            ActixAsyncError::SendTimeout => "SendTimeout",
            ActixAsyncError::ReceiveTimeout => "ReceiveTimeout",
            ActixAsyncError::Receive => "Receive",
        }
    }

    /// What the error means.
    pub fn description(&self) -> (text: &'static str)
        ensures
            text@ == self.spec_description(),
    {
        match self {
            ActixAsyncError::Closed => "Actor is already closed",
            ActixAsyncError::SendTimeout =>
                "MessageRequest is timed out. (Failed to send message to actor in time.)",
            ActixAsyncError::ReceiveTimeout =>
                "MessageRequest is timed out. (Failed to receive result from actor in time.)",
            ActixAsyncError::Receive => "Fail to receive result for given message.",
        }
    }

    /// The text for logs: the name of the type, then cause and description in quotes.
    pub fn fmt(&self) -> (text: String)
        ensures
            text@ == "ActixAsyncError { cause: \""@ + self.spec_cause() + "\", description: \""@
                + self.spec_description() + "\" }"@,
    {
        let mut text = String::new();
        text.append("ActixAsyncError { cause: \"");
        text.append(self.cause());
        text.append("\", description: \"");
        text.append(self.description());
        text.append("\" }");
        proof {
            let expected = "ActixAsyncError { cause: \""@ + self.spec_cause()
                + "\", description: \""@ + self.spec_description() + "\" }"@;
            assert(text@ =~= expected);
        }
        text
    }
}

/// A message that cannot be sent finds the channel closed.
impl<T> From<SendError<T>> for ActixAsyncError {
    fn from(_err: SendError<T>) -> (err: ActixAsyncError) {
        ActixAsyncError::Closed
    }
}

impl<T> vstd::std_specs::convert::FromSpecImpl<SendError<T>> for ActixAsyncError {
    open spec fn obeys_from_spec() -> bool {
        true
    }

    open spec fn from_spec(_err: SendError<T>) -> ActixAsyncError {
        ActixAsyncError::Closed
    }
}

/// A result that does not come was not received.
impl From<OneshotRecvError> for ActixAsyncError {
    fn from(_err: OneshotRecvError) -> (err: ActixAsyncError) {
        ActixAsyncError::Receive
    }
}

impl vstd::std_specs::convert::FromSpecImpl<OneshotRecvError> for ActixAsyncError {
    open spec fn obeys_from_spec() -> bool {
        true
    }

    open spec fn from_spec(_err: OneshotRecvError) -> ActixAsyncError {
        ActixAsyncError::Receive
    }
}

} // verus!
