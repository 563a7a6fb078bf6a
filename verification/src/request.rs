//! Requests to an actor, with timeouts.
//!
//! A `MessageRequest` decides and somebody else polls: `poll` and `resume` return what is to be
//! polled next, and `resume` is told what came of it, until a poll of the request is over.

use core::time::Duration;

use vstd::prelude::*;

use crate::error::ActixAsyncError;
use crate::runtime::RuntimeService;
use crate::util::futures::Poll;
use crate::util::oneshot::{OneshotReceiver, OneshotRecvError};

verus! {

/// default timeout for sending message, in seconds
pub const DEFAULT_TIMEOUT: u64 = 10;

/// Message request to actor with timeout setting.
pub enum MessageRequest<RT: RuntimeService, Fut> {
    /// The message is not sent yet.
    Request {
        fut: Fut,
        rx: OneshotReceiver,
        timeout: RT::Sleep,
        timeout_response: Option<Duration>,
    },
    /// The message is sent, and the answer is awaited.
    Response { rx: OneshotReceiver, timeout_response: Option<RT::Sleep> },
}

/// What is to be done next.
#[derive(PartialEq, Eq)]
pub enum Action<Res> {
    /// Poll the future that sends the message.
    PollSend,
    /// Poll the timer for the send.
    PollTimeout,
    /// Poll the receiver of the answer.
    PollReceive,
    /// Poll the timer for the answer.
    PollTimeoutResponse,
    /// The poll of the request is over.
    Return(Poll<Result<Res, ActixAsyncError>>),
}

/// What came of an action.
#[derive(PartialEq, Eq)]
pub enum Event<Res> {
    /// The outcome of a poll of the future that sends the message.
    Sent(Poll<Result<(), ActixAsyncError>>),
    /// The outcome of a poll of the timer for the send.
    Timeout(Poll<()>),
    /// The outcome of a poll of the receiver of the answer.
    Received(Poll<Result<Res, OneshotRecvError>>),
    /// The outcome of a poll of the timer for the answer.
    TimeoutResponse(Poll<()>),
}

impl<RT: RuntimeService, Fut> MessageRequest<RT, Fut> {
    /// The receiver of the answer.
    pub open spec fn receiver(self) -> OneshotReceiver {
        match self {
            MessageRequest::Request { rx, .. } => rx,
            MessageRequest::Response { rx, .. } => rx,
        }
    }

    /// The timer for the answer, which runs once the message is sent.
    pub open spec fn response_timer(self) -> Option<RT::Sleep> {
        match self {
            MessageRequest::Request { .. } => None,
            MessageRequest::Response { timeout_response, .. } => timeout_response,
        }
    }

    /// Whether the request can become the other one at the moment that its message is sent: the
    /// same receiver, and a timer for the answer that starts then, if there is a time for it.
    pub open spec fn becomes(self, other: Self) -> bool {
        &&& self is Request
        &&& other is Response
        &&& other.receiver() == self.receiver()
        &&& match self->Request_timeout_response {
            Some(dur) => {
                &&& other.response_timer() matches Some(sleep)
                &&& crate::runtime::lasts::<RT>(sleep, dur)
            },
            None => other.response_timer() is None,
        }
    }

    /// Whether the event can come of an action of the request in its state.
    pub open spec fn expects<Res>(self, event: Event<Res>) -> bool {
        match self {
            MessageRequest::Request { .. } => event is Sent || event is Timeout,
            MessageRequest::Response { .. } => event is Received || event is TimeoutResponse,
        }
    }

    /// What is polled first.
    pub open spec fn first<Res>(self) -> Action<Res> {
        match self {
            MessageRequest::Request { .. } => Action::PollSend,
            MessageRequest::Response { .. } => Action::PollReceive,
        }
    }

    /// What follows an event: the answer as soon as it is there, an error once one is certain, and
    /// the poll is pending if neither is.
    pub open spec fn next<Res>(self, event: Event<Res>) -> Action<Res> {
        match event {
            Event::Sent(Poll::Ready(Ok(_))) => Action::PollReceive,
            Event::Sent(Poll::Ready(Err(e))) => Action::Return(Poll::Ready(Err(e))),
            Event::Sent(Poll::Pending) => Action::PollTimeout,
            Event::Timeout(Poll::Ready(_)) => Action::Return(
                Poll::Ready(Err(ActixAsyncError::SendTimeout)),
            ),
            Event::Received(Poll::Ready(Ok(res))) => Action::Return(Poll::Ready(Ok(res))),
            Event::Received(Poll::Ready(Err(_))) => Action::Return(
                Poll::Ready(Err(ActixAsyncError::Receive)),
            ),
            Event::Received(Poll::Pending) if self.response_timer() is Some => {
                Action::PollTimeoutResponse
            },
            Event::TimeoutResponse(Poll::Ready(_)) => Action::Return(
                Poll::Ready(Err(ActixAsyncError::ReceiveTimeout)),
            ),
            _ => Action::Return(Poll::Pending),
        }
    }

    /// The request that is sent by `fut` and answered through `rx`. The send has the default
    /// timeout, and the answer has none.
    pub fn new(fut: Fut, rx: OneshotReceiver) -> (request: Self)
        ensures
            request matches MessageRequest::Request { fut: f, rx: r, timeout, timeout_response } && {
                &&& f == fut
                &&& r == rx
                &&& crate::runtime::lasts_secs::<RT>(timeout, DEFAULT_TIMEOUT as nat)
                &&& timeout_response is None
            },
    {
        let dur = Duration::from_secs(DEFAULT_TIMEOUT);
        let timeout = RT::sleep(dur);
        assert(crate::runtime::lasts::<RT>(timeout, dur));
        MessageRequest::Request { fut, rx, timeout, timeout_response: None }
    }

    /// set the timeout duration for request.
    ///
    /// Default to 10 seconds.
    pub fn timeout(self, dur: Duration) -> (request: Self)
        requires
            self is Request,
        ensures
            request matches MessageRequest::Request { fut, rx, timeout, timeout_response } && {
                &&& fut == self->fut
                &&& rx == self->Request_rx
                &&& crate::runtime::lasts::<RT>(timeout, dur)
                &&& timeout_response == self->Request_timeout_response
            },
    {
        match self {
            MessageRequest::Request { fut, rx, timeout_response, .. } => MessageRequest::Request {
                fut,
                rx,
                timeout: RT::sleep(dur),
                timeout_response,
            },
            MessageRequest::Response { .. } => vstd::pervasive::unreached(),
        }
    }

    /// set the timeout duration for response.(start from the message arrives at actor)
    ///
    /// Default to no timeout.
    pub fn timeout_response(self, dur: Duration) -> (request: Self)
        requires
            self is Request,
        ensures
            request matches MessageRequest::Request { fut, rx, timeout, timeout_response } && {
                &&& fut == self->fut
                &&& rx == self->Request_rx
                &&& timeout == self->timeout
                &&& timeout_response == Some(dur)
            },
    {
        match self {
            MessageRequest::Request { fut, rx, timeout, .. } => MessageRequest::Request {
                fut,
                rx,
                timeout,
                timeout_response: Some(dur),
            },
            MessageRequest::Response { .. } => vstd::pervasive::unreached(),
        }
    }

    /// Begins a poll of the request. Returns what is to be polled first.
    pub fn poll<Res>(&self) -> (action: Action<Res>)
        ensures
            action == self.first::<Res>(),
    {
        match self {
            MessageRequest::Request { .. } => Action::PollSend,
            MessageRequest::Response { .. } => Action::PollReceive,
        }
    }

    /// Goes on after an event. Returns what is to be done next, and the request, which waits for
    /// the answer once its message is sent. The time for the answer starts then.
    pub fn resume<Res>(self, event: Event<Res>) -> (next: (Self, Action<Res>))
        requires
            self.expects(event),
        ensures
            if event matches Event::Sent(Poll::Ready(Ok(_))) {
                self.becomes(next.0)
            } else {
                next.0 == self
            },
            next.1 == self.next(event),
    {
        match event {
            Event::Sent(Poll::Ready(Ok(()))) => match self {
                MessageRequest::Request { rx, timeout_response, .. } => {
                    let timeout_response = match timeout_response {
                        Some(dur) => Some(RT::sleep(dur)),
                        None => None,
                    };
                    (MessageRequest::Response { rx, timeout_response }, Action::PollReceive)
                },
                MessageRequest::Response { .. } => vstd::pervasive::unreached(),
            },
            Event::Sent(Poll::Ready(Err(e))) => (self, Action::Return(Poll::Ready(Err(e)))),
            Event::Sent(Poll::Pending) => (self, Action::PollTimeout),
            Event::Timeout(Poll::Ready(_)) => (
                self,
                Action::Return(Poll::Ready(Err(ActixAsyncError::SendTimeout))),
            ),
            Event::Timeout(Poll::Pending) => (self, Action::Return(Poll::Pending)),
            Event::Received(Poll::Ready(Ok(res))) => (self, Action::Return(Poll::Ready(Ok(res)))),
            Event::Received(Poll::Ready(Err(e))) => (
                self,
                Action::Return(Poll::Ready(Err(ActixAsyncError::from(e)))),
            ),
            Event::Received(Poll::Pending) => {
                let timed: bool = match &self {
                    MessageRequest::Request { .. } => false,
                    MessageRequest::Response { timeout_response, .. } => timeout_response.is_some(),
                };
                if timed {
                    (self, Action::PollTimeoutResponse)
                } else {
                    (self, Action::Return(Poll::Pending))
                }
            },
            Event::TimeoutResponse(Poll::Ready(_)) => (
                self,
                Action::Return(Poll::Ready(Err(ActixAsyncError::ReceiveTimeout))),
            ),
            Event::TimeoutResponse(Poll::Pending) => (self, Action::Return(Poll::Pending)),
        }
    }

    /// What a request polls, and when its poll is over: the send until it is ready, and its timer
    /// beside it; then the receiver of the answer at once, and the timer for the answer beside it if
    /// there is one. It is pending when all of them are.
    pub proof fn law_what_is_polled_next<Res>(self, event: Event<Res>, res: Res)
        requires
            self.expects(event),
        ensures
            self.first::<Res>() == (if self is Request {
                Action::<Res>::PollSend
            } else {
                Action::PollReceive
            }),
            event matches Event::Sent(Poll::Ready(Ok(_))) ==> self.next(event) == Action::<
                Res,
            >::PollReceive,
            event matches Event::Sent(Poll::Pending) ==> self.next(event) == Action::<
                Res,
            >::PollTimeout,
            event matches Event::Timeout(Poll::Pending) ==> self.next(event) == Action::<
                Res,
            >::Return(Poll::Pending),
            event == Event::<Res>::Received(Poll::Ready(Ok(res))) ==> self.next(event) == Action::<
                Res,
            >::Return(Poll::Ready(Ok(res))),
            event matches Event::Received(Poll::Ready(Err(_))) ==> self.next(event) == Action::<
                Res,
            >::Return(Poll::Ready(Err(ActixAsyncError::Receive))),
            event matches Event::Received(Poll::Pending) ==> self.next(event) == (
            if self->Response_timeout_response is Some {
                Action::<Res>::PollTimeoutResponse
            } else {
                Action::Return(Poll::Pending)
            }),
            event matches Event::TimeoutResponse(Poll::Pending) ==> self.next(event) == Action::<
                Res,
            >::Return(Poll::Pending),
    {
    }

    /// A request expects the outcome of what it polls, whatever that is: of the send and its timer
    /// before the message is sent, and of the receiver and the timer for the answer afterwards.
    pub proof fn law_outcomes_are_expected<Res>(
        self,
        sent: Poll<Result<(), ActixAsyncError>>,
        timer: Poll<()>,
        received: Poll<Result<Res, OneshotRecvError>>,
    )
        ensures
            self is Request ==> self.expects(Event::<Res>::Sent(sent)) && self.expects(
                Event::<Res>::Timeout(timer),
            ),
            self is Response ==> self.expects(Event::<Res>::Received(received)) && self.expects(
                Event::<Res>::TimeoutResponse(timer),
            ),
    {
    }

    /// A request whose message is sent keeps the receiver of its answer, and has a timer for the
    /// answer exactly if it was given a time for it.
    pub proof fn law_sent_request_awaits_its_answer(self, after: Self)
        requires
            self.becomes(after),
        ensures
            self is Request,
            after is Response,
            after->Response_rx == self->Request_rx,
            after->Response_timeout_response is Some <==> self->Request_timeout_response is Some,
            self->Request_timeout_response matches Some(dur) ==> crate::runtime::lasts::<RT>(
                after->Response_timeout_response->0,
                dur,
            ),
            self.receiver() == self->Request_rx,
            after.receiver() == after->Response_rx,
            after.response_timer() == after->Response_timeout_response,
            self.response_timer() is None,
    {
    }

    /// A request whose message was not sent in time ends with `SendTimeout`, and one whose answer
    /// did not come in time with `ReceiveTimeout`; neither error has another reason, unless the
    /// future that sends the message ends with it.
    pub proof fn law_timeouts<Res>(self, event: Event<Res>)
        requires
            self.expects(event),
            !(event matches Event::Sent(Poll::Ready(Err(_)))),
        ensures
            self.next(event) == Action::<Res>::Return(
                Poll::Ready(Err(ActixAsyncError::SendTimeout)),
            ) <==> (event matches Event::Timeout(Poll::Ready(_))),
            self.next(event) == Action::<Res>::Return(
                Poll::Ready(Err(ActixAsyncError::ReceiveTimeout)),
            ) <==> (event matches Event::TimeoutResponse(Poll::Ready(_))),
    {
    }

    /// A request whose message is refused ends with the error of the send: `Closed`, if the actor's
    /// channel is closed.
    pub proof fn law_refused_message_ends_the_request<Res>(self, err: ActixAsyncError)
        requires
            self is Request,
        ensures
            self.first::<Res>() is PollSend,
            self.next(Event::<Res>::Sent(Poll::Ready(Err(err)))) == Action::Return(
                Poll::Ready(Err::<Res, ActixAsyncError>(err)),
            ),
    {
    }

    /// An answer that is there is returned, though the time for it may be up: the timer is polled
    /// only when the answer is not there.
    pub proof fn law_answer_comes_before_timeout<Res>(self, res: Res)
        requires
            self is Response,
        ensures
            self.first::<Res>() is PollReceive,
            self.next(Event::Received(Poll::Ready(Ok::<Res, OneshotRecvError>(res))))
                == Action::Return(Poll::Ready(Ok::<Res, ActixAsyncError>(res))),
    {
    }

    /// Without a timeout for the answer a request waits for it as long as it takes.
    pub proof fn law_no_response_timeout_by_default<Res>(self, after: Self)
        requires
            self is Request,
            self->Request_timeout_response is None,
            self.becomes(after),
        ensures
            after.next(
                Event::Received(Poll::<Result<Res, OneshotRecvError>>::Pending),
            ) == Action::<Res>::Return(Poll::Pending),
    {
    }

    /// The time for the answer does not run before the message is sent: until then no event makes
    /// a timer for the answer or ends the request with `ReceiveTimeout`, and the timer that there
    /// is afterwards was made for the whole time.
    pub proof fn law_response_timeout_starts_with_the_message<Res>(
        self,
        event: Event<Res>,
        after: Self,
    )
        requires
            self is Request,
            self.expects(event),
            !(event matches Event::Sent(Poll::Ready(Err(_)))),
            self.becomes(after),
        ensures
            self.response_timer() is None,
            self.next(event) != Action::<Res>::PollTimeoutResponse,
            self.next(event) != Action::<Res>::Return(
                Poll::Ready(Err(ActixAsyncError::ReceiveTimeout)),
            ),
            self->Request_timeout_response matches Some(dur) ==> (after.response_timer() matches Some(
                sleep,
            ) && crate::runtime::lasts::<RT>(sleep, dur)),
    {
    }
}

} // verus!
