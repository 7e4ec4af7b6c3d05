//! The decisions of one connection: from the phase it is in and what just
//! happened, to the next phase and what to do. The caller performs the TLS
//! handshake, the reads and writes under their timeouts, and runs the handler;
//! this module decides what follows each outcome.
use vstd::prelude::*;

use crate::request::{parse_outcome, parse_request, Request, RequestError, RequestView};
use crate::response::{ResponseHeader, SERVER_ERROR_META};

verus! {

/// Where a connection stands.
#[derive(Clone, Copy, Debug, PartialEq, Eq, Structural)]
pub enum Phase {
    /// Handshake and request line, under the request timeout.
    ReceivingRequest,
    /// The application handler runs, with no time limit.
    Dispatching,
    /// Header and body go out, under the response timeout.
    SendingResponse,
    /// The connection is over.
    Closed,
}

/// Why a connection was closed.
#[derive(Clone, Copy, Debug, PartialEq, Eq, Structural)]
pub enum CloseReason {
    /// The response was sent and flushed.
    Completed,
    /// The TLS handshake failed.
    HandshakeFailed,
    /// Reading the request line failed.
    ReadFailed,
    /// Handshake and request line did not finish within the timeout.
    RequestTimedOut,
    /// The request line was refused.
    BadRequest(RequestError),
    /// Writing or flushing the response failed.
    WriteFailed,
    /// The response was not sent and flushed within the timeout.
    ResponseTimedOut,
    /// An event came that the phase does not expect.
    OutOfOrder,
}

/// What happened, as the caller reports it.
pub enum Event {
    /// The handshake is done and the request bytes were read, within the
    /// timeout. `peer_certificates` is the chain the client offered, in DER,
    /// leaf first.
    RequestReceived { line: Vec<u8>, peer_certificates: Option<Vec<Vec<u8>>> },
    HandshakeFailed,
    ReadFailed,
    RequestTimedOut,
    /// The handler returned a response.
    HandlerReturned,
    /// The handler returned an error.
    HandlerFailed,
    /// The handler panicked.
    HandlerPanicked,
    /// The response was written and flushed.
    ResponseSent,
    WriteFailed,
    ResponseTimedOut,
}

/// What the caller does next.
pub enum Action {
    /// Run the application handler on the request.
    Dispatch(Request),
    /// Send the response that the handler returned.
    SendHandlerResponse,
    /// Send a header with no body in place of the handler's response.
    SendHeader(ResponseHeader),
    /// Close the connection.
    Close(CloseReason),
}

pub enum ActionView {
    Dispatch(RequestView),
    SendHandlerResponse,
    SendHeader(u8, Seq<char>),
    Close(CloseReason),
}

impl View for Action {
    type V = ActionView;

    open spec fn view(&self) -> ActionView {
        match self {
            Action::Dispatch(req) => ActionView::Dispatch(req@),
            Action::SendHandlerResponse => ActionView::SendHandlerResponse,
            Action::SendHeader(h) => ActionView::SendHeader(h.status.code, h.meta@),
            Action::Close(c) => ActionView::Close(*c),
        }
    }
}

/// The first certificate of the chain, if the client offered any.
pub open spec fn first_certificate(chain: Option<Vec<Vec<u8>>>) -> Option<Seq<u8>> {
    match chain {
        Some(v) => if v.len() > 0 {
            Some(v[0]@)
        } else {
            None
        },
        None => None,
    }
}

/// The next phase and action, for each phase and event.
pub open spec fn next(phase: Phase, event: Event) -> (Phase, ActionView) {
    match (phase, event) {
        (Phase::ReceivingRequest, Event::RequestReceived { line, peer_certificates }) => {
            match parse_outcome(line@) {
                Ok(v) => (
                    Phase::Dispatching,
                    ActionView::Dispatch(
                        RequestView { certificate: first_certificate(peer_certificates), ..v },
                    ),
                ),
                Err(e) => (Phase::Closed, ActionView::Close(CloseReason::BadRequest(e))),
            }
        },
        (Phase::ReceivingRequest, Event::HandshakeFailed) => (
            Phase::Closed,
            ActionView::Close(CloseReason::HandshakeFailed),
        ),
        (Phase::ReceivingRequest, Event::ReadFailed) => (
            Phase::Closed,
            ActionView::Close(CloseReason::ReadFailed),
        ),
        (Phase::ReceivingRequest, Event::RequestTimedOut) => (
            Phase::Closed,
            ActionView::Close(CloseReason::RequestTimedOut),
        ),
        (Phase::Dispatching, Event::HandlerReturned) => (
            Phase::SendingResponse,
            ActionView::SendHandlerResponse,
        ),
        (Phase::Dispatching, Event::HandlerFailed) => (
            Phase::SendingResponse,
            ActionView::SendHeader(50, SERVER_ERROR_META@),
        ),
        (Phase::Dispatching, Event::HandlerPanicked) => (
            Phase::SendingResponse,
            ActionView::SendHeader(50, SERVER_ERROR_META@),
        ),
        (Phase::SendingResponse, Event::ResponseSent) => (
            Phase::Closed,
            ActionView::Close(CloseReason::Completed),
        ),
        (Phase::SendingResponse, Event::WriteFailed) => (
            Phase::Closed,
            ActionView::Close(CloseReason::WriteFailed),
        ),
        (Phase::SendingResponse, Event::ResponseTimedOut) => (
            Phase::Closed,
            ActionView::Close(CloseReason::ResponseTimedOut),
        ),
        _ => (Phase::Closed, ActionView::Close(CloseReason::OutOfOrder)),
    }
}

/// A handler that fails or panics never reaches the client as such: the
/// connection goes on to send a generic server-error header, with a numeric
/// status and a non-empty meta text that says nothing of the cause.
pub proof fn lemma_handler_failure_sends_server_error(event: Event)
    requires
        event is HandlerFailed || event is HandlerPanicked,
    ensures
        next(Phase::Dispatching, event) == (
            Phase::SendingResponse,
            ActionView::SendHeader(50, SERVER_ERROR_META@),
        ),
        SERVER_ERROR_META@.len() > 0,
{
    reveal_strlit("Internal server error");
}

/// While the request is awaited, every event but a received request line
/// closes the connection, and the handler is never run.
pub proof fn lemma_no_dispatch_without_request(event: Event)
    requires
        !(event is RequestReceived),
    ensures
        next(Phase::ReceivingRequest, event).0 == Phase::Closed,
        next(Phase::ReceivingRequest, event).1 is Close,
        event is RequestTimedOut ==> next(Phase::ReceivingRequest, event).1
            == ActionView::Close(CloseReason::RequestTimedOut),
{
}

/// A request that is dispatched carries the first certificate the client
/// offered, as its bytes; without one it carries none.
pub proof fn lemma_dispatch_carries_certificate(line: Vec<u8>, chain: Option<Vec<Vec<u8>>>)
    requires
        parse_outcome(line@) is Ok,
    ensures
        next(
            Phase::ReceivingRequest,
            Event::RequestReceived { line, peer_certificates: chain },
        ) == (
            Phase::Dispatching,
            ActionView::Dispatch(
                RequestView { certificate: first_certificate(chain), ..parse_outcome(line@)->Ok_0 },
            ),
        ),
        chain is Some && chain->Some_0.len() > 0 ==> first_certificate(chain) == Some(chain->Some_0[0]@),
        chain is None ==> first_certificate(chain) is None,
{
}

/// A closed connection stays closed, whatever is reported.
pub proof fn lemma_closed_stays_closed(event: Event)
    ensures
        next(Phase::Closed, event).0 == Phase::Closed,
{
}

/// The first certificate of the chain the client offered, if any.
pub fn first_peer_certificate(chain: Option<Vec<Vec<u8>>>) -> (r: Option<Vec<u8>>)
    ensures
        crate::request::bytes_view(r) == first_certificate(chain),
{
    match chain {
        Some(mut v) => if v.len() > 0 {
            Some(v.remove(0))
        } else {
            None
        },
        None => None,
    }
}

/// Decides what follows `event` in `phase`.
pub fn step(phase: Phase, event: Event) -> (r: (Phase, Action))
    ensures
        (r.0, r.1@) == next(phase, event),
{
    match (phase, event) {
        (Phase::ReceivingRequest, Event::RequestReceived { line, peer_certificates }) => {
            match parse_request(line.as_slice()) {
                Ok(mut req) => {
                    req.set_cert(first_peer_certificate(peer_certificates));
                    (Phase::Dispatching, Action::Dispatch(req))
                },
                Err(e) => (Phase::Closed, Action::Close(CloseReason::BadRequest(e))),
            }
        },
        (Phase::ReceivingRequest, Event::HandshakeFailed) => (
            Phase::Closed,
            Action::Close(CloseReason::HandshakeFailed),
        ),
        (Phase::ReceivingRequest, Event::ReadFailed) => (
            Phase::Closed,
            Action::Close(CloseReason::ReadFailed),
        ),
        (Phase::ReceivingRequest, Event::RequestTimedOut) => (
            Phase::Closed,
            Action::Close(CloseReason::RequestTimedOut),
        ),
        (Phase::Dispatching, Event::HandlerReturned) => (
            Phase::SendingResponse,
            Action::SendHandlerResponse,
        ),
        (Phase::Dispatching, Event::HandlerFailed) => (
            Phase::SendingResponse,
            Action::SendHeader(ResponseHeader::server_error()),
        ),
        (Phase::Dispatching, Event::HandlerPanicked) => (
            Phase::SendingResponse,
            Action::SendHeader(ResponseHeader::server_error()),
        ),
        (Phase::SendingResponse, Event::ResponseSent) => (
            Phase::Closed,
            Action::Close(CloseReason::Completed),
        ),
        (Phase::SendingResponse, Event::WriteFailed) => (
            Phase::Closed,
            Action::Close(CloseReason::WriteFailed),
        ),
        (Phase::SendingResponse, Event::ResponseTimedOut) => (
            Phase::Closed,
            Action::Close(CloseReason::ResponseTimedOut),
        ),
        _ => (Phase::Closed, Action::Close(CloseReason::OutOfOrder)),
    }
}

} // verus!
