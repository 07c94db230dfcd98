//! The exchange stream: one action's single HTTP exchange, driven as a state
//! machine. It holds at most one outgoing payload, hands out the request at
//! most once, checks the response, and then serves the response body.

use vstd::prelude::*;

use crate::action::{path_of, Action};
use crate::error::ExchangeError;
use crate::exchange::{
    check_response, checked_as, prepare_request, prepared_as, text_of, Request,
};

verus! {

/// Where an exchange stands.
#[derive(Clone, Copy, Debug, PartialEq, Eq, Structural)]
pub enum Phase {
    /// No request has been handed out yet.
    Idle,
    /// The request has been handed out; its response is awaited.
    Sent,
    /// The response was accepted; its body is being served.
    Ready,
    /// The exchange failed and serves nothing more.
    Failed,
}

/// The abstract state of an exchange stream.
pub struct StreamView {
    pub action: Action,
    /// The remote's base URL, fixed by the session that made the stream.
    pub base_url: Seq<char>,
    /// The outgoing payload, once one was written.
    pub payload: Option<Seq<u8>>,
    pub phase: Phase,
    /// The accepted response body.
    pub body: Seq<u8>,
    /// How much of the body has been read.
    pub pos: nat,
}

/// A stream freshly made for `action` against `base_url`.
pub open spec fn fresh_stream(action: Action, base_url: Seq<char>) -> StreamView {
    StreamView { action, base_url, payload: None, phase: Phase::Idle, body: Seq::empty(), pos: 0 }
}

/// A payload can be written once, and only before the request is handed out.
pub open spec fn accepts_write(v: StreamView) -> bool {
    v.phase == Phase::Idle && v.payload is None
}

pub open spec fn after_write(v: StreamView, data: Seq<u8>) -> StreamView {
    StreamView { payload: Some(data), ..v }
}

/// The request can be handed out only once, from the idle phase.
pub open spec fn accepts_execute(v: StreamView) -> bool {
    v.phase == Phase::Idle
}

/// The URL the stream's request goes to.
pub open spec fn request_url(v: StreamView) -> Seq<char> {
    v.base_url + path_of(v.action)
}

/// The payload the request carries: the one written, or none.
pub open spec fn outgoing(v: StreamView) -> Seq<u8> {
    match v.payload {
        Some(p) => p,
        None => Seq::empty(),
    }
}

pub open spec fn after_execute(v: StreamView, sent: bool) -> StreamView {
    StreamView { phase: if sent { Phase::Sent } else { Phase::Failed }, payload: None, ..v }
}

pub open spec fn after_response(v: StreamView, accepted: bool, body: Seq<u8>) -> StreamView {
    if accepted {
        StreamView { phase: Phase::Ready, body, pos: 0, ..v }
    } else {
        StreamView { phase: Phase::Failed, ..v }
    }
}

pub open spec fn after_failure(v: StreamView) -> StreamView {
    StreamView { phase: Phase::Failed, ..v }
}

/// Where a read of at most `max` bytes stops.
pub open spec fn read_end(v: StreamView, max: nat) -> nat {
    if v.pos >= v.body.len() {
        v.pos
    } else if v.pos + max <= v.body.len() {
        v.pos + max
    } else {
        v.body.len()
    }
}

/// The bytes a read of at most `max` bytes gives: the next unread ones.
pub open spec fn read_chunk(v: StreamView, max: nat) -> Seq<u8> {
    if v.pos >= v.body.len() {
        Seq::empty()
    } else {
        v.body.subrange(v.pos as int, read_end(v, max) as int)
    }
}

pub open spec fn after_read(v: StreamView, max: nat) -> StreamView {
    StreamView { pos: read_end(v, max), ..v }
}

/// An exchange issues at most one request. Its first `execute` leaves the
/// idle phase whatever it gave, no later step returns to it, so every further
/// `execute` is refused and hands out nothing; and once a payload was written,
/// a second one is refused.
pub proof fn lemma_single_request(
    v: StreamView,
    sent: bool,
    accepted: bool,
    body: Seq<u8>,
    max: nat,
    data: Seq<u8>,
)
    ensures
        !accepts_execute(after_execute(v, sent)),
        !accepts_execute(v) ==> !accepts_execute(after_response(v, accepted, body))
            && !accepts_execute(after_failure(v)) && !accepts_execute(after_read(v, max)),
        accepts_write(v) ==> !accepts_write(after_write(v, data)),
        !accepts_execute(v) ==> !accepts_write(v),
{
}

/// One action's exchange with the remote.
pub struct UreqSubtransport {
    action: Action,
    base_url: String,
    payload: Option<Vec<u8>>,
    phase: Phase,
    body: Vec<u8>,
    pos: usize,
}

impl View for UreqSubtransport {
    type V = StreamView;

    closed spec fn view(&self) -> StreamView {
        StreamView {
            action: self.action,
            base_url: self.base_url@,
            payload: match self.payload {
                Some(p) => Some(p@),
                None => None,
            },
            phase: self.phase,
            body: self.body@,
            pos: self.pos as nat,
        }
    }
}

impl UreqSubtransport {
    /// A stream for `action` whose requests go below `base_url`.
    pub fn new(action: Action, base_url: String) -> (r: UreqSubtransport)
        ensures
            r@ == fresh_stream(action, base_url@),
    {
        UreqSubtransport {
            action,
            base_url,
            payload: None,
            phase: Phase::Idle,
            body: Vec::new(),
            pos: 0,
        }
    }

    /// The failure of the HTTP client below this stream, with the client's message.
    pub fn err(&self, message: &str) -> (r: ExchangeError)
        ensures
            r matches ExchangeError::Transport(m) && m@ == message@,
    {
        ExchangeError::Transport(String::from_str(message))
    }

    pub fn phase(&self) -> (r: Phase)
        ensures
            r == self@.phase,
    {
        self.phase
    }

    pub fn action(&self) -> (r: Action)
        ensures
            r == self@.action,
    {
        self.action
    }

    /// Takes the outgoing payload, which the request sends when it is handed out.
    /// A stream takes one payload, and none once its request has gone.
    pub fn write(&mut self, data: &[u8]) -> (r: Result<usize, ExchangeError>)
        ensures
            accepts_write(old(self)@) ==> r == Ok::<usize, ExchangeError>(data.len())
                && final(self)@ == after_write(old(self)@, data@),
            !accepts_write(old(self)@) ==> r == Err::<usize, ExchangeError>(
                ExchangeError::AlreadyExecuted,
            ) && final(self)@ == old(self)@,
    {
        if self.phase != Phase::Idle || self.payload.is_some() {
            return Err(ExchangeError::AlreadyExecuted);
        }
        self.payload = Some(vstd::slice::slice_to_vec(data));
        Ok(data.len())
    }

    /// Hands out the stream's one request: to the base URL followed by the
    /// action's path, carrying the payload written, if any. On a stream that
    /// already handed out its request, or failed, this is refused.
    pub fn execute(&mut self) -> (r: Result<Request, ExchangeError>)
        ensures
            !accepts_execute(old(self)@) ==> r == Err::<Request, ExchangeError>(
                ExchangeError::AlreadyExecuted,
            ) && final(self)@ == old(self)@,
            accepts_execute(old(self)@) ==> prepared_as(
                old(self)@.action,
                request_url(old(self)@),
                outgoing(old(self)@),
                r,
            ) && final(self)@ == after_execute(old(self)@, r is Ok),
    {
        if self.phase != Phase::Idle {
            return Err(ExchangeError::AlreadyExecuted);
        }
        let url = self.base_url.clone().concat(self.action.path());
        let payload = match self.payload.take() {
            Some(p) => p,
            None => Vec::new(),
        };
        let r = prepare_request(self.action, url, payload);
        self.phase = if r.is_ok() { Phase::Sent } else { Phase::Failed };
        r
    }

    /// Takes the response to the request handed out: its status, its
    /// `Content-Type` if any, and its body. An accepted response's body is
    /// then served by `read`; any other fails the stream.
    pub fn complete(&mut self, status: u16, content_type: Option<&str>, body: Vec<u8>) -> (r: Result<
        (),
        ExchangeError,
    >)
        requires
            old(self)@.phase == Phase::Sent,
        ensures
            checked_as(old(self)@.action, status, text_of(content_type), r),
            final(self)@ == after_response(old(self)@, r is Ok, body@),
    {
        let r = check_response(self.action, status, content_type);
        if r.is_ok() {
            self.body = body;
            self.pos = 0;
            self.phase = Phase::Ready;
        } else {
            self.phase = Phase::Failed;
        }
        r
    }

    /// Records that the HTTP client failed to carry out the request handed
    /// out, and gives that failure.
    pub fn fail(&mut self, message: &str) -> (r: ExchangeError)
        requires
            old(self)@.phase == Phase::Sent,
        ensures
            r matches ExchangeError::Transport(m) && m@ == message@,
            final(self)@ == after_failure(old(self)@),
    {
        self.phase = Phase::Failed;
        self.err(message)
    }

    /// Gives the next at most `max` unread bytes of the accepted response
    /// body; none once it is drained.
    pub fn read(&mut self, max: usize) -> (r: Vec<u8>)
        requires
            old(self)@.phase == Phase::Ready,
        ensures
            r@ == read_chunk(old(self)@, max as nat),
            final(self)@ == after_read(old(self)@, max as nat),
    {
        let len = self.body.len();
        let start = self.pos;
        if start >= len {
            return Vec::new();
        }
        let end = if max <= len - start {
            start + max
        } else {
            len
        };
        let mut out: Vec<u8> = Vec::new();
        let mut i: usize = start;
        while i < end
            invariant
                start <= i <= end <= len,
                len == self.body@.len(),
                out@ == self.body@.subrange(start as int, i as int),
            decreases end - i,
        {
            out.push(self.body[i]);
            i = i + 1;
            assert(out@ =~= self.body@.subrange(start as int, i as int));
        }
        self.pos = end;
        out
    }

    /// Nothing is held back on the way out, so flushing always succeeds.
    pub fn flush(&self) -> (r: Result<(), ExchangeError>)
        ensures
            r is Ok,
    {
        Ok(())
    }
}

} // verus!
