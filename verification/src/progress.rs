//! The life of one upload after its request was sent.
//!
//! The caller performs the I/O and reports each thing that happens as an
//! [`Event`]; [`UploadState::step`] decides what the upload has become. An
//! upload starts in flight and ends in exactly one of four ways: succeeded
//! with an identifier, or failed by status, by transport, or by decoding.
use vstd::prelude::*;
use vstd::utf8::*;
use crate::error::UploadError;
use crate::identifier::decode_identifier;

verus! {

/// The one status that means the store took the payload.
pub const STATUS_OK: u16 = 200;

/// Something the transport reports about an upload in flight.
#[derive(Debug)]
pub enum Event {
    /// The response head arrived, with this status code.
    Head(u16),
    /// A piece of the response body arrived.
    Chunk(Vec<u8>),
    /// The response body is complete.
    End,
    /// The transport gave up, for this reason.
    Failure(hyper::Error),
}

/// An event as a mathematical value.
pub enum EventView {
    Head(u16),
    Chunk(Seq<u8>),
    End,
    Failure(hyper::Error),
}

impl View for Event {
    type V = EventView;

    open spec fn view(&self) -> EventView {
        match *self {
            Event::Head(code) => EventView::Head(code),
            Event::Chunk(bytes) => EventView::Chunk(bytes@),
            Event::End => EventView::End,
            Event::Failure(cause) => EventView::Failure(cause),
        }
    }
}

/// Where an upload stands.
#[derive(Debug)]
pub enum UploadState {
    /// The request was sent; no response head has arrived.
    InFlight,
    /// The store answered 200; these body bytes have arrived so far.
    Receiving(Vec<u8>),
    /// Done: the store assigned this identifier.
    Succeeded(String),
    /// Done: the upload failed.
    Failed(UploadError),
}

/// An upload's state as a mathematical value.
pub enum Progress {
    InFlight,
    Receiving(Seq<u8>),
    Succeeded(Seq<char>),
    Failed(UploadError),
}

impl View for UploadState {
    type V = Progress;

    open spec fn view(&self) -> Progress {
        match *self {
            UploadState::InFlight => Progress::InFlight,
            UploadState::Receiving(body) => Progress::Receiving(body@),
            UploadState::Succeeded(id) => Progress::Succeeded(id@),
            UploadState::Failed(e) => Progress::Failed(e),
        }
    }
}

/// What the caller has to do next for an upload.
#[derive(Debug, Clone, Copy, PartialEq, Eq, Structural)]
pub enum Action {
    /// Wait for the response head, then report it.
    AwaitResponse,
    /// Wait for the next piece of the body, or its end, then report it.
    AwaitBody,
    /// Stop: the upload has its outcome. Whatever is left of the response is
    /// not read.
    Finish,
}

impl Progress {
    /// An upload that has its outcome.
    pub open spec fn is_terminal(self) -> bool {
        self is Succeeded || self is Failed
    }

    /// What the caller has to do next.
    pub open spec fn action(self) -> Action {
        match self {
            Progress::InFlight => Action::AwaitResponse,
            Progress::Receiving(_) => Action::AwaitBody,
            _ => Action::Finish,
        }
    }
}

/// The outcome of a body that arrived whole: the identifier it encodes, or a
/// decode failure.
pub open spec fn decoded(body: Seq<u8>) -> Progress {
    if valid_utf8(body) {
        Progress::Succeeded(decode_utf8(body))
    } else {
        Progress::Failed(UploadError::Decode)
    }
}

/// The state that follows `p` once `e` has happened.
///
/// A head with status 200 opens the body; any other status fails the upload
/// at once. Chunks are appended in the order they arrive, and the end of the
/// body decodes what was collected. A transport failure fails any upload
/// that is not yet done. An event that cannot happen in a state, and every
/// event after the outcome, changes nothing.
pub open spec fn advance(p: Progress, e: EventView) -> Progress {
    match p {
        Progress::InFlight => match e {
            EventView::Head(code) => if code == STATUS_OK {
                Progress::Receiving(Seq::empty())
            } else {
                Progress::Failed(UploadError::Status(code))
            },
            EventView::Failure(cause) => Progress::Failed(UploadError::Transport(cause)),
            _ => p,
        },
        Progress::Receiving(body) => match e {
            EventView::Chunk(bytes) => Progress::Receiving(body + bytes),
            EventView::End => decoded(body),
            EventView::Failure(cause) => Progress::Failed(UploadError::Transport(cause)),
            EventView::Head(_) => p,
        },
        _ => p,
    }
}

/// The state reached from `p` after all of `events`, in order.
pub open spec fn run(p: Progress, events: Seq<EventView>) -> Progress
    decreases events.len(),
{
    if events.len() == 0 {
        p
    } else {
        advance(run(p, events.drop_last()), events.last())
    }
}

impl UploadState {
    /// The state of an upload whose request was just sent.
    pub fn start() -> (state: UploadState)
        ensures
            state@ == Progress::InFlight,
    {
        UploadState::InFlight
    }

    /// Takes the upload from its state to the next, given what happened.
    pub fn step(self, event: Event) -> (next: UploadState)
        ensures
            next@ == advance(self@, event@),
    {
        match self {
            UploadState::InFlight => match event {
                Event::Head(code) => if code == STATUS_OK {
                    UploadState::Receiving(Vec::new())
                } else {
                    UploadState::Failed(UploadError::Status(code))
                },
                Event::Failure(cause) => UploadState::Failed(UploadError::Transport(cause)),
                Event::Chunk(_) => UploadState::InFlight,
                Event::End => UploadState::InFlight,
            },
            UploadState::Receiving(body) => match event {
                Event::Chunk(bytes) => {
                    let mut body = body;
                    let mut bytes = bytes;
                    body.append(&mut bytes);
                    UploadState::Receiving(body)
                },
                Event::End => match decode_identifier(body) {
                    Ok(id) => UploadState::Succeeded(id),
                    Err(e) => UploadState::Failed(e),
                },
                Event::Failure(cause) => UploadState::Failed(UploadError::Transport(cause)),
                Event::Head(_) => UploadState::Receiving(body),
            },
            UploadState::Succeeded(id) => UploadState::Succeeded(id),
            UploadState::Failed(e) => UploadState::Failed(e),
        }
    }

    /// What the caller has to do next.
    pub fn action(&self) -> (a: Action)
        ensures
            a == self@.action(),
    {
        match self {
            UploadState::InFlight => Action::AwaitResponse,
            UploadState::Receiving(_) => Action::AwaitBody,
            _ => Action::Finish,
        }
    }

    /// Whether the upload has its outcome.
    pub fn is_terminal(&self) -> (done: bool)
        ensures
            done == self@.is_terminal(),
    {
        match self {
            UploadState::Succeeded(_) => true,
            UploadState::Failed(_) => true,
            _ => false,
        }
    }

    /// The outcome of the upload as a typed result, once it has one.
    pub fn outcome(self) -> (r: Option<Result<String, UploadError>>)
        ensures
            match self@ {
                Progress::Succeeded(id) => r matches Some(Ok(s)) && s@ == id,
                Progress::Failed(e) => r == Some(Err::<String, UploadError>(e)),
                _ => r is None,
            },
    {
        match self {
            UploadState::Succeeded(id) => Some(Ok(id)),
            UploadState::Failed(e) => Some(Err(e)),
            _ => None,
        }
    }
}

} // verus!
