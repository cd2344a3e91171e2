//! The transfers a driver session asks for, and what the caller reports back.
//!
//! A session never touches the device itself. Each step returns either the next
//! transfer ([`HidAction`]) or the final outcome; the caller performs the
//! transfer and answers with a [`HidEvent`].
use vstd::prelude::*;

verus! {

/// One transfer on the device.
pub enum HidAction {
    /// Send `request` as a feature report; if that succeeds, wait `wait_ms`
    /// milliseconds, then fetch a feature report into a zeroed buffer of
    /// `reply_len` bytes whose first byte is `reply_id`. Answered by
    /// `SendFailed`, `ReceiveFailed` or `Received`.
    Exchange { request: Vec<u8>, wait_ms: u64, reply_len: usize, reply_id: u8 },
    /// Send `packet` as a feature report; if that succeeds, wait `wait_ms`
    /// milliseconds. Answered by `SendFailed` or `Sent`.
    Write { packet: Vec<u8>, wait_ms: u64 },
    /// Wait `ms` milliseconds. Answered by `Waited`.
    Wait { ms: u64 },
}

/// The mathematical value of a [`HidAction`].
pub enum HidActionView {
    Exchange { request: Seq<u8>, wait_ms: u64, reply_len: usize, reply_id: u8 },
    Write { packet: Seq<u8>, wait_ms: u64 },
    Wait { ms: u64 },
}

impl View for HidAction {
    type V = HidActionView;

    open spec fn view(&self) -> HidActionView {
        match self {
            HidAction::Exchange { request, wait_ms, reply_len, reply_id } => HidActionView::Exchange {
                request: request@,
                wait_ms: *wait_ms,
                reply_len: *reply_len,
                reply_id: *reply_id,
            },
            HidAction::Write { packet, wait_ms } => HidActionView::Write {
                packet: packet@,
                wait_ms: *wait_ms,
            },
            HidAction::Wait { ms } => HidActionView::Wait { ms: *ms },
        }
    }
}

/// What happened to the transfer a session asked for.
pub enum HidEvent {
    /// Sending the feature report failed; the text describes the device error.
    SendFailed(String),
    /// Fetching the feature report failed; the text describes the device error.
    ReceiveFailed(String),
    /// The fetched report buffer.
    Received(Vec<u8>),
    /// The report was sent and the wait has passed.
    Sent,
    /// The wait has passed.
    Waited,
}

/// The mathematical value of a [`HidEvent`].
pub enum HidEventView {
    SendFailed(Seq<char>),
    ReceiveFailed(Seq<char>),
    Received(Seq<u8>),
    Sent,
    Waited,
}

impl View for HidEvent {
    type V = HidEventView;

    open spec fn view(&self) -> HidEventView {
        match self {
            HidEvent::SendFailed(e) => HidEventView::SendFailed(e@),
            HidEvent::ReceiveFailed(e) => HidEventView::ReceiveFailed(e@),
            HidEvent::Received(b) => HidEventView::Received(b@),
            HidEvent::Sent => HidEventView::Sent,
            HidEvent::Waited => HidEventView::Waited,
        }
    }
}

/// What a session step yields: the next transfer, or the outcome of the whole
/// operation.
pub enum Step<T> {
    Next(HidAction),
    Done(Result<T, String>),
}

/// The mathematical value of a [`Step`].
pub enum StepView<V> {
    Next(HidActionView),
    Done(Result<V, Seq<char>>),
}

impl<T: View> View for Step<T> {
    type V = StepView<T::V>;

    open spec fn view(&self) -> StepView<T::V> {
        match self {
            Step::Next(a) => StepView::Next(a@),
            Step::Done(Ok(t)) => StepView::Done(Ok(t@)),
            Step::Done(Err(e)) => StepView::Done(Err(e@)),
        }
    }
}

/// `prefix` followed by `detail`, as a new string.
pub fn prefixed(prefix: &str, detail: &String) -> (r: String)
    ensures
        r@ == prefix@ + detail@,
{
    let mut r = String::from_str(prefix);
    r.append(detail.as_str());
    r
}

} // verus!
