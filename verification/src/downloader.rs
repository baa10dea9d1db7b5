//! The bookkeeping of a streamed download.
//!
//! The caller performs the request, reads the body chunk by chunk and writes
//! the file; it reports each thing that happens as an event. For every event
//! `step` says how the transfer stands and what, if anything, is to be
//! announced: the length once, when the response is accepted and before the
//! file is created; the running total after each chunk is written; the end.
//! Chunks are taken as they come: nothing is gathered or cut here.

use crate::decimal::{decimal, u32_to_string};
use vstd::prelude::*;

verus! {

/// How a transfer stands.
#[derive(Debug, Clone, Copy, PartialEq, Eq, Structural)]
pub enum TransferState {
    /// The request is made; no response has come yet.
    AwaitingResponse,
    /// The response was accepted; `downloaded` bytes of its body were written.
    Streaming { downloaded: u64 },
    /// The whole body was written.
    Finished,
    /// The transfer was given up.
    Failed,
}

/// Something that happened to a transfer.
#[derive(Debug, Clone, PartialEq, Eq)]
pub enum TransferEvent {
    /// The response came, with this status and, if the origin gave one, this
    /// content length.
    Response { status: u16, content_length: Option<u64> },
    /// A chunk of `len` bytes of the body came and was written to the file.
    Chunk { len: usize },
    /// The body ended.
    End,
    /// The connection or the file failed.
    Broken { reason: String },
}

/// The content of a [`TransferEvent`].
pub enum TransferEventView {
    Response { status: u16, content_length: Option<u64> },
    Chunk { len: usize },
    End,
    Broken { reason: Seq<char> },
}

impl View for TransferEvent {
    type V = TransferEventView;

    open spec fn view(&self) -> TransferEventView {
        match self {
            TransferEvent::Response { status, content_length } => TransferEventView::Response {
                status: *status,
                content_length: *content_length,
            },
            TransferEvent::Chunk { len } => TransferEventView::Chunk { len: *len },
            TransferEvent::End => TransferEventView::End,
            TransferEvent::Broken { reason } => TransferEventView::Broken { reason: reason@ },
        }
    }
}

/// Why a transfer was given up.
#[derive(Debug, Clone, PartialEq, Eq)]
pub enum DownloadError {
    /// The origin answered with a status that is not a success.
    DownloadFailed { status: u16 },
    /// The connection or the file failed, or the events came out of order.
    TransferError { reason: String },
}

/// The content of a [`DownloadError`].
pub enum DownloadErrorView {
    DownloadFailed { status: u16 },
    TransferError { reason: Seq<char> },
}

impl View for DownloadError {
    type V = DownloadErrorView;

    open spec fn view(&self) -> DownloadErrorView {
        match self {
            DownloadError::DownloadFailed { status } => DownloadErrorView::DownloadFailed {
                status: *status,
            },
            DownloadError::TransferError { reason } => DownloadErrorView::TransferError {
                reason: reason@,
            },
        }
    }
}

/// What is announced to whoever shows the progress.
#[derive(Debug, Clone, PartialEq, Eq)]
pub enum Notification {
    /// The length of the body, if the origin gave one.
    Length(Option<u64>),
    /// The number of bytes written so far.
    Progress(u64),
    /// The transfer is complete.
    Done,
    /// The transfer was given up.
    Failed(DownloadError),
}

/// The content of a [`Notification`].
pub enum NotificationView {
    Length(Option<u64>),
    Progress(u64),
    Done,
    Failed(DownloadErrorView),
}

impl View for Notification {
    type V = NotificationView;

    open spec fn view(&self) -> NotificationView {
        match self {
            Notification::Length(length) => NotificationView::Length(*length),
            Notification::Progress(total) => NotificationView::Progress(*total),
            Notification::Done => NotificationView::Done,
            Notification::Failed(error) => NotificationView::Failed(error@),
        }
    }
}

/// How the progress is to be shown.
#[derive(Debug, Clone, Copy, PartialEq, Eq, Structural)]
pub enum ProgressDisplay {
    /// A bar that fills up to `total` bytes.
    Bar { total: u64 },
    /// An indicator without an end.
    Spinner,
}

/// A status from 200 to 299.
pub open spec fn is_success(status: u16) -> bool {
    200 <= status < 300
}

/// The content of an optional notification.
pub open spec fn note_view(note: Option<Notification>) -> Option<NotificationView> {
    match note {
        Some(n) => Some(n@),
        None => None,
    }
}

/// The failure of a transfer whose events come in an order that no transfer
/// has.
pub open spec fn out_of_order() -> DownloadErrorView {
    DownloadErrorView::TransferError { reason: "Event out of order"@ }
}

/// The failure of a transfer whose size cannot be counted in 64 bits.
pub open spec fn too_large() -> DownloadErrorView {
    DownloadErrorView::TransferError { reason: "Size out of range"@ }
}

/// A transfer that fails with `error`.
pub open spec fn fails(error: DownloadErrorView) -> (TransferState, Option<NotificationView>) {
    (TransferState::Failed, Some(NotificationView::Failed(error)))
}

/// One step of a transfer: how it stands after `event`, and what is
/// announced.
///
/// A response with a success status starts the body at zero bytes and
/// announces the length; any other status fails the transfer. A chunk adds
/// its length to the total and announces the new total. The end of the body
/// completes the transfer. A broken connection or file fails it. A transfer
/// that is complete or has failed stays as it is and announces nothing more.
pub open spec fn step_spec(state: TransferState, event: TransferEventView) -> (
    TransferState,
    Option<NotificationView>,
) {
    match state {
        TransferState::AwaitingResponse => match event {
            TransferEventView::Response { status, content_length } => if is_success(status) {
                (
                    TransferState::Streaming { downloaded: 0 },
                    Some(NotificationView::Length(content_length)),
                )
            } else {
                fails(DownloadErrorView::DownloadFailed { status })
            },
            TransferEventView::Broken { reason } => fails(
                DownloadErrorView::TransferError { reason },
            ),
            _ => fails(out_of_order()),
        },
        TransferState::Streaming { downloaded } => match event {
            TransferEventView::Chunk { len } => if downloaded + len <= u64::MAX {
                (
                    TransferState::Streaming { downloaded: (downloaded + len) as u64 },
                    Some(NotificationView::Progress((downloaded + len) as u64)),
                )
            } else {
                fails(too_large())
            },
            TransferEventView::End => (TransferState::Finished, Some(NotificationView::Done)),
            TransferEventView::Broken { reason } => fails(
                DownloadErrorView::TransferError { reason },
            ),
            TransferEventView::Response { .. } => fails(out_of_order()),
        },
        TransferState::Finished => (TransferState::Finished, None),
        TransferState::Failed => (TransferState::Failed, None),
    }
}

/// A whole transfer: how it stands after `events`, and everything that was
/// announced, in order.
pub open spec fn run(events: Seq<TransferEventView>) -> (TransferState, Seq<NotificationView>)
    decreases events.len(),
{
    if events.len() == 0 {
        (TransferState::AwaitingResponse, Seq::<NotificationView>::empty())
    } else {
        let before = run(events.drop_last());
        let next = step_spec(before.0, events.last());
        match next.1 {
            Some(note) => (next.0, before.1.push(note)),
            None => (next.0, before.1),
        }
    }
}

/// The first `n` announcements are the length and then running totals that
/// never fall and never exceed `bound`.
pub open spec fn counts_up(notes: Seq<NotificationView>, n: int, bound: int) -> bool {
    &&& 1 <= n <= notes.len()
    &&& notes[0] is Length
    &&& forall|i: int| 1 <= i < n ==> (#[trigger] notes[i]) is Progress
    &&& forall|i: int| 1 <= i < n ==> (#[trigger] notes[i])->Progress_0 <= bound
    &&& forall|i: int, j: int|
        1 <= i <= j < n ==> (#[trigger] notes[i])->Progress_0 <= (#[trigger] notes[j])->Progress_0
}

/// What was announced fits how the transfer stands.
pub open spec fn consistent(state: TransferState, notes: Seq<NotificationView>) -> bool {
    match state {
        TransferState::AwaitingResponse => notes.len() == 0,
        TransferState::Streaming { downloaded } => counts_up(
            notes,
            notes.len() as int,
            downloaded as int,
        ),
        TransferState::Finished => {
            &&& notes.len() >= 2
            &&& notes.last() is Done
            &&& counts_up(notes, notes.len() - 1, u64::MAX as int)
        },
        TransferState::Failed => {
            &&& notes.len() >= 1
            &&& notes.last() is Failed
            &&& notes.len() > 1 ==> counts_up(notes, notes.len() - 1, u64::MAX as int)
        },
    }
}

/// At every point of every transfer, what was announced fits how the
/// transfer stands.
pub proof fn lemma_run_consistent(events: Seq<TransferEventView>)
    ensures
        consistent(run(events).0, run(events).1),
    decreases events.len(),
{
    if events.len() > 0 {
        lemma_run_consistent(events.drop_last());
        let before = run(events.drop_last()).1;
        let after = run(events).1;
        assert(forall|i: int| 0 <= i < before.len() ==> after[i] == before[i]);
    }
}

/// The length is announced at most once, and before anything else; a running
/// total is announced only after the length.
pub proof fn lemma_length_comes_first(events: Seq<TransferEventView>, i: int)
    requires
        0 <= i < run(events).1.len(),
    ensures
        run(events).1[i] is Length ==> i == 0,
        run(events).1[i] is Progress ==> i > 0 && run(events).1[0] is Length,
{
    lemma_run_consistent(events);
}

/// The running totals are announced in rising order: a later one is never
/// below an earlier one.
pub proof fn lemma_progress_never_falls(events: Seq<TransferEventView>, i: int, j: int)
    requires
        0 <= i <= j < run(events).1.len(),
        run(events).1[i] is Progress,
        run(events).1[j] is Progress,
    ensures
        run(events).1[i]->Progress_0 <= run(events).1[j]->Progress_0,
{
    lemma_run_consistent(events);
}

/// No chunk among `events` is empty.
pub open spec fn chunks_not_empty(events: Seq<TransferEventView>) -> bool {
    forall|k: int| 0 <= k < events.len() ==> not_empty(#[trigger] events[k])
}

/// The event is no chunk of zero bytes.
pub open spec fn not_empty(event: TransferEventView) -> bool {
    event matches TransferEventView::Chunk { len } ==> len > 0
}

/// Where no chunk is empty, the running totals are announced in strictly
/// rising order: a later one is greater than an earlier one.
pub proof fn lemma_progress_rises(events: Seq<TransferEventView>, i: int, j: int)
    requires
        chunks_not_empty(events),
        0 <= i < j < run(events).1.len(),
        run(events).1[i] is Progress,
        run(events).1[j] is Progress,
    ensures
        run(events).1[i]->Progress_0 < run(events).1[j]->Progress_0,
    decreases events.len(),
{
    if events.len() > 0 {
        let earlier = events.drop_last();
        let before = run(earlier);
        let after = run(events);
        lemma_run_consistent(earlier);
        assert(not_empty(events.last()));
        assert forall|k: int| 0 <= k < earlier.len() implies not_empty(#[trigger] earlier[k]) by {
            assert(earlier[k] == events[k]);
        }
        assert(forall|k: int| 0 <= k < before.1.len() ==> after.1[k] == before.1[k]);
        if j < before.1.len() {
            lemma_progress_rises(earlier, i, j);
        }
    }
}

/// Nothing is announced after the end of a transfer, be it complete or given
/// up.
pub proof fn lemma_end_comes_last(events: Seq<TransferEventView>, i: int)
    requires
        0 <= i < run(events).1.len(),
        run(events).1[i] is Done || run(events).1[i] is Failed,
    ensures
        i == run(events).1.len() - 1,
{
    lemma_run_consistent(events);
}

/// Once a transfer is complete or given up, further events change nothing.
pub proof fn lemma_over_stays_over(events: Seq<TransferEventView>, more: Seq<TransferEventView>)
    requires
        run(events).0 is Finished || run(events).0 is Failed,
    ensures
        run(events + more) == run(events),
    decreases more.len(),
{
    if more.len() == 0 {
        assert(events + more =~= events);
    } else {
        lemma_over_stays_over(events, more.drop_last());
        assert((events + more).drop_last() =~= events + more.drop_last());
        assert((events + more).last() == more.last());
    }
}

/// A response whose status is not a success fails the transfer at once:
/// whatever follows, the failure with that status is all that is ever
/// announced. No length and no running total is announced.
pub proof fn lemma_rejected_response(
    status: u16,
    content_length: Option<u64>,
    more: Seq<TransferEventView>,
)
    requires
        !is_success(status),
    ensures
        run(seq![TransferEventView::Response { status, content_length }] + more) == (
            TransferState::Failed,
            seq![NotificationView::Failed(DownloadErrorView::DownloadFailed { status })],
        ),
{
    let first = seq![TransferEventView::Response { status, content_length }];
    assert(first.drop_last() =~= Seq::<TransferEventView>::empty());
    assert(run(first.drop_last()).0 is AwaitingResponse);
    assert(run(first).1 =~= seq![
        NotificationView::Failed(DownloadErrorView::DownloadFailed { status }),
    ]);
    lemma_over_stays_over(first, more);
}

/// The events of a body that comes in chunks of the lengths `lens`.
pub open spec fn chunks(lens: Seq<usize>) -> Seq<TransferEventView> {
    Seq::new(lens.len(), |i: int| TransferEventView::Chunk { len: lens[i] })
}

/// The sum of `lens`.
pub open spec fn total(lens: Seq<usize>) -> nat
    decreases lens.len(),
{
    if lens.len() == 0 {
        0
    } else {
        total(lens.drop_last()) + lens.last() as nat
    }
}

/// The running totals of a body that comes in chunks of the lengths `lens`:
/// after each chunk, the sum of the lengths so far.
pub open spec fn totals(lens: Seq<usize>) -> Seq<NotificationView> {
    Seq::new(lens.len(), |i: int| NotificationView::Progress(total(lens.take(i + 1)) as u64))
}

/// An accepted response followed by chunks announces the length once and
/// then, chunk by chunk, the sum of the lengths so far; the transfer stands
/// at the sum of them all.
pub proof fn lemma_totals_are_sums(status: u16, content_length: Option<u64>, lens: Seq<usize>)
    requires
        is_success(status),
        total(lens) <= u64::MAX,
    ensures
        run(seq![TransferEventView::Response { status, content_length }] + chunks(lens)) == (
            TransferState::Streaming { downloaded: total(lens) as u64 },
            seq![NotificationView::Length(content_length)] + totals(lens),
        ),
    decreases lens.len(),
{
    let first = seq![TransferEventView::Response { status, content_length }];
    let events = first + chunks(lens);
    if lens.len() == 0 {
        assert(events =~= first);
        assert(first.drop_last() =~= Seq::<TransferEventView>::empty());
        assert(run(first.drop_last()).0 is AwaitingResponse);
        assert(run(first).1 =~= seq![NotificationView::Length(content_length)] + totals(lens));
    } else {
        let init = lens.drop_last();
        lemma_totals_are_sums(status, content_length, init);
        assert(events.drop_last() =~= first + chunks(init));
        assert(events.last() == TransferEventView::Chunk { len: lens.last() });
        assert(lens.take(lens.len() as int) =~= lens);
        assert forall|i: int| 0 <= i < init.len() implies totals(init)[i] == totals(lens)[i] by {
            assert(init.take(i + 1) =~= lens.take(i + 1));
        }
        assert(run(events).1 =~= seq![NotificationView::Length(content_length)] + totals(lens));
    }
}

/// A complete transfer announces the length, the running totals and the
/// end, in this order and nothing else.
pub proof fn lemma_complete_transfer(status: u16, content_length: Option<u64>, lens: Seq<usize>)
    requires
        is_success(status),
        total(lens) <= u64::MAX,
    ensures
        run(
            seq![TransferEventView::Response { status, content_length }] + chunks(lens)
                + seq![TransferEventView::End],
        ) == (
            TransferState::Finished,
            seq![NotificationView::Length(content_length)] + totals(lens)
                + seq![NotificationView::Done],
        ),
{
    let body = seq![TransferEventView::Response { status, content_length }] + chunks(lens);
    let events = body + seq![TransferEventView::End];
    lemma_totals_are_sums(status, content_length, lens);
    assert(events.drop_last() =~= body);
    assert(events.last() == TransferEventView::End);
    assert(run(events).1 =~= seq![NotificationView::Length(content_length)] + totals(lens)
        + seq![NotificationView::Done]);
}

/// A name for the text that `reqwest::StatusCode` is displayed as: the
/// three-digit code and its standard reason phrase, for a code that it
/// accepts.
pub uninterp spec fn status_line(status: u16) -> Option<Seq<char>>;

/// The status as a message shows it: the status line where the code has one,
/// the bare number otherwise.
pub open spec fn status_label(status: u16) -> Seq<char> {
    match status_line(status) {
        Some(line) => line,
        None => decimal(status as nat),
    }
}

impl DownloadErrorView {
    /// The message shown for the failure.
    pub open spec fn message(self) -> Seq<char> {
        match self {
            DownloadErrorView::DownloadFailed { status } => "Failed to download file: HTTP "@
                + status_label(status),
            DownloadErrorView::TransferError { reason } => reason,
        }
    }
}

/// Calls `reqwest::StatusCode::from_u16` and, for a code that it accepts,
/// the `Display` of the result. Trusted: the text is the one that
/// `status_line` names, and there is one exactly for the codes from 100 to
/// 999, which are the ones that `from_u16` accepts.
#[verifier::external_body]
fn status_text(status: u16) -> (r: Option<String>)
    ensures
        r matches Some(text) ==> status_line(status) == Some(text@),
        r is None ==> status_line(status) is None,
        r is Some <==> 100 <= status <= 999,
{
    match reqwest::StatusCode::from_u16(status) {
        Ok(code) => Some(code.to_string()),
        Err(_) => None,
    }
}

impl DownloadError {
    /// The message shown for the failure.
    pub fn message(&self) -> (r: String)
        ensures
            r@ == self@.message(),
    {
        match self {
            DownloadError::DownloadFailed { status } => {
                let mut out = String::from_str("Failed to download file: HTTP ");
                match status_text(*status) {
                    Some(line) => {
                        out.append(line.as_str());
                    },
                    None => {
                        let number = u32_to_string(*status as u32);
                        out.append(number.as_str());
                    },
                }
                out
            },
            DownloadError::TransferError { reason } => reason.clone(),
        }
    }
}

/// A transfer that fails with a reason of the library's own.
fn fail_with(reason: &str) -> (r: (TransferState, Option<Notification>))
    ensures
        (r.0, note_view(r.1)) == fails(DownloadErrorView::TransferError { reason: reason@ }),
{
    (
        TransferState::Failed,
        Some(Notification::Failed(DownloadError::TransferError { reason: reason.to_string() })),
    )
}

/// Takes a transfer one step further: how it stands after `event`, and what
/// is to be announced, as `step_spec` gives them.
///
/// On `Notification::Length` the caller announces the length and then creates
/// the file; on `Notification::Progress` it announces the total; on
/// `Notification::Done` and `Notification::Failed` it stops.
pub fn step(state: TransferState, event: TransferEvent) -> (r: (
    TransferState,
    Option<Notification>,
))
    ensures
        (r.0, note_view(r.1)) == step_spec(state, event@),
{
    match state {
        TransferState::AwaitingResponse => match event {
            TransferEvent::Response { status, content_length } => {
                if 200 <= status && status < 300 {
                    (
                        TransferState::Streaming { downloaded: 0 },
                        Some(Notification::Length(content_length)),
                    )
                } else {
                    (
                        TransferState::Failed,
                        Some(Notification::Failed(DownloadError::DownloadFailed { status })),
                    )
                }
            },
            TransferEvent::Broken { reason } => (
                TransferState::Failed,
                Some(Notification::Failed(DownloadError::TransferError { reason })),
            ),
            _ => fail_with("Event out of order"),
        },
        TransferState::Streaming { downloaded } => match event {
            TransferEvent::Chunk { len } => match downloaded.checked_add(len as u64) {
                Some(total) => (
                    TransferState::Streaming { downloaded: total },
                    Some(Notification::Progress(total)),
                ),
                None => fail_with("Size out of range"),
            },
            TransferEvent::End => (TransferState::Finished, Some(Notification::Done)),
            TransferEvent::Broken { reason } => (
                TransferState::Failed,
                Some(Notification::Failed(DownloadError::TransferError { reason })),
            ),
            TransferEvent::Response { .. } => fail_with("Event out of order"),
        },
        TransferState::Finished => (TransferState::Finished, None),
        TransferState::Failed => (TransferState::Failed, None),
    }
}

/// How the progress is to be shown for an announced length: a bar where the
/// length is known and not zero, an indicator without an end otherwise.
pub fn display_for(length: Option<u64>) -> (r: ProgressDisplay)
    ensures
        r == match length {
            Some(total) => if total > 0 {
                ProgressDisplay::Bar { total }
            } else {
                ProgressDisplay::Spinner
            },
            None => ProgressDisplay::Spinner,
        },
{
    match length {
        Some(total) => {
            if total > 0 {
                ProgressDisplay::Bar { total }
            } else {
                ProgressDisplay::Spinner
            }
        },
        None => ProgressDisplay::Spinner,
    }
}

} // verus!
