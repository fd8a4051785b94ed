//! The decisions on both sides of the worker boundary.
//!
//! In the worker: which requests it refuses before doing any work, what it
//! reports when a document opens, and how a rendered page is split for
//! sending so that pixels never travel inside JSON.
//!
//! In the host: what a reply from the worker is taken to mean. The host
//! trusts nothing the worker says; any outcome other than a self-consistent
//! response ends that worker.
use crate::framing::FrameError;
use crate::protocol::{Response, SandboxStatus, WorkerError};
use crate::render::{OpenFailure, RenderError};
use vstd::prelude::*;

verus! {

/// The requests the worker serves, without their arguments.
#[derive(Debug, Clone, Copy, PartialEq, Eq, Structural)]
pub enum RequestKind {
    /// The host's first request: report readiness and confinement.
    Handshake,
    /// Parse a document handed over by the host.
    OpenDocument,
    /// Rasterize one page.
    RenderPage,
    /// Report one page's size without rendering it.
    PageSize,
    /// Extract one page's text.
    ExtractText,
    /// Report where one page's text sits on the page.
    TextLayout,
    /// Report the document's outline.
    Outline,
    /// Search the whole document.
    Search,
    /// Release the current document.
    CloseDocument,
    /// End the worker process.
    Shutdown,
}

/// The requests that work on the open document and so need one.
pub open spec fn needs_document(kind: RequestKind) -> bool {
    ||| kind == RequestKind::RenderPage
    ||| kind == RequestKind::PageSize
    ||| kind == RequestKind::ExtractText
    ||| kind == RequestKind::TextLayout
    ||| kind == RequestKind::Outline
    ||| kind == RequestKind::Search
}

/// The refusal given when a request needs an open document and none is open.
/// A caller bug, not a bad file.
pub open spec fn no_document_message() -> Seq<char> {
    "no document is open"@
}

/// The refusal given when the PDF engine failed to load. The worker never
/// falls back to parsing anywhere else.
pub open spec fn engine_missing_message() -> Seq<char> {
    "the PDF engine is not available to this worker (missing from the installation, or scripts/fetch-pdfium.sh has not been run)"@
}

/// No document is open.
pub fn no_document() -> (error: WorkerError)
    ensures
        error matches WorkerError::Malformed(message) && message@ == no_document_message(),
{
    WorkerError::Malformed(String::from_str("no document is open"))
}

/// The engine is not available.
pub fn engine_missing() -> (error: WorkerError)
    ensures
        error matches WorkerError::Unsupported(message) && message@ == engine_missing_message(),
{
    WorkerError::Unsupported(
        String::from_str(
            "the PDF engine is not available to this worker (missing from the installation, or scripts/fetch-pdfium.sh has not been run)",
        ),
    )
}

/// Why the worker refuses a request of `kind` before doing any work, if it
/// does: opening needs the engine, every request on the document needs an
/// open document, and the handshake, closing and shutting down always
/// proceed.
pub fn refusal(kind: RequestKind, engine_loaded: bool, document_open: bool) -> (refused: Option<
    WorkerError,
>)
    ensures
        kind == RequestKind::OpenDocument ==> (if engine_loaded {
            refused is None
        } else {
            refused matches Some(WorkerError::Unsupported(m)) && m@ == engine_missing_message()
        }),
        needs_document(kind) ==> (if document_open {
            refused is None
        } else {
            refused matches Some(WorkerError::Malformed(m)) && m@ == no_document_message()
        }),
        (kind == RequestKind::Handshake || kind == RequestKind::CloseDocument || kind
            == RequestKind::Shutdown) ==> refused is None,
{
    match kind {
        RequestKind::OpenDocument => if engine_loaded {
            None
        } else {
            Some(engine_missing())
        },
        RequestKind::RenderPage | RequestKind::PageSize | RequestKind::ExtractText
        | RequestKind::TextLayout | RequestKind::Outline | RequestKind::Search => if document_open {
            None
        } else {
            Some(no_document())
        },
        RequestKind::Handshake | RequestKind::CloseDocument | RequestKind::Shutdown => None,
    }
}

/// The reply to a successful open. Encryption is reported as whether a
/// password was supplied, and signatures are not yet detected.
pub fn document_opened(page_count: usize, password_supplied: bool) -> (response: Response)
    ensures
        response == (Response::DocumentOpened {
            page_count,
            encrypted: password_supplied,
            signed: false,
        }),
{
    Response::DocumentOpened { page_count, encrypted: password_supplied, signed: false }
}

/// Splits a response for sending: a rendered page goes as a message with an
/// empty pixel buffer followed by the pixels as a blob; anything else goes as
/// a message alone.
pub fn split_pixels(response: Response) -> (parts: (Response, Option<Vec<u8>>))
    ensures
        match response {
            Response::PageRendered { width, height, pixels } => {
                &&& parts.1 matches Some(blob) && blob@ == pixels@
                &&& parts.0 matches Response::PageRendered { width: w, height: h, pixels: empty }
                    && w == width && h == height && empty@.len() == 0
            },
            _ => parts.0 == response && parts.1 is None,
        },
{
    match response {
        Response::PageRendered { width, height, pixels } => (
            Response::PageRendered { width, height, pixels: Vec::new() },
            Some(pixels),
        ),
        other => (other, None),
    }
}

/// What arrived, or failed to arrive, on the channel from the worker.
#[derive(Debug)]
pub enum Delivery {
    /// A frame decoded as a response.
    Reply(Response),
    /// Reading a frame failed.
    Failed(FrameError),
    /// Nothing arrived before the deadline.
    TimedOut,
    /// The reading side of the channel is gone.
    Disconnected,
}

/// A deadline in milliseconds, saturated to fit a `u64`.
pub open spec fn saturated_millis(millis: u128) -> u64 {
    if millis > u64::MAX {
        u64::MAX
    } else {
        millis as u64
    }
}

/// The explanation given when a reply contradicts itself.
pub open spec fn inconsistent_reply_message() -> Seq<char> {
    "worker returned a self-inconsistent response"@
}

/// What the host makes of a delivery, given the deadline it waited in
/// milliseconds. Only a self-consistent response is accepted; a closed or
/// vanished channel means the worker died; a garbled frame or a reply that
/// contradicts itself is a protocol violation; silence is a timeout. The host
/// kills the worker on every refusal.
pub fn accept_reply(delivery: Delivery, timeout_millis: u128) -> (accepted: Result<Response, WorkerError>)
    ensures
        accepted is Ok && accepted->Ok_0 is PageRendered ==> accepted->Ok_0->pixels@.len()
            == accepted->Ok_0->width * accepted->Ok_0->height * 4,
        match delivery {
            Delivery::Reply(response) => if response.spec_is_self_consistent() {
                accepted == Ok::<Response, WorkerError>(response)
            } else {
                accepted matches Err(WorkerError::Channel(m)) && m@ == inconsistent_reply_message()
            },
            Delivery::Failed(error) => match error {
                FrameError::Closed => accepted == Err::<Response, WorkerError>(
                    WorkerError::WorkerDied,
                ),
                _ => accepted matches Err(WorkerError::Channel(m)) && error.is_described_by(m@),
            },
            Delivery::TimedOut => accepted == Err::<Response, WorkerError>(
                WorkerError::Timeout { timeout_ms: saturated_millis(timeout_millis) },
            ),
            Delivery::Disconnected => accepted == Err::<Response, WorkerError>(
                WorkerError::WorkerDied,
            ),
        },
{
    match delivery {
        Delivery::Reply(response) => {
            // Never act on a response that contradicts itself.
            if response.is_self_consistent() {
                Ok(response)
            } else {
                Err(
                    WorkerError::Channel(
                        String::from_str("worker returned a self-inconsistent response"),
                    ),
                )
            }
        },
        Delivery::Failed(error) => Err(send_failure(error)),
        Delivery::TimedOut => {
            let timeout_ms = if timeout_millis > u64::MAX as u128 {
                u64::MAX
            } else {
                timeout_millis as u64
            };
            Err(WorkerError::Timeout { timeout_ms })
        },
        Delivery::Disconnected => Err(WorkerError::WorkerDied),
    }
}

/// What a failure on the channel means: a closed channel is a dead worker,
/// anything else a broken channel, described.
pub fn send_failure(error: FrameError) -> (failure: WorkerError)
    ensures
        match error {
            FrameError::Closed => failure == WorkerError::WorkerDied,
            _ => failure matches WorkerError::Channel(m) && error.is_described_by(m@),
        },
{
    match error {
        FrameError::Closed => WorkerError::WorkerDied,
        other => WorkerError::Channel(other.message()),
    }
}

/// What the worker reports when the engine fails on a document: the
/// engine's description, as a malformed document.
pub fn render_failure(error: RenderError) -> (failure: WorkerError)
    ensures
        failure matches WorkerError::Malformed(m) && error.is_described_by(m@),
{
    WorkerError::Malformed(error.message())
}

/// What the worker reports when a document will not open: a password
/// problem as itself, anything else as [`render_failure`] describes it.
pub fn open_failure(failure: OpenFailure) -> (reported: WorkerError)
    ensures
        match failure {
            OpenFailure::PasswordRequired => reported == WorkerError::BadPassword,
            OpenFailure::Render(error) => reported matches WorkerError::Malformed(m)
                && error.is_described_by(m@),
        },
{
    match failure {
        OpenFailure::PasswordRequired => WorkerError::BadPassword,
        OpenFailure::Render(error) => render_failure(error),
    }
}

/// The name of a response's variant.
pub open spec fn response_name(response: Response) -> Seq<char> {
    match response {
        Response::Ready { .. } => "Ready"@,
        Response::DocumentOpened { .. } => "DocumentOpened"@,
        Response::PageRendered { .. } => "PageRendered"@,
        Response::TextExtracted { .. } => "TextExtracted"@,
        Response::Done => "Done"@,
        Response::Failed(_) => "Failed"@,
    }
}

/// The refusal given when the worker's first reply is not a handshake.
pub open spec fn not_a_handshake_message(response: Response) -> Seq<char> {
    "expected Ready handshake, got "@ + response_name(response)
}

/// The refusal given when the worker runs another protocol version.
pub open spec fn version_mismatch_message(worker: Seq<char>, host: Seq<char>) -> Seq<char> {
    "worker version "@ + worker + " does not match host "@ + host
}

/// What the host makes of the worker's first reply: a `Ready` from a worker
/// of the host's own version yields the confinement it reports and whether
/// its engine loaded. A different version means the protocol may differ, and
/// any other reply is not a handshake; both are refused, and the host then
/// kills the worker.
pub fn accept_handshake(reply: Response, host_version: &str) -> (accepted: Result<
    (SandboxStatus, bool),
    WorkerError,
>)
    ensures
        match reply {
            Response::Ready { version, sandbox, engine_available } => if version@ == host_version@ {
                accepted == Ok::<(SandboxStatus, bool), WorkerError>((sandbox, engine_available))
            } else {
                accepted matches Err(WorkerError::Channel(m)) && m@ == version_mismatch_message(
                    version@,
                    host_version@,
                )
            },
            _ => accepted matches Err(WorkerError::Channel(m)) && m@ == not_a_handshake_message(
                reply,
            ),
        },
{
    let name = match &reply {
        Response::Ready { .. } => "Ready",
        Response::DocumentOpened { .. } => "DocumentOpened",
        Response::PageRendered { .. } => "PageRendered",
        Response::TextExtracted { .. } => "TextExtracted",
        Response::Done => "Done",
        Response::Failed(_) => "Failed",
    };
    match reply {
        Response::Ready { version, sandbox, engine_available } => {
            let host = String::from_str(host_version);
            if version == host {
                Ok((sandbox, engine_available))
            } else {
                let mut text = String::from_str("worker version ");
                text.append(version.as_str());
                text.append(" does not match host ");
                text.append(host_version);
                Err(WorkerError::Channel(text))
            }
        },
        _ => {
            let mut text = String::from_str("expected Ready handshake, got ");
            text.append(name);
            Err(WorkerError::Channel(text))
        },
    }
}

/// Where the worker process is in its life.
#[derive(Debug, Clone, Copy, PartialEq, Eq, Structural)]
pub enum WorkerPhase {
    /// Just started; the engine is not bound yet.
    Starting,
    /// The engine binding was attempted; confinement is not applied yet.
    Unconfined,
    /// Confined, and waiting for the next request.
    Serving,
    /// A request was read and is being answered.
    Answering,
    /// An answer could not be sent, and a refusal is being sent in its place.
    Refusing,
    /// The process is ending.
    Stopped,
}

/// What came of the last thing the worker did.
#[derive(Debug)]
pub enum WorkerEvent {
    /// The process started.
    Launched,
    /// Binding the engine was attempted, whether or not it loaded.
    EngineBound,
    /// Confinement was applied, as far as the platform allows.
    Confined,
    /// A request of this kind was read.
    RequestRead(RequestKind),
    /// The channel from the host closed.
    ReadClosed,
    /// A request could not be read.
    ReadFailed(FrameError),
    /// The answer, or the refusal, was sent.
    Sent,
    /// The answer, or the refusal, could not be sent.
    SendFailed(FrameError),
}

/// What the worker does next.
#[derive(Debug)]
pub enum WorkerAction {
    /// Bind the engine library, which needs file access.
    BindEngine,
    /// Confine the process.
    Confine,
    /// Read the next request.
    ReadRequest,
    /// Answer the request just read and send the answer.
    Handle,
    /// Send the refusal [`unsendable`] makes of this failure.
    SendRefusal(FrameError),
    /// End the process.
    Exit,
}

/// The worker's loop. The engine is bound first, because binding needs the
/// file access that confinement removes; confinement comes next, before a
/// single byte of input is read. Requests are then read and answered until
/// the channel closes, a request cannot be read, or the host asks for a
/// shutdown. An answer that cannot be sent is replaced by a refusal saying
/// so, and the worker goes on; if the refusal cannot be sent either, it ends.
/// An event the phase does not expect changes nothing before confinement and
/// ends the process after it.
pub open spec fn spec_next_worker_step(phase: WorkerPhase, event: WorkerEvent) -> (
    WorkerPhase,
    WorkerAction,
) {
    match phase {
        WorkerPhase::Starting => match event {
            WorkerEvent::EngineBound => (WorkerPhase::Unconfined, WorkerAction::Confine),
            _ => (WorkerPhase::Starting, WorkerAction::BindEngine),
        },
        WorkerPhase::Unconfined => match event {
            WorkerEvent::Confined => (WorkerPhase::Serving, WorkerAction::ReadRequest),
            _ => (WorkerPhase::Unconfined, WorkerAction::Confine),
        },
        WorkerPhase::Serving => match event {
            WorkerEvent::RequestRead(kind) => if kind == RequestKind::Shutdown {
                (WorkerPhase::Stopped, WorkerAction::Exit)
            } else {
                (WorkerPhase::Answering, WorkerAction::Handle)
            },
            _ => (WorkerPhase::Stopped, WorkerAction::Exit),
        },
        WorkerPhase::Answering => match event {
            WorkerEvent::Sent => (WorkerPhase::Serving, WorkerAction::ReadRequest),
            WorkerEvent::SendFailed(error) => (
                WorkerPhase::Refusing,
                WorkerAction::SendRefusal(error),
            ),
            _ => (WorkerPhase::Stopped, WorkerAction::Exit),
        },
        WorkerPhase::Refusing => match event {
            WorkerEvent::Sent => (WorkerPhase::Serving, WorkerAction::ReadRequest),
            _ => (WorkerPhase::Stopped, WorkerAction::Exit),
        },
        WorkerPhase::Stopped => (WorkerPhase::Stopped, WorkerAction::Exit),
    }
}

/// Decides the worker's next step; see [`spec_next_worker_step`].
pub fn next_worker_step(phase: WorkerPhase, event: WorkerEvent) -> (step: (WorkerPhase, WorkerAction))
    ensures
        step == spec_next_worker_step(phase, event),
{
    match phase {
        WorkerPhase::Starting => match event {
            WorkerEvent::EngineBound => (WorkerPhase::Unconfined, WorkerAction::Confine),
            _ => (WorkerPhase::Starting, WorkerAction::BindEngine),
        },
        WorkerPhase::Unconfined => match event {
            WorkerEvent::Confined => (WorkerPhase::Serving, WorkerAction::ReadRequest),
            _ => (WorkerPhase::Unconfined, WorkerAction::Confine),
        },
        WorkerPhase::Serving => match event {
            WorkerEvent::RequestRead(kind) => match kind {
                RequestKind::Shutdown => (WorkerPhase::Stopped, WorkerAction::Exit),
                _ => (WorkerPhase::Answering, WorkerAction::Handle),
            },
            _ => (WorkerPhase::Stopped, WorkerAction::Exit),
        },
        WorkerPhase::Answering => match event {
            WorkerEvent::Sent => (WorkerPhase::Serving, WorkerAction::ReadRequest),
            WorkerEvent::SendFailed(error) => (
                WorkerPhase::Refusing,
                WorkerAction::SendRefusal(error),
            ),
            _ => (WorkerPhase::Stopped, WorkerAction::Exit),
        },
        WorkerPhase::Refusing => match event {
            WorkerEvent::Sent => (WorkerPhase::Serving, WorkerAction::ReadRequest),
            _ => (WorkerPhase::Stopped, WorkerAction::Exit),
        },
        WorkerPhase::Stopped => (WorkerPhase::Stopped, WorkerAction::Exit),
    }
}

/// Whether confinement has been applied by the time the worker is in `phase`.
pub open spec fn is_confined(phase: WorkerPhase) -> bool {
    !(phase == WorkerPhase::Starting || phase == WorkerPhase::Unconfined)
}

/// The worker reads no input before it is confined: a step reaches a
/// confined phase only on the `Confined` event (or stays in one), the
/// engine is bound only before confinement, and reading, answering and
/// refusing happen only in confined phases.
pub proof fn law_confinement_comes_before_any_input(phase: WorkerPhase, event: WorkerEvent)
    ensures
        ({
            let step = spec_next_worker_step(phase, event);
            &&& is_confined(phase) ==> is_confined(step.0)
            &&& !is_confined(phase) && is_confined(step.0) ==> phase == WorkerPhase::Unconfined
                && event is Confined
            &&& (step.1 is ReadRequest || step.1 is Handle || step.1 is SendRefusal)
                ==> is_confined(step.0)
            &&& step.1 is BindEngine ==> step.0 == WorkerPhase::Starting
        }),
{
}

/// The worker ends when its channel closes, when a request cannot be read,
/// when the host asks it to, and when not even a refusal can be sent; after
/// an answer that could not be sent it refuses and goes on.
pub proof fn law_when_the_worker_ends(event: WorkerEvent, kind: RequestKind, error: FrameError)
    ensures
        spec_next_worker_step(WorkerPhase::Serving, WorkerEvent::ReadClosed).1 is Exit,
        spec_next_worker_step(WorkerPhase::Serving, WorkerEvent::ReadFailed(error)).1 is Exit,
        spec_next_worker_step(
            WorkerPhase::Serving,
            WorkerEvent::RequestRead(RequestKind::Shutdown),
        ).1 is Exit,
        kind != RequestKind::Shutdown ==> spec_next_worker_step(
            WorkerPhase::Serving,
            WorkerEvent::RequestRead(kind),
        ).1 is Handle,
        spec_next_worker_step(WorkerPhase::Answering, WorkerEvent::SendFailed(error)) == (
            WorkerPhase::Refusing,
            WorkerAction::SendRefusal(error),
        ),
        spec_next_worker_step(WorkerPhase::Refusing, WorkerEvent::SendFailed(error)).1 is Exit,
        spec_next_worker_step(WorkerPhase::Refusing, WorkerEvent::Sent) == (
            WorkerPhase::Serving,
            WorkerAction::ReadRequest,
        ),
        spec_next_worker_step(WorkerPhase::Stopped, event).1 is Exit,
{
}

/// The worker keeps serving: a request other than a shutdown is answered,
/// and once the answer has gone out, or a refusal in place of an answer that
/// could not be sent, the worker is back to reading the next request.
pub proof fn law_the_worker_keeps_serving(kind: RequestKind, error: FrameError)
    requires
        kind != RequestKind::Shutdown,
    ensures
        spec_next_worker_step(WorkerPhase::Serving, WorkerEvent::RequestRead(kind)).1 is Handle,
        spec_next_worker_step(
            spec_next_worker_step(WorkerPhase::Serving, WorkerEvent::RequestRead(kind)).0,
            WorkerEvent::Sent,
        ) == (WorkerPhase::Serving, WorkerAction::ReadRequest),
        spec_next_worker_step(
            spec_next_worker_step(
                spec_next_worker_step(WorkerPhase::Serving, WorkerEvent::RequestRead(kind)).0,
                WorkerEvent::SendFailed(error),
            ).0,
            WorkerEvent::Sent,
        ) == (WorkerPhase::Serving, WorkerAction::ReadRequest),
{
}

/// The worker ends only when it must: once it has stopped; while serving,
/// on anything but a request other than a shutdown (a closed or unreadable
/// channel, or the shutdown itself); while answering, on anything but the
/// outcome of sending; while refusing, when the refusal could not be sent.
/// Before it is confined it never ends.
pub proof fn law_the_worker_exits_only_when_it_must(phase: WorkerPhase, event: WorkerEvent)
    ensures
        spec_next_worker_step(phase, event).1 is Exit ==> {
            ||| phase == WorkerPhase::Stopped
            ||| phase == WorkerPhase::Serving && !(event is RequestRead
                && event->RequestRead_0 != RequestKind::Shutdown)
            ||| phase == WorkerPhase::Answering && !(event is Sent) && !(event is SendFailed)
            ||| phase == WorkerPhase::Refusing && !(event is Sent)
        },
{
}

/// Whether `text` is the refusal sent when an answer could not be sent
/// because of `error`: a fixed lead-in, then the error's description.
pub open spec fn is_unsendable_text(error: FrameError, text: Seq<char>) -> bool {
    exists|described: Seq<char>|
        text == "the result could not be sent: "@ + described && error.is_described_by(described)
}

/// The refusal the worker sends in place of an answer that could not be
/// sent: the document is treated as malformed, and the failure is named.
pub fn unsendable(error: FrameError) -> (refusal: WorkerError)
    ensures
        refusal matches WorkerError::Malformed(m) && is_unsendable_text(error, m@),
{
    let mut text = String::from_str("the result could not be sent: ");
    let detail = error.message();
    text.append(detail.as_str());
    assert(text@ =~= "the result could not be sent: "@ + detail@);
    WorkerError::Malformed(text)
}

} // verus!
