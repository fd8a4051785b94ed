//! What the document session hands the display: rendered pages, and the
//! worker's condition as the user should see it; how the session serves
//! pages from its tile cache and takes in the worker's replies; and how it
//! reacts when the worker fails a request.
use crate::cache::{
    after_insert, after_touch, has_key, key_position, tile_size, Tile, TileCache, TileKey,
};
use crate::protocol::{Response, SandboxStatus, WorkerError};
use crate::wire::{bgra_to_rgba, encode_page, page_encoding, push_all, swap_red_blue};
use crate::worker::response_name;
use vstd::prelude::*;

verus! {

/// A rendered page, ready for the canvas.
#[derive(Debug)]
pub struct RenderedPage {
    /// Width in pixels.
    pub width: u32,
    /// Height in pixels.
    pub height: u32,
    /// RGBA pixel data, converted from PDFium's BGRA.
    pub pixels: Vec<u8>,
}

impl RenderedPage {
    /// Packs the page for transport in the page wire format.
    pub fn into_wire_format(self) -> (wire: Vec<u8>)
        ensures
            wire@ == page_encoding(self.width, self.height, self.pixels@),
    {
        encode_page(self.width, self.height, self.pixels.as_slice())
    }
}

/// How the worker is running, as reported to the user. A worker running
/// unconfined is a condition the user deserves to know about.
#[derive(Debug, Clone, PartialEq, Eq)]
pub struct WorkerStatus {
    /// The worker process started.
    pub running: bool,
    /// The operating system confines it.
    pub sandboxed: bool,
    /// What the user is told.
    pub detail: String,
    /// A memory ceiling is in force.
    pub memory_capped: bool,
    /// The PDF engine loaded in the worker.
    pub engine_available: bool,
}

impl WorkerStatus {
    /// The status of a worker that started, from what it reported about its
    /// confinement and its engine.
    pub fn of_running(sandbox: &SandboxStatus, engine_available: bool) -> (status: WorkerStatus)
        ensures
            status.running,
            status.engine_available == engine_available,
            match sandbox {
                SandboxStatus::Enforced { mechanism, resource_limits } => status.sandboxed
                    && status.detail@ == "confined via "@ + mechanism@ && status.memory_capped
                    == resource_limits.address_space_bytes is Some,
                SandboxStatus::NotEnforced { reason, resource_limits } => !status.sandboxed
                    && status.detail@ == "UNCONFINED: "@ + reason@ && status.memory_capped
                    == resource_limits.address_space_bytes is Some,
            },
    {
        match sandbox {
            SandboxStatus::Enforced { mechanism, resource_limits } => {
                let mut detail = String::from_str("confined via ");
                detail.append(mechanism.as_str());
                WorkerStatus {
                    running: true,
                    sandboxed: true,
                    detail,
                    memory_capped: resource_limits.memory_capped(),
                    engine_available,
                }
            },
            SandboxStatus::NotEnforced { reason, resource_limits } => {
                let mut detail = String::from_str("UNCONFINED: ");
                detail.append(reason.as_str());
                WorkerStatus {
                    running: true,
                    sandboxed: false,
                    detail,
                    memory_capped: resource_limits.memory_capped(),
                    engine_available,
                }
            },
        }
    }

    /// The status of a worker that could not be started, and why.
    pub fn not_running(detail: String) -> (status: WorkerStatus)
        ensures
            status == (WorkerStatus {
                running: false,
                sandboxed: false,
                detail,
                memory_capped: false,
                engine_available: false,
            }),
    {
        WorkerStatus {
            running: false,
            sandboxed: false,
            detail,
            memory_capped: false,
            engine_available: false,
        }
    }
}

/// Where a request stands in the session's restart policy.
#[derive(Debug)]
pub enum SendPhase {
    /// The request goes to the current worker for the first time.
    FirstTry,
    /// The first worker failed, was replaced, and the request was sent again.
    Retried {
        /// What the first worker failed with; this is what the caller sees if
        /// the retry fails too.
        first_error: WorkerError,
    },
}

/// What came of the last step the session carried out for a request.
#[derive(Debug)]
pub enum SendEvent {
    /// The worker answered and the answer was accepted.
    Replied(Response),
    /// The worker failed the request: it died, timed out or broke the
    /// protocol, and has been killed.
    Failed(WorkerError),
    /// A worker process could not be started at all.
    SpawnFailed(WorkerError),
}

/// What the session does next for a request.
#[derive(Debug)]
pub enum SendAction {
    /// Hand this outcome to the caller.
    Finish(Result<Response, WorkerError>),
    /// Drop the failed worker (it is never reused), start a fresh one, send
    /// it the open document again when `reopen` holds, then send the request
    /// once more.
    ReplaceAndRetry {
        /// Whether a document is open and must be restored in the new worker.
        reopen: bool,
    },
}

/// The restart policy: an accepted reply finishes the request. A first
/// failure replaces the worker with a fresh process, restores the open
/// document, and retries once; a failure of the retry reports the first
/// failure. A worker that cannot be started ends the request with that
/// error. There is never a fallback to parsing in the host.
pub fn next_send_step(phase: SendPhase, event: SendEvent, document_open: bool) -> (step: (
    SendPhase,
    SendAction,
))
    ensures
        event matches SendEvent::Replied(r) ==> step.1 == SendAction::Finish(
            Ok::<Response, WorkerError>(r),
        ),
        event matches SendEvent::SpawnFailed(e) ==> step.1 == SendAction::Finish(
            Err::<Response, WorkerError>(e),
        ),
        phase is FirstTry ==> (event matches SendEvent::Failed(e) ==> step.0 == (SendPhase::Retried {
            first_error: e,
        }) && step.1 == (SendAction::ReplaceAndRetry { reopen: document_open })),
        event is Failed ==> (phase matches SendPhase::Retried { first_error } ==> step.1
            == SendAction::Finish(Err::<Response, WorkerError>(first_error))),
        !(phase is FirstTry && event is Failed) ==> step.0 == phase,
        phase is Retried ==> step.1 is Finish,
{
    match event {
        SendEvent::Replied(response) => (phase, SendAction::Finish(Ok(response))),
        SendEvent::SpawnFailed(error) => (phase, SendAction::Finish(Err(error))),
        SendEvent::Failed(error) => match phase {
            SendPhase::FirstTry => (
                SendPhase::Retried { first_error: error },
                SendAction::ReplaceAndRetry { reopen: document_open },
            ),
            SendPhase::Retried { first_error } => {
                let outcome = SendAction::Finish(Err(copy_error(&first_error)));
                (SendPhase::Retried { first_error }, outcome)
            },
        },
    }
}

/// A copy of `error`, field for field.
fn copy_error(error: &WorkerError) -> (copy: WorkerError)
    ensures
        copy == *error,
{
    match error {
        WorkerError::Malformed(text) => WorkerError::Malformed(text.clone()),
        WorkerError::BadPassword => WorkerError::BadPassword,
        WorkerError::LimitExceeded(text) => WorkerError::LimitExceeded(text.clone()),
        WorkerError::Unsupported(text) => WorkerError::Unsupported(text.clone()),
        WorkerError::WorkerDied => WorkerError::WorkerDied,
        WorkerError::Channel(text) => WorkerError::Channel(text.clone()),
        WorkerError::Timeout { timeout_ms } => WorkerError::Timeout { timeout_ms: *timeout_ms },
    }
}

/// Two tiles with the same dimensions and the same pixel bytes.
pub open spec fn same_tile(a: Tile, b: Tile) -> bool {
    a.width == b.width && a.height == b.height && a.pixels@ == b.pixels@
}

/// A copy of `tile`.
fn copy_tile(tile: &Tile) -> (copy: Tile)
    ensures
        same_tile(copy, *tile),
{
    let mut pixels: Vec<u8> = Vec::new();
    push_all(&mut pixels, tile.pixels.as_slice());
    assert(pixels@ =~= tile.pixels@);
    Tile { width: tile.width, height: tile.height, pixels }
}

/// The text given for a reply the session did not ask for.
pub open spec fn unexpected_reply_message(reply: Response) -> Seq<char> {
    "unexpected response: "@ + response_name(reply)
}

/// The text for a reply that is neither what was asked for nor a failure.
fn unexpected_reply(reply: &Response) -> (text: String)
    ensures
        text@ == unexpected_reply_message(*reply),
{
    let mut text = String::from_str("unexpected response: ");
    let name = match reply {
        Response::Ready { .. } => "Ready",
        Response::DocumentOpened { .. } => "DocumentOpened",
        Response::PageRendered { .. } => "PageRendered",
        Response::TextExtracted { .. } => "TextExtracted",
        Response::Done => "Done",
        Response::Failed(_) => "Failed",
    };
    text.append(name);
    text
}

/// Serves a page from the cache when it holds one, marking it recently
/// used, so that a cached page costs no trip to the worker.
pub fn cached_page(cache: &mut TileCache, key: TileKey) -> (hit: Option<Tile>)
    ensures
        final(cache).is_bounded(),
        final(cache).budget() == old(cache).budget(),
        final(cache).entries() == after_touch(old(cache).entries(), key),
        match hit {
            Some(tile) => has_key(old(cache).entries(), key) && same_tile(
                tile,
                old(cache).entries()[key_position(old(cache).entries(), key)].1,
            ),
            None => !has_key(old(cache).entries(), key),
        },
{
    match cache.get(&key) {
        Some(tile) => Some(copy_tile(tile)),
        None => None,
    }
}

/// Takes in the worker's reply to a render request. A rendered page has its
/// pixels converted from the engine's BGRA to the display's RGBA, is cached
/// under `key` (when it fits the budget at all), and is returned. A failure
/// is returned as its description; any other reply is unexpected. Only a
/// rendered page changes the cache.
pub fn finish_render(cache: &mut TileCache, key: TileKey, reply: Response) -> (result: Result<
    Tile,
    String,
>)
    ensures
        final(cache).is_bounded(),
        final(cache).budget() == old(cache).budget(),
        match reply {
            Response::PageRendered { width, height, pixels } => result matches Ok(tile) && tile.width
                == width && tile.height == height && tile.pixels@ == swap_red_blue(pixels@) && (if tile_size(
                tile,
            ) <= old(cache).budget() {
                exists|cached: Tile|
                    same_tile(cached, tile) && final(cache).entries() == after_insert(
                        old(cache).entries(),
                        old(cache).budget(),
                        key,
                        cached,
                    )
            } else {
                final(cache).entries() == old(cache).entries()
            }),
            Response::Failed(error) => result matches Err(m) && m@ == error.spec_message()
                && final(cache).entries() == old(cache).entries(),
            _ => result matches Err(m) && m@ == unexpected_reply_message(reply) && final(cache).entries() == old(cache).entries(),
        },
{
    let _ = cache.used_bytes();
    match reply {
        Response::PageRendered { width, height, pixels } => {
            let rgba = bgra_to_rgba(pixels);
            let tile = Tile { width, height, pixels: rgba };
            let cached = copy_tile(&tile);
            let _ = cache.insert(key, cached);
            Ok(tile)
        },
        Response::Failed(error) => Err(error.message()),
        other => Err(unexpected_reply(&other)),
    }
}

/// Takes in the worker's reply to an open request. An opened document
/// yields its page count and whether it is encrypted, and empties the cache:
/// tiles are keyed by page and zoom, not by document. A failure is returned
/// as its description, any other reply is unexpected, and neither touches
/// the cache.
pub fn opened(reply: Response, cache: &mut TileCache) -> (result: Result<(usize, bool), String>)
    ensures
        final(cache).is_bounded(),
        final(cache).budget() == old(cache).budget(),
        match reply {
            Response::DocumentOpened { page_count, encrypted, .. } => result == Ok::<
                (usize, bool),
                String,
            >((page_count, encrypted)) && final(cache).entries() == Seq::<(TileKey, Tile)>::empty(),
            Response::Failed(error) => result matches Err(m) && m@ == error.spec_message()
                && final(cache).entries() == old(cache).entries(),
            _ => result matches Err(m) && m@ == unexpected_reply_message(reply) && final(cache).entries() == old(cache).entries(),
        },
{
    let _ = cache.used_bytes();
    match reply {
        Response::DocumentOpened { page_count, encrypted, .. } => {
            cache.clear();
            Ok((page_count, encrypted))
        },
        Response::Failed(error) => Err(error.message()),
        other => Err(unexpected_reply(&other)),
    }
}

} // verus!
