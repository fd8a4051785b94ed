//! Messages exchanged with the worker process, and what the worker reports
//! about its own confinement.
//!
//! The host trusts nothing the worker returns: a compromised worker sends
//! well-formed lies, so every response is validated before it is acted on.
use crate::decimal::{decimal, push_decimal};
use vstd::prelude::*;

verus! {

/// A reply from the worker.
#[derive(Debug, Clone, PartialEq)]
#[non_exhaustive]
pub enum Response {
    /// The worker finished starting up.
    Ready {
        /// The worker's version, which must match the host's.
        version: String,
        /// The confinement the worker applied to itself.
        sandbox: SandboxStatus,
        /// Whether the PDF engine loaded, so the host knows before a user
        /// opens anything.
        engine_available: bool,
    },
    /// The document opened successfully.
    DocumentOpened {
        /// Number of pages.
        page_count: usize,
        /// Whether the document is encrypted.
        encrypted: bool,
        /// Whether the document carries at least one digital signature.
        signed: bool,
    },
    /// A rasterized page.
    PageRendered {
        /// Width in pixels.
        width: u32,
        /// Height in pixels.
        height: u32,
        /// BGRA pixel data.
        pixels: Vec<u8>,
    },
    /// Extracted text.
    TextExtracted {
        /// The page's text in reading order.
        text: String,
    },
    /// The request completed with nothing to return.
    Done,
    /// The request failed.
    Failed(WorkerError),
}

/// Why a worker request failed.
#[derive(Debug, Clone, PartialEq, Eq)]
#[non_exhaustive]
pub enum WorkerError {
    /// The document could not be parsed.
    Malformed(String),
    /// A password is required, or the supplied one was wrong.
    BadPassword,
    /// A safety limit was exceeded.
    LimitExceeded(String),
    /// The feature is recognized but deliberately unsupported.
    Unsupported(String),
    /// The worker died — very possibly while being exploited.
    ///
    /// The host must restart the worker rather than retrying the same input
    /// in the same process.
    WorkerDied,
    /// The channel to the worker failed, or the worker broke the protocol.
    Channel(String),
    /// The worker did not answer within the deadline and was killed.
    Timeout {
        /// The deadline, in milliseconds.
        timeout_ms: u64,
    },
}

impl WorkerError {
    /// The description of the error shown to the user.
    pub open spec fn spec_message(&self) -> Seq<char> {
        match self {
            WorkerError::Malformed(what) => "malformed document: "@ + what@,
            WorkerError::BadPassword => "incorrect or missing password"@,
            WorkerError::LimitExceeded(what) => "safety limit exceeded: "@ + what@,
            WorkerError::Unsupported(what) => "unsupported: "@ + what@,
            WorkerError::WorkerDied => "worker process terminated unexpectedly"@,
            WorkerError::Channel(what) => "worker channel failed: "@ + what@,
            WorkerError::Timeout { timeout_ms } => "worker did not answer within "@ + decimal(
                *timeout_ms as nat,
            ) + " ms"@,
        }
    }

    /// A human-readable description of the error.
    pub fn message(&self) -> (text: String)
        ensures
            text@ == self.spec_message(),
    {
        match self {
            WorkerError::Malformed(what) => {
                let mut text = String::from_str("malformed document: ");
                text.append(what.as_str());
                text
            },
            WorkerError::BadPassword => String::from_str("incorrect or missing password"),
            WorkerError::LimitExceeded(what) => {
                let mut text = String::from_str("safety limit exceeded: ");
                text.append(what.as_str());
                text
            },
            WorkerError::Unsupported(what) => {
                let mut text = String::from_str("unsupported: ");
                text.append(what.as_str());
                text
            },
            WorkerError::WorkerDied => String::from_str("worker process terminated unexpectedly"),
            WorkerError::Channel(what) => {
                let mut text = String::from_str("worker channel failed: ");
                text.append(what.as_str());
                text
            },
            WorkerError::Timeout { timeout_ms } => {
                let mut text = String::from_str("worker did not answer within ");
                push_decimal(&mut text, *timeout_ms as u128);
                text.append(" ms");
                text
            },
        }
    }
}

impl Response {
    /// A rendered page's pixel buffer holds exactly four bytes per declared
    /// pixel; every other response is consistent by construction.
    pub open spec fn spec_is_self_consistent(&self) -> bool {
        match self {
            Response::PageRendered { width, height, pixels } => pixels@.len() == *width * *height
                * 4,
            _ => true,
        }
    }

    /// Validates a response before the host acts on it.
    ///
    /// Guards against a malicious worker returning a pixel buffer whose
    /// length disagrees with its declared dimensions — the kind of mismatch
    /// that turns into an out-of-bounds read in the consumer. Dimensions
    /// whose byte count overflows are refused rather than wrapped.
    pub fn is_self_consistent(&self) -> (consistent: bool)
        ensures
            consistent == self.spec_is_self_consistent(),
            self is PageRendered ==> (consistent <==> self->pixels@.len() == self->width
                * self->height * 4),
            !(self is PageRendered) ==> consistent,
    {
        match self {
            Response::PageRendered { width, height, pixels } => {
                let w = *width as usize;
                let h = *height as usize;
                let len = pixels.len();
                assert(len == pixels@.len());
                match w.checked_mul(h) {
                    Some(area) => match area.checked_mul(4) {
                        Some(expected) => {
                            assert(expected == *width * *height * 4) by (nonlinear_arith)
                                requires
                                    area == *width * *height,
                                    expected == area * 4,
                            ;
                            expected == len
                        },
                        None => {
                            assert(*width * *height * 4 > usize::MAX) by (nonlinear_arith)
                                requires
                                    area == *width * *height,
                                    area * 4 > usize::MAX,
                            ;
                            false
                        },
                    },
                    None => {
                        assert(*width * *height * 4 > usize::MAX) by (nonlinear_arith)
                            requires
                                *width * *height > usize::MAX,
                        ;
                        false
                    },
                }
            },
            _ => true,
        }
    }
}

/// A rendered page is consistent exactly when its pixel buffer holds four
/// bytes for each pixel its dimensions declare: a buffer that is shorter
/// (an empty one included) or longer is refused. Every other reply carries
/// no buffer to check.
pub proof fn law_pixel_buffers_match_their_dimensions(response: Response)
    ensures
        response is PageRendered ==> (response.spec_is_self_consistent() <==> response->pixels@.len()
            == response->width * response->height * 4),
        response is PageRendered && response->width * response->height > 0
            && response->pixels@.len() == 0 ==> !response.spec_is_self_consistent(),
        !(response is PageRendered) ==> response.spec_is_self_consistent(),
{
    if response is PageRendered && response->width * response->height > 0 {
        assert(response->width * response->height * 4 > 0) by (nonlinear_arith)
            requires
                response->width * response->height > 0,
        ;
    }
}

/// Which resource ceilings the worker managed to apply to itself.
#[derive(Debug, Clone, Copy, PartialEq, Eq, Structural)]
pub struct ResourceLimits {
    /// Core dumps are off, so a crash cannot leave the document on disk.
    pub core_dumps_disabled: bool,
    /// CPU-seconds before the kernel terminates the worker, when capped.
    pub cpu_seconds: Option<u64>,
    /// Address-space ceiling in bytes, when the platform supports one.
    pub address_space_bytes: Option<u64>,
}

/// Address-space ceiling for the worker, in bytes.
pub const MAX_ADDRESS_SPACE: u64 = 4 * 1024 * 1024 * 1024;

/// CPU-seconds before the kernel terminates the worker.
pub const MAX_CPU_SECONDS: u64 = 120;

impl ResourceLimits {
    /// No ceilings at all.
    pub fn none() -> (limits: ResourceLimits)
        ensures
            limits == (ResourceLimits {
                core_dumps_disabled: false,
                cpu_seconds: None,
                address_space_bytes: None,
            }),
    {
        ResourceLimits { core_dumps_disabled: false, cpu_seconds: None, address_space_bytes: None }
    }

    /// The ceilings in force after the worker tried to set each one:
    /// whether core dumps were disabled, whether the CPU cap took, and
    /// whether an address-space (or, failing that, data-segment) cap took.
    pub fn from_outcomes(core_dumps_disabled: bool, cpu_capped: bool, memory_capped: bool) -> (limits:
        ResourceLimits)
        ensures
            limits.core_dumps_disabled == core_dumps_disabled,
            limits.cpu_seconds == (if cpu_capped {
                Some(MAX_CPU_SECONDS)
            } else {
                None
            }),
            limits.address_space_bytes == (if memory_capped {
                Some(MAX_ADDRESS_SPACE)
            } else {
                None
            }),
    {
        ResourceLimits {
            core_dumps_disabled,
            cpu_seconds: if cpu_capped {
                Some(MAX_CPU_SECONDS)
            } else {
                None
            },
            address_space_bytes: if memory_capped {
                Some(MAX_ADDRESS_SPACE)
            } else {
                None
            },
        }
    }

    /// Whether a memory ceiling is in force.
    pub fn memory_capped(&self) -> (capped: bool)
        ensures
            capped == self.address_space_bytes is Some,
    {
        self.address_space_bytes.is_some()
    }
}

/// What confinement the worker applied to itself.
#[derive(Debug, Clone, PartialEq, Eq)]
#[non_exhaustive]
pub enum SandboxStatus {
    /// The operating system confines the worker.
    Enforced {
        /// The confinement mechanism, such as "seatbelt".
        mechanism: String,
        /// The resource ceilings in force.
        resource_limits: ResourceLimits,
    },
    /// The worker runs with ordinary user privileges.
    NotEnforced {
        /// Why confinement could not be applied.
        reason: String,
        /// The resource ceilings in force.
        resource_limits: ResourceLimits,
    },
}

impl SandboxStatus {
    /// Combines the resource ceilings with the outcome of operating-system
    /// confinement: the mechanism's name when it held, the reason when not.
    pub fn from_outcome(resource_limits: ResourceLimits, confinement: Result<String, String>) -> (status:
        SandboxStatus)
        ensures
            match confinement {
                Ok(mechanism) => status == (SandboxStatus::Enforced { mechanism, resource_limits }),
                Err(reason) => status == (SandboxStatus::NotEnforced { reason, resource_limits }),
            },
    {
        match confinement {
            Ok(mechanism) => SandboxStatus::Enforced { mechanism, resource_limits },
            Err(reason) => SandboxStatus::NotEnforced { reason, resource_limits },
        }
    }

    /// Whether the operating system confines the worker.
    pub fn is_enforced(&self) -> (enforced: bool)
        ensures
            enforced == self is Enforced,
    {
        match self {
            SandboxStatus::Enforced { .. } => true,
            _ => false,
        }
    }
}

} // verus!
