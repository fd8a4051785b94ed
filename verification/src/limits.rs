//! Hard limits protecting against resource exhaustion: decompression bombs,
//! pathological object graphs, and content streams that render forever.
//!
//! Every limit lives here rather than being scattered through the parser, so
//! they can be audited and tuned in one place.
use vstd::prelude::*;

verus! {

/// Resource ceilings applied to a single document.
#[derive(Debug, Clone, Copy, PartialEq, Eq, Structural)]
pub struct Limits {
    /// Largest accepted decompressed stream, in bytes.
    pub max_decompressed_bytes: u64,
    /// Largest accepted ratio of decompressed to compressed size.
    ///
    /// The classic decompression bomb is small on disk and enormous in memory,
    /// so the ratio matters independently of the absolute size.
    pub max_decompression_ratio: u32,
    /// Maximum object-graph nesting depth.
    pub max_object_depth: u32,
    /// Maximum number of indirect objects.
    pub max_object_count: u64,
    /// Maximum wall-clock milliseconds spent rendering one page.
    pub max_page_render_ms: u32,
    /// Maximum pages in a document.
    pub max_pages: u32,
}

/// The generous defaults: every legitimate document in the test corpus is
/// admitted.
pub open spec fn default_limits() -> Limits {
    Limits {
        max_decompressed_bytes: 2147483648,
        max_decompression_ratio: 1000,
        max_object_depth: 256,
        max_object_count: 10000000,
        max_page_render_ms: 10000,
        max_pages: 100000,
    }
}

/// The tighter limits for untrusted contexts such as thumbnails.
pub open spec fn strict_limits() -> Limits {
    Limits {
        max_decompressed_bytes: 268435456,
        max_decompression_ratio: 100,
        max_object_depth: 64,
        max_object_count: 1000000,
        max_page_render_ms: 2000,
        max_pages: 10000,
    }
}

impl Default for Limits {
    /// Defaults chosen to admit every legitimate document encountered in the
    /// test corpus while refusing pathological ones.
    fn default() -> (limits: Limits)
        ensures
            limits == default_limits(),
            limits.max_decompressed_bytes == 2 * 1024 * 1024 * 1024,
            limits.max_decompression_ratio == 1000,
            limits.max_object_depth == 256,
            limits.max_object_count == 10_000_000,
            limits.max_page_render_ms == 10_000,
            limits.max_pages == 100_000,
    {
        Limits {
            max_decompressed_bytes: 2 * 1024 * 1024 * 1024,
            max_decompression_ratio: 1000,
            max_object_depth: 256,
            max_object_count: 10_000_000,
            max_page_render_ms: 10_000,
            max_pages: 100_000,
        }
    }
}

impl Limits {
    /// The name of the limit a decompression from `compressed` to
    /// `decompressed` bytes exceeds, if any.
    ///
    /// The absolute size is checked first. The ratio is the largest accepted
    /// one, compared exactly rather than through a rounded quotient: a stream
    /// is refused when its decompressed size exceeds the compressed size
    /// times the ratio. Zero-length input has no meaningful ratio, so only
    /// the absolute check applies to it.
    pub open spec fn spec_check_decompression(self, compressed: u64, decompressed: u64) -> Option<
        &'static str,
    > {
        if decompressed > self.max_decompressed_bytes {
            Some("max_decompressed_bytes")
        } else if compressed > 0 && decompressed > compressed * self.max_decompression_ratio {
            Some("max_decompression_ratio")
        } else {
            None
        }
    }

    /// Tighter limits for untrusted contexts such as thumbnail generation.
    pub fn strict() -> (limits: Limits)
        ensures
            limits == strict_limits(),
            limits.max_decompressed_bytes == 256 * 1024 * 1024,
            limits.max_decompression_ratio == 100,
            limits.max_object_depth == 64,
            limits.max_object_count == 1_000_000,
            limits.max_page_render_ms == 2_000,
            limits.max_pages == 10_000,
    {
        Limits {
            max_decompressed_bytes: 256 * 1024 * 1024,
            max_decompression_ratio: 100,
            max_object_depth: 64,
            max_object_count: 1_000_000,
            max_page_render_ms: 2_000,
            max_pages: 10_000,
        }
    }

    /// Checks a decompression against both the absolute and ratio limits.
    ///
    /// Returns the name of the limit that was exceeded, or `None` if allowed.
    pub fn check_decompression(&self, compressed: u64, decompressed: u64) -> (exceeded: Option<
        &'static str,
    >)
        ensures
            exceeded == self.spec_check_decompression(compressed, decompressed),
    {
        if decompressed > self.max_decompressed_bytes {
            return Some("max_decompressed_bytes");
        }
        if compressed == 0 {
            return None;
        }
        let ratio = self.max_decompression_ratio;
        assert(compressed * ratio <= 0xffff_ffff_ffff_ffff * 0xffff_ffff) by (nonlinear_arith)
            requires
                compressed <= 0xffff_ffff_ffff_ffffu64,
                ratio <= 0xffff_ffffu32,
        ;
        let ceiling: u128 = compressed as u128 * ratio as u128;
        if decompressed as u128 > ceiling {
            return Some("max_decompression_ratio");
        }
        None
    }
}

/// The strict limits are tighter than the defaults on every axis, and any
/// decompression the defaults refuse, the strict limits refuse too.
pub proof fn law_strict_is_tighter(compressed: u64, decompressed: u64)
    ensures
        strict_limits().max_decompressed_bytes < default_limits().max_decompressed_bytes,
        strict_limits().max_decompression_ratio < default_limits().max_decompression_ratio,
        strict_limits().max_object_depth < default_limits().max_object_depth,
        strict_limits().max_object_count < default_limits().max_object_count,
        strict_limits().max_page_render_ms < default_limits().max_page_render_ms,
        strict_limits().max_pages < default_limits().max_pages,
        default_limits().spec_check_decompression(compressed, decompressed) is Some
            ==> strict_limits().spec_check_decompression(compressed, decompressed) is Some,
{
}

/// A decompression within both ceilings is never refused, and one past either
/// is always refused.
pub proof fn law_decompression_refused_exactly_past_a_ceiling(
    limits: Limits,
    compressed: u64,
    decompressed: u64,
)
    ensures
        limits.spec_check_decompression(compressed, decompressed) is None <==> (decompressed
            <= limits.max_decompressed_bytes && (compressed == 0 || decompressed <= compressed
            * limits.max_decompression_ratio)),
{
}

/// Under the strict limits a stream may expand at most a hundredfold and to
/// at most 256 MiB; under the defaults, at most a thousandfold and to at
/// most 2 GiB. Anything past either ceiling is refused, anything within both
/// is admitted.
pub proof fn law_the_ceilings_are_what_they_say(compressed: u64, decompressed: u64)
    ensures
        strict_limits().spec_check_decompression(compressed, decompressed) is None <==> (
        decompressed <= 256 * 1024 * 1024 && (compressed == 0 || decompressed <= 100
            * compressed)),
        default_limits().spec_check_decompression(compressed, decompressed) is None <==> (
        decompressed <= 2 * 1024 * 1024 * 1024 && (compressed == 0 || decompressed <= 1000
            * compressed)),
        compressed > 0 && decompressed > 100 * compressed && decompressed <= 256 * 1024 * 1024
            ==> strict_limits().spec_check_decompression(compressed, decompressed) == Some(
            "max_decompression_ratio",
        ),
{
}

} // verus!
