//! Rasterization: the renderer interface, its errors, and the integer rules
//! that guard every render and search.
use crate::cache::{Tile, TileKey};
use crate::decimal::{decimal, push_decimal, push_signed_decimal, signed_decimal};
use crate::ext::path_text;
use vstd::prelude::*;

verus! {

/// Something that can rasterize pages.
///
/// Implemented by the PDFium-backed engine, and by fakes in tests so the cache
/// can be exercised without a real renderer.
pub trait Rasterizer {
    /// Error type produced by this rasterizer.
    type Error;

    /// Renders one page at the given zoom, returning raw BGRA pixels.
    fn rasterize(&self, key: TileKey) -> Result<Tile, Self::Error>;
}

/// Why the renderer could not be created or used.
#[derive(Debug)]
#[non_exhaustive]
pub enum RenderError {
    /// The PDFium library could not be found or loaded.
    LibraryUnavailable {
        /// Where the library was expected.
        path: std::path::PathBuf,
        /// The underlying loader error, as text.
        source: String,
    },
    /// The document could not be opened.
    OpenFailed(String),
    /// A page could not be rendered.
    PageFailed {
        /// Zero-based page index.
        page: usize,
        /// What went wrong.
        reason: String,
    },
    /// The requested page does not exist.
    PageOutOfRange {
        /// The page that was asked for.
        requested: usize,
        /// How many pages the document has.
        total: usize,
    },
    /// The rendered dimensions were not usable.
    ImplausibleDimensions {
        /// Computed width.
        width: i32,
        /// Computed height.
        height: i32,
    },
}

impl RenderError {
    /// The message for every variant but [`RenderError::LibraryUnavailable`],
    /// whose path is shown as the platform shows it; for that one, the text
    /// before the path, which the message follows with `": "` and the
    /// loader's explanation.
    pub open spec fn spec_message(&self) -> Seq<char> {
        match self {
            RenderError::LibraryUnavailable { .. } => "could not load PDFium from "@,
            RenderError::OpenFailed(reason) => "could not open document: "@ + reason@,
            RenderError::PageFailed { page, reason } => "could not render page "@ + decimal(
                *page as nat,
            ) + ": "@ + reason@,
            RenderError::PageOutOfRange { requested, total } => "page "@ + decimal(
                *requested as nat,
            ) + " is out of range (document has "@ + decimal(*total as nat) + " pages)"@,
            RenderError::ImplausibleDimensions { width, height } => "refusing to render a "@
                + signed_decimal(*width as int) + "x"@ + signed_decimal(*height as int)
                + " page"@,
        }
    }

    /// Whether `text` describes this error: exactly
    /// [`RenderError::spec_message`], except that for a library that could not
    /// be loaded the path, as the platform shows it, then `": "` and the
    /// loader's explanation follow.
    pub open spec fn is_described_by(&self, text: Seq<char>) -> bool {
        match self {
            RenderError::LibraryUnavailable { source, .. } => exists|shown: Seq<char>|
                text == self.spec_message() + shown + ": "@ + source@,
            _ => text == self.spec_message(),
        }
    }

    /// A human-readable description of the error.
    pub fn message(&self) -> (text: String)
        ensures
            self.is_described_by(text@),
    {
        match self {
            RenderError::LibraryUnavailable { path, source } => {
                let mut text = String::from_str("could not load PDFium from ");
                let shown = path_text(path);
                text.append(shown.as_str());
                text.append(": ");
                text.append(source.as_str());
                assert(text@ =~= self.spec_message() + shown@ + ": "@ + source@);
                text
            },
            RenderError::OpenFailed(reason) => {
                let mut text = String::from_str("could not open document: ");
                text.append(reason.as_str());
                text
            },
            RenderError::PageFailed { page, reason } => {
                let mut text = String::from_str("could not render page ");
                push_decimal(&mut text, *page as u128);
                text.append(": ");
                text.append(reason.as_str());
                text
            },
            RenderError::PageOutOfRange { requested, total } => {
                let mut text = String::from_str("page ");
                push_decimal(&mut text, *requested as u128);
                text.append(" is out of range (document has ");
                push_decimal(&mut text, *total as u128);
                text.append(" pages)");
                text
            },
            RenderError::ImplausibleDimensions { width, height } => {
                let mut text = String::from_str("refusing to render a ");
                push_signed_decimal(&mut text, *width as i64);
                text.append("x");
                push_signed_decimal(&mut text, *height as i64);
                text.append(" page");
                text
            },
        }
    }
}

/// Why a document could not be opened: a wrong or missing password is told
/// apart from every other failure, because the two call for different
/// responses from the user.
#[derive(Debug)]
pub enum OpenFailure {
    /// The password was missing or wrong.
    PasswordRequired,
    /// Anything else.
    Render(RenderError),
}

/// Largest number of hits returned for one search.
///
/// A one-letter query on a long document can match tens of thousands of
/// times; the caller is told when the count was capped.
pub const MAX_SEARCH_HITS: usize = 500;

/// Largest bitmap edge the renderer will produce, in pixels.
pub const MAX_BITMAP_EDGE: i32 = 20_000;

/// Converts a page number into the renderer's index type, refusing pages the
/// document does not have and pages beyond the index type's range.
pub fn page_index(page: usize, total: usize) -> (index: Result<i32, RenderError>)
    ensures
        page < total && page <= i32::MAX ==> index == Ok::<i32, RenderError>(page as i32),
        !(page < total && page <= i32::MAX) ==> (index matches Err(
            RenderError::PageOutOfRange { requested, total: t },
        ) && requested == page && t == total),
{
    if page >= total {
        return Err(RenderError::PageOutOfRange { requested: page, total });
    }
    if page > 2147483647usize {
        return Err(RenderError::PageOutOfRange { requested: page, total });
    }
    Ok(page as i32)
}

/// Whether a bitmap of `width` by `height` pixels may be produced.
pub open spec fn plausible_dimensions(width: i32, height: i32) -> bool {
    0 < width <= MAX_BITMAP_EDGE && 0 < height <= MAX_BITMAP_EDGE
}

/// Refuses bitmaps with a non-positive edge or an edge beyond
/// [`MAX_BITMAP_EDGE`], before any memory is allocated for them.
pub fn check_dimensions(width: i32, height: i32) -> (checked: Result<(), RenderError>)
    ensures
        plausible_dimensions(width, height) ==> checked is Ok,
        !plausible_dimensions(width, height) ==> (checked matches Err(
            RenderError::ImplausibleDimensions { width: w, height: h },
        ) && w == width && h == height),
{
    if width <= 0 || height <= 0 || width > MAX_BITMAP_EDGE || height > MAX_BITMAP_EDGE {
        return Err(RenderError::ImplausibleDimensions { width, height });
    }
    Ok(())
}

/// The answer to a search for `query` that needs no engine at all: an empty
/// query matches nothing and is not truncated. Any other query has to be
/// searched.
pub fn answer_without_searching<R>(query: &str) -> (answer: Option<(Vec<(usize, Vec<R>)>, bool)>)
    ensures
        query@.len() == 0 ==> (answer matches Some((hits, truncated)) && hits@.len() == 0
            && !truncated),
        query@.len() > 0 ==> answer is None,
{
    if query.is_empty() {
        Some((Vec::new(), false))
    } else {
        None
    }
}

/// Collects search hits page by page, in document order, up to
/// [`MAX_SEARCH_HITS`].
///
/// A hit is a page number and the rectangles covering the match. A match with
/// no usable rectangle is not a hit. Once the cap is reached, the next match
/// offered marks the result truncated and ends the search.
#[derive(Debug)]
pub struct SearchCollector<R> {
    hits: Vec<(usize, Vec<R>)>,
    truncated: bool,
}

impl<R> SearchCollector<R> {
    /// The hits collected so far.
    pub closed spec fn hits(&self) -> Seq<(usize, Vec<R>)> {
        self.hits@
    }

    /// Whether a match was turned away at the cap.
    pub closed spec fn is_truncated(&self) -> bool {
        self.truncated
    }

    /// What every collector guarantees: never more hits than the cap, and
    /// truncated only once the cap was reached.
    pub open spec fn is_bounded(&self) -> bool {
        &&& self.hits().len() <= MAX_SEARCH_HITS
        &&& self.is_truncated() ==> self.hits().len() == MAX_SEARCH_HITS
    }

    /// The collector's invariant, which is exactly [`SearchCollector::is_bounded`].
    #[verifier::type_invariant]
    spec fn wf(&self) -> bool {
        &&& self.hits@.len() <= MAX_SEARCH_HITS
        &&& self.truncated ==> self.hits@.len() == MAX_SEARCH_HITS
    }

    /// An empty collection.
    pub fn new() -> (collector: Self)
        ensures
            collector.is_bounded(),
            collector.hits() == Seq::<(usize, Vec<R>)>::empty(),
            !collector.is_truncated(),
    {
        SearchCollector { hits: Vec::new(), truncated: false }
    }

    /// Offers the next match: the page it is on and its usable rectangles.
    /// Returns whether the search should go on.
    pub fn offer(&mut self, page: usize, rects: Vec<R>) -> (keep_going: bool)
        ensures
            old(self).is_bounded(),
            final(self).is_bounded(),
            keep_going == (old(self).hits().len() < MAX_SEARCH_HITS),
            !keep_going ==> final(self).is_truncated() && final(self).hits() == old(self).hits(),
            keep_going ==> final(self).is_truncated() == old(self).is_truncated(),
            keep_going && rects@.len() > 0 ==> final(self).hits() == old(self).hits().push(
                (page, rects),
            ),
            keep_going && rects@.len() == 0 ==> final(self).hits() == old(self).hits(),
    {
        proof {
            use_type_invariant(&*self);
        }
        if self.hits.len() >= MAX_SEARCH_HITS {
            self.truncated = true;
            return false;
        }
        if rects.len() > 0 {
            let mut taken = SearchCollector::new();
            std::mem::swap(self, &mut taken);
            let SearchCollector { mut hits, truncated } = taken;
            hits.push((page, rects));
            *self = SearchCollector { hits, truncated };
        }
        true
    }

    /// Whether a match was turned away at the cap.
    pub fn truncated(&self) -> (truncated: bool)
        ensures
            truncated == self.is_truncated(),
            self.is_bounded(),
    {
        proof {
            use_type_invariant(self);
        }
        self.truncated
    }

    /// The hits in order, and whether the result was truncated.
    pub fn finish(self) -> (result: (Vec<(usize, Vec<R>)>, bool))
        ensures
            result.0@ == self.hits(),
            result.1 == self.is_truncated(),
            self.is_bounded(),
    {
        proof {
            use_type_invariant(&self);
        }
        let SearchCollector { hits, truncated } = self;
        (hits, truncated)
    }
}

} // verus!
