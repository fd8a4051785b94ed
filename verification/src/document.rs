//! The document model: pages, geometry, and rotation.
use crate::decimal::{decimal, push_decimal};
use crate::error::{Error, Result};
use vstd::prelude::*;

verus! {

/// Zero-based index of a page within a document.
#[derive(Debug, Clone, Copy, PartialEq, Eq, PartialOrd, Ord, Hash, Structural)]
pub struct PageIndex(pub usize);

/// Page dimensions in PDF points (1/72 inch).
///
/// Each dimension is held as the IEEE-754 bit pattern of its `f32` value
/// (`f32::to_bits`), so the model can carry sizes exactly without doing any
/// arithmetic on them. Two sizes are equal when their encodings are.
#[derive(Debug, Clone, Copy, PartialEq, Eq, Structural)]
pub struct PageSize {
    /// Width in points, as `f32` bits.
    pub width_bits: u32,
    /// Height in points, as `f32` bits.
    pub height_bits: u32,
}

impl PageSize {
    /// US Letter, 612 x 792 points.
    pub fn letter() -> (size: PageSize)
        ensures
            size.width_bits == 0x4419_0000 && size.height_bits == 0x4446_0000,
    {
        PageSize { width_bits: 0x4419_0000, height_bits: 0x4446_0000 }
    }

    /// ISO A4, 595 x 842 points.
    pub fn a4() -> (size: PageSize)
        ensures
            size.width_bits == 0x4414_c000 && size.height_bits == 0x4452_8000,
    {
        PageSize { width_bits: 0x4414_c000, height_bits: 0x4452_8000 }
    }

    /// The size as it appears after `rotation` is applied.
    pub open spec fn spec_rotated(self, rotation: Rotation) -> PageSize {
        if rotation.spec_swaps_axes() {
            PageSize { width_bits: self.height_bits, height_bits: self.width_bits }
        } else {
            self
        }
    }

    /// Returns the size as it appears after `rotation` is applied.
    pub fn rotated(self, rotation: Rotation) -> (size: PageSize)
        ensures
            size == self.spec_rotated(rotation),
    {
        if rotation.swaps_axes() {
            PageSize { width_bits: self.height_bits, height_bits: self.width_bits }
        } else {
            self
        }
    }
}

/// Page rotation. PDF permits only right-angle multiples.
#[derive(Debug, Clone, Copy, PartialEq, Eq, Structural)]
pub enum Rotation {
    /// No rotation.
    Upright,
    /// 90 degrees clockwise.
    Clockwise90,
    /// 180 degrees.
    Half,
    /// 270 degrees clockwise (90 counter-clockwise).
    Clockwise270,
}

/// The rotation that turns by `degrees`, a multiple of 90 in `0..360`.
pub open spec fn rotation_of(degrees: int) -> Rotation {
    if degrees == 0 {
        Rotation::Upright
    } else if degrees == 90 {
        Rotation::Clockwise90
    } else if degrees == 180 {
        Rotation::Half
    } else {
        Rotation::Clockwise270
    }
}

/// The explanation given for a `/Rotate` value whose remainder modulo 360 is
/// `remainder`, not a right angle.
pub open spec fn rotation_refusal(remainder: int) -> Seq<char> {
    "page rotation "@ + decimal(remainder as nat) + " is not a multiple of 90"@
}

impl Default for Rotation {
    /// No rotation.
    fn default() -> (rotation: Rotation)
        ensures
            rotation == Rotation::Upright,
    {
        Rotation::Upright
    }
}

impl Rotation {
    /// The rotation in degrees clockwise.
    pub open spec fn spec_degrees(self) -> int {
        match self {
            Rotation::Upright => 0,
            Rotation::Clockwise90 => 90,
            Rotation::Half => 180,
            Rotation::Clockwise270 => 270,
        }
    }

    /// Whether this rotation exchanges width and height.
    pub open spec fn spec_swaps_axes(self) -> bool {
        self == Rotation::Clockwise90 || self == Rotation::Clockwise270
    }

    /// Two rotations one after the other.
    pub open spec fn spec_followed_by(self, other: Rotation) -> Rotation {
        rotation_of((self.spec_degrees() + other.spec_degrees()) % 360)
    }

    /// The rotation that undoes this one.
    pub open spec fn spec_inverse(self) -> Rotation {
        rotation_of((-self.spec_degrees()) % 360)
    }

    /// Builds a rotation from a PDF `/Rotate` value.
    ///
    /// The spec requires a multiple of 90, but real documents contain
    /// negative values and values beyond 360, so the value is normalized
    /// rather than rejected. Genuinely non-right-angle values are an error.
    pub fn from_degrees(degrees: i32) -> (rotation: Result<Rotation>)
        ensures
            (degrees as int) % 360 % 90 == 0 ==> (rotation matches Ok(r) && r == rotation_of(
                (degrees as int) % 360,
            )),
            (degrees as int) % 360 % 90 != 0 ==> (rotation matches Err(Error::NotAPdf { reason })
                && reason@ == rotation_refusal((degrees as int) % 360)),
    {
        let wrapped = degrees % 360;
        let remainder = if wrapped < 0 {
            wrapped + 360
        } else {
            wrapped
        };
        assert(remainder == (degrees as int) % 360);
        if remainder == 0 {
            Ok(Rotation::Upright)
        } else if remainder == 90 {
            Ok(Rotation::Clockwise90)
        } else if remainder == 180 {
            Ok(Rotation::Half)
        } else if remainder == 270 {
            Ok(Rotation::Clockwise270)
        } else {
            let mut reason = String::from_str("page rotation ");
            push_decimal(&mut reason, remainder as u128);
            reason.append(" is not a multiple of 90");
            Err(Error::NotAPdf { reason })
        }
    }

    /// The rotation in degrees clockwise.
    pub fn degrees(self) -> (degrees: i32)
        ensures
            degrees == self.spec_degrees(),
    {
        match self {
            Rotation::Upright => 0,
            Rotation::Clockwise90 => 90,
            Rotation::Half => 180,
            Rotation::Clockwise270 => 270,
        }
    }

    /// Whether this rotation exchanges width and height.
    pub fn swaps_axes(self) -> (swaps: bool)
        ensures
            swaps == self.spec_swaps_axes(),
    {
        match self {
            Rotation::Clockwise90 | Rotation::Clockwise270 => true,
            _ => false,
        }
    }

    /// Composes two rotations.
    pub fn followed_by(self, other: Rotation) -> (composed: Rotation)
        ensures
            composed == self.spec_followed_by(other),
    {
        // Both operands are already valid multiples of 90, so the sum is too.
        match Rotation::from_degrees(self.degrees() + other.degrees()) {
            Ok(rotation) => rotation,
            Err(_) => Rotation::Upright,
        }
    }
}

proof fn lemma_degrees(a: Rotation)
    ensures
        a.spec_degrees() == 0 || a.spec_degrees() == 90 || a.spec_degrees() == 180
            || a.spec_degrees() == 270,
        rotation_of(a.spec_degrees()) == a,
        rotation_of(a.spec_degrees()).spec_degrees() == a.spec_degrees(),
{
}

proof fn lemma_followed_by_degrees(a: Rotation, b: Rotation)
    ensures
        a.spec_followed_by(b).spec_degrees() == (a.spec_degrees() + b.spec_degrees()) % 360,
{
    lemma_degrees(a);
    lemma_degrees(b);
}

/// Each right angle from 0 to 270 degrees names the rotation by that angle,
/// so a `/Rotate` value is read as the turn it asks for.
pub proof fn law_a_right_angle_names_its_rotation(degrees: int)
    requires
        degrees == 0 || degrees == 90 || degrees == 180 || degrees == 270,
    ensures
        rotation_of(degrees).spec_degrees() == degrees,
{
}

/// Composing two rotations adds their angles modulo a full turn, and each
/// rotation is a right angle between 0 and 270 degrees.
pub proof fn law_composition_adds_degrees(a: Rotation, b: Rotation)
    ensures
        a.spec_followed_by(b).spec_degrees() == (a.spec_degrees() + b.spec_degrees()) % 360,
        a.spec_degrees() == 0 || a.spec_degrees() == 90 || a.spec_degrees() == 180
            || a.spec_degrees() == 270,
        (a == Rotation::Upright) == (a.spec_degrees() == 0),
        (a == Rotation::Clockwise90) == (a.spec_degrees() == 90),
        (a == Rotation::Half) == (a.spec_degrees() == 180),
        (a == Rotation::Clockwise270) == (a.spec_degrees() == 270),
{
    lemma_followed_by_degrees(a, b);
}

/// Rotations compose as the cyclic group of order four: composition is
/// commutative and associative, no rotation is its identity, every rotation
/// has an inverse, and four quarter turns come back to the start.
pub proof fn law_rotations_form_a_cyclic_group(a: Rotation, b: Rotation, c: Rotation)
    ensures
        a.spec_followed_by(b) == b.spec_followed_by(a),
        a.spec_followed_by(b).spec_followed_by(c) == a.spec_followed_by(b.spec_followed_by(c)),
        a.spec_followed_by(Rotation::Upright) == a,
        a.spec_followed_by(a.spec_inverse()) == Rotation::Upright,
        a.spec_followed_by(Rotation::Clockwise90).spec_followed_by(Rotation::Clockwise90).spec_followed_by(
            Rotation::Clockwise90,
        ).spec_followed_by(Rotation::Clockwise90) == a,
        rotation_of(a.spec_degrees()) == a,
{
    lemma_degrees(a);
    lemma_degrees(b);
    lemma_degrees(c);
    lemma_followed_by_degrees(a, b);
    lemma_followed_by_degrees(b, c);
    lemma_followed_by_degrees(a.spec_followed_by(b), c);
    lemma_followed_by_degrees(a, b.spec_followed_by(c));
    let ab = a.spec_followed_by(b);
    let bc = b.spec_followed_by(c);
    assert(ab.spec_followed_by(c) == rotation_of(ab.spec_followed_by(c).spec_degrees()));
    assert(a.spec_followed_by(bc) == rotation_of(a.spec_followed_by(bc).spec_degrees()));
    let q = Rotation::Clockwise90;
    let a1 = a.spec_followed_by(q);
    let a2 = a1.spec_followed_by(q);
    let a3 = a2.spec_followed_by(q);
    lemma_followed_by_degrees(a, q);
    lemma_followed_by_degrees(a1, q);
    lemma_followed_by_degrees(a2, q);
    lemma_followed_by_degrees(a3, q);
    lemma_degrees(a3.spec_followed_by(q));
}

/// Turning a page by `a` and then by `b` shows it as turning it by their
/// composition does.
pub proof fn law_rotated_sizes_compose(size: PageSize, a: Rotation, b: Rotation)
    ensures
        size.spec_rotated(a).spec_rotated(b) == size.spec_rotated(a.spec_followed_by(b)),
{
}

/// A single page.
#[derive(Debug, Clone, PartialEq, Eq, Structural)]
pub struct Page {
    /// Intrinsic size before rotation.
    pub size: PageSize,
    /// Rotation applied for display.
    pub rotation: Rotation,
}

/// An open document.
///
/// Currently holds only page geometry: the shape the command layer and the
/// worker protocol target.
#[derive(Debug, Clone)]
pub struct Document {
    pages: Vec<Page>,
}

impl View for Document {
    type V = Seq<Page>;

    closed spec fn view(&self) -> Seq<Page> {
        self.pages@
    }
}

/// The pages after the page at `from` is moved to position `to`, the pages
/// between shifting to make room.
pub open spec fn moved(pages: Seq<Page>, from: int, to: int) -> Seq<Page> {
    pages.remove(from).insert(to, pages[from])
}

/// Moving a page back where it came from restores the order, and a move never
/// changes how many pages there are.
pub proof fn law_move_back_restores_order(pages: Seq<Page>, from: int, to: int)
    requires
        0 <= from < pages.len(),
        0 <= to < pages.len(),
    ensures
        moved(pages, from, to).len() == pages.len(),
        moved(moved(pages, from, to), to, from) == pages,
{
    let once = moved(pages, from, to);
    assert(once[to] == pages[from]);
    let twice = moved(once, to, from);
    assert(twice =~= pages);
}

/// A move puts the moved page at its target and keeps every other page in
/// the order it had: taking the moved page out again leaves exactly the
/// other pages, in their order.
pub proof fn law_a_move_keeps_the_other_pages_in_order(pages: Seq<Page>, from: int, to: int)
    requires
        0 <= from < pages.len(),
        0 <= to < pages.len(),
    ensures
        moved(pages, from, to).len() == pages.len(),
        moved(pages, from, to)[to] == pages[from],
        moved(pages, from, to).remove(to) == pages.remove(from),
{
    assert(moved(pages, from, to).remove(to) =~= pages.remove(from));
}

impl Default for Document {
    /// A document with no pages.
    fn default() -> (document: Document)
        ensures
            document@ == Seq::<Page>::empty(),
    {
        Document { pages: Vec::new() }
    }
}

impl Document {
    /// Creates a document from a list of pages.
    pub fn from_pages(pages: Vec<Page>) -> (document: Document)
        ensures
            document@ == pages@,
    {
        Document { pages }
    }

    /// Number of pages.
    pub fn page_count(&self) -> (count: usize)
        ensures
            count == self@.len(),
    {
        self.pages.len()
    }

    /// Returns the page at `index`, or an error if it is out of range.
    pub fn page(&self, index: PageIndex) -> (page: Result<&Page>)
        ensures
            index.0 < self@.len() ==> (page matches Ok(p) && *p == self@[index.0 as int]),
            index.0 >= self@.len() ==> (page matches Err(Error::PageOutOfRange { requested, total })
                && requested == index.0 && total == self@.len()),
    {
        if index.0 < self.pages.len() {
            Ok(&self.pages[index.0])
        } else {
            Err(Error::PageOutOfRange { requested: index.0, total: self.pages.len() })
        }
    }

    /// Mutable access to a page.
    pub fn page_mut(&mut self, index: PageIndex) -> (page: Result<&mut Page>)
        ensures
            index.0 < old(self)@.len() ==> (page matches Ok(p) && *p == old(self)@[index.0 as int]
                && final(self)@ == old(self)@.update(index.0 as int, *final(p))),
            index.0 >= old(self)@.len() ==> (page matches Err(
                Error::PageOutOfRange { requested, total },
            ) && requested == index.0 && total == old(self)@.len() && final(self)@ == old(self)@),
    {
        let total = self.pages.len();
        if index.0 < total {
            Ok(&mut self.pages[index.0])
        } else {
            Err(Error::PageOutOfRange { requested: index.0, total })
        }
    }

    /// Moves a page to a new position, shifting the others.
    ///
    /// Both positions must name existing pages; a failed move leaves the
    /// document untouched.
    pub fn move_page(&mut self, from: PageIndex, to: PageIndex) -> (result: Result<()>)
        ensures
            from.0 >= old(self)@.len() ==> (result matches Err(
                Error::PageOutOfRange { requested, total },
            ) && requested == from.0 && total == old(self)@.len() && final(self)@ == old(self)@),
            from.0 < old(self)@.len() && to.0 >= old(self)@.len() ==> (result matches Err(
                Error::PageOutOfRange { requested, total },
            ) && requested == to.0 && total == old(self)@.len() && final(self)@ == old(self)@),
            from.0 < old(self)@.len() && to.0 < old(self)@.len() ==> (result is Ok && final(self)@
                == moved(old(self)@, from.0 as int, to.0 as int)),
            from.0 < old(self)@.len() && to.0 < old(self)@.len() ==> final(self)@.len() == old(self)@.len() && final(self)@[to.0 as int] == old(self)@[from.0 as int] && final(self)@.remove(to.0 as int) == old(self)@.remove(from.0 as int),
    {
        let total = self.pages.len();
        if from.0 >= total {
            return Err(Error::PageOutOfRange { requested: from.0, total });
        }
        if to.0 >= total {
            return Err(Error::PageOutOfRange { requested: to.0, total });
        }
        let page = self.pages.remove(from.0);
        self.pages.insert(to.0, page);
        proof {
            law_a_move_keeps_the_other_pages_in_order(old(self)@, from.0 as int, to.0 as int);
        }
        Ok(())
    }
}

} // verus!
