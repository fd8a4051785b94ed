//! Undoable mutations.
//!
//! Every change to a [`Document`] goes through a [`Command`]. This is the
//! mechanism behind undo/redo, and it also makes each mutation testable in
//! isolation from the UI.
use crate::decimal::{decimal, push_decimal};
use crate::document::{moved, Document, Page, PageIndex, Rotation};
use crate::error::{Error, Result};
use vstd::prelude::*;

verus! {

/// A reversible mutation.
///
/// `invert` must restore exactly the state that existed before `apply`: every
/// implementation proves it in [`Command::lemma_invert_undoes_apply`].
pub trait Command: Sized {
    /// The pages after the command is applied to `pages`, or the error it
    /// fails with.
    spec fn spec_apply(&self, pages: Seq<Page>) -> Result<Seq<Page>>;

    /// The pages after the command is reversed on `pages`, or the error it
    /// fails with.
    spec fn spec_invert(&self, pages: Seq<Page>) -> Result<Seq<Page>>;

    /// The text of [`Command::label`].
    spec fn spec_label(&self) -> Seq<char>;

    /// Applies the change. A failed command leaves the document untouched.
    fn apply(&self, doc: &mut Document) -> (result: Result<()>)
        ensures
            match self.spec_apply(old(doc)@) {
                Ok(after) => result is Ok && final(doc)@ == after,
                Err(error) => result == Err::<(), Error>(error) && final(doc)@ == old(doc)@,
            },
    ;

    /// Reverses a previously applied change. A failure leaves the document
    /// untouched.
    fn invert(&self, doc: &mut Document) -> (result: Result<()>)
        ensures
            match self.spec_invert(old(doc)@) {
                Ok(before) => result is Ok && final(doc)@ == before,
                Err(error) => result == Err::<(), Error>(error) && final(doc)@ == old(doc)@,
            },
    ;

    /// Short description for the undo menu ("Rotate page 3").
    fn label(&self) -> (text: String)
        ensures
            text@ == self.spec_label(),
    ;

    /// Inverting what applying produced gives back the pages it started from.
    proof fn lemma_invert_undoes_apply(&self, pages: Seq<Page>)
        ensures
            self.spec_apply(pages) matches Ok(after) ==> self.spec_invert(after) == Ok::<
                Seq<Page>,
                Error,
            >(pages),
    ;
}

/// Rotates a single page.
#[derive(Debug, Clone, Copy)]
pub struct RotatePage {
    /// Page to rotate.
    pub page: PageIndex,
    /// Rotation to apply, relative to the page's current rotation.
    pub by: Rotation,
}

/// `pages` with the rotation of the page at `index` composed with `by`.
pub open spec fn rotate_page_at(pages: Seq<Page>, index: int, by: Rotation) -> Seq<Page> {
    pages.update(
        index,
        Page { size: pages[index].size, rotation: pages[index].rotation.spec_followed_by(by) },
    )
}

/// Rotating a page turns that page alone, by exactly the given angle, and
/// changes neither its size nor any other page.
pub proof fn law_a_rotation_turns_one_page_by_its_angle(
    pages: Seq<Page>,
    index: int,
    by: Rotation,
    other: int,
)
    requires
        0 <= index < pages.len(),
    ensures
        rotate_page_at(pages, index, by).len() == pages.len(),
        rotate_page_at(pages, index, by)[index].size == pages[index].size,
        rotate_page_at(pages, index, by)[index].rotation.spec_degrees() == (
        pages[index].rotation.spec_degrees() + by.spec_degrees()) % 360,
        0 <= other < pages.len() && other != index ==> rotate_page_at(pages, index, by)[other]
            == pages[other],
{
    crate::document::law_composition_adds_degrees(pages[index].rotation, by);
}

/// Turns the page at `index` of `doc` by `by`.
fn turn_page(doc: &mut Document, index: PageIndex, by: Rotation) -> (result: Result<()>)
    ensures
        index.0 < old(doc)@.len() ==> (result is Ok && final(doc)@ == rotate_page_at(
            old(doc)@,
            index.0 as int,
            by,
        )),
        index.0 >= old(doc)@.len() ==> (result matches Err(Error::PageOutOfRange { requested, total })
            && requested == index.0 && total == old(doc)@.len() && final(doc)@ == old(doc)@),
{
    let page = doc.page_mut(index)?;
    page.rotation = page.rotation.followed_by(by);
    Ok(())
}

/// The error for a page index that `pages` does not have.
pub open spec fn out_of_range(index: PageIndex, pages: Seq<Page>) -> Error {
    Error::PageOutOfRange { requested: index.0, total: pages.len() as usize }
}

impl Command for RotatePage {
    open spec fn spec_apply(&self, pages: Seq<Page>) -> Result<Seq<Page>> {
        if self.page.0 < pages.len() {
            Ok(rotate_page_at(pages, self.page.0 as int, self.by))
        } else {
            Err(out_of_range(self.page, pages))
        }
    }

    open spec fn spec_invert(&self, pages: Seq<Page>) -> Result<Seq<Page>> {
        if self.page.0 < pages.len() {
            Ok(rotate_page_at(pages, self.page.0 as int, self.by.spec_inverse()))
        } else {
            Err(out_of_range(self.page, pages))
        }
    }

    open spec fn spec_label(&self) -> Seq<char> {
        "Rotate page "@ + decimal((self.page.0 + 1) as nat)
    }

    fn apply(&self, doc: &mut Document) -> (result: Result<()>) {
        turn_page(doc, self.page, self.by)
    }

    fn invert(&self, doc: &mut Document) -> (result: Result<()>) {
        // Rotations form a cyclic group of order 4, so the inverse of `by` is
        // whatever completes the turn back to zero.
        match Rotation::from_degrees(-self.by.degrees()) {
            Ok(inverse) => turn_page(doc, self.page, inverse),
            Err(error) => Err(error),
        }
    }

    fn label(&self) -> (text: String) {
        let mut text = String::from_str("Rotate page ");
        push_decimal(&mut text, self.page.0 as u128 + 1);
        text
    }

    proof fn lemma_invert_undoes_apply(&self, pages: Seq<Page>) {
        if let Ok(after) = self.spec_apply(pages) {
            let i = self.page.0 as int;
            let r = pages[i].rotation;
            assert(r.spec_followed_by(self.by).spec_followed_by(self.by.spec_inverse()) == r);
            assert(rotate_page_at(after, i, self.by.spec_inverse()) =~= pages);
        }
    }
}

/// Moves a page to a different position.
#[derive(Debug, Clone, Copy)]
pub struct MovePage {
    /// Current position.
    pub from: PageIndex,
    /// Target position.
    pub to: PageIndex,
}

impl Command for MovePage {
    open spec fn spec_apply(&self, pages: Seq<Page>) -> Result<Seq<Page>> {
        if self.from.0 >= pages.len() {
            Err(out_of_range(self.from, pages))
        } else if self.to.0 >= pages.len() {
            Err(out_of_range(self.to, pages))
        } else {
            Ok(moved(pages, self.from.0 as int, self.to.0 as int))
        }
    }

    open spec fn spec_invert(&self, pages: Seq<Page>) -> Result<Seq<Page>> {
        if self.to.0 >= pages.len() {
            Err(out_of_range(self.to, pages))
        } else if self.from.0 >= pages.len() {
            Err(out_of_range(self.from, pages))
        } else {
            Ok(moved(pages, self.to.0 as int, self.from.0 as int))
        }
    }

    open spec fn spec_label(&self) -> Seq<char> {
        "Move page "@ + decimal((self.from.0 + 1) as nat) + " to "@ + decimal((self.to.0 + 1) as nat)
    }

    fn apply(&self, doc: &mut Document) -> (result: Result<()>) {
        doc.move_page(self.from, self.to)
    }

    fn invert(&self, doc: &mut Document) -> (result: Result<()>) {
        doc.move_page(self.to, self.from)
    }

    fn label(&self) -> (text: String) {
        let mut text = String::from_str("Move page ");
        push_decimal(&mut text, self.from.0 as u128 + 1);
        text.append(" to ");
        push_decimal(&mut text, self.to.0 as u128 + 1);
        text
    }

    proof fn lemma_invert_undoes_apply(&self, pages: Seq<Page>) {
        if self.from.0 < pages.len() && self.to.0 < pages.len() {
            crate::document::law_move_back_restores_order(
                pages,
                self.from.0 as int,
                self.to.0 as int,
            );
        }
    }
}

/// Any of the page edits, so that one history can hold rotations and moves
/// side by side.
#[derive(Debug, Clone, Copy)]
pub enum PageEdit {
    /// A rotation of one page.
    Rotate(RotatePage),
    /// A move of one page to another position.
    Move(MovePage),
}

impl Command for PageEdit {
    open spec fn spec_apply(&self, pages: Seq<Page>) -> Result<Seq<Page>> {
        match self {
            PageEdit::Rotate(edit) => edit.spec_apply(pages),
            PageEdit::Move(edit) => edit.spec_apply(pages),
        }
    }

    open spec fn spec_invert(&self, pages: Seq<Page>) -> Result<Seq<Page>> {
        match self {
            PageEdit::Rotate(edit) => edit.spec_invert(pages),
            PageEdit::Move(edit) => edit.spec_invert(pages),
        }
    }

    open spec fn spec_label(&self) -> Seq<char> {
        match self {
            PageEdit::Rotate(edit) => edit.spec_label(),
            PageEdit::Move(edit) => edit.spec_label(),
        }
    }

    fn apply(&self, doc: &mut Document) -> (result: Result<()>) {
        match self {
            PageEdit::Rotate(edit) => edit.apply(doc),
            PageEdit::Move(edit) => edit.apply(doc),
        }
    }

    fn invert(&self, doc: &mut Document) -> (result: Result<()>) {
        match self {
            PageEdit::Rotate(edit) => edit.invert(doc),
            PageEdit::Move(edit) => edit.invert(doc),
        }
    }

    fn label(&self) -> (text: String) {
        match self {
            PageEdit::Rotate(edit) => edit.label(),
            PageEdit::Move(edit) => edit.label(),
        }
    }

    proof fn lemma_invert_undoes_apply(&self, pages: Seq<Page>) {
        match self {
            PageEdit::Rotate(edit) => edit.lemma_invert_undoes_apply(pages),
            PageEdit::Move(edit) => edit.lemma_invert_undoes_apply(pages),
        }
    }
}

/// Undo/redo history.
///
/// Linear: applying a new command discards whatever could have been redone.
/// A history of [`PageEdit`]s holds every kind of edit.
#[derive(Debug)]
pub struct CommandStack<C: Command> {
    done: Vec<Box<C>>,
    undone: Vec<Box<C>>,
}

impl<C: Command> Default for CommandStack<C> {
    /// An empty history.
    fn default() -> (stack: Self)
        ensures
            stack.done() == Seq::<Box<C>>::empty(),
            stack.undone() == Seq::<Box<C>>::empty(),
    {
        CommandStack { done: Vec::new(), undone: Vec::new() }
    }
}

impl<C: Command> CommandStack<C> {
    /// Applied commands, oldest first.
    pub closed spec fn done(&self) -> Seq<Box<C>> {
        self.done@
    }

    /// Undone commands, the next to redo last.
    pub closed spec fn undone(&self) -> Seq<Box<C>> {
        self.undone@
    }

    /// Creates an empty stack.
    pub fn new() -> (stack: Self)
        ensures
            stack.done() == Seq::<Box<C>>::empty(),
            stack.undone() == Seq::<Box<C>>::empty(),
    {
        CommandStack { done: Vec::new(), undone: Vec::new() }
    }

    /// Applies a command and records it for undo.
    ///
    /// A command that fails is not recorded, so a failed operation can never
    /// leave an un-undoable entry in the history.
    pub fn apply(&mut self, doc: &mut Document, command: Box<C>) -> (result: Result<()>)
        ensures
            match command.spec_apply(old(doc)@) {
                Ok(after) => result is Ok && final(doc)@ == after && final(self).done() == old(
                    self,
                ).done().push(command) && final(self).undone() == Seq::<Box<C>>::empty(),
                Err(error) => result == Err::<(), Error>(error) && final(doc)@ == old(doc)@
                    && final(self).done() == old(
                    self,
                ).done() && final(self).undone() == old(self).undone(),
            },
    {
        if let Err(error) = command.apply(doc) {
            return Err(error);
        }
        self.done.push(command);
        // A new action invalidates the redo branch — standard linear history.
        self.undone.clear();
        Ok(())
    }

    /// Reverses the most recent command. Returns its label.
    ///
    /// A command whose reversal fails is dropped from the history.
    pub fn undo(&mut self, doc: &mut Document) -> (result: Result<Option<String>>)
        ensures
            old(self).done().len() == 0 ==> (result matches Ok(None) && final(doc)@ == old(doc)@
                && final(self).done() == old(self).done() && final(self).undone() == old(
                self,
            ).undone()),
            old(self).done().len() > 0 ==> final(self).done() == old(self).done().drop_last(),
            old(self).done().len() > 0 ==> match old(self).done().last().spec_invert(old(doc)@) {
                Ok(before) => result matches Ok(Some(label)) && label@ == old(
                    self,
                ).done().last().spec_label() && final(doc)@ == before && final(self).undone()
                    == old(self).undone().push(old(self).done().last()),
                Err(error) => result == Err::<Option<String>, Error>(error) && final(doc)@ == old(
                    doc,
                )@ && final(self).undone() == old(
                    self,
                ).undone(),
            },
    {
        let command = match self.done.pop() {
            Some(command) => command,
            None => return Ok(None),
        };
        if let Err(error) = command.invert(doc) {
            return Err(error);
        }
        let label = command.label();
        self.undone.push(command);
        Ok(Some(label))
    }

    /// Re-applies the most recently undone command. Returns its label.
    ///
    /// A command whose re-application fails is dropped from the history.
    pub fn redo(&mut self, doc: &mut Document) -> (result: Result<Option<String>>)
        ensures
            old(self).undone().len() == 0 ==> (result matches Ok(None) && final(doc)@ == old(
                doc,
            )@ && final(self).done() == old(self).done() && final(self).undone() == old(
                self,
            ).undone()),
            old(self).undone().len() > 0 ==> final(self).undone() == old(
                self,
            ).undone().drop_last(),
            old(self).undone().len() > 0 ==> match old(self).undone().last().spec_apply(
                old(doc)@,
            ) {
                Ok(after) => result matches Ok(Some(label)) && label@ == old(
                    self,
                ).undone().last().spec_label() && final(doc)@ == after && final(self).done()
                    == old(self).done().push(old(self).undone().last()),
                Err(error) => result == Err::<Option<String>, Error>(error) && final(doc)@ == old(
                    doc,
                )@ && final(self).done() == old(
                    self,
                ).done(),
            },
    {
        let command = match self.undone.pop() {
            Some(command) => command,
            None => return Ok(None),
        };
        if let Err(error) = command.apply(doc) {
            return Err(error);
        }
        let label = command.label();
        self.done.push(command);
        Ok(Some(label))
    }

    /// Whether there is anything to undo.
    pub fn can_undo(&self) -> (can: bool)
        ensures
            can == (self.done().len() > 0),
    {
        !self.done.is_empty()
    }

    /// Whether there is anything to redo.
    pub fn can_redo(&self) -> (can: bool)
        ensures
            can == (self.undone().len() > 0),
    {
        !self.undone.is_empty()
    }
}

/// Undo after a successful apply restores exactly the document as it was,
/// and redo after that undo brings back exactly the applied state.
pub proof fn law_undo_restores_and_redo_reapplies<C: Command>(command: C, before: Seq<Page>)
    requires
        command.spec_apply(before) is Ok,
    ensures
        command.spec_invert(command.spec_apply(before)->Ok_0) == Ok::<Seq<Page>, Error>(before),
        command.spec_apply(command.spec_invert(command.spec_apply(before)->Ok_0)->Ok_0)
            == command.spec_apply(before),
{
    command.lemma_invert_undoes_apply(before);
}

/// Four quarter turns of a page bring it back to the orientation it started in.
pub proof fn law_four_quarter_turns_return_to_origin(pages: Seq<Page>, index: int)
    requires
        0 <= index < pages.len(),
    ensures
        rotate_page_at(
            rotate_page_at(
                rotate_page_at(
                    rotate_page_at(pages, index, Rotation::Clockwise90),
                    index,
                    Rotation::Clockwise90,
                ),
                index,
                Rotation::Clockwise90,
            ),
            index,
            Rotation::Clockwise90,
        ) == pages,
{
    let r = pages[index].rotation;
    crate::document::law_rotations_form_a_cyclic_group(r, Rotation::Upright, Rotation::Upright);
    let four = rotate_page_at(
        rotate_page_at(
            rotate_page_at(rotate_page_at(pages, index, Rotation::Clockwise90), index, Rotation::Clockwise90),
            index,
            Rotation::Clockwise90,
        ),
        index,
        Rotation::Clockwise90,
    );
    assert(four =~= pages);
}

} // verus!
