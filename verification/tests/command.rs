use easypdf::command::{Command, CommandStack, MovePage, PageEdit, RotatePage};
use easypdf::document::{Document, Page, PageIndex, PageSize, Rotation};
use easypdf::error::Error;

fn doc(n: usize) -> Document {
    Document::from_pages(
        (0..n).map(|_| Page { size: PageSize::a4(), rotation: Rotation::Upright }).collect(),
    )
}

#[test]
fn undo_restores_exact_prior_state() {
    let mut d = doc(3);
    let mut stack = CommandStack::new();
    let before = d.clone();

    stack
        .apply(&mut d, Box::new(RotatePage { page: PageIndex(1), by: Rotation::Clockwise90 }))
        .unwrap();
    assert_ne!(d.page(PageIndex(1)).unwrap(), before.page(PageIndex(1)).unwrap());

    stack.undo(&mut d).unwrap();
    assert_eq!(d.page(PageIndex(1)).unwrap(), before.page(PageIndex(1)).unwrap());
}

#[test]
fn redo_reapplies_the_change() {
    let mut d = doc(2);
    let mut stack = CommandStack::new();
    stack.apply(&mut d, Box::new(RotatePage { page: PageIndex(0), by: Rotation::Half })).unwrap();
    stack.undo(&mut d).unwrap();
    stack.redo(&mut d).unwrap();
    assert_eq!(d.page(PageIndex(0)).unwrap().rotation, Rotation::Half);
}

#[test]
fn round_trip_through_four_rotations_returns_to_origin() {
    let mut d = doc(1);
    let mut stack = CommandStack::new();
    for _ in 0..4 {
        stack
            .apply(&mut d, Box::new(RotatePage { page: PageIndex(0), by: Rotation::Clockwise90 }))
            .unwrap();
    }
    assert_eq!(d.page(PageIndex(0)).unwrap().rotation, Rotation::Upright);
}

#[test]
fn move_page_undo_restores_order() {
    let mut d = doc(4);
    d.page_mut(PageIndex(0)).unwrap().rotation = Rotation::Half;
    let mut stack = CommandStack::new();

    stack.apply(&mut d, Box::new(MovePage { from: PageIndex(0), to: PageIndex(3) })).unwrap();
    assert_eq!(d.page(PageIndex(3)).unwrap().rotation, Rotation::Half);

    stack.undo(&mut d).unwrap();
    assert_eq!(d.page(PageIndex(0)).unwrap().rotation, Rotation::Half);
}

#[test]
fn failed_command_is_not_recorded_in_history() {
    let mut d = doc(2);
    let mut stack = CommandStack::new();
    let result =
        stack.apply(&mut d, Box::new(RotatePage { page: PageIndex(99), by: Rotation::Half }));
    assert!(result.is_err());
    assert!(!stack.can_undo());
}

#[test]
fn new_action_clears_the_redo_branch() {
    let mut d = doc(2);
    let mut stack = CommandStack::new();
    stack.apply(&mut d, Box::new(RotatePage { page: PageIndex(0), by: Rotation::Half })).unwrap();
    stack.undo(&mut d).unwrap();
    assert!(stack.can_redo());

    stack.apply(&mut d, Box::new(RotatePage { page: PageIndex(1), by: Rotation::Half })).unwrap();
    assert!(!stack.can_redo(), "redo branch must not survive a new action");
}

#[test]
fn undo_on_empty_stack_is_not_an_error() {
    let mut d = doc(1);
    let mut stack: CommandStack<RotatePage> = CommandStack::new();
    assert_eq!(stack.undo(&mut d).unwrap(), None);
}

#[test]
fn undo_and_redo_report_the_command_label() {
    let mut d = doc(12);
    let mut stack = CommandStack::new();
    stack
        .apply(&mut d, Box::new(RotatePage { page: PageIndex(9), by: Rotation::Clockwise270 }))
        .unwrap();
    assert_eq!(stack.undo(&mut d).unwrap(), Some("Rotate page 10".to_owned()));
    assert_eq!(stack.redo(&mut d).unwrap(), Some("Rotate page 10".to_owned()));
    assert_eq!(stack.redo(&mut d).unwrap(), None);
    assert_eq!(
        MovePage { from: PageIndex(0), to: PageIndex(10) }.label(),
        "Move page 1 to 11"
    );
}

#[test]
fn every_rotation_is_undone_exactly() {
    let all = [Rotation::Upright, Rotation::Clockwise90, Rotation::Half, Rotation::Clockwise270];
    for start in all {
        for by in all {
            let mut d = doc(2);
            d.page_mut(PageIndex(1)).unwrap().rotation = start;
            let command = RotatePage { page: PageIndex(1), by };
            command.apply(&mut d).unwrap();
            assert_eq!(d.page(PageIndex(1)).unwrap().rotation, start.followed_by(by));
            command.invert(&mut d).unwrap();
            assert_eq!(d.page(PageIndex(1)).unwrap().rotation, start);
        }
    }
}

#[test]
fn a_failed_undo_drops_the_command_and_leaves_the_document() {
    let mut d = doc(3);
    let mut stack = CommandStack::new();
    stack.apply(&mut d, Box::new(MovePage { from: PageIndex(0), to: PageIndex(2) })).unwrap();
    let mut other = doc(1);
    assert!(stack.undo(&mut other).is_err());
    assert_eq!(other.page_count(), 1);
    assert!(!stack.can_undo());
    assert!(!stack.can_redo());
}

#[test]
fn one_history_holds_rotations_and_moves() {
    let mut d = doc(3);
    let mut stack = CommandStack::new();
    stack
        .apply(
            &mut d,
            Box::new(PageEdit::Rotate(RotatePage { page: PageIndex(0), by: Rotation::Clockwise90 })),
        )
        .unwrap();
    stack
        .apply(&mut d, Box::new(PageEdit::Move(MovePage { from: PageIndex(0), to: PageIndex(2) })))
        .unwrap();
    assert_eq!(d.page(PageIndex(2)).unwrap().rotation, Rotation::Clockwise90);

    assert_eq!(stack.undo(&mut d).unwrap(), Some("Move page 1 to 3".to_owned()));
    assert_eq!(d.page(PageIndex(0)).unwrap().rotation, Rotation::Clockwise90);
    assert_eq!(stack.undo(&mut d).unwrap(), Some("Rotate page 1".to_owned()));
    assert_eq!(d.page(PageIndex(0)).unwrap().rotation, Rotation::Upright);
    assert_eq!(stack.redo(&mut d).unwrap(), Some("Rotate page 1".to_owned()));
    assert_eq!(d.page(PageIndex(0)).unwrap().rotation, Rotation::Clockwise90);
}

#[test]
fn the_history_reports_the_commands_own_error() {
    let mut d = doc(2);
    let mut stack = CommandStack::new();
    match stack.apply(&mut d, Box::new(MovePage { from: PageIndex(0), to: PageIndex(5) })) {
        Err(Error::PageOutOfRange { requested, total }) => assert_eq!((requested, total), (5, 2)),
        other => panic!("expected PageOutOfRange, got {other:?}"),
    }
    stack.apply(&mut d, Box::new(MovePage { from: PageIndex(1), to: PageIndex(0) })).unwrap();
    let mut small = doc(1);
    match stack.undo(&mut small) {
        Err(Error::PageOutOfRange { requested, total }) => assert_eq!((requested, total), (1, 1)),
        other => panic!("expected PageOutOfRange, got {other:?}"),
    }
}
