use ui_events::edit::EditCommandEvent;

#[test]
fn edit_commands_are_copy_and_comparable() {
    let command = EditCommandEvent::MoveWordForwardAndModifySelection;
    let copied = command;
    assert_eq!(copied, EditCommandEvent::MoveWordForwardAndModifySelection);
}

#[test]
fn plain_delete_commands_are_deliberate_overlap() {
    assert_eq!(
        EditCommandEvent::DeleteBackward,
        EditCommandEvent::DeleteBackward
    );
    assert_eq!(
        EditCommandEvent::DeleteForward,
        EditCommandEvent::DeleteForward
    );
}
