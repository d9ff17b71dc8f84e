use stickyflow::sticky::{
    advance_mode_switch, ends_switch, mode_for_compact, positions_after_switch, start_mode_switch,
    StepOutcome, StickyMode, StickyPositions, SwitchAction,
};

/// Runs a switch, answering each action with the outcome the callback gives,
/// and returns the actions in order.
fn run(target: StickyMode, outcome: impl Fn(SwitchAction) -> StepOutcome) -> Vec<SwitchAction> {
    let (mut switch, mut action) = start_mode_switch(target);
    let mut actions = vec![action];
    while !ends_switch(action) {
        let (next, next_action) = advance_mode_switch(switch, outcome(action));
        switch = next;
        action = next_action;
        actions.push(action);
    }
    actions
}

#[test]
fn compact_flag_picks_the_mode() {
    assert_eq!(mode_for_compact(true), StickyMode::Chip);
    assert_eq!(mode_for_compact(false), StickyMode::Expanded);
}

#[test]
fn a_successful_switch_hides_the_old_window_last() {
    let actions = run(StickyMode::Chip, |_| StepOutcome::Succeeded);
    assert_eq!(
        actions,
        vec![
            SwitchAction::SaveGeometry(StickyMode::Expanded),
            SwitchAction::PersistMode(StickyMode::Chip),
            SwitchAction::LoadPreferences,
            SwitchAction::ShowWindow(StickyMode::Chip),
            SwitchAction::HideWindow(StickyMode::Expanded),
            SwitchAction::ReportSuccess,
        ]
    );
}

#[test]
fn a_failed_show_rolls_the_mode_back_and_keeps_the_old_window() {
    let actions = run(StickyMode::Expanded, |action| match action {
        SwitchAction::ShowWindow(_) => StepOutcome::Failed,
        _ => StepOutcome::Succeeded,
    });
    assert_eq!(
        actions,
        vec![
            SwitchAction::SaveGeometry(StickyMode::Chip),
            SwitchAction::PersistMode(StickyMode::Expanded),
            SwitchAction::LoadPreferences,
            SwitchAction::ShowWindow(StickyMode::Expanded),
            SwitchAction::PersistModeBack(StickyMode::Chip),
            SwitchAction::ReportShowFailure,
        ]
    );
}

#[test]
fn a_failed_geometry_save_does_not_stop_the_switch() {
    let actions = run(StickyMode::Chip, |action| match action {
        SwitchAction::SaveGeometry(_) => StepOutcome::Failed,
        _ => StepOutcome::Succeeded,
    });
    assert_eq!(actions.last(), Some(&SwitchAction::ReportSuccess));
}

#[test]
fn a_failed_store_write_ends_the_switch() {
    let actions = run(StickyMode::Chip, |action| match action {
        SwitchAction::PersistMode(_) => StepOutcome::Failed,
        _ => StepOutcome::Succeeded,
    });
    assert_eq!(
        actions,
        vec![
            SwitchAction::SaveGeometry(StickyMode::Expanded),
            SwitchAction::PersistMode(StickyMode::Chip),
            SwitchAction::ReportStepFailure,
        ]
    );
}

fn positions(
    compact_x: Option<i64>,
    compact_y: Option<i64>,
    expanded_x: Option<i64>,
    expanded_y: Option<i64>,
) -> StickyPositions {
    StickyPositions { compact_x, compact_y, expanded_x, expanded_y }
}

#[test]
fn a_new_chip_opens_where_the_editor_stood() {
    let before = positions(None, None, Some(120), Some(-40));
    assert_eq!(
        positions_after_switch(before, StickyMode::Chip),
        positions(Some(120), Some(-40), Some(120), Some(-40))
    );
}

#[test]
fn a_placed_chip_keeps_its_own_position() {
    let before = positions(Some(5), None, Some(120), Some(-40));
    assert_eq!(
        positions_after_switch(before, StickyMode::Chip),
        positions(Some(5), Some(-40), Some(120), Some(-40))
    );
}

#[test]
fn a_new_editor_opens_where_the_chip_stood() {
    let before = positions(Some(300), Some(200), None, Some(9));
    assert_eq!(
        positions_after_switch(before, StickyMode::Expanded),
        positions(Some(300), Some(200), Some(300), Some(9))
    );
}

#[test]
fn unplaced_windows_stay_unplaced() {
    let before = positions(None, None, None, None);
    assert_eq!(positions_after_switch(before, StickyMode::Chip), before);
    assert_eq!(positions_after_switch(before, StickyMode::Expanded), before);
}

#[test]
fn switching_there_and_back_places_both_windows() {
    let before = positions(Some(1), None, None, Some(2));
    let there_and_back = positions_after_switch(
        positions_after_switch(before, StickyMode::Chip),
        StickyMode::Expanded,
    );
    let back_and_there = positions_after_switch(
        positions_after_switch(before, StickyMode::Expanded),
        StickyMode::Chip,
    );
    assert_eq!(there_and_back, positions(Some(1), Some(2), Some(1), Some(2)));
    assert_eq!(there_and_back, back_and_there);
}
