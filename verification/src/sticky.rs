use vstd::prelude::*;

verus! {

/// The two forms of a note's sticky window.
#[derive(Debug, Clone, Copy, PartialEq, Eq, Structural)]
pub enum StickyMode {
    /// The full editor window.
    Expanded,
    /// The compact chip.
    Chip,
}

/// The other form.
pub open spec fn other_mode(mode: StickyMode) -> StickyMode {
    match mode {
        StickyMode::Expanded => StickyMode::Chip,
        StickyMode::Chip => StickyMode::Expanded,
    }
}

/// The form a sticky takes when its compact flag is `compact`.
pub fn mode_for_compact(compact: bool) -> (mode: StickyMode)
    ensures
        compact ==> mode == StickyMode::Chip,
        !compact ==> mode == StickyMode::Expanded,
{
    if compact {
        StickyMode::Chip
    } else {
        StickyMode::Expanded
    }
}

/// The stored screen positions of a sticky's two windows; a coordinate is
/// `None` until that window has been placed.
#[derive(Debug, Clone, Copy, PartialEq, Eq, Structural)]
pub struct StickyPositions {
    pub compact_x: Option<i64>,
    pub compact_y: Option<i64>,
    pub expanded_x: Option<i64>,
    pub expanded_y: Option<i64>,
}

/// A coordinate of the window being switched to: its own where it has one,
/// else that of the other window.
pub open spec fn taken_over(own: Option<i64>, other: Option<i64>) -> Option<i64> {
    match own {
        Some(v) => Some(v),
        None => other,
    }
}

/// The stored positions once a sticky is switched to `mode`: the window of
/// `mode` takes over each coordinate of the other window where it has none
/// of its own, and the other window's coordinates stay as they are.
pub open spec fn positions_for_mode(positions: StickyPositions, mode: StickyMode) -> StickyPositions {
    match mode {
        StickyMode::Chip => StickyPositions {
            compact_x: taken_over(positions.compact_x, positions.expanded_x),
            compact_y: taken_over(positions.compact_y, positions.expanded_y),
            ..positions
        },
        StickyMode::Expanded => StickyPositions {
            expanded_x: taken_over(positions.expanded_x, positions.compact_x),
            expanded_y: taken_over(positions.expanded_y, positions.compact_y),
            ..positions
        },
    }
}

fn take_over(own: Option<i64>, other: Option<i64>) -> (r: Option<i64>)
    ensures
        r == taken_over(own, other),
{
    match own {
        Some(v) => Some(v),
        None => other,
    }
}

/// The positions to store together with the new form when a sticky is
/// switched to `mode`.
pub fn positions_after_switch(positions: StickyPositions, mode: StickyMode) -> (r: StickyPositions)
    ensures
        r == positions_for_mode(positions, mode),
{
    match mode {
        StickyMode::Chip => StickyPositions {
            compact_x: take_over(positions.compact_x, positions.expanded_x),
            compact_y: take_over(positions.compact_y, positions.expanded_y),
            expanded_x: positions.expanded_x,
            expanded_y: positions.expanded_y,
        },
        StickyMode::Expanded => StickyPositions {
            compact_x: positions.compact_x,
            compact_y: positions.compact_y,
            expanded_x: take_over(positions.expanded_x, positions.compact_x),
            expanded_y: take_over(positions.expanded_y, positions.compact_y),
        },
    }
}

/// Switching to a form keeps every placed coordinate, places the new form's
/// window wherever either window was placed, changes nothing when done twice,
/// and, after a switch there and back, both windows stand where either stood.
pub proof fn lemma_switch_positions(positions: StickyPositions, mode: StickyMode)
    ensures
        ({
            let after = positions_for_mode(positions, mode);
            &&& positions_for_mode(after, mode) == after
            &&& positions.compact_x is Some ==> after.compact_x == positions.compact_x
            &&& positions.compact_y is Some ==> after.compact_y == positions.compact_y
            &&& positions.expanded_x is Some ==> after.expanded_x == positions.expanded_x
            &&& positions.expanded_y is Some ==> after.expanded_y == positions.expanded_y
            &&& mode == StickyMode::Chip ==> (after.compact_x is Some <==> (positions.compact_x is Some
                || positions.expanded_x is Some))
            &&& mode == StickyMode::Chip ==> (after.compact_y is Some <==> (positions.compact_y is Some
                || positions.expanded_y is Some))
            &&& mode == StickyMode::Expanded ==> (after.expanded_x is Some <==> (positions.expanded_x is Some
                || positions.compact_x is Some))
            &&& mode == StickyMode::Expanded ==> (after.expanded_y is Some <==> (positions.expanded_y is Some
                || positions.compact_y is Some))
        }),
        positions_for_mode(positions_for_mode(positions, mode), other_mode(mode))
            == positions_for_mode(positions_for_mode(positions, other_mode(mode)), mode),
{
}

/// Where a switch between the two forms of a sticky stands.
#[derive(Debug, Clone, Copy, PartialEq, Eq, Structural)]
pub enum SwitchStage {
    /// The geometry of the window being left is being saved.
    SavingGeometry,
    /// The new form is being written to the store.
    PersistingMode,
    /// The stored window preferences are being read.
    LoadingPreferences,
    /// The window of the new form is being shown.
    Showing,
    /// The window of the old form is being hidden.
    Hiding,
    /// The old form is being written back after the new window failed to show.
    RollingBack,
    /// Nothing is left to do.
    Finished,
}

/// A switch of a sticky to the form `target`.
#[derive(Debug, Clone, Copy, PartialEq, Eq, Structural)]
pub struct ModeSwitch {
    pub target: StickyMode,
    pub stage: SwitchStage,
}

/// How the last requested step went.
#[derive(Debug, Clone, Copy, PartialEq, Eq, Structural)]
pub enum StepOutcome {
    Succeeded,
    Failed,
}

/// What the shell is to do next.
#[derive(Debug, Clone, Copy, PartialEq, Eq, Structural)]
pub enum SwitchAction {
    /// Save the position and size of the window of this form; a failure does
    /// not stop the switch.
    SaveGeometry(StickyMode),
    /// Write this form to the store, with the positions that
    /// `positions_after_switch` gives for it.
    PersistMode(StickyMode),
    /// Read the stored window preferences of the note.
    LoadPreferences,
    /// Show the window of this form.
    ShowWindow(StickyMode),
    /// Hide the window of this form; a failure does not matter.
    HideWindow(StickyMode),
    /// Write this form back to the store; a failure does not matter.
    PersistModeBack(StickyMode),
    /// The switch is done.
    ReportSuccess,
    /// Writing the form or reading the preferences failed; report that error.
    ReportStepFailure,
    /// The new window could not be shown; report that the switch failed.
    ReportShowFailure,
}

/// The next stage and action of a switch, given how the last step went.
pub open spec fn switch_step(switch: ModeSwitch, outcome: StepOutcome) -> (SwitchStage, SwitchAction) {
    let target = switch.target;
    let source = other_mode(target);
    match switch.stage {
        SwitchStage::SavingGeometry => (SwitchStage::PersistingMode, SwitchAction::PersistMode(target)),
        SwitchStage::PersistingMode => match outcome {
            StepOutcome::Succeeded => (SwitchStage::LoadingPreferences, SwitchAction::LoadPreferences),
            StepOutcome::Failed => (SwitchStage::Finished, SwitchAction::ReportStepFailure),
        },
        SwitchStage::LoadingPreferences => match outcome {
            StepOutcome::Succeeded => (SwitchStage::Showing, SwitchAction::ShowWindow(target)),
            StepOutcome::Failed => (SwitchStage::Finished, SwitchAction::ReportStepFailure),
        },
        SwitchStage::Showing => match outcome {
            StepOutcome::Succeeded => (SwitchStage::Hiding, SwitchAction::HideWindow(source)),
            StepOutcome::Failed => (SwitchStage::RollingBack, SwitchAction::PersistModeBack(source)),
        },
        SwitchStage::Hiding => (SwitchStage::Finished, SwitchAction::ReportSuccess),
        SwitchStage::RollingBack => (SwitchStage::Finished, SwitchAction::ReportShowFailure),
        SwitchStage::Finished => (SwitchStage::Finished, SwitchAction::ReportSuccess),
    }
}

/// Starts switching a sticky to the form `target`: first the geometry of the
/// window being left is saved.
pub fn start_mode_switch(target: StickyMode) -> (r: (ModeSwitch, SwitchAction))
    ensures
        r.0 == (ModeSwitch { target, stage: SwitchStage::SavingGeometry }),
        r.1 == SwitchAction::SaveGeometry(other_mode(target)),
{
    let source = match target {
        StickyMode::Expanded => StickyMode::Chip,
        StickyMode::Chip => StickyMode::Expanded,
    };
    (ModeSwitch { target, stage: SwitchStage::SavingGeometry }, SwitchAction::SaveGeometry(source))
}

/// Moves a switch on after a step. The window being left is hidden only once
/// the new window is shown, and the stored form is written back only when the
/// new window failed to show, so one of the two windows stays visible and the
/// store names the visible one.
pub fn advance_mode_switch(switch: ModeSwitch, outcome: StepOutcome) -> (r: (ModeSwitch, SwitchAction))
    requires
        switch.stage != SwitchStage::Finished,
    ensures
        r.0.target == switch.target,
        (r.0.stage, r.1) == switch_step(switch, outcome),
{
    let target = switch.target;
    let source = match target {
        StickyMode::Expanded => StickyMode::Chip,
        StickyMode::Chip => StickyMode::Expanded,
    };
    let (stage, action) = match switch.stage {
        SwitchStage::SavingGeometry => (SwitchStage::PersistingMode, SwitchAction::PersistMode(target)),
        SwitchStage::PersistingMode => match outcome {
            StepOutcome::Succeeded => (SwitchStage::LoadingPreferences, SwitchAction::LoadPreferences),
            StepOutcome::Failed => (SwitchStage::Finished, SwitchAction::ReportStepFailure),
        },
        SwitchStage::LoadingPreferences => match outcome {
            StepOutcome::Succeeded => (SwitchStage::Showing, SwitchAction::ShowWindow(target)),
            StepOutcome::Failed => (SwitchStage::Finished, SwitchAction::ReportStepFailure),
        },
        SwitchStage::Showing => match outcome {
            StepOutcome::Succeeded => (SwitchStage::Hiding, SwitchAction::HideWindow(source)),
            StepOutcome::Failed => (SwitchStage::RollingBack, SwitchAction::PersistModeBack(source)),
        },
        SwitchStage::Hiding => (SwitchStage::Finished, SwitchAction::ReportSuccess),
        SwitchStage::RollingBack => (SwitchStage::Finished, SwitchAction::ReportShowFailure),
        SwitchStage::Finished => (SwitchStage::Finished, SwitchAction::ReportSuccess),
    };
    (ModeSwitch { target, stage }, action)
}

/// Whether an action ends a switch.
pub open spec fn is_final_action(action: SwitchAction) -> bool {
    action == SwitchAction::ReportSuccess || action == SwitchAction::ReportStepFailure || action
        == SwitchAction::ReportShowFailure
}

/// Whether an action ends a switch.
pub fn ends_switch(action: SwitchAction) -> (b: bool)
    ensures
        b == is_final_action(action),
{
    match action {
        SwitchAction::ReportSuccess => true,
        SwitchAction::ReportStepFailure => true,
        SwitchAction::ReportShowFailure => true,
        _ => false,
    }
}

/// The steps of a switch: hiding the old window follows only a successful
/// show of the new one, writing the old form back follows only a failed
/// show, success is reported only after hiding, and a failed show is reported
/// only after writing the old form back. Each switch ends after at most six
/// actions, each stage having a strictly larger rank than the one before.
pub proof fn lemma_switch_keeps_a_window_visible(switch: ModeSwitch, outcome: StepOutcome)
    requires
        switch.stage != SwitchStage::Finished,
    ensures
        switch_step(switch, outcome).1 == SwitchAction::HideWindow(other_mode(switch.target)) <==> (
        switch.stage == SwitchStage::Showing && outcome == StepOutcome::Succeeded),
        switch_step(switch, outcome).1 == SwitchAction::PersistModeBack(other_mode(switch.target))
            <==> (switch.stage == SwitchStage::Showing && outcome == StepOutcome::Failed),
        switch_step(switch, outcome).1 == SwitchAction::ReportSuccess <==> switch.stage
            == SwitchStage::Hiding,
        switch_step(switch, outcome).1 == SwitchAction::ReportShowFailure <==> switch.stage
            == SwitchStage::RollingBack,
        stage_rank(switch_step(switch, outcome).0) > stage_rank(switch.stage),
        is_final_action(switch_step(switch, outcome).1) <==> switch_step(switch, outcome).0
            == SwitchStage::Finished,
{
}

/// The order of the stages, used to show that a switch ends.
pub open spec fn stage_rank(stage: SwitchStage) -> int {
    match stage {
        SwitchStage::SavingGeometry => 0,
        SwitchStage::PersistingMode => 1,
        SwitchStage::LoadingPreferences => 2,
        SwitchStage::Showing => 3,
        SwitchStage::Hiding => 4,
        SwitchStage::RollingBack => 4,
        SwitchStage::Finished => 5,
    }
}

} // verus!
