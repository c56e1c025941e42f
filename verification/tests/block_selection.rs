use warp_app::block_selection::{
    block_select, bookmark_down, bookmark_up, handle_ctrl_c_input_event, select_less_recent_block,
    select_more_recent_block, select_most_recent_blocks, BlockSelectAction, MostRecentBlocksSelection, BlockSelectOutcome,
    CtrlCActions, KeyboardBlockSelection,
};
use warp_app::terminal_view::BlockIndex;

fn mouse_up(i: usize, ctrl: bool, cmd: bool, shift: bool) -> BlockSelectAction {
    BlockSelectAction::MouseUp { block_index: BlockIndex(i), is_ctrl_down: ctrl, is_cmd_down: cmd, is_shift_down: shift }
}

#[test]
fn clicking_a_block_selects_it() {
    let mut down = None;
    let r = block_select(BlockSelectAction::MouseDown(Some(BlockIndex(2))), &mut down, true, false, false, false, false, true);
    assert_eq!(r, BlockSelectOutcome::MouseDownOnBlock(BlockIndex(2)));
    assert_eq!(down, Some(BlockIndex(2)));
    let r = block_select(mouse_up(2, false, false, false), &mut down, true, false, false, false, false, true);
    assert_eq!(r, BlockSelectOutcome::SelectSingleBlock(BlockIndex(2)));
    assert_eq!(down, None);
    // A second mouse-up without a mouse-down does nothing.
    let r = block_select(mouse_up(2, false, false, false), &mut down, false, false, false, false, false, true);
    assert_eq!(r, BlockSelectOutcome::Nothing);
}

#[test]
fn modifier_keys_toggle_or_extend() {
    let mut down = Some(BlockIndex(1));
    assert_eq!(
        block_select(mouse_up(1, false, true, false), &mut down, false, false, false, false, false, true),
        BlockSelectOutcome::ToggleBlock(BlockIndex(1))
    );
    let mut down = Some(BlockIndex(1));
    // On Linux and Windows ctrl toggles, cmd does not.
    assert_eq!(
        block_select(mouse_up(1, false, true, true), &mut down, false, false, false, false, false, false),
        BlockSelectOutcome::RangeSelect(BlockIndex(1))
    );
    let mut down = Some(BlockIndex(1));
    assert_eq!(
        block_select(mouse_up(1, false, false, true), &mut down, true, false, false, false, false, false),
        BlockSelectOutcome::SelectSingleBlock(BlockIndex(1))
    );
    let mut down = Some(BlockIndex(1));
    assert_eq!(
        block_select(mouse_up(3, false, false, false), &mut down, false, false, false, false, false, false),
        BlockSelectOutcome::Nothing
    );
    let mut down = Some(BlockIndex(1));
    assert_eq!(
        block_select(mouse_up(1, false, true, false), &mut down, false, false, false, true, false, true),
        BlockSelectOutcome::Nothing
    );
    assert_eq!(down, None);
}

#[test]
fn suggestions_and_menus_close_first() {
    let mut down = Some(BlockIndex(0));
    assert_eq!(
        block_select(BlockSelectAction::ClearAllBlocks, &mut down, true, true, true, false, false, true),
        BlockSelectOutcome::CloseInputSuggestions
    );
    assert_eq!(
        block_select(BlockSelectAction::ClearAllBlocks, &mut down, false, true, true, false, false, true),
        BlockSelectOutcome::CloseContextMenu
    );
    assert_eq!(down, Some(BlockIndex(0)));
    assert_eq!(
        block_select(BlockSelectAction::MouseDown(None), &mut down, false, false, false, false, false, true),
        BlockSelectOutcome::ClearAndFocusInput
    );
    assert_eq!(
        block_select(BlockSelectAction::ClearAllBlocks, &mut down, false, false, false, false, false, true),
        BlockSelectOutcome::ClearSelectedBlocks
    );
}

#[test]
fn ctrl_c_actions_per_platform() {
    assert_eq!(handle_ctrl_c_input_event(3, true, true, true, true, true), None);
    // On Windows a block-list text selection is copied and the command keeps running.
    assert_eq!(
        handle_ctrl_c_input_event(0, false, true, false, true, true),
        Some(CtrlCActions { copy: true, clear_block_selections: true, clear_alt_screen_selection: false, send_ctrl_c_to_pty: false })
    );
    assert_eq!(
        handle_ctrl_c_input_event(0, false, false, true, true, true),
        Some(CtrlCActions { copy: true, clear_block_selections: false, clear_alt_screen_selection: true, send_ctrl_c_to_pty: false })
    );
    // Selected blocks are copied and the command is still interrupted.
    assert_eq!(
        handle_ctrl_c_input_event(0, true, false, false, true, true),
        Some(CtrlCActions { copy: true, clear_block_selections: true, clear_alt_screen_selection: false, send_ctrl_c_to_pty: true })
    );
    // Elsewhere selections are cleared and nothing is copied.
    assert_eq!(
        handle_ctrl_c_input_event(0, false, true, true, true, false),
        Some(CtrlCActions { copy: false, clear_block_selections: true, clear_alt_screen_selection: false, send_ctrl_c_to_pty: true })
    );
    assert_eq!(
        handle_ctrl_c_input_event(0, false, false, true, false, false),
        Some(CtrlCActions { copy: false, clear_block_selections: false, clear_alt_screen_selection: true, send_ctrl_c_to_pty: false })
    );
}

#[test]
fn most_recent_blocks_selection() {
    assert_eq!(
        select_most_recent_blocks(0, Some(BlockIndex(0)), Some(BlockIndex(5))),
        MostRecentBlocksSelection::Clear
    );
    assert_eq!(select_most_recent_blocks(0, None, None), MostRecentBlocksSelection::Clear);
    // Without a visible block the selection stays as it was.
    assert_eq!(select_most_recent_blocks(3, None, None), MostRecentBlocksSelection::Unchanged);
    assert_eq!(
        select_most_recent_blocks(3, Some(BlockIndex(1)), Some(BlockIndex(5))),
        MostRecentBlocksSelection::Select(vec![BlockIndex(3), BlockIndex(4), BlockIndex(5)])
    );
    // Not before the first visible block.
    assert_eq!(
        select_most_recent_blocks(10, Some(BlockIndex(2)), Some(BlockIndex(4))),
        MostRecentBlocksSelection::Select(vec![BlockIndex(2), BlockIndex(3), BlockIndex(4)])
    );
    assert_eq!(
        select_most_recent_blocks(1, Some(BlockIndex(0)), Some(BlockIndex(0))),
        MostRecentBlocksSelection::Select(vec![BlockIndex(0)])
    );
}

#[test]
fn keyboard_block_navigation() {
    assert_eq!(select_less_recent_block(None, None, false), KeyboardBlockSelection::SelectMostRecentBlocks(1));
    assert_eq!(
        select_less_recent_block(Some(BlockIndex(4)), Some(BlockIndex(2)), true),
        KeyboardBlockSelection::RangeSelect(BlockIndex(2))
    );
    assert_eq!(
        select_less_recent_block(Some(BlockIndex(0)), None, false),
        KeyboardBlockSelection::SelectSingleBlock(BlockIndex(0))
    );
    assert_eq!(select_more_recent_block(None, None, true, false, true, false), KeyboardBlockSelection::Nothing);
    assert_eq!(
        select_more_recent_block(Some(BlockIndex(1)), Some(BlockIndex(3)), false, false, true, false),
        KeyboardBlockSelection::SelectSingleBlock(BlockIndex(3))
    );
    assert_eq!(
        select_more_recent_block(Some(BlockIndex(3)), None, false, false, false, false),
        KeyboardBlockSelection::ScrollMostRecentBlockIntoView
    );
    assert_eq!(
        select_more_recent_block(Some(BlockIndex(3)), None, true, false, true, false),
        KeyboardBlockSelection::ClearSelectionAndFocusInput
    );
    assert_eq!(
        select_more_recent_block(Some(BlockIndex(3)), Some(BlockIndex(3)), true, false, true, true),
        KeyboardBlockSelection::Nothing
    );
}

#[test]
fn bookmark_navigation_wraps_around() {
    let marks = vec![BlockIndex(8), BlockIndex(2), BlockIndex(5)];
    assert_eq!(bookmark_up(Some(BlockIndex(6)), &marks), Some(BlockIndex(5)));
    assert_eq!(bookmark_up(Some(BlockIndex(5)), &marks), Some(BlockIndex(2)));
    assert_eq!(bookmark_up(Some(BlockIndex(2)), &marks), Some(BlockIndex(8)));
    assert_eq!(bookmark_up(None, &marks), Some(BlockIndex(8)));
    assert_eq!(bookmark_down(Some(BlockIndex(2)), &marks), Some(BlockIndex(5)));
    assert_eq!(bookmark_down(Some(BlockIndex(8)), &marks), Some(BlockIndex(2)));
    assert_eq!(bookmark_down(None, &marks), Some(BlockIndex(2)));
    assert_eq!(bookmark_up(Some(BlockIndex(3)), &vec![]), None);
    assert_eq!(bookmark_down(None, &vec![]), None);
}
