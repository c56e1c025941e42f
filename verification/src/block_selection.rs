//! The block list's block selection: clicks with modifier keys, and what
//! ctrl-c does with a selection.
use vstd::prelude::*;

use crate::terminal_view::BlockIndex;

verus! {

/// A mouse or keyboard action on the block list's block selection.
#[derive(Debug, Clone, Copy, PartialEq, Eq, Structural)]
pub enum BlockSelectAction {
    ClearAllBlocks,
    /// The mouse went down on a block, or on content that is not a block.
    MouseDown(Option<BlockIndex>),
    /// The mouse went up on a block, with these modifier keys held.
    MouseUp { block_index: BlockIndex, is_ctrl_down: bool, is_cmd_down: bool, is_shift_down: bool },
}

/// What a block-selection action does.
#[derive(Debug, Clone, Copy, PartialEq, Eq, Structural)]
pub enum BlockSelectOutcome {
    Nothing,
    /// The input suggestions were showing: they close, the selection stays.
    CloseInputSuggestions,
    /// The context menu was open: it closes, the selection stays.
    CloseContextMenu,
    ClearSelectedBlocks,
    /// The mouse went down on this block; the block-select tip counts as used.
    MouseDownOnBlock(BlockIndex),
    /// The mouse went down on content that cannot be selected: the selection
    /// is cleared and, unless the view has focus, the input gets it.
    ClearAndFocusInput,
    /// The block's selection is toggled.
    ToggleBlock(BlockIndex),
    /// The selection extends to the block.
    RangeSelect(BlockIndex),
    /// Only this block is selected.
    SelectSingleBlock(BlockIndex),
}

/// The outcome of a block-selection action, given the block the mouse last
/// went down on. Suggestions that are showing while nothing is selected close
/// first (unless the mouse went up); then an open context menu closes. A click
/// selects only when the mouse goes up on the block it went down on, no text
/// is selected there and no link is being cmd-clicked: the toggle key (cmd on
/// macOS, ctrl elsewhere) toggles the block, shift extends a selection, and
/// otherwise the block alone is selected.
pub open spec fn block_select_outcome(
    action: BlockSelectAction,
    mouse_down_block_index: Option<BlockIndex>,
    selection_is_empty: bool,
    input_suggestions_visible: bool,
    context_menu_open: bool,
    has_highlighted_link: bool,
    has_text_selection: bool,
    is_macos: bool,
) -> BlockSelectOutcome {
    if selection_is_empty && input_suggestions_visible && !(action is MouseUp) {
        BlockSelectOutcome::CloseInputSuggestions
    } else if context_menu_open {
        BlockSelectOutcome::CloseContextMenu
    } else {
        match action {
            BlockSelectAction::ClearAllBlocks => BlockSelectOutcome::ClearSelectedBlocks,
            BlockSelectAction::MouseDown(Some(i)) => BlockSelectOutcome::MouseDownOnBlock(i),
            BlockSelectAction::MouseDown(None) => BlockSelectOutcome::ClearAndFocusInput,
            BlockSelectAction::MouseUp { block_index, is_ctrl_down, is_cmd_down, is_shift_down } => {
                match mouse_down_block_index {
                    None => BlockSelectOutcome::Nothing,
                    Some(down) => if has_highlighted_link && is_cmd_down {
                        BlockSelectOutcome::Nothing
                    } else if down == block_index && !has_text_selection {
                        if (if is_macos { is_cmd_down } else { is_ctrl_down }) {
                            BlockSelectOutcome::ToggleBlock(block_index)
                        } else if is_shift_down && !selection_is_empty {
                            BlockSelectOutcome::RangeSelect(block_index)
                        } else {
                            BlockSelectOutcome::SelectSingleBlock(block_index)
                        }
                    } else {
                        BlockSelectOutcome::Nothing
                    },
                }
            },
        }
    }
}

/// The block the mouse last went down on, after an action: set when it goes
/// down on a block, forgotten when it goes up.
pub open spec fn mouse_down_after(
    action: BlockSelectAction,
    mouse_down_block_index: Option<BlockIndex>,
    outcome: BlockSelectOutcome,
) -> Option<BlockIndex> {
    match outcome {
        BlockSelectOutcome::CloseInputSuggestions => mouse_down_block_index,
        BlockSelectOutcome::CloseContextMenu => mouse_down_block_index,
        _ => match action {
            BlockSelectAction::MouseDown(Some(i)) => Some(i),
            BlockSelectAction::MouseUp { .. } => None,
            _ => mouse_down_block_index,
        },
    }
}

/// Decides what a block-selection action does, and keeps track of the block
/// the mouse went down on.
pub fn block_select(
    action: BlockSelectAction,
    mouse_down_block_index: &mut Option<BlockIndex>,
    selection_is_empty: bool,
    input_suggestions_visible: bool,
    context_menu_open: bool,
    has_highlighted_link: bool,
    has_text_selection: bool,
    is_macos: bool,
) -> (r: BlockSelectOutcome)
    ensures
        r == block_select_outcome(
            action,
            *old(mouse_down_block_index),
            selection_is_empty,
            input_suggestions_visible,
            context_menu_open,
            has_highlighted_link,
            has_text_selection,
            is_macos,
        ),
        *final(mouse_down_block_index) == mouse_down_after(action, *old(mouse_down_block_index), r),
{
    let is_mouse_up = match action {
        BlockSelectAction::MouseUp { .. } => true,
        _ => false,
    };
    if selection_is_empty && input_suggestions_visible && !is_mouse_up {
        return BlockSelectOutcome::CloseInputSuggestions;
    }
    if context_menu_open {
        return BlockSelectOutcome::CloseContextMenu;
    }
    match action {
        BlockSelectAction::ClearAllBlocks => BlockSelectOutcome::ClearSelectedBlocks,
        BlockSelectAction::MouseDown(Some(i)) => {
            *mouse_down_block_index = Some(i);
            BlockSelectOutcome::MouseDownOnBlock(i)
        },
        BlockSelectAction::MouseDown(None) => BlockSelectOutcome::ClearAndFocusInput,
        BlockSelectAction::MouseUp { block_index, is_ctrl_down, is_cmd_down, is_shift_down } => {
            match mouse_down_block_index.take() {
                None => BlockSelectOutcome::Nothing,
                Some(down) => {
                    if has_highlighted_link && is_cmd_down {
                        return BlockSelectOutcome::Nothing;
                    }
                    if down == block_index && !has_text_selection {
                        let toggle = if is_macos {
                            is_cmd_down
                        } else {
                            is_ctrl_down
                        };
                        if toggle {
                            BlockSelectOutcome::ToggleBlock(block_index)
                        } else if is_shift_down && !selection_is_empty {
                            BlockSelectOutcome::RangeSelect(block_index)
                        } else {
                            BlockSelectOutcome::SelectSingleBlock(block_index)
                        }
                    } else {
                        BlockSelectOutcome::Nothing
                    }
                },
            }
        },
    }
}

/// A block is selected by a click only when the mouse goes up on the block it
/// went down on: a mouse-up with no matching mouse-down selects nothing, and
/// after any mouse-up the next one selects nothing until the mouse goes down
/// again.
pub proof fn law_click_needs_mouse_down_on_same_block(
    action: BlockSelectAction,
    down: Option<BlockIndex>,
    selection_is_empty: bool,
    input_suggestions_visible: bool,
    context_menu_open: bool,
    has_highlighted_link: bool,
    has_text_selection: bool,
    is_macos: bool,
)
    requires
        action is MouseUp,
    ensures
        ({
            let r = block_select_outcome(
                action,
                down,
                selection_is_empty,
                input_suggestions_visible,
                context_menu_open,
                has_highlighted_link,
                has_text_selection,
                is_macos,
            );
            &&& (r is ToggleBlock || r is RangeSelect || r is SelectSingleBlock) ==> down == Some(
                action->block_index,
            )
            &&& !context_menu_open ==> mouse_down_after(action, down, r) is None
        }),
{
}

/// What ctrl-c does in the terminal view.
#[derive(Debug, Clone, Copy, PartialEq, Eq, Structural)]
pub struct CtrlCActions {
    /// Copy the selection to the clipboard.
    pub copy: bool,
    /// Clear the block and text selections of the block list.
    pub clear_block_selections: bool,
    /// Clear the alternate screen's selection.
    pub clear_alt_screen_selection: bool,
    /// Send ctrl-c to the running command.
    pub send_ctrl_c_to_pty: bool,
}

/// What ctrl-c does. On Windows it copies a text selection instead of
/// interrupting (selected blocks are copied and the command still
/// interrupted); elsewhere selections are only cleared. A long-running
/// command is interrupted unless a text selection was copied.
pub open spec fn ctrl_c_actions(
    has_copiable_block_selection: bool,
    has_block_list_selection: bool,
    has_alt_screen_selection: bool,
    is_long_running: bool,
    is_windows: bool,
) -> CtrlCActions {
    if is_windows {
        if has_block_list_selection {
            CtrlCActions { copy: true, clear_block_selections: true, clear_alt_screen_selection: false, send_ctrl_c_to_pty: false }
        } else if has_alt_screen_selection {
            CtrlCActions { copy: true, clear_block_selections: false, clear_alt_screen_selection: true, send_ctrl_c_to_pty: false }
        } else {
            CtrlCActions {
                copy: has_copiable_block_selection,
                clear_block_selections: has_copiable_block_selection,
                clear_alt_screen_selection: false,
                send_ctrl_c_to_pty: is_long_running,
            }
        }
    } else {
        let clear_blocks = has_block_list_selection || has_copiable_block_selection;
        CtrlCActions {
            copy: false,
            clear_block_selections: clear_blocks,
            clear_alt_screen_selection: !clear_blocks && has_alt_screen_selection,
            send_ctrl_c_to_pty: is_long_running,
        }
    }
}

/// Decides what ctrl-c pressed in the input does: nothing when it cleared a
/// non-empty input buffer, otherwise the terminal's ctrl-c (after which focus
/// is determined again).
pub fn handle_ctrl_c_input_event(
    cleared_buffer_len: usize,
    has_copiable_block_selection: bool,
    has_block_list_selection: bool,
    has_alt_screen_selection: bool,
    is_long_running: bool,
    is_windows: bool,
) -> (r: Option<CtrlCActions>)
    ensures
        r == (if cleared_buffer_len > 0 {
            None
        } else {
            Some(
                ctrl_c_actions(
                    has_copiable_block_selection,
                    has_block_list_selection,
                    has_alt_screen_selection,
                    is_long_running,
                    is_windows,
                ),
            )
        }),
{
    if cleared_buffer_len > 0 {
        return None;
    }
    let actions = if is_windows {
        if has_block_list_selection {
            CtrlCActions { copy: true, clear_block_selections: true, clear_alt_screen_selection: false, send_ctrl_c_to_pty: false }
        } else if has_alt_screen_selection {
            CtrlCActions { copy: true, clear_block_selections: false, clear_alt_screen_selection: true, send_ctrl_c_to_pty: false }
        } else {
            CtrlCActions {
                copy: has_copiable_block_selection,
                clear_block_selections: has_copiable_block_selection,
                clear_alt_screen_selection: false,
                send_ctrl_c_to_pty: is_long_running,
            }
        }
    } else {
        let clear_blocks = has_block_list_selection || has_copiable_block_selection;
        CtrlCActions {
            copy: false,
            clear_block_selections: clear_blocks,
            clear_alt_screen_selection: !clear_blocks && has_alt_screen_selection,
            send_ctrl_c_to_pty: is_long_running,
        }
    };
    Some(actions)
}

/// What ctrl-c does, over all selections: outside Windows it never copies and always
/// interrupts a running command; on Windows a copied text selection (of the block list or
/// the alternate screen) takes the place of the interrupt, and with nothing selected a
/// running command is interrupted. Whatever is copied is also cleared, and ctrl-c never
/// clears both kinds of selection at once.
pub proof fn law_ctrl_c(
    copiable_blocks: bool,
    block_list_selection: bool,
    alt_screen_selection: bool,
    long_running: bool,
    windows: bool,
)
    ensures
        ({
            let a = ctrl_c_actions(copiable_blocks, block_list_selection, alt_screen_selection, long_running, windows);
            &&& !windows ==> !a.copy && (a.send_ctrl_c_to_pty <==> long_running)
            &&& !windows ==> (a.clear_block_selections <==> (block_list_selection || copiable_blocks))
            &&& windows && (block_list_selection || alt_screen_selection) ==> a.copy && !a.send_ctrl_c_to_pty
            &&& windows && !block_list_selection && !alt_screen_selection ==> (a.send_ctrl_c_to_pty
                <==> long_running) && (a.copy <==> copiable_blocks)
            &&& a.copy ==> (a.clear_block_selections || a.clear_alt_screen_selection)
            &&& !(a.clear_block_selections && a.clear_alt_screen_selection)
            &&& a.clear_alt_screen_selection ==> alt_screen_selection
        }),
{
}

/// A completed click, the mouse going up on the block it went down on with no text selected,
/// no link under cmd and no menu or suggestions to close first, selects: with the platform's
/// toggle key (cmd on macOS, ctrl elsewhere) it toggles the block; otherwise with shift and
/// a selection it extends the selection to the block; otherwise it selects that block
/// alone. A mouse-up on another block than the one it went down on selects nothing.
pub proof fn law_click_modifiers(
    b: BlockIndex,
    down: BlockIndex,
    ctrl: bool,
    cmd: bool,
    shift: bool,
    selection_is_empty: bool,
    input_suggestions_visible: bool,
    has_highlighted_link: bool,
    is_macos: bool,
)
    requires
        !(has_highlighted_link && cmd),
    ensures
        ({
            let action = BlockSelectAction::MouseUp {
                block_index: b,
                is_ctrl_down: ctrl,
                is_cmd_down: cmd,
                is_shift_down: shift,
            };
            let r = block_select_outcome(
                action,
                Some(down),
                selection_is_empty,
                input_suggestions_visible,
                false,
                has_highlighted_link,
                false,
                is_macos,
            );
            let toggle = if is_macos {
                cmd
            } else {
                ctrl
            };
            &&& down == b && toggle ==> r == BlockSelectOutcome::ToggleBlock(b)
            &&& down == b && !toggle && shift && !selection_is_empty ==> r
                == BlockSelectOutcome::RangeSelect(b)
            &&& down == b && !toggle && !(shift && !selection_is_empty) ==> r
                == BlockSelectOutcome::SelectSingleBlock(b)
            &&& down != b ==> r == BlockSelectOutcome::Nothing
        }),
{
}

/// How a block selection changed.
#[derive(Copy, Clone)]
pub enum BlockSelectionDelta {
    /// A first selection, or a selection by click.
    New,
    /// The previous block was selected.
    Previous,
    /// The next block was selected.
    Next,
}

/// How a block selection was made, as reported for telemetry.
#[derive(Clone, Copy)]
pub struct BlockSelectionDetails<Cardinality> {
    cardinality: Cardinality,
    delta: BlockSelectionDelta,
    is_cmd_down: bool,
    is_shift_down: bool,
}

/// What moving the block selection with the keyboard does.
#[derive(Debug, Clone, Copy, PartialEq, Eq, Structural)]
pub enum KeyboardBlockSelection {
    Nothing,
    /// Nothing was selected: the most recent `n` blocks are selected.
    SelectMostRecentBlocks(usize),
    /// The selection extends to the block, which is scrolled into view.
    RangeSelect(BlockIndex),
    /// Only the block is selected, and it is scrolled into view.
    SelectSingleBlock(BlockIndex),
    /// The most recent block is scrolled into view.
    ScrollMostRecentBlockIntoView,
    /// The selection is cleared and the input gets focus.
    ClearSelectionAndFocusInput,
}

/// Moves the selection to the block before the last selected one (`tail`);
/// `previous` is the block list's previous visible block from it, if any.
/// Without a selection, the most recent block is selected.
pub fn select_less_recent_block(
    tail: Option<BlockIndex>,
    previous: Option<BlockIndex>,
    is_shift_down: bool,
) -> (r: KeyboardBlockSelection)
    ensures
        r == (match tail {
            None => KeyboardBlockSelection::SelectMostRecentBlocks(1),
            Some(t) => {
                let new_index = match previous {
                    Some(p) => p,
                    None => t,
                };
                if is_shift_down {
                    KeyboardBlockSelection::RangeSelect(new_index)
                } else {
                    KeyboardBlockSelection::SelectSingleBlock(new_index)
                }
            },
        }),
{
    match tail {
        None => KeyboardBlockSelection::SelectMostRecentBlocks(1),
        Some(t) => {
            let new_index = match previous {
                Some(p) => p,
                None => t,
            };
            if is_shift_down {
                KeyboardBlockSelection::RangeSelect(new_index)
            } else {
                KeyboardBlockSelection::SelectSingleBlock(new_index)
            }
        },
    }
}

/// Moves the selection to the block after the last selected one (`tail`);
/// `next` is the block list's next visible block from it, if any. At the most
/// recent block, a further move scrolls it into view, and then cmd-down hands
/// focus to the input (unless a command is running).
pub fn select_more_recent_block(
    tail: Option<BlockIndex>,
    next: Option<BlockIndex>,
    is_cmd_down: bool,
    is_shift_down: bool,
    is_most_recent_block_visible: bool,
    is_long_running_command: bool,
) -> (r: KeyboardBlockSelection)
    ensures
        r == (match tail {
            None => KeyboardBlockSelection::Nothing,
            Some(t) => {
                let new_index = match next {
                    Some(n) => n,
                    None => t,
                };
                if new_index != t {
                    if is_shift_down {
                        KeyboardBlockSelection::RangeSelect(new_index)
                    } else {
                        KeyboardBlockSelection::SelectSingleBlock(new_index)
                    }
                } else if !is_most_recent_block_visible {
                    KeyboardBlockSelection::ScrollMostRecentBlockIntoView
                } else if is_cmd_down && !is_long_running_command {
                    KeyboardBlockSelection::ClearSelectionAndFocusInput
                } else {
                    KeyboardBlockSelection::Nothing
                }
            },
        }),
{
    match tail {
        None => KeyboardBlockSelection::Nothing,
        Some(t) => {
            let new_index = match next {
                Some(n) => n,
                None => t,
            };
            if new_index.0 != t.0 {
                if is_shift_down {
                    KeyboardBlockSelection::RangeSelect(new_index)
                } else {
                    KeyboardBlockSelection::SelectSingleBlock(new_index)
                }
            } else if !is_most_recent_block_visible {
                KeyboardBlockSelection::ScrollMostRecentBlockIntoView
            } else if is_cmd_down && !is_long_running_command {
                KeyboardBlockSelection::ClearSelectionAndFocusInput
            } else {
                KeyboardBlockSelection::Nothing
            }
        },
    }
}

/// The first index selected for the most recent `count` blocks (`count > 0`):
/// `count - 1` before the last visible block, but not before the first one.
pub open spec fn most_recent_start(count: usize, first: usize, last: usize) -> int {
    let back = if last >= count - 1 {
        last - (count - 1)
    } else {
        0
    };
    if back >= first {
        back
    } else {
        first as int
    }
}

/// The blocks selected for the most recent `count` blocks (`count > 0`), given
/// the block list's first and last visible blocks: every index from
/// `most_recent_start` to the last visible block.
pub open spec fn most_recent_range(count: usize, first: BlockIndex, last: BlockIndex) -> Seq<BlockIndex> {
    let start = most_recent_start(count, first.0, last.0);
    Seq::new(
        if start <= last.0 {
            (last.0 - start + 1) as nat
        } else {
            0
        },
        |k: int| BlockIndex((start + k) as usize),
    )
}

/// What selecting the most recent blocks does to the block selection.
#[derive(Debug, Clone, PartialEq, Eq)]
pub enum MostRecentBlocksSelection {
    /// The selection is cleared.
    Clear,
    /// The selection is left as it was.
    Unchanged,
    /// The selection becomes exactly these blocks.
    Select(Vec<BlockIndex>),
}

/// Selects the most recent `count` blocks. A count of 0 clears the selection;
/// without a visible block the selection is left as it was; otherwise it
/// becomes every index from the start (see `most_recent_start`) to the last
/// visible block.
pub fn select_most_recent_blocks(count: usize, first: Option<BlockIndex>, last: Option<BlockIndex>) -> (r:
    MostRecentBlocksSelection)
    ensures
        r is Clear <==> count == 0,
        r is Unchanged <==> (count > 0 && (first is None || last is None)),
        r matches MostRecentBlocksSelection::Select(v) ==> v@ == most_recent_range(count, first->0, last->0),
{
    if count == 0 {
        return MostRecentBlocksSelection::Clear;
    }
    let (f, l) = match (first, last) {
        (Some(f), Some(l)) => (f.0, l.0),
        _ => {
            return MostRecentBlocksSelection::Unchanged;
        },
    };
    let back: usize = l.saturating_sub(count - 1);
    let start: usize = if back >= f {
        back
    } else {
        f
    };
    let ghost expected = most_recent_range(count, first->0, last->0);
    let mut v: Vec<BlockIndex> = Vec::new();
    if start <= l {
        let mut i: usize = start;
        loop
            invariant_except_break
                start <= i <= l,
                v@.len() == i - start,
                forall|k: int| 0 <= k < v@.len() ==> #[trigger] v@[k] == BlockIndex((start + k) as usize),
            ensures
                v@.len() == l - start + 1,
                forall|k: int| 0 <= k < v@.len() ==> #[trigger] v@[k] == BlockIndex((start + k) as usize),
            decreases l - i,
        {
            v.push(BlockIndex(i));
            if i == l {
                break;
            }
            i += 1;
        }
    }
    assert(v@ =~= expected);
    MostRecentBlocksSelection::Select(v)
}

/// Selecting the most recent `count` blocks selects at most `count` blocks,
/// ending with the last visible one and starting no earlier than the first.
pub proof fn law_most_recent_blocks_bounded(count: usize, first: BlockIndex, last: BlockIndex)
    requires
        count > 0,
        first.0 <= last.0,
    ensures
        ({
            let s = most_recent_range(count, first, last);
            &&& 0 < s.len() <= count
            &&& s.last() == last
            &&& s[0].0 >= first.0
        }),
{
}

/// Whether some bookmark is before `t`.
pub open spec fn has_bookmark_before(bookmarks: Seq<BlockIndex>, t: BlockIndex) -> bool {
    exists|k: int| 0 <= k < bookmarks.len() && (#[trigger] bookmarks[k]).0 < t.0
}

/// Whether some bookmark is after `t`.
pub open spec fn has_bookmark_after(bookmarks: Seq<BlockIndex>, t: BlockIndex) -> bool {
    exists|k: int| 0 <= k < bookmarks.len() && (#[trigger] bookmarks[k]).0 > t.0
}

/// Whether `x` is a bookmark, the latest of those before `bound` (of all of
/// them when `bound` is `None`).
pub open spec fn is_latest_bookmark(bookmarks: Seq<BlockIndex>, bound: Option<BlockIndex>, x: BlockIndex) -> bool {
    &&& bookmarks.contains(x)
    &&& bound matches Some(t) ==> x.0 < t.0
    &&& forall|k: int|
        0 <= k < bookmarks.len() && (bound matches Some(t) ==> (#[trigger] bookmarks[k]).0 < t.0) ==> bookmarks[k].0
            <= x.0
}

/// Whether `x` is a bookmark, the earliest of those after `bound` (of all of
/// them when `bound` is `None`).
pub open spec fn is_earliest_bookmark(bookmarks: Seq<BlockIndex>, bound: Option<BlockIndex>, x: BlockIndex) -> bool {
    &&& bookmarks.contains(x)
    &&& bound matches Some(t) ==> x.0 > t.0
    &&& forall|k: int|
        0 <= k < bookmarks.len() && (bound matches Some(t) ==> (#[trigger] bookmarks[k]).0 > t.0) ==> bookmarks[k].0
            >= x.0
}

/// The latest bookmark before `bound` (or of all, without a bound), if any.
fn latest_bookmark(bookmarks: &Vec<BlockIndex>, bound: Option<BlockIndex>) -> (r: Option<BlockIndex>)
    ensures
        match r {
            Some(x) => is_latest_bookmark(bookmarks@, bound, x),
            None => match bound {
                Some(t) => !has_bookmark_before(bookmarks@, t),
                None => bookmarks@.len() == 0,
            },
        },
{
    let mut best: Option<BlockIndex> = None;
    let mut i: usize = 0;
    while i < bookmarks.len()
        invariant
            i <= bookmarks@.len(),
            best matches Some(x) ==> is_latest_bookmark(bookmarks@.take(i as int), bound, x),
            best is None ==> i == 0 || bound is Some,
            best is None && bound is Some ==> forall|k: int|
                0 <= k < i ==> (#[trigger] bookmarks@[k]).0 >= (bound->0).0,
        decreases bookmarks@.len() - i,
    {
        let b = bookmarks[i];
        let eligible = match bound {
            Some(t) => b.0 < t.0,
            None => true,
        };
        let ghost prev = bookmarks@.take(i as int);
        let ghost next = bookmarks@.take(i + 1);
        assert(next == prev.push(b));
        if eligible {
            match best {
                Some(x) => {
                    if b.0 > x.0 {
                        best = Some(b);
                    }
                },
                None => {
                    best = Some(b);
                },
            }
        }
        proof {
            match best {
                Some(x) => {
                    assert(next[i as int] == b);
                    if x == b {
                        assert(next.contains(b));
                    } else {
                        assert(prev.contains(x));
                        let j = choose|j: int| 0 <= j < prev.len() && prev[j] == x;
                        assert(next[j] == x);
                    }
                    assert forall|k: int|
                        0 <= k < next.len() && (bound matches Some(t) ==> (#[trigger] next[k]).0 < t.0)
                            implies next[k].0 <= x.0 by {
                        if k < i {
                            assert(next[k] == prev[k]);
                        }
                    }
                },
                None => {},
            }
        }
        i += 1;
    }
    proof {
        assert(bookmarks@.take(bookmarks@.len() as int) =~= bookmarks@);
        if best is None && bound is Some {
            assert forall|k: int| 0 <= k < bookmarks@.len() implies !((#[trigger] bookmarks@[k]).0
                < (bound->0).0) by {}
        }
    }
    best
}

/// The earliest bookmark after `bound` (or of all, without a bound), if any.
fn earliest_bookmark(bookmarks: &Vec<BlockIndex>, bound: Option<BlockIndex>) -> (r: Option<BlockIndex>)
    ensures
        match r {
            Some(x) => is_earliest_bookmark(bookmarks@, bound, x),
            None => match bound {
                Some(t) => !has_bookmark_after(bookmarks@, t),
                None => bookmarks@.len() == 0,
            },
        },
{
    let mut best: Option<BlockIndex> = None;
    let mut i: usize = 0;
    while i < bookmarks.len()
        invariant
            i <= bookmarks@.len(),
            best matches Some(x) ==> is_earliest_bookmark(bookmarks@.take(i as int), bound, x),
            best is None ==> i == 0 || bound is Some,
            best is None && bound is Some ==> forall|k: int|
                0 <= k < i ==> (#[trigger] bookmarks@[k]).0 <= (bound->0).0,
        decreases bookmarks@.len() - i,
    {
        let b = bookmarks[i];
        let eligible = match bound {
            Some(t) => b.0 > t.0,
            None => true,
        };
        let ghost prev = bookmarks@.take(i as int);
        let ghost next = bookmarks@.take(i + 1);
        assert(next == prev.push(b));
        if eligible {
            match best {
                Some(x) => {
                    if b.0 < x.0 {
                        best = Some(b);
                    }
                },
                None => {
                    best = Some(b);
                },
            }
        }
        proof {
            match best {
                Some(x) => {
                    assert(next[i as int] == b);
                    if x == b {
                        assert(next.contains(b));
                    } else {
                        assert(prev.contains(x));
                        let j = choose|j: int| 0 <= j < prev.len() && prev[j] == x;
                        assert(next[j] == x);
                    }
                    assert forall|k: int|
                        0 <= k < next.len() && (bound matches Some(t) ==> (#[trigger] next[k]).0 > t.0)
                            implies next[k].0 >= x.0 by {
                        if k < i {
                            assert(next[k] == prev[k]);
                        }
                    }
                },
                None => {},
            }
        }
        i += 1;
    }
    proof {
        assert(bookmarks@.take(bookmarks@.len() as int) =~= bookmarks@);
        if best is None && bound is Some {
            assert forall|k: int| 0 <= k < bookmarks@.len() implies !((#[trigger] bookmarks@[k]).0
                > (bound->0).0) by {}
        }
    }
    best
}

/// The bookmarked block to jump to upwards from the last selected block
/// (`tail`): the latest bookmark before it, wrapping around to the latest
/// bookmark of all when there is none before it or nothing is selected.
/// `None` when no block is bookmarked.
pub fn bookmark_up(tail: Option<BlockIndex>, bookmarks: &Vec<BlockIndex>) -> (r: Option<BlockIndex>)
    ensures
        bookmarks@.len() == 0 <==> r is None,
        r matches Some(x) ==> if tail matches Some(t) && has_bookmark_before(bookmarks@, t) {
            is_latest_bookmark(bookmarks@, tail, x)
        } else {
            is_latest_bookmark(bookmarks@, None, x)
        },
{
    let below = match tail {
        Some(t) => latest_bookmark(bookmarks, Some(t)),
        None => None,
    };
    match below {
        Some(x) => {
            proof {
                let t = tail->0;
                let j = choose|j: int| 0 <= j < bookmarks@.len() && bookmarks@[j] == x;
                assert(bookmarks@[j].0 < t.0);
            }
            Some(x)
        },
        None => {
            let r = latest_bookmark(bookmarks, None);
            proof {
                if r is Some {
                    let x = r->0;
                    let j = choose|j: int| 0 <= j < bookmarks@.len() && bookmarks@[j] == x;
                    assert(bookmarks@.len() > 0);
                }
            }
            r
        },
    }
}

/// The bookmarked block to jump to downwards from the last selected block
/// (`tail`): the earliest bookmark after it, wrapping around to the earliest
/// bookmark of all when there is none after it or nothing is selected.
/// `None` when no block is bookmarked.
pub fn bookmark_down(tail: Option<BlockIndex>, bookmarks: &Vec<BlockIndex>) -> (r: Option<BlockIndex>)
    ensures
        bookmarks@.len() == 0 <==> r is None,
        r matches Some(x) ==> if tail matches Some(t) && has_bookmark_after(bookmarks@, t) {
            is_earliest_bookmark(bookmarks@, tail, x)
        } else {
            is_earliest_bookmark(bookmarks@, None, x)
        },
{
    let above = match tail {
        Some(t) => earliest_bookmark(bookmarks, Some(t)),
        None => None,
    };
    match above {
        Some(x) => {
            proof {
                let t = tail->0;
                let j = choose|j: int| 0 <= j < bookmarks@.len() && bookmarks@[j] == x;
                assert(bookmarks@[j].0 > t.0);
            }
            Some(x)
        },
        None => {
            let r = earliest_bookmark(bookmarks, None);
            proof {
                if r is Some {
                    let x = r->0;
                    let j = choose|j: int| 0 <= j < bookmarks@.len() && bookmarks@[j] == x;
                    assert(bookmarks@.len() > 0);
                }
            }
            r
        },
    }
}

} // verus!
