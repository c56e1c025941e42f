//! What is read back from, and written to, the local session store.
use vstd::prelude::*;

use std::sync::Arc;

verus! {

/// The data restored at start-up: the saved application state, the command
/// history and the known projects.
pub struct PersistedData<AppState, Command, Project> {
    /// Session restoration data.
    pub app_state: AppState,
    pub command_history: Vec<Command>,
    pub projects: Vec<Project>,
}

/// A finished block to be saved for the pane it ran in.
#[derive(Clone, Debug)]
pub struct BlockCompleted<Block> {
    pub pane_id: Vec<u8>,
    /// Whether the block was created locally (not in a remote session).
    pub is_local: bool,
    pub block: Arc<Block>,
}

/// The save request for a finished block: one is made only where sessions
/// are restored at start-up and this run of the application may save them.
pub fn block_completed_to_save<Block>(
    restore_session: bool,
    can_save_session: bool,
    pane_id: Vec<u8>,
    block: Arc<Block>,
    is_local: bool,
) -> (r: Option<BlockCompleted<Block>>)
    ensures
        r is Some <==> restore_session && can_save_session,
        r matches Some(c) ==> c.pane_id@ == pane_id@ && c.is_local == is_local && c.block == block,
{
    if restore_session && can_save_session {
        Some(BlockCompleted { pane_id, is_local, block })
    } else {
        None
    }
}

} // verus!
