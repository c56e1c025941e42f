//! Syncing input between terminals: what a terminal sends to the terminals
//! synced with it, and what each of them does with it.
use vstd::prelude::*;

use std::sync::Arc;

verus! {

/// Input propagated from one terminal to the terminals synced with it.
#[derive(Clone)]
pub enum SyncInputType {
    /// The input editor's contents changed.
    InputEditorContentsChanged { contents: Arc<String> },
    /// The user typed into the alt-screen or a long-running command.
    NonEditorTyped { chars: Arc<Vec<u8>> },
    /// A command was run in all synced terminals with a visible input editor.
    RanCommand,
    /// This terminal should be synced, without touching its editor or PTY.
    StartSyncing,
    /// This terminal should stop syncing.
    StopSyncing,
}

/// The state of a terminal's input, as syncing input between terminals tells
/// them apart.
#[derive(Debug, Clone, Copy, PartialEq, Eq, Structural)]
pub enum TerminalInputState {
    /// The input editor is shown.
    InputEditor,
    /// The shell has not finished starting.
    NotBootstrapped,
    /// A command is running.
    LongRunningCommand,
    /// A program uses the alternate screen.
    AltScreen,
}

/// Input sent from one terminal to those synced with it; `source_view_id` is
/// the view it came from.
#[derive(Clone)]
pub struct SyncEvent {
    pub source_view_id: usize,
    pub data: SyncInputType,
}

/// What a synced terminal does with input from another one.
#[derive(Clone)]
pub enum SyncInputEffect {
    Nothing,
    /// Puts these contents into the input editor.
    SendInputBufferToEditor(Arc<String>),
    /// Writes these bytes to the terminal's process.
    WriteToPty(Arc<Vec<u8>>),
    /// Runs the command in the input editor.
    RunCommandInInput,
}

/// The effect of `event` on the view `view_id` whose input is in `state`: a
/// view ignores its own events; editor contents go to an editor (or a shell
/// still starting), typed characters to a running program, and a command run
/// to an editor.
pub open spec fn sync_input_effect(view_id: usize, state: TerminalInputState, event: SyncEvent) -> SyncInputEffect {
    if event.source_view_id == view_id {
        SyncInputEffect::Nothing
    } else {
        match event.data {
            SyncInputType::InputEditorContentsChanged { contents } => if state is InputEditor || state
                is NotBootstrapped {
                SyncInputEffect::SendInputBufferToEditor(contents)
            } else {
                SyncInputEffect::Nothing
            },
            SyncInputType::NonEditorTyped { chars } => if state is LongRunningCommand || state
                is AltScreen {
                SyncInputEffect::WriteToPty(chars)
            } else {
                SyncInputEffect::Nothing
            },
            SyncInputType::RanCommand => if state is InputEditor {
                SyncInputEffect::RunCommandInInput
            } else {
                SyncInputEffect::Nothing
            },
            SyncInputType::StartSyncing => SyncInputEffect::Nothing,
            SyncInputType::StopSyncing => SyncInputEffect::Nothing,
        }
    }
}

/// Decides what the view `view_id`, whose input is in `state`, does with a
/// sync event.
pub fn receive_sync_input_event(view_id: usize, state: TerminalInputState, event: SyncEvent) -> (r:
    SyncInputEffect)
    ensures
        r == sync_input_effect(view_id, state, event),
{
    if event.source_view_id == view_id {
        return SyncInputEffect::Nothing;
    }
    match event.data {
        SyncInputType::InputEditorContentsChanged { contents } => match state {
            TerminalInputState::InputEditor | TerminalInputState::NotBootstrapped => {
                SyncInputEffect::SendInputBufferToEditor(contents)
            },
            _ => SyncInputEffect::Nothing,
        },
        SyncInputType::NonEditorTyped { chars } => match state {
            TerminalInputState::LongRunningCommand | TerminalInputState::AltScreen => {
                SyncInputEffect::WriteToPty(chars)
            },
            _ => SyncInputEffect::Nothing,
        },
        SyncInputType::RanCommand => match state {
            TerminalInputState::InputEditor => SyncInputEffect::RunCommandInInput,
            _ => SyncInputEffect::Nothing,
        },
        SyncInputType::StartSyncing | SyncInputType::StopSyncing => SyncInputEffect::Nothing,
    }
}

/// The event with which the view `view_id` starts syncing others: with its
/// input editor shown, the editor's contents, so that the others match them;
/// otherwise just the start of syncing.
pub fn create_sync_event_based_on_terminal_state(
    view_id: usize,
    state: TerminalInputState,
    input_buffer: String,
) -> (r: SyncEvent)
    ensures
        r.source_view_id == view_id,
        state is InputEditor ==> (r.data matches SyncInputType::InputEditorContentsChanged { contents }
            && *contents == input_buffer),
        !(state is InputEditor) ==> r.data is StartSyncing,
{
    match state {
        TerminalInputState::InputEditor => SyncEvent {
            source_view_id: view_id,
            data: SyncInputType::InputEditorContentsChanged { contents: Arc::new(input_buffer) },
        },
        _ => SyncEvent { source_view_id: view_id, data: SyncInputType::StartSyncing },
    }
}

/// The event that the view `view_id` sends to the synced terminals after its
/// input reported `input`: only while some inputs in the window are synced,
/// and only for changed editor contents and a command run.
pub fn forward_input_sync(view_id: usize, is_syncing_any_inputs: bool, input: SyncInputType) -> (r:
    Option<SyncEvent>)
    ensures
        r is Some <==> is_syncing_any_inputs && (input is InputEditorContentsChanged
            || input is RanCommand),
        r matches Some(e) ==> e.source_view_id == view_id && e.data == input,
{
    if !is_syncing_any_inputs {
        return None;
    }
    match input {
        SyncInputType::InputEditorContentsChanged { contents } => Some(
            SyncEvent {
                source_view_id: view_id,
                data: SyncInputType::InputEditorContentsChanged { contents },
            },
        ),
        SyncInputType::RanCommand => Some(SyncEvent { source_view_id: view_id, data: SyncInputType::RanCommand }),
        _ => None,
    }
}

/// A view that starts syncing from its editor hands its contents to every
/// other view whose editor is shown, and never acts on its own event.
pub proof fn law_sync_event_reaches_other_editors(
    source: usize,
    target: usize,
    target_state: TerminalInputState,
    event: SyncEvent,
    buffer: String,
)
    requires
        event.source_view_id == source,
        event.data matches SyncInputType::InputEditorContentsChanged { contents } && *contents == buffer,
    ensures
        sync_input_effect(source, target_state, event) is Nothing,
        target != source && (target_state is InputEditor || target_state is NotBootstrapped)
            ==> (sync_input_effect(target, target_state, event) matches SyncInputEffect::SendInputBufferToEditor(c)
            && *c == buffer),
{
}

/// Characters typed outside the editor in one terminal reach every other synced terminal
/// that runs a program reading them, a long-running command or one on the alternate screen
/// (such as vim or less): it writes exactly those characters to its pty. A terminal showing
/// its editor, or one still starting, ignores them.
pub proof fn law_typed_characters_reach_running_programs(
    view_id: usize,
    state: TerminalInputState,
    event: SyncEvent,
)
    requires
        event.source_view_id != view_id,
        event.data is NonEditorTyped,
    ensures
        (state is LongRunningCommand || state is AltScreen) ==> (sync_input_effect(view_id, state, event) matches SyncInputEffect::WriteToPty(
            bytes,
        ) && bytes == event.data->chars),
        (state is InputEditor || state is NotBootstrapped) ==> sync_input_effect(
            view_id,
            state,
            event,
        ) is Nothing,
{
}

/// What a terminal does with another terminal's input depends on the kind of input and on
/// its own state only: editor contents go to an editor (or a shell still starting), a
/// command run runs the editor's command, and the start or end of syncing changes nothing.
pub proof fn law_sync_effect_by_kind(view_id: usize, state: TerminalInputState, event: SyncEvent)
    requires
        event.source_view_id != view_id,
    ensures
        event.data matches SyncInputType::InputEditorContentsChanged { contents } ==> ((state
            is InputEditor || state is NotBootstrapped) <==> (sync_input_effect(view_id, state, event) matches SyncInputEffect::SendInputBufferToEditor(
            c,
        ) && c == contents)),
        event.data is RanCommand ==> (sync_input_effect(view_id, state, event) is RunCommandInInput
            <==> state is InputEditor),
        (event.data is StartSyncing || event.data is StopSyncing) ==> sync_input_effect(
            view_id,
            state,
            event,
        ) is Nothing,
{
}

} // verus!
