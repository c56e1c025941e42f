//! What a terminal's events lead to: how the terminal view reacts to its model's
//! events, and how the pane group reacts to the terminal view's events. The
//! callers perform the reactions (UI updates, emitted events, messages to the
//! session store); the decisions are made here.
use vstd::prelude::*;

use std::sync::Arc;

use crate::notifications::pluggable_notification_message;
use crate::persistence::{block_completed_to_save, BlockCompleted};
use crate::text::{chars_of, is_space, is_whitespace};

verus! {

/// What the view learns of new metadata for the active block.
#[derive(Clone, Copy, Debug, PartialEq, Eq, Structural)]
pub struct MetadataChange {
    /// The metadata follows an in-band command (hidden from the user).
    pub after_in_band_command: bool,
    /// The session is done bootstrapping.
    pub done_bootstrapping: bool,
    /// Metadata of an earlier block was held.
    pub had_previous: bool,
    /// The working directory differs from the earlier block's.
    pub directory_changed: bool,
    /// The session differs from the earlier block's.
    pub session_changed: bool,
    /// The new metadata has a working directory.
    pub has_directory: bool,
}

/// An event of the terminal model, with what the view reads of it.
#[derive(Clone, Debug)]
pub enum ModelEventKind {
    /// The screen was cleared.
    TerminalClear,
    /// The program set the terminal title.
    Title(String),
    /// The program stored text on the clipboard.
    ClipboardStore,
    /// The program asked for the clipboard's contents.
    ClipboardLoad,
    Bell,
    /// The shell exited.
    Exit,
    /// A block finished.
    BlockCompleted { is_in_band: bool, is_user_block: bool },
    /// A bootstrap block became visible before the block list was bootstrapped.
    VisibleBootstrapBlock,
    /// A block started; whether the login shell was bootstrapped by then.
    AfterBlockStarted { is_for_in_band_command: bool, login_shell_bootstrapped: bool },
    /// An SSH session started; whether its shell is known and fully supported remotely.
    Ssh { shell_fully_supported: bool },
    /// The SSH control master failed.
    SshControlMasterError,
    /// Metadata for the active block arrived.
    BlockMetadataReceived(MetadataChange),
    /// The terminal switched between the alternate screen and the block list; whether the
    /// find bar was open.
    TerminalModeSwapped { alt_screen: bool, find_bar_open: bool },
    ExecutedInBandCommand,
    PromptUpdated,
    Typeahead,
    ShellSpawned,
    ImageReceived,
    /// The bootstrap's first prompt is done.
    BootstrapPrecmdDone,
    /// A program asked for a notification.
    PluggableNotification { title: Option<String>, body: String },
    /// An event the view does not act on.
    Other,
}

/// The view's work for a model event, besides title, bell, exit and notifications.
#[derive(Clone, Copy, Debug, PartialEq, Eq, Structural)]
pub enum ViewWork {
    Nothing,
    /// Redraw after the clear and lock the scroll position to it.
    RedrawAfterClear,
    /// Write the stored text to the system clipboard.
    WriteClipboard,
    /// Write the clipboard's contents to the pty.
    PasteClipboard,
    /// Hand the finished block to the input; `refocus` also redetermines focus and
    /// prepares the mouse states of the next block; `user_block` runs the hooks for a
    /// finished user block.
    FinishBlock { refocus: bool, user_block: bool },
    FocusTerminal,
    /// Forget that a long-running notification was sent; `schedule_pending_command`
    /// schedules the pending command.
    StartBlock { schedule_pending_command: bool },
    StartBootstrapTimer,
    HandleControlMasterError,
    /// Store the metadata and pass it to the input. `set_shell_host` also records the
    /// session's shell host; `emit_app_state_changed` emits `AppStateChanged`;
    /// `update_launch_data` refreshes the shell launch data; `detect_repository` looks for
    /// a repository in the working directory.
    StoreMetadata {
        set_shell_host: bool,
        emit_app_state_changed: bool,
        update_launch_data: bool,
        detect_repository: bool,
    },
    /// Rerun an open find in the new mode and set the input's state; `close_find_bar`
    /// closes the find bar.
    SwapMode { input_enabled: bool, close_find_bar: bool },
    RecordInBandCommand,
    RefreshPrompt,
    HandleTypeahead,
    EmitShellSpawned,
    StoreImage,
    ExecutePendingCommand,
}

/// A notification that a program asked for, as the view passes it on.
#[derive(Clone, Debug)]
pub enum ViewNotification {
    /// Sent as a desktop notification.
    Send { title: String, body: String },
    /// Passed to the pane group unchanged.
    Forward { title: Option<String>, body: String },
}

/// How the terminal view reacts to a model event.
#[derive(Clone, Debug)]
pub struct ViewReaction {
    /// The terminal title becomes this.
    pub new_title: Option<String>,
    /// Whether the next title event is to be skipped, after this event.
    pub ignore_next_title: bool,
    pub update_pane_config: bool,
    /// Ring the audible bell.
    pub ring: bool,
    pub request_attention: bool,
    /// Disable the input editor.
    pub disable_input: bool,
    /// Emit `Exited`.
    pub emit_exited: bool,
    pub notification: Option<ViewNotification>,
    pub work: ViewWork,
}

/// The work a model event calls for (see `ViewWork`).
pub open spec fn view_work(event: ModelEventKind) -> ViewWork {
    match event {
        ModelEventKind::TerminalClear => ViewWork::RedrawAfterClear,
        ModelEventKind::ClipboardStore => ViewWork::WriteClipboard,
        ModelEventKind::ClipboardLoad => ViewWork::PasteClipboard,
        ModelEventKind::BlockCompleted { is_in_band, is_user_block } => ViewWork::FinishBlock {
            refocus: !is_in_band,
            user_block: is_user_block,
        },
        ModelEventKind::VisibleBootstrapBlock => ViewWork::FocusTerminal,
        ModelEventKind::AfterBlockStarted { is_for_in_band_command, login_shell_bootstrapped } => {
            if is_for_in_band_command {
                ViewWork::Nothing
            } else {
                ViewWork::StartBlock { schedule_pending_command: login_shell_bootstrapped }
            }
        },
        ModelEventKind::Ssh { shell_fully_supported } => {
            if shell_fully_supported {
                ViewWork::StartBootstrapTimer
            } else {
                ViewWork::Nothing
            }
        },
        ModelEventKind::SshControlMasterError => ViewWork::HandleControlMasterError,
        ModelEventKind::BlockMetadataReceived(m) => {
            let settled = !m.after_in_band_command && m.had_previous && m.done_bootstrapping;
            ViewWork::StoreMetadata {
                set_shell_host: !m.after_in_band_command,
                emit_app_state_changed: settled && m.directory_changed,
                update_launch_data: settled && m.session_changed,
                detect_repository: settled && m.has_directory,
            }
        },
        ModelEventKind::TerminalModeSwapped { alt_screen, find_bar_open } => ViewWork::SwapMode {
            input_enabled: !alt_screen,
            close_find_bar: find_bar_open,
        },
        ModelEventKind::ExecutedInBandCommand => ViewWork::RecordInBandCommand,
        ModelEventKind::PromptUpdated => ViewWork::RefreshPrompt,
        ModelEventKind::Typeahead => ViewWork::HandleTypeahead,
        ModelEventKind::ShellSpawned => ViewWork::EmitShellSpawned,
        ModelEventKind::ImageReceived => ViewWork::StoreImage,
        ModelEventKind::BootstrapPrecmdDone => ViewWork::ExecutePendingCommand,
        _ => ViewWork::Nothing,
    }
}

/// Each kind of work comes from one kind of model event: storing text on the clipboard
/// is what writes to the system clipboard, and only a request for the clipboard's contents
/// pastes them into the pty; likewise for the other single-event work.
pub proof fn law_view_work_source(event: ModelEventKind)
    ensures
        view_work(event) is WriteClipboard <==> event is ClipboardStore,
        view_work(event) is PasteClipboard <==> event is ClipboardLoad,
        view_work(event) is RedrawAfterClear <==> event is TerminalClear,
        view_work(event) is FinishBlock <==> event is BlockCompleted,
        view_work(event) is FocusTerminal <==> event is VisibleBootstrapBlock,
        view_work(event) is StartBlock <==> (event matches ModelEventKind::AfterBlockStarted {
            is_for_in_band_command,
            ..
        } && !is_for_in_band_command),
        view_work(event) is StartBootstrapTimer <==> (event matches ModelEventKind::Ssh {
            shell_fully_supported,
        } && shell_fully_supported),
        view_work(event) is HandleControlMasterError <==> event is SshControlMasterError,
        view_work(event) is StoreMetadata <==> event is BlockMetadataReceived,
        view_work(event) is SwapMode <==> event is TerminalModeSwapped,
        view_work(event) is RecordInBandCommand <==> event is ExecutedInBandCommand,
        view_work(event) is RefreshPrompt <==> event is PromptUpdated,
        view_work(event) is HandleTypeahead <==> event is Typeahead,
        view_work(event) is EmitShellSpawned <==> event is ShellSpawned,
        view_work(event) is StoreImage <==> event is ImageReceived,
        view_work(event) is ExecutePendingCommand <==> event is BootstrapPrecmdDone,
{
}

/// A finished block is refocused on and its mouse states prepared unless it ran an in-band
/// command, and the user-block hooks run exactly for a user block; a metadata event after
/// an in-band command only stores the metadata; the input is enabled again exactly when
/// the terminal leaves the alternate screen.
pub proof fn law_view_work_details(event: ModelEventKind)
    ensures
        event matches ModelEventKind::BlockCompleted { is_in_band, is_user_block } ==> (view_work(
            event,
        ) matches ViewWork::FinishBlock { refocus, user_block } && refocus == !is_in_band
            && user_block == is_user_block),
        event matches ModelEventKind::BlockMetadataReceived(m) ==> (m.after_in_band_command
            ==> view_work(event) == (ViewWork::StoreMetadata {
            set_shell_host: false,
            emit_app_state_changed: false,
            update_launch_data: false,
            detect_repository: false,
        })),
        event matches ModelEventKind::BlockMetadataReceived(m) ==> (view_work(event) matches ViewWork::StoreMetadata {
            emit_app_state_changed,
            ..
        } && (emit_app_state_changed <==> !m.after_in_band_command && m.had_previous
            && m.done_bootstrapping && m.directory_changed)),
        event matches ModelEventKind::TerminalModeSwapped { alt_screen, find_bar_open } ==> (view_work(
            event,
        ) matches ViewWork::SwapMode { input_enabled, close_find_bar } && input_enabled == !alt_screen
            && close_find_bar == find_bar_open),
{
}

/// The title of a desktop notification for a program's notification: its title, or
/// "Notification" where it has none.
pub open spec fn notification_title(title: Option<String>) -> Seq<char> {
    match title {
        Some(t) => t@,
        None => "Notification"@,
    }
}

/// How the terminal view reacts to a model event, given whether the pty failed to spawn,
/// whether the next title event is to be skipped, whether the user navigated away from the
/// window, and whether the audible bell is on.
pub fn view_reaction(
    event: ModelEventKind,
    pty_spawn_failed: bool,
    ignore_next_title: bool,
    navigated_away: bool,
    audible_bell: bool,
) -> (r: ViewReaction)
    ensures
        event matches ModelEventKind::Title(s) ==> r.new_title == Some(s),
        !(event is Title) ==> r.new_title is None,
        r.ignore_next_title == (ignore_next_title && !(event is Title)),
        r.update_pane_config <==> ((event is Title && !ignore_next_title) || event is BlockCompleted),
        r.ring <==> (event is Bell && audible_bell),
        r.request_attention <==> event is Bell,
        r.disable_input <==> event is Exit,
        r.emit_exited <==> (event is Exit && !pty_spawn_failed),
        event matches ModelEventKind::PluggableNotification { title, body } ==> if navigated_away {
            r.notification matches Some(ViewNotification::Send { title: t, body: b }) && t@
                == notification_title(title) && b == body
        } else {
            r.notification matches Some(ViewNotification::Forward { title: t, body: b }) && t == title
                && b == body
        },
        !(event is PluggableNotification) ==> r.notification is None,
        r.work == view_work(event),
{
    let ghost event0 = event;
    let mut r = ViewReaction {
        new_title: None,
        ignore_next_title,
        update_pane_config: false,
        ring: false,
        request_attention: false,
        disable_input: false,
        emit_exited: false,
        notification: None,
        work: ViewWork::Nothing,
    };
    match event {
        ModelEventKind::TerminalClear => {
            r.work = ViewWork::RedrawAfterClear;
        },
        ModelEventKind::Title(t) => {
            r.new_title = Some(t);
            r.ignore_next_title = false;
            r.update_pane_config = !ignore_next_title;
        },
        ModelEventKind::ClipboardStore => {
            r.work = ViewWork::WriteClipboard;
        },
        ModelEventKind::ClipboardLoad => {
            r.work = ViewWork::PasteClipboard;
        },
        ModelEventKind::Bell => {
            r.ring = audible_bell;
            r.request_attention = true;
        },
        ModelEventKind::Exit => {
            r.disable_input = true;
            r.emit_exited = !pty_spawn_failed;
        },
        ModelEventKind::BlockCompleted { is_in_band, is_user_block } => {
            r.work = ViewWork::FinishBlock { refocus: !is_in_band, user_block: is_user_block };
            r.update_pane_config = true;
        },
        ModelEventKind::VisibleBootstrapBlock => {
            r.work = ViewWork::FocusTerminal;
        },
        ModelEventKind::AfterBlockStarted { is_for_in_band_command, login_shell_bootstrapped } => {
            if !is_for_in_band_command {
                r.work = ViewWork::StartBlock { schedule_pending_command: login_shell_bootstrapped };
            }
        },
        ModelEventKind::Ssh { shell_fully_supported } => {
            if shell_fully_supported {
                r.work = ViewWork::StartBootstrapTimer;
            }
        },
        ModelEventKind::SshControlMasterError => {
            r.work = ViewWork::HandleControlMasterError;
        },
        ModelEventKind::BlockMetadataReceived(m) => {
            let settled = !m.after_in_band_command && m.had_previous && m.done_bootstrapping;
            r.work = ViewWork::StoreMetadata {
                set_shell_host: !m.after_in_band_command,
                emit_app_state_changed: settled && m.directory_changed,
                update_launch_data: settled && m.session_changed,
                detect_repository: settled && m.has_directory,
            };
        },
        ModelEventKind::TerminalModeSwapped { alt_screen, find_bar_open } => {
            r.work = ViewWork::SwapMode { input_enabled: !alt_screen, close_find_bar: find_bar_open };
        },
        ModelEventKind::ExecutedInBandCommand => {
            r.work = ViewWork::RecordInBandCommand;
        },
        ModelEventKind::PromptUpdated => {
            r.work = ViewWork::RefreshPrompt;
        },
        ModelEventKind::Typeahead => {
            r.work = ViewWork::HandleTypeahead;
        },
        ModelEventKind::ShellSpawned => {
            r.work = ViewWork::EmitShellSpawned;
        },
        ModelEventKind::ImageReceived => {
            r.work = ViewWork::StoreImage;
        },
        ModelEventKind::BootstrapPrecmdDone => {
            r.work = ViewWork::ExecutePendingCommand;
        },
        ModelEventKind::PluggableNotification { title, body } => {
            if navigated_away {
                let t = match title {
                    Some(t) => t,
                    None => {
                        proof {
                            reveal_strlit("Notification");
                        }
                        "Notification".to_owned()
                    },
                };
                r.notification = Some(ViewNotification::Send { title: t, body });
            } else {
                r.notification = Some(ViewNotification::Forward { title, body });
            }
        },
        ModelEventKind::Other => {},
    }
    r
}

/// An event of a terminal view, with what the pane group reads of it.
pub enum PaneEventKind<Block> {
    /// The shell exited.
    Exited,
    /// The user asked to close the pane.
    CloseRequested,
    /// The block list was cleared.
    BlockListCleared,
    /// A program asked for a notification.
    PluggableNotification { title: Option<String>, body: String },
    /// A block finished in the session with this id.
    BlockCompleted { session_uuid: Vec<u8>, block: Arc<Block>, is_local: bool },
    SessionBootstrapped,
    /// Input to be synced to other panes; whether this pane group syncs its input.
    SyncInput { should_sync: bool },
    FocusSession,
    SummarizationCancelDialogToggled { is_open: bool },
    EnvironmentSetupModeSelectorToggled { is_open: bool },
    /// A file upload run in this pane finished.
    FileUploadFinished,
    /// A request to start a child agent: locally or remotely, and whether it names the
    /// parent run.
    StartAgent { remote: bool, has_parent_run_id: bool },
    /// A pane-level event (focus, split, close and the like).
    Pane,
    /// The share-block modal was opened for a block.
    ShareModalOpened,
    OpenShareSessionModal,
    OpenShareSessionDeniedModal,
    /// A file is to be copied to the remote host of this pane.
    CopyFileToRemote,
    /// Any other event, which the pane group passes on as its own.
    Other,
}

/// How the pane group reacts to an event of one of its terminal panes.
pub enum PaneOutcome<Block> {
    /// Nothing happens.
    Ignore,
    /// The shell exited before it bootstrapped: the pane stays open, so that its output
    /// can still be read.
    KeepOpen,
    ClosePane,
    CloseWithConfirmation,
    /// Tell the session store to delete the pane's blocks.
    DeleteBlocks,
    /// Show a toast with this message for the pane.
    ShowToast(String),
    /// Send this save request to the session store (where there is one), then emit
    /// `ActiveSessionChanged`.
    Save(Option<BlockCompleted<Block>>),
    ActiveSessionChanged,
    /// Pass the event on as the pane group's own.
    Forward,
    /// Focus the pane and emit `FocusPaneGroup`.
    FocusPaneAndGroup,
    /// The pane is now the one with the summarization dialog open, or none is.
    SetSummarizationDialog { open: bool },
    /// The pane is now the one with the environment setup selector open, or none is.
    SetEnvironmentSelector { open: bool },
    /// Emit `FileUploadFinished` and mark the pane as no longer uploading.
    FinishUpload,
    StartLocalAgent,
    StartRemoteAgent,
    /// Handle the pane-level event as for any pane.
    HandlePaneEvent,
    /// Remember the pane as the one with the share-block modal and open the modal on its
    /// model.
    OpenShareBlockModal,
    OpenShareSessionModal,
    OpenShareSessionDeniedModal,
    /// Open a hidden pane beside this one that runs the upload command, emit
    /// `FileUploadCommand`, and focus this pane again.
    StartUpload,
}

/// How the pane group reacts to an event of a terminal pane, given whether the pane is
/// in the group, whether its login shell bootstrapped (`None` where its view is gone),
/// whether sessions are restored at start-up, whether this run may save them, and
/// whether the group has a channel to the session store.
pub fn pane_outcome<Block>(
    event: PaneEventKind<Block>,
    pane_known: bool,
    login_shell_bootstrapped: Option<bool>,
    restore_session: bool,
    can_save_session: bool,
    has_sender: bool,
) -> (r: PaneOutcome<Block>)
    ensures
        !pane_known ==> r is Ignore,
        pane_known ==> (event is Exited ==> if login_shell_bootstrapped == Some(false) {
            r is KeepOpen
        } else {
            r is ClosePane
        }),
        pane_known ==> (event is CloseRequested ==> r is CloseWithConfirmation),
        pane_known ==> (event is BlockListCleared ==> if can_save_session && has_sender {
            r is DeleteBlocks
        } else {
            r is Ignore
        }),
        pane_known ==> (event matches PaneEventKind::PluggableNotification { title, body } ==> (r matches PaneOutcome::ShowToast(m)
            && m@ == match title {
            Some(t) => t@ + ": "@ + body@,
            None => body@,
        })),
        pane_known ==> (event matches PaneEventKind::BlockCompleted { session_uuid, block, is_local } ==> (r matches PaneOutcome::Save(s)
            && (s is Some <==> restore_session && can_save_session && has_sender) && (s matches Some(c)
            ==> c.pane_id@ == session_uuid@ && c.is_local == is_local && c.block == block))),
        pane_known ==> (event is SessionBootstrapped ==> r is ActiveSessionChanged),
        pane_known ==> (event matches PaneEventKind::SyncInput { should_sync } ==> if should_sync {
            r is Forward
        } else {
            r is Ignore
        }),
        pane_known ==> (event is FocusSession ==> r is FocusPaneAndGroup),
        pane_known ==> (event matches PaneEventKind::SummarizationCancelDialogToggled { is_open } ==> (r matches PaneOutcome::SetSummarizationDialog { open }
            && open == is_open)),
        pane_known ==> (event matches PaneEventKind::EnvironmentSetupModeSelectorToggled { is_open } ==> (r matches PaneOutcome::SetEnvironmentSelector { open }
            && open == is_open)),
        pane_known ==> (event is FileUploadFinished ==> r is FinishUpload),
        pane_known ==> (event matches PaneEventKind::StartAgent { remote, has_parent_run_id } ==> if !remote {
            r is StartLocalAgent
        } else if has_parent_run_id {
            r is StartRemoteAgent
        } else {
            r is Ignore
        }),
        pane_known ==> (event is Pane ==> r is HandlePaneEvent),
        pane_known ==> (event is ShareModalOpened ==> r is OpenShareBlockModal),
        pane_known ==> (event is OpenShareSessionModal ==> r is OpenShareSessionModal),
        pane_known ==> (event is OpenShareSessionDeniedModal ==> r is OpenShareSessionDeniedModal),
        pane_known ==> (event is CopyFileToRemote ==> r is StartUpload),
        pane_known ==> (event is Other ==> r is Forward),
{
    if !pane_known {
        return PaneOutcome::Ignore;
    }
    match event {
        PaneEventKind::Exited => {
            if login_shell_bootstrapped == Some(false) {
                PaneOutcome::KeepOpen
            } else {
                PaneOutcome::ClosePane
            }
        },
        PaneEventKind::CloseRequested => PaneOutcome::CloseWithConfirmation,
        PaneEventKind::BlockListCleared => {
            if can_save_session && has_sender {
                PaneOutcome::DeleteBlocks
            } else {
                PaneOutcome::Ignore
            }
        },
        PaneEventKind::PluggableNotification { title, body } => {
            let message = match &title {
                Some(t) => pluggable_notification_message(Some(t.as_str()), body.as_str()),
                None => pluggable_notification_message(None, body.as_str()),
            };
            PaneOutcome::ShowToast(message)
        },
        PaneEventKind::BlockCompleted { session_uuid, block, is_local } => {
            if has_sender {
                PaneOutcome::Save(
                    block_completed_to_save(restore_session, can_save_session, session_uuid, block, is_local),
                )
            } else {
                PaneOutcome::Save(None)
            }
        },
        PaneEventKind::SessionBootstrapped => PaneOutcome::ActiveSessionChanged,
        PaneEventKind::SyncInput { should_sync } => {
            if should_sync {
                PaneOutcome::Forward
            } else {
                PaneOutcome::Ignore
            }
        },
        PaneEventKind::FocusSession => PaneOutcome::FocusPaneAndGroup,
        PaneEventKind::SummarizationCancelDialogToggled { is_open } => PaneOutcome::SetSummarizationDialog {
            open: is_open,
        },
        PaneEventKind::EnvironmentSetupModeSelectorToggled { is_open } => PaneOutcome::SetEnvironmentSelector {
            open: is_open,
        },
        PaneEventKind::FileUploadFinished => PaneOutcome::FinishUpload,
        PaneEventKind::StartAgent { remote, has_parent_run_id } => {
            if !remote {
                PaneOutcome::StartLocalAgent
            } else if has_parent_run_id {
                PaneOutcome::StartRemoteAgent
            } else {
                PaneOutcome::Ignore
            }
        },
        PaneEventKind::Pane => PaneOutcome::HandlePaneEvent,
        PaneEventKind::ShareModalOpened => PaneOutcome::OpenShareBlockModal,
        PaneEventKind::OpenShareSessionModal => PaneOutcome::OpenShareSessionModal,
        PaneEventKind::OpenShareSessionDeniedModal => PaneOutcome::OpenShareSessionDeniedModal,
        PaneEventKind::CopyFileToRemote => PaneOutcome::StartUpload,
        PaneEventKind::Other => PaneOutcome::Forward,
    }
}

/// Whether `s` holds only whitespace (or nothing).
pub open spec fn is_blank(s: Seq<char>) -> bool {
    forall|i: int| 0 <= i < s.len() ==> is_space(#[trigger] s[i])
}

/// Whether `s` holds only whitespace (or nothing).
pub fn blank(s: &str) -> (r: bool)
    ensures
        r <==> is_blank(s@),
{
    let v = chars_of(s);
    let mut i: usize = 0;
    while i < v.len()
        invariant
            i <= v@.len(),
            v@ == s@,
            forall|k: int| 0 <= k < i ==> is_space(#[trigger] v@[k]),
        decreases v@.len() - i,
    {
        if !is_whitespace(v[i]) {
            return false;
        }
        i += 1;
    }
    true
}

/// A text is blank exactly when trimming its whitespace leaves nothing; an empty field is
/// left out, and any other is passed on as it is.
pub proof fn law_blank_and_empty_fields(s: Seq<char>, t: String)
    ensures
        is_blank(s) <==> crate::text::trim(s).len() == 0,
        unless_empty(t) is None <==> t@.len() == 0,
        unless_empty(t) matches Some(u) ==> u == t,
{
    let n = s.len() as int;
    crate::text::lemma_back_skip_spaces_bounds(s, n);
    let b = crate::text::back_skip_spaces(s, n);
    let e = crate::text::trim_end(s);
    crate::text::lemma_skip_spaces_bounds(e, 0);
    let a = crate::text::skip_spaces(e, 0);
    if is_blank(s) {
        if b > 0 {
            assert(is_space(s[b - 1]));
        }
        assert(e.len() == 0);
    }
    if crate::text::trim(s).len() == 0 {
        assert(a == e.len());
        assert forall|i: int| 0 <= i < s.len() implies is_space(#[trigger] s[i]) by {
            if i < b {
                assert(e[i] == s[i]);
            }
        }
    }
}

/// The settings of a child agent started on a remote worker, as they go into the spawn
/// request.
#[derive(Clone, Debug)]
pub struct RemoteAgentConfig {
    pub environment_id: Option<String>,
    pub model_id: Option<String>,
    pub worker_host: Option<String>,
    /// The harness type to look up; `None` lets the server pick its default.
    pub harness_type: Option<String>,
    pub title: Option<String>,
}

/// `Some(s)` unless `s` is empty.
pub open spec fn unless_empty(s: String) -> Option<String> {
    if s@.len() == 0 {
        None
    } else {
        Some(s)
    }
}

/// The settings of a remote child agent from the fields of its request: a blank
/// environment id means that none is specified, and an empty model id, worker host,
/// harness type or title means that the server picks its default.
pub fn remote_agent_config(
    environment_id: String,
    model_id: String,
    worker_host: String,
    harness_type: String,
    title: String,
) -> (r: RemoteAgentConfig)
    ensures
        r.environment_id == if is_blank(environment_id@) {
            None
        } else {
            Some(environment_id)
        },
        r.model_id == unless_empty(model_id),
        r.worker_host == unless_empty(worker_host),
        r.harness_type == unless_empty(harness_type),
        r.title == unless_empty(title),
{
    let environment_id = if blank(environment_id.as_str()) {
        None
    } else {
        Some(environment_id)
    };
    let model_id = if model_id.as_str().is_empty() {
        None
    } else {
        Some(model_id)
    };
    let worker_host = if worker_host.as_str().is_empty() {
        None
    } else {
        Some(worker_host)
    };
    let harness_type = if harness_type.as_str().is_empty() {
        None
    } else {
        Some(harness_type)
    };
    let title = if title.as_str().is_empty() {
        None
    } else {
        Some(title)
    };
    RemoteAgentConfig { environment_id, model_id, worker_host, harness_type, title }
}

} // verus!
