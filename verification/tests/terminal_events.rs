use std::sync::Arc;

use warp_app::terminal_events::{
    blank, pane_outcome, remote_agent_config, view_reaction, MetadataChange, ModelEventKind,
    PaneEventKind, PaneOutcome, ViewNotification, ViewWork,
};

fn known(event: PaneEventKind<u32>) -> PaneOutcome<u32> {
    pane_outcome(event, true, Some(true), true, true, true)
}

#[test]
fn exit_before_bootstrap_keeps_pane_open() {
    assert!(matches!(
        pane_outcome::<u32>(PaneEventKind::Exited, true, Some(false), true, true, true),
        PaneOutcome::KeepOpen
    ));
    assert!(matches!(
        pane_outcome::<u32>(PaneEventKind::Exited, true, Some(true), true, true, true),
        PaneOutcome::ClosePane
    ));
    // Without a terminal view the pane closes.
    assert!(matches!(
        pane_outcome::<u32>(PaneEventKind::Exited, true, None, true, true, true),
        PaneOutcome::ClosePane
    ));
}

#[test]
fn events_of_unknown_panes_are_ignored() {
    assert!(matches!(
        pane_outcome::<u32>(PaneEventKind::CloseRequested, false, Some(true), true, true, true),
        PaneOutcome::Ignore
    ));
    assert!(matches!(
        pane_outcome::<u32>(PaneEventKind::Other, false, Some(true), true, true, true),
        PaneOutcome::Ignore
    ));
}

#[test]
fn close_request_asks_for_confirmation() {
    assert!(matches!(known(PaneEventKind::CloseRequested), PaneOutcome::CloseWithConfirmation));
}

#[test]
fn plugin_notification_becomes_a_toast() {
    match known(PaneEventKind::PluggableNotification {
        title: Some("Build".to_string()),
        body: "done".to_string(),
    }) {
        PaneOutcome::ShowToast(m) => assert_eq!(m, "Build: done"),
        _ => panic!("expected a toast"),
    }
    match known(PaneEventKind::PluggableNotification { title: None, body: "done".to_string() }) {
        PaneOutcome::ShowToast(m) => assert_eq!(m, "done"),
        _ => panic!("expected a toast"),
    }
}

#[test]
fn finished_block_is_saved_only_where_sessions_are_restored() {
    let event = || PaneEventKind::BlockCompleted {
        session_uuid: vec![1, 2, 3],
        block: Arc::new(7u32),
        is_local: true,
    };
    match pane_outcome(event(), true, Some(true), true, true, true) {
        PaneOutcome::Save(Some(c)) => {
            assert_eq!(c.pane_id, vec![1, 2, 3]);
            assert!(c.is_local);
            assert_eq!(*c.block, 7);
        }
        _ => panic!("expected a save request"),
    }
    assert!(matches!(pane_outcome(event(), true, Some(true), false, true, true), PaneOutcome::Save(None)));
    assert!(matches!(pane_outcome(event(), true, Some(true), true, false, true), PaneOutcome::Save(None)));
    assert!(matches!(pane_outcome(event(), true, Some(true), true, true, false), PaneOutcome::Save(None)));
}

#[test]
fn cleared_block_list_deletes_saved_blocks() {
    assert!(matches!(known(PaneEventKind::BlockListCleared), PaneOutcome::DeleteBlocks));
    assert!(matches!(
        pane_outcome::<u32>(PaneEventKind::BlockListCleared, true, Some(true), true, false, true),
        PaneOutcome::Ignore
    ));
    assert!(matches!(
        pane_outcome::<u32>(PaneEventKind::BlockListCleared, true, Some(true), true, true, false),
        PaneOutcome::Ignore
    ));
}

#[test]
fn other_pane_events() {
    assert!(matches!(known(PaneEventKind::SessionBootstrapped), PaneOutcome::ActiveSessionChanged));
    assert!(matches!(known(PaneEventKind::SyncInput { should_sync: true }), PaneOutcome::Forward));
    assert!(matches!(known(PaneEventKind::SyncInput { should_sync: false }), PaneOutcome::Ignore));
    assert!(matches!(known(PaneEventKind::FocusSession), PaneOutcome::FocusPaneAndGroup));
    assert!(matches!(
        known(PaneEventKind::SummarizationCancelDialogToggled { is_open: true }),
        PaneOutcome::SetSummarizationDialog { open: true }
    ));
    assert!(matches!(
        known(PaneEventKind::EnvironmentSetupModeSelectorToggled { is_open: false }),
        PaneOutcome::SetEnvironmentSelector { open: false }
    ));
    assert!(matches!(known(PaneEventKind::FileUploadFinished), PaneOutcome::FinishUpload));
    assert!(matches!(
        known(PaneEventKind::StartAgent { remote: false, has_parent_run_id: false }),
        PaneOutcome::StartLocalAgent
    ));
    assert!(matches!(
        known(PaneEventKind::StartAgent { remote: true, has_parent_run_id: true }),
        PaneOutcome::StartRemoteAgent
    ));
    assert!(matches!(
        known(PaneEventKind::StartAgent { remote: true, has_parent_run_id: false }),
        PaneOutcome::Ignore
    ));
    assert!(matches!(known(PaneEventKind::Pane), PaneOutcome::HandlePaneEvent));
    assert!(matches!(known(PaneEventKind::ShareModalOpened), PaneOutcome::OpenShareBlockModal));
    assert!(matches!(known(PaneEventKind::OpenShareSessionModal), PaneOutcome::OpenShareSessionModal));
    assert!(matches!(
        known(PaneEventKind::OpenShareSessionDeniedModal),
        PaneOutcome::OpenShareSessionDeniedModal
    ));
    assert!(matches!(known(PaneEventKind::CopyFileToRemote), PaneOutcome::StartUpload));
    assert!(matches!(known(PaneEventKind::Other), PaneOutcome::Forward));
}

#[test]
fn remote_agent_settings_drop_empty_fields() {
    let c = remote_agent_config(
        "  \t".to_string(),
        String::new(),
        "host".to_string(),
        String::new(),
        "Child".to_string(),
    );
    assert_eq!(c.environment_id, None);
    assert_eq!(c.model_id, None);
    assert_eq!(c.worker_host, Some("host".to_string()));
    assert_eq!(c.harness_type, None);
    assert_eq!(c.title, Some("Child".to_string()));
    let c = remote_agent_config(
        " env ".to_string(),
        "m".to_string(),
        String::new(),
        "oz".to_string(),
        String::new(),
    );
    assert_eq!(c.environment_id, Some(" env ".to_string()));
    assert_eq!(c.model_id, Some("m".to_string()));
    assert_eq!(c.worker_host, None);
    assert_eq!(c.harness_type, Some("oz".to_string()));
    assert_eq!(c.title, None);
}

#[test]
fn blank_text() {
    assert!(blank(""));
    assert!(blank(" \n\u{3000}"));
    assert!(!blank(" x "));
}

#[test]
fn exit_disables_input_and_reports_exit() {
    let r = view_reaction(ModelEventKind::Exit, false, false, false, false);
    assert!(r.disable_input);
    assert!(r.emit_exited);
    let r = view_reaction(ModelEventKind::Exit, true, false, false, false);
    assert!(r.disable_input);
    assert!(!r.emit_exited);
}

#[test]
fn title_event_skipped_once() {
    let r = view_reaction(ModelEventKind::Title("vim".to_string()), false, true, false, false);
    assert_eq!(r.new_title, Some("vim".to_string()));
    assert!(!r.update_pane_config);
    assert!(!r.ignore_next_title);
    let r = view_reaction(ModelEventKind::Title("zsh".to_string()), false, r.ignore_next_title, false, false);
    assert!(r.update_pane_config);
    // Other events leave the flag as it was.
    let r = view_reaction(ModelEventKind::Bell, false, true, false, false);
    assert!(r.ignore_next_title);
    assert_eq!(r.new_title, None);
}

#[test]
fn bell_rings_only_when_audible() {
    let r = view_reaction(ModelEventKind::Bell, false, false, false, true);
    assert!(r.ring && r.request_attention);
    let r = view_reaction(ModelEventKind::Bell, false, false, false, false);
    assert!(!r.ring && r.request_attention);
}

#[test]
fn plugin_notification_goes_to_desktop_when_away() {
    let r = view_reaction(
        ModelEventKind::PluggableNotification { title: None, body: "done".to_string() },
        false,
        false,
        true,
        false,
    );
    match r.notification {
        Some(ViewNotification::Send { title, body }) => {
            assert_eq!(title, "Notification");
            assert_eq!(body, "done");
        }
        _ => panic!("expected a desktop notification"),
    }
    let r = view_reaction(
        ModelEventKind::PluggableNotification { title: Some("T".to_string()), body: "b".to_string() },
        false,
        false,
        false,
        false,
    );
    match r.notification {
        Some(ViewNotification::Forward { title, body }) => {
            assert_eq!(title, Some("T".to_string()));
            assert_eq!(body, "b");
        }
        _ => panic!("expected the notification to be passed on"),
    }
}

#[test]
fn view_work_for_model_events() {
    let work = |e: ModelEventKind| view_reaction(e, false, false, false, false).work;
    assert_eq!(work(ModelEventKind::TerminalClear), ViewWork::RedrawAfterClear);
    let r = view_reaction(
        ModelEventKind::BlockCompleted { is_in_band: true, is_user_block: false },
        false,
        false,
        false,
        false,
    );
    assert!(r.update_pane_config);
    assert_eq!(r.work, ViewWork::FinishBlock { refocus: false, user_block: false });
    assert_eq!(
        work(ModelEventKind::AfterBlockStarted { is_for_in_band_command: true, login_shell_bootstrapped: true }),
        ViewWork::Nothing
    );
    assert_eq!(
        work(ModelEventKind::AfterBlockStarted { is_for_in_band_command: false, login_shell_bootstrapped: true }),
        ViewWork::StartBlock { schedule_pending_command: true }
    );
    assert_eq!(work(ModelEventKind::Ssh { shell_fully_supported: false }), ViewWork::Nothing);
    assert_eq!(work(ModelEventKind::Ssh { shell_fully_supported: true }), ViewWork::StartBootstrapTimer);
    let change = MetadataChange {
        after_in_band_command: false,
        done_bootstrapping: true,
        had_previous: true,
        directory_changed: true,
        session_changed: false,
        has_directory: true,
    };
    assert_eq!(
        work(ModelEventKind::BlockMetadataReceived(change)),
        ViewWork::StoreMetadata {
            set_shell_host: true,
            emit_app_state_changed: true,
            update_launch_data: false,
            detect_repository: true
        }
    );
    let in_band = MetadataChange { after_in_band_command: true, ..change };
    assert_eq!(
        work(ModelEventKind::BlockMetadataReceived(in_band)),
        ViewWork::StoreMetadata {
            set_shell_host: false,
            emit_app_state_changed: false,
            update_launch_data: false,
            detect_repository: false
        }
    );
    assert_eq!(
        work(ModelEventKind::TerminalModeSwapped { alt_screen: true, find_bar_open: true }),
        ViewWork::SwapMode { input_enabled: false, close_find_bar: true }
    );
    assert_eq!(work(ModelEventKind::BootstrapPrecmdDone), ViewWork::ExecutePendingCommand);
    assert_eq!(work(ModelEventKind::Other), ViewWork::Nothing);
}
