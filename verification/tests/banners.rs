use std::sync::Arc;

use warp_app::code::CodeSource;
use warp_app::inline_banners::{
    maybe_send_password_notification, ControlMasterErrorBannerState, InlineBannerType,
    InlineBannersState, NotificationsDiscoveryBanner, NotificationsDiscoveryBannerState,
    NotificationsErrorBanner, NotificationsErrorBannerState, NotificationsErrorBannerType,
    NotificationsMode, PasswordPromptAction, SessionId,
};
use warp_app::notifications::{pluggable_notification_message, NotificationsTrigger};
use warp_app::open_in_warp::{
    handle_open_in_warp_banner_action, OpenInWarpBannerAction, OpenInWarpBannerState,
    OpenInWarpEffect, OpenableFileType, OpenablePath,
};
use warp_app::persistence::block_completed_to_save;
use warp_app::terminal_view::{
    rows_and_columns_for_size_update, BlockIndex, PromptPosition, SizeUpdateRowsAndColumns,
};

fn banner(file_type: OpenableFileType) -> Option<OpenInWarpBannerState<&'static str>> {
    Some(OpenInWarpBannerState {
        id: 7,
        target: OpenablePath { path: "/tmp/README.md".to_string(), file_type },
        session: "session-1",
    })
}

#[test]
fn open_markdown_file_closes_banner() {
    let mut b = banner(OpenableFileType::Markdown);
    let e: OpenInWarpEffect<&str, (usize, usize)> =
        handle_open_in_warp_banner_action(&mut b, OpenInWarpBannerAction::OpenFile);
    assert!(b.is_none());
    match e {
        OpenInWarpEffect::OpenFile { path, session, banner_id } => {
            assert_eq!(path, "/tmp/README.md");
            assert_eq!(session, "session-1");
            assert_eq!(banner_id, 7);
        }
        _ => panic!("expected the file to open"),
    }
}

#[test]
fn open_code_file_uses_link_without_range() {
    let mut b = banner(OpenableFileType::Code);
    let e: OpenInWarpEffect<&str, (usize, usize)> =
        handle_open_in_warp_banner_action(&mut b, OpenInWarpBannerAction::OpenFile);
    assert!(b.is_none());
    match e {
        OpenInWarpEffect::OpenCode { source, banner_id } => {
            assert_eq!(
                source,
                CodeSource::Link { path: "/tmp/README.md".to_string(), range_start: None, range_end: None }
            );
            assert_eq!(banner_id, 7);
        }
        _ => panic!("expected the code editor to open"),
    }
}

#[test]
fn learn_more_keeps_banner() {
    let mut b = banner(OpenableFileType::Markdown);
    let e: OpenInWarpEffect<&str, (usize, usize)> =
        handle_open_in_warp_banner_action(&mut b, OpenInWarpBannerAction::LearnMore);
    assert!(b.is_some());
    match e {
        OpenInWarpEffect::OpenUrl(u) => {
            assert_eq!(u, "https://docs.warp.dev/terminal/more-features/markdown-viewer")
        }
        _ => panic!("expected a URL"),
    }
    let mut b = banner(OpenableFileType::Text);
    let e: OpenInWarpEffect<&str, (usize, usize)> =
        handle_open_in_warp_banner_action(&mut b, OpenInWarpBannerAction::LearnMore);
    match e {
        OpenInWarpEffect::OpenUrl(u) => {
            assert_eq!(u, "https://docs.warp.dev/code/overview#built-in-code-editor")
        }
        _ => panic!("expected a URL"),
    }
}

#[test]
fn close_dismisses_by_file_type_and_then_does_nothing() {
    let mut b = banner(OpenableFileType::Text);
    let e: OpenInWarpEffect<&str, (usize, usize)> =
        handle_open_in_warp_banner_action(&mut b, OpenInWarpBannerAction::Close);
    assert!(matches!(e, OpenInWarpEffect::DismissForCodeAndText { banner_id: 7 }));
    let e: OpenInWarpEffect<&str, (usize, usize)> =
        handle_open_in_warp_banner_action(&mut b, OpenInWarpBannerAction::OpenFile);
    assert!(matches!(e, OpenInWarpEffect::Nothing));
    let mut b = banner(OpenableFileType::Markdown);
    let e: OpenInWarpEffect<&str, (usize, usize)> =
        handle_open_in_warp_banner_action(&mut b, OpenInWarpBannerAction::Close);
    assert!(matches!(e, OpenInWarpEffect::DismissForMarkdown { banner_id: 7 }));
}

#[test]
fn code_source_accessors() {
    let link: CodeSource<(usize, usize)> = CodeSource::Link {
        path: "src/main.rs".to_string(),
        range_start: Some((3, 1)),
        range_end: Some((4, 2)),
    };
    assert_eq!(link.path(), Some("src/main.rs".to_string()));
    assert_eq!(link.default_directory(), None);
    assert_eq!(
        link.omit_line_col(),
        CodeSource::Link { path: "src/main.rs".to_string(), range_start: None, range_end: None }
    );
    let new: CodeSource<(usize, usize)> = CodeSource::New { default_directory: Some("/home".to_string()) };
    assert_eq!(new.path(), None);
    assert_eq!(new.default_directory(), Some(&"/home".to_string()));
    assert_eq!(new.omit_line_col(), new);
    let tree: CodeSource<(usize, usize)> = CodeSource::FileTree { path: "a.txt".to_string() };
    assert_eq!(tree.path(), Some("a.txt".to_string()));
    assert_eq!(tree.omit_line_col(), tree);
}

#[test]
fn notifications_error_banner_opens_once() {
    let mut banners = InlineBannersState::new();
    let mut banner: NotificationsErrorBanner<String> = NotificationsErrorBanner::new();
    assert_eq!(banner.show_notification_error("denied".to_string(), false, false, &mut banners), None);
    assert!(banner.error.is_none());
    let item = banner
        .show_notification_error("denied".to_string(), true, false, &mut banners)
        .expect("the banner opens");
    assert_eq!(item.id, 0);
    assert_eq!(item.banner_type, InlineBannerType::NotificationsError);
    assert_eq!(
        banner.banner_type,
        NotificationsErrorBannerType::Open { state: NotificationsErrorBannerState { banner_id: 0 } }
    );
    assert_eq!(banner.show_notification_error("again".to_string(), true, false, &mut banners), None);
    assert_eq!(banner.error.as_deref(), Some("again"));
    assert_eq!(banner.close(), Some(0));
    assert_eq!(banner.banner_type, NotificationsErrorBannerType::Closed);
    assert_eq!(banner.close(), None);
}

#[test]
fn notifications_error_banner_waits_for_running_block() {
    let mut banners = InlineBannersState::new();
    let mut banner: NotificationsErrorBanner<String> = NotificationsErrorBanner::new();
    assert_eq!(banner.show_notification_error("denied".to_string(), true, true, &mut banners), None);
    assert_eq!(banner.banner_type, NotificationsErrorBannerType::Triggered);
    assert_eq!(banners.last_banner_id(), None);
}

#[test]
fn control_master_banner_once_per_session() {
    let mut state = ControlMasterErrorBannerState::default();
    assert!(state.handle_control_master_error(Some(SessionId(4))));
    assert!(state.is_open);
    assert_eq!(state.associated_session_id, Some(SessionId(4)));
    state.is_open = false;
    assert!(!state.handle_control_master_error(Some(SessionId(4))));
    assert!(!state.is_open);
    assert!(state.handle_control_master_error(None));
    assert!(state.is_open);
    assert_eq!(state.associated_session_id, None);
}

#[test]
fn prompt_position_block_lookup() {
    let blocks = vec!["ls", "pwd"];
    let active = "echo";
    assert_eq!(PromptPosition::Block(BlockIndex(1)).block(&blocks, &active), Some(&"pwd"));
    assert_eq!(PromptPosition::Block(BlockIndex(2)).block(&blocks, &active), None);
    assert_eq!(PromptPosition::Input.block(&blocks, &active), Some(&"echo"));
}

#[test]
fn completed_block_is_saved_only_when_sessions_are_restored() {
    let block = Arc::new(42u32);
    let saved = block_completed_to_save(true, true, vec![1, 2], block.clone(), true).expect("saved");
    assert_eq!(saved.pane_id, vec![1, 2]);
    assert!(saved.is_local);
    assert_eq!(*saved.block, 42);
    assert!(block_completed_to_save(false, true, vec![1], block.clone(), true).is_none());
    assert!(block_completed_to_save(true, false, vec![1], block, false).is_none());
}

#[test]
fn pluggable_notification_text() {
    assert_eq!(pluggable_notification_message(Some("Build"), "done"), "Build: done");
    assert_eq!(pluggable_notification_message(None, "done"), "done");
}

#[test]
fn shared_session_rows_and_columns() {
    assert_eq!(
        rows_and_columns_for_size_update(
            SizeUpdateRowsAndColumns::SharerSizeChanged { num_rows: 50, num_cols: 60 },
            40,
            100
        ),
        (50, 100)
    );
    assert_eq!(
        rows_and_columns_for_size_update(
            SizeUpdateRowsAndColumns::ViewerSizeReported { num_rows: 0, num_cols: 30 },
            40,
            100
        ),
        (1, 30)
    );
    assert_eq!(rows_and_columns_for_size_update(SizeUpdateRowsAndColumns::Natural, 40, 100), (40, 100));
}

#[test]
fn password_prompt_notifications() {
    let mut banner: NotificationsDiscoveryBanner<bool> = NotificationsDiscoveryBanner::Unset;
    assert_eq!(
        maybe_send_password_notification(false, NotificationsMode::Enabled, true, &mut banner),
        PasswordPromptAction::Nothing
    );
    assert_eq!(
        maybe_send_password_notification(true, NotificationsMode::Enabled, true, &mut banner),
        PasswordPromptAction::SendNotification
    );
    assert_eq!(
        maybe_send_password_notification(true, NotificationsMode::Enabled, false, &mut banner),
        PasswordPromptAction::Nothing
    );
    assert_eq!(
        maybe_send_password_notification(true, NotificationsMode::Unset, false, &mut banner),
        PasswordPromptAction::TriggerDiscoveryBanner
    );
    assert!(matches!(banner, NotificationsDiscoveryBanner::Triggered(NotificationsTrigger::NeedsAttention)));
    assert_eq!(
        maybe_send_password_notification(true, NotificationsMode::Unset, false, &mut banner),
        PasswordPromptAction::Nothing
    );
    assert_eq!(
        maybe_send_password_notification(true, NotificationsMode::Dismissed, true, &mut banner),
        PasswordPromptAction::Nothing
    );
}

#[test]
fn discovery_banner_close_and_outcome() {
    let mut banner: NotificationsDiscoveryBanner<bool> = NotificationsDiscoveryBanner::Open {
        trigger: NotificationsTrigger::PasswordPrompt,
        request_outcome: None,
        state: NotificationsDiscoveryBannerState { banner_id: 3 },
    };
    banner.record_request_outcome(true);
    assert!(matches!(banner, NotificationsDiscoveryBanner::Open { request_outcome: Some(true), .. }));
    assert_eq!(banner.close(), Some(3));
    assert!(matches!(banner, NotificationsDiscoveryBanner::Closed));
    banner.record_request_outcome(false);
    assert!(matches!(banner, NotificationsDiscoveryBanner::Closed));
    assert_eq!(banner.close(), None);
}
