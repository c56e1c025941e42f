use warp_app::alias::is_expandable_alias;
use warp_app::app_state::{
    GPUState, MainPageAction, MainPageEffect, MainSettingsPageEvent, MainSettingsPageView,
    StatsBuffer, SystemInfo, SystemInfoEvent, REPORT_SAMPLE_COUNT,
};
use warp_app::linear::{get_item_data_from_warp_link, LinearAction};
use warp_app::opened_files::{OpenedFilesInRepo, OpenedFilesModel};
use warp_app::user_config::{
    find_unused_toml_path, launch_configs_dir, tab_configs_dir, WarpConfig, WarpConfigUpdateEvent,
};

#[test]
fn alias_expansion_rules() {
    assert!(is_expandable_alias("gs", "git status"));
    assert!(!is_expandable_alias("ls", "ls -la"));
    assert!(!is_expandable_alias("ls", "   "));
    assert!(is_expandable_alias("ls", "  lsd -la"));
}

#[test]
fn linear_paths() {
    assert_eq!(LinearAction::parse_path("/work").unwrap(), LinearAction::WorkOnIssue);
    let err = LinearAction::parse_path("/other").unwrap_err();
    assert_eq!(err.message(), "Received \"linear\" intent with unexpected path: /other");
    let url = url::Url::parse("warp://linear/work").unwrap();
    assert_eq!(LinearAction::parse(&url).unwrap(), LinearAction::WorkOnIssue);
    let url = url::Url::parse("warp://linear/nope").unwrap();
    assert_eq!(LinearAction::parse(&url).unwrap_err().path, "/nope");
    assert_eq!(get_item_data_from_warp_link(&url), None);
}

#[test]
fn gpu_state_starts_without_low_power_gpu() {
    assert!(!GPUState::new().is_low_power_gpu_available());
}

#[test]
fn main_page_actions() {
    let mut page = MainSettingsPageView::new();
    assert_eq!(MainSettingsPageView::ui_name(), "MainSettingsPage");
    assert!(matches!(page.handle_action(&MainPageAction::Relaunch), MainPageEffect::Nothing));
    assert!(matches!(page.handle_action(&MainPageAction::DownloadUpdate), MainPageEffect::Nothing));
    assert!(matches!(
        page.handle_action(&MainPageAction::CheckForUpdate),
        MainPageEffect::Emit(MainSettingsPageEvent::CheckForUpdate)
    ));
    match page.handle_action(&MainPageAction::OpenUrl("https://warp.dev".to_string())) {
        MainPageEffect::OpenUrl(u) => assert_eq!(u, "https://warp.dev"),
        _ => panic!("expected a URL to open"),
    }
}

#[test]
fn memory_warning_is_sent_once() {
    let mut info: SystemInfo<f32> = SystemInfo::new();
    assert_eq!(info.check_for_excessive_memory_usage(1, 9_999_999_999), None);
    assert_eq!(
        info.check_for_excessive_memory_usage(1, 10_000_000_000),
        Some(SystemInfoEvent::MemoryUsageHigh)
    );
    assert_eq!(info.check_for_excessive_memory_usage(1, 20_000_000_000), None);
}

#[test]
fn stats_buffer_appends_until_full() {
    let mut buffer: StatsBuffer<u32> = StatsBuffer::new();
    assert!(!buffer.is_full());
    for i in 0..(REPORT_SAMPLE_COUNT as u32 - 1) {
        buffer.push(i);
    }
    assert!(!buffer.is_full());
    assert_eq!(buffer.len(), REPORT_SAMPLE_COUNT - 1);
    buffer.push(1000);
    assert!(buffer.is_full());
    assert_eq!(*buffer.get(0), 0);
    assert_eq!(*buffer.get(REPORT_SAMPLE_COUNT - 1), 1000);
}

#[test]
fn stats_buffer_drops_oldest_when_full() {
    let mut buffer: StatsBuffer<u32> = StatsBuffer::new();
    for i in 0..(REPORT_SAMPLE_COUNT as u32 * 3) {
        buffer.push(i);
    }
    assert!(buffer.is_full());
    assert_eq!(buffer.len(), REPORT_SAMPLE_COUNT);
    assert_eq!(*buffer.get(0), REPORT_SAMPLE_COUNT as u32 * 2);
    assert_eq!(*buffer.get(buffer.len() - 1), REPORT_SAMPLE_COUNT as u32 * 3 - 1);
    let mut info: SystemInfo<f32> = SystemInfo::new();
    info.record_sample(0.5);
    assert_eq!(info.sample_count(), 1);
}

#[test]
fn config_directories() {
    assert_eq!(launch_configs_dir("/home/u/.warp"), "/home/u/.warp/launch_configurations");
    assert_eq!(tab_configs_dir("/home/u/.warp/"), "/home/u/.warp/tab_configs");
    assert_eq!(tab_configs_dir(""), "tab_configs");
}

#[test]
fn unused_toml_path_skips_existing_files() {
    assert_eq!(find_unused_toml_path("/d", "cfg", &vec![]), "/d/cfg.toml");
    let existing = vec!["/d/cfg.toml".to_string(), "/d/cfg_1.toml".to_string()];
    assert_eq!(find_unused_toml_path("/d", "cfg", &existing), "/d/cfg_2.toml");
}

#[test]
fn warp_config_theme_updates() {
    let mut config: WarpConfig<String, u32> = WarpConfig::new(1);
    assert!(config.launch_configs().is_empty());
    let event = config.update_theme_config::<(), ()>(2);
    assert!(matches!(event, warp_app::user_config::WarpConfigUpdateEvent::Themes));
    assert_eq!(*config.theme_config(), 2);
}

#[test]
fn launch_configs_are_appended_once() {
    let mut config: WarpConfig<String, u8> = WarpConfig::new(0);
    let added: Option<WarpConfigUpdateEvent<(), ()>> = config.append_launch_config(&"dev".to_string());
    assert!(matches!(added, Some(WarpConfigUpdateEvent::LaunchConfigs)));
    let again: Option<WarpConfigUpdateEvent<(), ()>> = config.append_launch_config(&"dev".to_string());
    assert!(again.is_none());
    let other: Option<WarpConfigUpdateEvent<(), ()>> = config.append_launch_config(&"ops".to_string());
    assert!(other.is_some());
    assert_eq!(config.launch_configs(), &vec!["dev".to_string(), "ops".to_string()]);
}

#[test]
fn opened_files_start_empty() {
    let model = OpenedFilesModel::new();
    assert!(model.opened_files_for_repo("/repo").is_none());
    let default_model = OpenedFilesModel::default();
    assert!(default_model.opened_files_for_repo("").is_none());
    let files = OpenedFilesInRepo::default();
    assert_eq!(files.get("/repo/src/main.rs"), None);
}
