use warp_app::privacy::{
    CustomSecretRegex, PrivacySettings, PrivacySettingsChangedEvent, PrivacySettingsSnapshot,
    RecommendedRegex, RegexDisplayInfo,
};

fn rec(pattern: &str, name: &str) -> RecommendedRegex {
    RecommendedRegex { pattern: pattern.to_string(), name: name.to_string() }
}

fn patterns(s: &PrivacySettings) -> Vec<String> {
    s.user_secret_regex_list.iter().map(|r| r.pattern_str().to_string()).collect()
}

#[test]
fn snapshot_mock_has_everything_enabled() {
    let s = PrivacySettingsSnapshot::mock();
    assert_eq!(s.cloud_conversation_storage_enabled(), None);
    assert!(s.is_telemetry_enabled());
    assert!(s.is_crash_reporting_enabled());
    assert!(s.is_telemetry_force_enabled());
    assert!(s.should_collect_ai_ugc_telemetry());
    assert!(!s.should_disable_telemetry(false));
}

#[test]
fn telemetry_is_disabled_only_when_nothing_requires_it() {
    let mut settings = PrivacySettings::mock();
    let _ = settings.set_is_telemetry_enabled::<()>(false);
    let snapshot = settings.get_snapshot();
    assert!(snapshot.should_disable_telemetry(false));
    assert!(!snapshot.should_disable_telemetry(true));
    settings.set_is_telemetry_force_enabled(true);
    assert!(!settings.get_snapshot().should_disable_telemetry(false));
}

#[test]
fn snapshot_reports_cloud_storage_only_when_off() {
    let mut settings = PrivacySettings::mock();
    assert_eq!(settings.get_snapshot().cloud_conversation_storage_enabled(), None);
    let event = settings.set_is_cloud_conversation_storage_enabled::<()>(false);
    assert_eq!(
        event,
        Some(PrivacySettingsChangedEvent::UpdateIsCloudConversationStorageEnabled {
            old_value: true,
            new_value: false
        })
    );
    assert_eq!(settings.get_snapshot().cloud_conversation_storage_enabled(), Some(false));
    assert!(!settings.get_snapshot().should_collect_ai_ugc_telemetry());
}

#[test]
fn setting_the_same_value_emits_nothing() {
    let mut settings = PrivacySettings::mock();
    assert_eq!(settings.set_is_crash_reporting_enabled::<()>(true), None);
    assert_eq!(
        settings.set_is_crash_reporting_enabled::<()>(false),
        Some(PrivacySettingsChangedEvent::UpdateIsCrashReportingEnabled {
            old_value: true,
            new_value: false
        })
    );
    assert_eq!(settings.set_is_crash_reporting_enabled::<()>(false), None);
    assert!(!settings.is_crash_reporting_enabled);
}

#[test]
fn refresh_to_default_turns_switches_back_on() {
    let mut settings = PrivacySettings::new(false, false, false, Vec::new(), true);
    settings.set_is_telemetry_force_enabled(true);
    settings.refresh_to_default();
    assert!(settings.is_telemetry_enabled);
    assert!(settings.is_crash_reporting_enabled);
    assert!(settings.is_cloud_conversation_storage_enabled);
    assert!(!settings.is_telemetry_force_enabled());
    assert!(!settings.is_enterprise_secret_redaction_enabled());
    assert!(settings.has_initialized_default_secret_regexes);
}

#[test]
fn invalid_regex_is_rejected() {
    assert!(CustomSecretRegex::new("(unclosed".to_string(), None).is_err());
    let r = CustomSecretRegex::new("ghp_[A-Za-z0-9]+".to_string(), Some("GitHub".to_string()))
        .unwrap();
    assert_eq!(RegexDisplayInfo::pattern(&r), "ghp_[A-Za-z0-9]+");
    assert_eq!(RegexDisplayInfo::name(&r), Some("GitHub"));
}

#[test]
fn recommended_regexes_are_added_once_without_repeats() {
    let mut settings = PrivacySettings::mock();
    let recommended = vec![rec("a+", "A"), rec("(bad", "Bad"), rec("b+", "B"), rec("a+", "A again")];
    assert!(settings.add_all_recommended_regex(&recommended));
    assert_eq!(patterns(&settings), vec!["a+".to_string(), "b+".to_string()]);
    assert!(!settings.add_all_recommended_regex(&recommended));
    assert_eq!(patterns(&settings), vec!["a+".to_string(), "b+".to_string()]);
}

#[test]
fn default_regexes_are_initialized_only_once() {
    let mut settings = PrivacySettings::mock();
    let recommended = vec![rec("x+", "X")];
    assert!(settings.initialize_default_regexes_once(&recommended));
    settings.remove_user_secret_regex(0);
    assert!(patterns(&settings).is_empty());
    assert!(!settings.initialize_default_regexes_once(&recommended));
    assert!(patterns(&settings).is_empty());
    assert!(!settings.maybe_sync_with_warp_drive_prefs(&recommended));
}

#[test]
fn disabling_the_trigger_prevents_initialization() {
    let mut settings = PrivacySettings::mock();
    settings.disable_default_regex_trigger();
    assert!(!settings.maybe_sync_with_warp_drive_prefs(&vec![rec("x+", "X")]));
    assert!(patterns(&settings).is_empty());
}

#[test]
fn enterprise_redaction_forces_safe_mode_the_first_time() {
    let mut settings = PrivacySettings::mock();
    let regex = CustomSecretRegex::new("secret".to_string(), None).unwrap();
    let first = settings.set_enterprise_secret_redaction_settings(true, vec![regex], 7u8);
    assert!(first.force_enable_safe_mode);
    assert_eq!(
        first.event,
        PrivacySettingsChangedEvent::CustomSecretRegexList { change_event_reason: 7u8 }
    );
    assert_eq!(settings.enterprise_secret_regex_list.len(), 1);
    let second = settings.set_enterprise_secret_redaction_settings(true, Vec::new(), 8u8);
    assert!(!second.force_enable_safe_mode);
    let off = settings.set_enterprise_secret_redaction_settings(false, Vec::new(), 9u8);
    assert!(!off.force_enable_safe_mode);
    assert!(settings.enterprise_secret_regex_list.is_empty());
    assert!(!settings.is_enterprise_secret_redaction_enabled());
}
