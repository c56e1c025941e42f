//! The user's privacy settings: telemetry, crash reporting, cloud storage of
//! conversations, and the secret-redaction regexes.
use vstd::prelude::*;

verus! {

/// Whether `regex::Regex::new` accepts `pattern`.
pub uninterp spec fn regex_compiles(pattern: Seq<char>) -> bool;

/// Calls `regex::Regex::new` on `pattern` and tells whether it compiled. The outcome is named by
/// `regex_compiles`.
#[verifier::external_body]
fn compile_check(pattern: &str) -> (ok: bool)
    ensures
        ok == regex_compiles(pattern@),
{
    regex::Regex::new(pattern).is_ok()
}

/// Pattern text and optional display name of a regex.
pub trait RegexDisplayInfo {
    fn pattern(&self) -> &str;

    fn name(&self) -> Option<&str>;
}

/// A regex pattern used to detect and redact secrets, with an optional display name.
#[derive(Debug)]
pub struct CustomSecretRegex {
    pattern: String,
    name: Option<String>,
}

/// A regex whose pattern failed to compile.
#[derive(Debug, Clone)]
pub struct InvalidSecretRegex {
    pub pattern: String,
}

/// A recommended secret regex: its pattern and name.
#[derive(Debug, Clone)]
pub struct RecommendedRegex {
    pub pattern: String,
    pub name: String,
}

impl CustomSecretRegex {
    /// The pattern text, which is known to compile.
    pub closed spec fn pattern_text(&self) -> Seq<char> {
        self.pattern@
    }

    /// The display name.
    pub closed spec fn display_name(&self) -> Option<String> {
        self.name
    }

    #[verifier::type_invariant]
    closed spec fn compiles(&self) -> bool {
        regex_compiles(self.pattern@)
    }

    /// A secret regex from a pattern; `Err` when the pattern does not compile.
    pub fn new(pattern: String, name: Option<String>) -> (r: Result<Self, InvalidSecretRegex>)
        ensures
            regex_compiles(pattern@) <==> r is Ok,
            r matches Ok(x) ==> x.pattern_text() == pattern@ && x.display_name() == name,
            r matches Err(e) ==> e.pattern@ == pattern@,
    {
        if compile_check(pattern.as_str()) {
            Ok(CustomSecretRegex { pattern, name })
        } else {
            Err(InvalidSecretRegex { pattern })
        }
    }

    /// The pattern text.
    pub fn pattern_str(&self) -> (r: &str)
        ensures
            r@ == self.pattern_text(),
            regex_compiles(r@),
    {
        proof {
            use_type_invariant(self);
        }
        self.pattern.as_str()
    }

    /// A copy of this regex.
    pub fn duplicate(&self) -> (r: Self)
        ensures
            r.pattern_text() == self.pattern_text(),
            r.display_name() == self.display_name(),
    {
        proof {
            use_type_invariant(self);
        }
        CustomSecretRegex { pattern: self.pattern.clone(), name: self.name.clone() }
    }

    /// Two secret regexes are the same when their patterns are: the name does not count,
    /// so the same pattern is never added twice.
    pub fn same_pattern(&self, other: &Self) -> (b: bool)
        ensures
            b == (self.pattern_text() == other.pattern_text()),
    {
        self.pattern == other.pattern
    }
}

impl RegexDisplayInfo for CustomSecretRegex {
    fn pattern(&self) -> (r: &str)
        ensures
            r@ == self.pattern_text(),
    {
        self.pattern.as_str()
    }

    fn name(&self) -> (r: Option<&str>)
        ensures
            r is Some <==> self.display_name() is Some,
            r matches Some(s) ==> s@ == self.display_name()->0@,
    {
        match &self.name {
            Some(n) => Some(n.as_str()),
            None => None,
        }
    }
}

/// A snapshot of the privacy settings at some point in time.
#[derive(Clone, Copy, Debug)]
pub struct PrivacySettingsSnapshot {
    is_telemetry_enabled: bool,
    is_crash_reporting_enabled: bool,
    is_telemetry_force_enabled: bool,
    should_collect_ai_ugc_telemetry: bool,
    /// `None` while the user keeps the default (enabled), so that a default on this device
    /// does not override a choice made on another one.
    cloud_conversation_storage_enabled: Option<bool>,
}

impl PrivacySettingsSnapshot {
    pub closed spec fn telemetry(&self) -> bool {
        self.is_telemetry_enabled
    }

    pub closed spec fn crash_reporting(&self) -> bool {
        self.is_crash_reporting_enabled
    }

    pub closed spec fn telemetry_forced(&self) -> bool {
        self.is_telemetry_force_enabled
    }

    pub closed spec fn ai_ugc_telemetry(&self) -> bool {
        self.should_collect_ai_ugc_telemetry
    }

    pub closed spec fn cloud_storage(&self) -> Option<bool> {
        self.cloud_conversation_storage_enabled
    }

    pub fn cloud_conversation_storage_enabled(&self) -> (r: Option<bool>)
        ensures
            r == self.cloud_storage(),
    {
        self.cloud_conversation_storage_enabled
    }

    pub fn is_telemetry_enabled(&self) -> (r: bool)
        ensures
            r == self.telemetry(),
    {
        self.is_telemetry_enabled
    }

    pub fn is_crash_reporting_enabled(&self) -> (r: bool)
        ensures
            r == self.crash_reporting(),
    {
        self.is_crash_reporting_enabled
    }

    pub fn is_telemetry_force_enabled(&self) -> (r: bool)
        ensures
            r == self.telemetry_forced(),
    {
        self.is_telemetry_force_enabled
    }

    /// Telemetry is off only when the user turned it off, the organization does not force
    /// it on, and the agent mode analytics experiment (which needs telemetry) is not enabled.
    pub fn should_disable_telemetry(&self, agent_mode_analytics_enabled: bool) -> (r: bool)
        ensures
            r == (!self.telemetry() && !self.telemetry_forced() && !agent_mode_analytics_enabled),
    {
        !self.is_telemetry_enabled && !self.is_telemetry_force_enabled
            && !agent_mode_analytics_enabled
    }

    pub fn should_collect_ai_ugc_telemetry(&self) -> (r: bool)
        ensures
            r == self.ai_ugc_telemetry(),
    {
        self.should_collect_ai_ugc_telemetry
    }

    /// A snapshot with everything enabled, for tests.
    pub fn mock() -> (r: Self)
        ensures
            r.cloud_storage() is None,
            r.telemetry(),
            r.crash_reporting(),
            r.telemetry_forced(),
            r.ai_ugc_telemetry(),
    {
        PrivacySettingsSnapshot {
            cloud_conversation_storage_enabled: None,
            is_telemetry_enabled: true,
            is_crash_reporting_enabled: true,
            is_telemetry_force_enabled: true,
            should_collect_ai_ugc_telemetry: true,
        }
    }
}

/// Events emitted when the privacy settings change. `Reason` is why a settings list
/// changed, as the settings store reports it.
#[derive(Clone, Copy, Debug, PartialEq, Eq)]
pub enum PrivacySettingsChangedEvent<Reason> {
    UpdateIsTelemetryEnabled { old_value: bool, new_value: bool },
    UpdateIsCrashReportingEnabled { old_value: bool, new_value: bool },
    UpdateIsCloudConversationStorageEnabled { old_value: bool, new_value: bool },
    CustomSecretRegexList { change_event_reason: Reason },
    HasInitializedDefaultSecretRegexes { change_event_reason: Reason },
}

/// The privacy settings of the user.
pub struct PrivacySettings {
    pub is_telemetry_enabled: bool,
    pub is_crash_reporting_enabled: bool,
    pub is_cloud_conversation_storage_enabled: bool,
    /// Whether the recommended secret regexes were already added once.
    pub has_initialized_default_secret_regexes: bool,
    /// The user's own secret regexes.
    pub user_secret_regex_list: Vec<CustomSecretRegex>,
    /// The organization's secret regexes, kept apart from the user's.
    pub enterprise_secret_regex_list: Vec<CustomSecretRegex>,
    /// Whether the organization forces telemetry on, whatever the user chose.
    pub is_telemetry_force_enabled: bool,
    /// Whether the organization enabled secret redaction.
    pub is_enterprise_secret_redaction_enabled: bool,
}

/// The patterns of a list of secret regexes, in order.
pub open spec fn patterns(list: Seq<CustomSecretRegex>) -> Seq<Seq<char>> {
    list.map_values(|r: CustomSecretRegex| r.pattern_text())
}

/// The patterns of `list` after adding the recommended patterns that compile and are not
/// already present, in the order given.
pub open spec fn with_recommended(list: Seq<Seq<char>>, recommended: Seq<Seq<char>>) -> Seq<
    Seq<char>,
>
    decreases recommended.len(),
{
    if recommended.len() == 0 {
        list
    } else {
        let before = with_recommended(list, recommended.drop_last());
        let p = recommended.last();
        if regex_compiles(p) && !before.contains(p) {
            before.push(p)
        } else {
            before
        }
    }
}

/// The patterns of the recommended regexes.
pub open spec fn recommended_patterns(r: Seq<RecommendedRegex>) -> Seq<Seq<char>> {
    r.map_values(|x: RecommendedRegex| x.pattern@)
}

/// What `apply_enterprise_redaction` decides.
#[derive(Clone, Copy, Debug, PartialEq, Eq)]
pub struct EnterpriseRedactionUpdate<Reason> {
    /// Whether secret redaction (safe mode) has to be switched on now.
    pub force_enable_safe_mode: bool,
    pub event: PrivacySettingsChangedEvent<Reason>,
}

impl PrivacySettings {
    /// Settings as stored locally; organization settings start off.
    pub fn new(
        is_telemetry_enabled: bool,
        is_crash_reporting_enabled: bool,
        is_cloud_conversation_storage_enabled: bool,
        user_secret_regex_list: Vec<CustomSecretRegex>,
        has_initialized_default_secret_regexes: bool,
    ) -> (r: Self)
        ensures
            r.is_telemetry_enabled == is_telemetry_enabled,
            r.is_crash_reporting_enabled == is_crash_reporting_enabled,
            r.is_cloud_conversation_storage_enabled == is_cloud_conversation_storage_enabled,
            r.user_secret_regex_list@ == user_secret_regex_list@,
            r.has_initialized_default_secret_regexes == has_initialized_default_secret_regexes,
            !r.is_telemetry_force_enabled,
            !r.is_enterprise_secret_redaction_enabled,
            r.enterprise_secret_regex_list@.len() == 0,
    {
        PrivacySettings {
            is_crash_reporting_enabled,
            is_telemetry_enabled,
            is_cloud_conversation_storage_enabled,
            user_secret_regex_list,
            has_initialized_default_secret_regexes,
            is_telemetry_force_enabled: false,
            is_enterprise_secret_redaction_enabled: false,
            enterprise_secret_regex_list: Vec::new(),
        }
    }

    /// Settings for tests: everything on, no regexes, nothing forced by an organization.
    pub fn mock() -> (r: Self)
        ensures
            r.is_telemetry_enabled,
            r.is_crash_reporting_enabled,
            r.is_cloud_conversation_storage_enabled,
            !r.has_initialized_default_secret_regexes,
            r.user_secret_regex_list@.len() == 0,
            r.enterprise_secret_regex_list@.len() == 0,
            !r.is_telemetry_force_enabled,
            !r.is_enterprise_secret_redaction_enabled,
    {
        Self::new(true, true, true, Vec::new(), false)
    }

    pub fn is_telemetry_force_enabled(&self) -> (r: bool)
        ensures
            r == self.is_telemetry_force_enabled,
    {
        self.is_telemetry_force_enabled
    }

    pub fn set_is_telemetry_force_enabled(&mut self, is_telemetry_force_enabled: bool)
        ensures
            *final(self) == (PrivacySettings { is_telemetry_force_enabled, ..*old(self) }),
    {
        self.is_telemetry_force_enabled = is_telemetry_force_enabled;
    }

    pub fn is_enterprise_secret_redaction_enabled(&self) -> (r: bool)
        ensures
            r == self.is_enterprise_secret_redaction_enabled,
    {
        self.is_enterprise_secret_redaction_enabled
    }

    /// Applies the organization's secret-redaction settings. When enabled, the organization's
    /// regexes replace the previous ones and, the first time, safe mode must be switched on;
    /// when disabled, the organization's regexes are cleared. The regex-list event is always
    /// emitted.
    pub fn set_enterprise_secret_redaction_settings<Reason: Copy>(
        &mut self,
        enabled: bool,
        enterprise_regexes: Vec<CustomSecretRegex>,
        change_event_reason: Reason,
    ) -> (r: EnterpriseRedactionUpdate<Reason>)
        ensures
            r.force_enable_safe_mode == (enabled && !old(self).is_enterprise_secret_redaction_enabled),
            r.event == (PrivacySettingsChangedEvent::CustomSecretRegexList { change_event_reason }),
            final(self).is_enterprise_secret_redaction_enabled == enabled,
            enabled ==> final(self).enterprise_secret_regex_list@ == enterprise_regexes@,
            !enabled ==> final(self).enterprise_secret_regex_list@.len() == 0,
            final(self).is_telemetry_enabled == old(self).is_telemetry_enabled,
            final(self).is_crash_reporting_enabled == old(self).is_crash_reporting_enabled,
            final(self).is_cloud_conversation_storage_enabled
                == old(self).is_cloud_conversation_storage_enabled,
            final(self).is_telemetry_force_enabled == old(self).is_telemetry_force_enabled,
            final(self).has_initialized_default_secret_regexes
                == old(self).has_initialized_default_secret_regexes,
            final(self).user_secret_regex_list@ == old(self).user_secret_regex_list@,
    {
        let force = enabled && !self.is_enterprise_secret_redaction_enabled;
        if enabled {
            self.enterprise_secret_regex_list = enterprise_regexes;
        } else {
            self.enterprise_secret_regex_list.clear();
        }
        self.is_enterprise_secret_redaction_enabled = enabled;
        EnterpriseRedactionUpdate {
            force_enable_safe_mode: force,
            event: PrivacySettingsChangedEvent::CustomSecretRegexList { change_event_reason },
        }
    }

    /// Resets the switches to their defaults: telemetry, crash reporting and cloud storage on,
    /// nothing forced by an organization. The regex lists are kept.
    pub fn refresh_to_default(&mut self)
        ensures
            final(self).is_telemetry_enabled,
            final(self).is_crash_reporting_enabled,
            final(self).is_cloud_conversation_storage_enabled,
            !final(self).is_telemetry_force_enabled,
            !final(self).is_enterprise_secret_redaction_enabled,
            final(self).has_initialized_default_secret_regexes
                == old(self).has_initialized_default_secret_regexes,
            final(self).user_secret_regex_list@ == old(self).user_secret_regex_list@,
            final(self).enterprise_secret_regex_list@ == old(self).enterprise_secret_regex_list@,
    {
        self.is_telemetry_enabled = true;
        self.is_crash_reporting_enabled = true;
        self.is_cloud_conversation_storage_enabled = true;
        self.is_telemetry_force_enabled = false;
        self.is_enterprise_secret_redaction_enabled = false;
    }

    /// A snapshot of the settings. Cloud conversation storage shows as `Some(false)` when off
    /// and `None` when on (the default).
    pub fn get_snapshot(&self) -> (r: PrivacySettingsSnapshot)
        ensures
            r.telemetry() == self.is_telemetry_enabled,
            r.crash_reporting() == self.is_crash_reporting_enabled,
            r.telemetry_forced() == self.is_telemetry_force_enabled,
            !r.ai_ugc_telemetry(),
            r.cloud_storage() == (if self.is_cloud_conversation_storage_enabled {
                None
            } else {
                Some(false)
            }),
    {
        PrivacySettingsSnapshot {
            cloud_conversation_storage_enabled: if !self.is_cloud_conversation_storage_enabled {
                Some(false)
            } else {
                None
            },
            is_telemetry_enabled: self.is_telemetry_enabled,
            is_crash_reporting_enabled: self.is_crash_reporting_enabled,
            is_telemetry_force_enabled: self.is_telemetry_force_enabled,
            should_collect_ai_ugc_telemetry: false,
        }
    }

    /// Sets crash reporting. Returns the event to emit when the value changed (the new value
    /// then also has to be written to the synced settings), `None` when it did not.
    pub fn set_is_crash_reporting_enabled<Reason>(&mut self, new_value: bool) -> (r: Option<
        PrivacySettingsChangedEvent<Reason>,
    >)
        ensures
            final(self).is_crash_reporting_enabled == new_value,
            r == (if new_value != old(self).is_crash_reporting_enabled {
                Some(
                    PrivacySettingsChangedEvent::<Reason>::UpdateIsCrashReportingEnabled {
                        old_value: old(self).is_crash_reporting_enabled,
                        new_value,
                    },
                )
            } else {
                None
            }),
            *final(self) == (PrivacySettings {
                is_crash_reporting_enabled: new_value,
                ..*old(self)
            }),
    {
        let old_value = self.is_crash_reporting_enabled;
        if new_value != old_value {
            self.is_crash_reporting_enabled = new_value;
            Some(PrivacySettingsChangedEvent::UpdateIsCrashReportingEnabled { old_value, new_value })
        } else {
            None
        }
    }

    /// Sets telemetry. Returns the event to emit when the value changed, `None` when it did
    /// not.
    pub fn set_is_telemetry_enabled<Reason>(&mut self, new_value: bool) -> (r: Option<
        PrivacySettingsChangedEvent<Reason>,
    >)
        ensures
            r == (if new_value != old(self).is_telemetry_enabled {
                Some(
                    PrivacySettingsChangedEvent::<Reason>::UpdateIsTelemetryEnabled {
                        old_value: old(self).is_telemetry_enabled,
                        new_value,
                    },
                )
            } else {
                None
            }),
            *final(self) == (PrivacySettings { is_telemetry_enabled: new_value, ..*old(self) }),
    {
        let old_value = self.is_telemetry_enabled;
        if new_value != old_value {
            self.is_telemetry_enabled = new_value;
            Some(PrivacySettingsChangedEvent::UpdateIsTelemetryEnabled { old_value, new_value })
        } else {
            None
        }
    }

    /// Sets cloud conversation storage. Returns the event to emit when the value changed,
    /// `None` when it did not.
    pub fn set_is_cloud_conversation_storage_enabled<Reason>(&mut self, new_value: bool) -> (r:
        Option<PrivacySettingsChangedEvent<Reason>>)
        ensures
            r == (if new_value != old(self).is_cloud_conversation_storage_enabled {
                Some(
                    PrivacySettingsChangedEvent::<Reason>::UpdateIsCloudConversationStorageEnabled {
                        old_value: old(self).is_cloud_conversation_storage_enabled,
                        new_value,
                    },
                )
            } else {
                None
            }),
            *final(self) == (PrivacySettings {
                is_cloud_conversation_storage_enabled: new_value,
                ..*old(self)
            }),
    {
        let old_value = self.is_cloud_conversation_storage_enabled;
        if new_value == old_value {
            return None;
        }
        self.is_cloud_conversation_storage_enabled = new_value;
        Some(
            PrivacySettingsChangedEvent::UpdateIsCloudConversationStorageEnabled {
                old_value,
                new_value,
            },
        )
    }

    /// Removes the user's secret regex at `idx`.
    pub fn remove_user_secret_regex(&mut self, idx: usize)
        requires
            idx < old(self).user_secret_regex_list@.len(),
        ensures
            final(self).user_secret_regex_list@ == old(self).user_secret_regex_list@.remove(
                idx as int,
            ),
            final(self).enterprise_secret_regex_list@ == old(self).enterprise_secret_regex_list@,
            final(self).is_telemetry_enabled == old(self).is_telemetry_enabled,
            final(self).is_crash_reporting_enabled == old(self).is_crash_reporting_enabled,
            final(self).is_cloud_conversation_storage_enabled
                == old(self).is_cloud_conversation_storage_enabled,
            final(self).has_initialized_default_secret_regexes
                == old(self).has_initialized_default_secret_regexes,
            final(self).is_telemetry_force_enabled == old(self).is_telemetry_force_enabled,
            final(self).is_enterprise_secret_redaction_enabled
                == old(self).is_enterprise_secret_redaction_enabled,
    {
        self.user_secret_regex_list.remove(idx);
    }

    /// Adds each recommended regex that compiles and whose pattern is not in the user's list
    /// yet, in the order given. Returns whether the list grew (and so has to be stored).
    pub fn add_all_recommended_regex(&mut self, recommended: &Vec<RecommendedRegex>) -> (changed: bool)
        ensures
            patterns(final(self).user_secret_regex_list@) == with_recommended(
                patterns(old(self).user_secret_regex_list@),
                recommended_patterns(recommended@),
            ),
            changed == (final(self).user_secret_regex_list@.len() != old(
                self,
            ).user_secret_regex_list@.len()),
            final(self).user_secret_regex_list@.take(old(self).user_secret_regex_list@.len() as int)
                == old(self).user_secret_regex_list@,
            final(self).enterprise_secret_regex_list@ == old(self).enterprise_secret_regex_list@,
            final(self).is_telemetry_enabled == old(self).is_telemetry_enabled,
            final(self).is_crash_reporting_enabled == old(self).is_crash_reporting_enabled,
            final(self).is_cloud_conversation_storage_enabled
                == old(self).is_cloud_conversation_storage_enabled,
            final(self).has_initialized_default_secret_regexes
                == old(self).has_initialized_default_secret_regexes,
            final(self).is_telemetry_force_enabled == old(self).is_telemetry_force_enabled,
            final(self).is_enterprise_secret_redaction_enabled
                == old(self).is_enterprise_secret_redaction_enabled,
    {
        let ghost start = self.user_secret_regex_list@;
        let num_existing = self.user_secret_regex_list.len();
        let mut i: usize = 0;
        while i < recommended.len()
            invariant
                i <= recommended.len(),
                patterns(self.user_secret_regex_list@) == with_recommended(
                    patterns(start),
                    recommended_patterns(recommended@).take(i as int),
                ),
                self.user_secret_regex_list@.len() >= start.len(),
                self.user_secret_regex_list@.take(start.len() as int) == start,
                num_existing == start.len(),
                self.enterprise_secret_regex_list@ == old(self).enterprise_secret_regex_list@,
                self.is_telemetry_enabled == old(self).is_telemetry_enabled,
                self.is_crash_reporting_enabled == old(self).is_crash_reporting_enabled,
                self.is_cloud_conversation_storage_enabled
                    == old(self).is_cloud_conversation_storage_enabled,
                self.has_initialized_default_secret_regexes
                    == old(self).has_initialized_default_secret_regexes,
                self.is_telemetry_force_enabled == old(self).is_telemetry_force_enabled,
                self.is_enterprise_secret_redaction_enabled
                    == old(self).is_enterprise_secret_redaction_enabled,
                start == old(self).user_secret_regex_list@,
            decreases recommended.len() - i,
        {
            let ghost before = patterns(self.user_secret_regex_list@);
            let ghost rp = recommended_patterns(recommended@);
            assert(rp.take(i + 1).drop_last() =~= rp.take(i as int));
            assert(rp.take(i + 1).last() == recommended@[i as int].pattern@);
            let candidate = CustomSecretRegex::new(
                recommended[i].pattern.clone(),
                Some(recommended[i].name.clone()),
            );
            match candidate {
                Ok(regex) => {
                    let mut present = false;
                    let mut j: usize = 0;
                    while j < self.user_secret_regex_list.len()
                        invariant
                            j <= self.user_secret_regex_list@.len(),
                            present <==> exists|k: int|
                                0 <= k < j && #[trigger] self.user_secret_regex_list@[k].pattern_text()
                                    == regex.pattern_text(),
                        decreases self.user_secret_regex_list@.len() - j,
                    {
                        if self.user_secret_regex_list[j].same_pattern(&regex) {
                            present = true;
                        }
                        j += 1;
                    }
                    proof {
                        if present {
                            let k = choose|k: int|
                                0 <= k < self.user_secret_regex_list@.len()
                                    && #[trigger] self.user_secret_regex_list@[k].pattern_text()
                                    == regex.pattern_text();
                            assert(before[k] == regex.pattern_text());
                        } else {
                            assert forall|k: int| 0 <= k < before.len() implies before[k]
                                != regex.pattern_text() by {
                                assert(before[k] == self.user_secret_regex_list@[k].pattern_text());
                            }
                        }
                    }
                    if !present {
                        let ghost old_list = self.user_secret_regex_list@;
                        self.user_secret_regex_list.push(regex);
                        assert(patterns(self.user_secret_regex_list@) =~= before.push(
                            rp[i as int],
                        ));
                        assert(self.user_secret_regex_list@.take(start.len() as int)
                            =~= old_list.take(start.len() as int));
                    }
                },
                Err(_) => {},
            }
            i += 1;
        }
        assert(recommended_patterns(recommended@).take(recommended.len() as int)
            =~= recommended_patterns(recommended@));
        self.user_secret_regex_list.len() != num_existing
    }

    /// Marks the recommended regexes as added, so they are never added automatically.
    pub fn disable_default_regex_trigger(&mut self)
        ensures
            *final(self) == (PrivacySettings {
                has_initialized_default_secret_regexes: true,
                ..*old(self)
            }),
    {
        self.has_initialized_default_secret_regexes = true;
    }

    /// Adds the recommended regexes the first time only. Returns whether the list grew.
    pub fn initialize_default_regexes_once(&mut self, recommended: &Vec<RecommendedRegex>) -> (changed: bool)
        ensures
            final(self).has_initialized_default_secret_regexes,
            old(self).has_initialized_default_secret_regexes ==> !changed
                && final(self).user_secret_regex_list@ == old(self).user_secret_regex_list@,
            !old(self).has_initialized_default_secret_regexes ==> patterns(
                final(self).user_secret_regex_list@,
            ) == with_recommended(
                patterns(old(self).user_secret_regex_list@),
                recommended_patterns(recommended@),
            ) && changed == (final(self).user_secret_regex_list@.len() != old(
                self,
            ).user_secret_regex_list@.len()),
            final(self).enterprise_secret_regex_list@ == old(self).enterprise_secret_regex_list@,
            final(self).is_telemetry_enabled == old(self).is_telemetry_enabled,
            final(self).is_crash_reporting_enabled == old(self).is_crash_reporting_enabled,
            final(self).is_cloud_conversation_storage_enabled
                == old(self).is_cloud_conversation_storage_enabled,
            final(self).is_telemetry_force_enabled == old(self).is_telemetry_force_enabled,
            final(self).is_enterprise_secret_redaction_enabled
                == old(self).is_enterprise_secret_redaction_enabled,
    {
        if !self.has_initialized_default_secret_regexes {
            let changed = self.add_all_recommended_regex(recommended);
            self.has_initialized_default_secret_regexes = true;
            changed
        } else {
            false
        }
    }

    /// Runs once the synced preferences are loaded: adds the recommended regexes if that was
    /// never done.
    pub fn maybe_sync_with_warp_drive_prefs(&mut self, recommended: &Vec<RecommendedRegex>) -> (changed: bool)
        ensures
            final(self).has_initialized_default_secret_regexes,
            old(self).has_initialized_default_secret_regexes ==> !changed
                && final(self).user_secret_regex_list@ == old(self).user_secret_regex_list@,
            !old(self).has_initialized_default_secret_regexes ==> patterns(
                final(self).user_secret_regex_list@,
            ) == with_recommended(
                patterns(old(self).user_secret_regex_list@),
                recommended_patterns(recommended@),
            ),
    {
        self.initialize_default_regexes_once(recommended)
    }
}

/// Every recommended pattern that compiles is in the list after adding them, and no
/// pattern that was absent from both is.
pub proof fn law_with_recommended_contents(
    list: Seq<Seq<char>>,
    recommended: Seq<Seq<char>>,
    p: Seq<char>,
)
    ensures
        with_recommended(list, recommended).contains(p) <==> (list.contains(p) || (
        recommended.contains(p) && regex_compiles(p))),
    decreases recommended.len(),
{
    if recommended.len() > 0 {
        let before = with_recommended(list, recommended.drop_last());
        law_with_recommended_contents(list, recommended.drop_last(), p);
        let q = recommended.last();
        if recommended.contains(p) && !recommended.drop_last().contains(p) {
            let k = choose|k: int| 0 <= k < recommended.len() && recommended[k] == p;
            if k < recommended.len() - 1 {
                assert(recommended.drop_last()[k] == p);
            }
            assert(q == p);
        }
        if recommended.drop_last().contains(p) {
            let k = choose|k: int| 0 <= k < recommended.len() - 1 && recommended.drop_last()[k] == p;
            assert(recommended[k] == p);
        }
        if regex_compiles(q) && !before.contains(q) {
            let after = before.push(q);
            if after.contains(p) && p != q {
                let k = choose|k: int| 0 <= k < after.len() && after[k] == p;
                assert(before[k] == p);
            }
            if before.contains(p) {
                let k = choose|k: int| 0 <= k < before.len() && before[k] == p;
                assert(after[k] == p);
            }
            assert(after[before.len() as int] == q);
        }
    }
}

/// Adding patterns never brings in a pattern twice when the list had no repeats.
pub proof fn law_with_recommended_no_repeats(list: Seq<Seq<char>>, recommended: Seq<Seq<char>>)
    requires
        list.no_duplicates(),
    ensures
        with_recommended(list, recommended).no_duplicates(),
    decreases recommended.len(),
{
    if recommended.len() > 0 {
        law_with_recommended_no_repeats(list, recommended.drop_last());
        let before = with_recommended(list, recommended.drop_last());
        let q = recommended.last();
        if regex_compiles(q) && !before.contains(q) {
            let after = before.push(q);
            assert forall|i: int, j: int| 0 <= i < after.len() && 0 <= j < after.len() && i != j implies after[i] != after[j] by {
                if i == before.len() {
                    assert(after[j] == before[j]);
                } else if j == before.len() {
                    assert(after[i] == before[i]);
                }
            }
        }
    }
}

/// Adding the recommended patterns a second time changes nothing.
pub proof fn law_with_recommended_idempotent(list: Seq<Seq<char>>, recommended: Seq<Seq<char>>)
    ensures
        with_recommended(with_recommended(list, recommended), recommended) == with_recommended(
            list,
            recommended,
        ),
{
    let once = with_recommended(list, recommended);
    assert forall|i: int|
        0 <= i < recommended.len() && regex_compiles(#[trigger] recommended[i]) implies once.contains(
        recommended[i]) by {
        assert(recommended.contains(recommended[i]));
        law_with_recommended_contents(list, recommended, recommended[i]);
    }
    lemma_with_recommended_all_present(once, recommended);
}

proof fn lemma_with_recommended_all_present(list: Seq<Seq<char>>, recommended: Seq<Seq<char>>)
    requires
        forall|i: int|
            0 <= i < recommended.len() && regex_compiles(#[trigger] recommended[i])
                ==> list.contains(recommended[i]),
    ensures
        with_recommended(list, recommended) == list,
    decreases recommended.len(),
{
    if recommended.len() > 0 {
        assert forall|i: int|
            0 <= i < recommended.drop_last().len() && regex_compiles(
                #[trigger] recommended.drop_last()[i],
            ) implies list.contains(recommended.drop_last()[i]) by {
            assert(recommended.drop_last()[i] == recommended[i]);
        }
        lemma_with_recommended_all_present(list, recommended.drop_last());
        if regex_compiles(recommended.last()) {
            assert(list.contains(recommended[recommended.len() - 1]));
        }
    }
}

} // verus!
