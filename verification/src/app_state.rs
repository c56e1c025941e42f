//! Small application models: GPU state, the main settings page and the
//! system information monitor.
use vstd::prelude::*;

use std::collections::VecDeque;

verus! {

/// Tracks the GPU state.
#[derive(Debug, Default, Clone)]
pub struct GPUState {
    has_low_power_gpu: bool,
}

impl GPUState {
    pub closed spec fn low_power_gpu(&self) -> bool {
        self.has_low_power_gpu
    }

    /// A state with no low power GPU known.
    pub fn new() -> (r: Self)
        ensures
            !r.low_power_gpu(),
    {
        GPUState { has_low_power_gpu: false }
    }

    /// Whether the low power GPU is available for use.
    pub fn is_low_power_gpu_available(&self) -> (r: bool)
        ensures
            r == self.low_power_gpu(),
    {
        self.has_low_power_gpu
    }
}

/// Actions of the main settings page.
#[derive(Debug, Clone)]
pub enum MainPageAction {
    Relaunch,
    DownloadUpdate,
    CheckForUpdate,
    OpenUrl(String),
}

/// Events of the main settings page.
#[derive(Clone, Copy, Debug, PartialEq, Eq, Structural)]
pub enum MainSettingsPageEvent {
    CheckForUpdate,
}

/// What handling a main-page action does.
#[derive(Debug, Clone)]
pub enum MainPageEffect {
    Nothing,
    Emit(MainSettingsPageEvent),
    OpenUrl(String),
}

/// The main page of the settings view. Its content is laid out by the UI;
/// what it does with its actions is decided here.
#[derive(Debug, Default)]
pub struct MainSettingsPageView {}

impl MainSettingsPageView {
    pub fn new() -> (r: Self) {
        MainSettingsPageView {}
    }

    /// Relaunching and downloading are handled elsewhere; checking for updates is reported
    /// as an event; a URL is opened.
    pub fn handle_action(&mut self, action: &MainPageAction) -> (r: MainPageEffect)
        ensures
            match (*action, r) {
                (MainPageAction::Relaunch, MainPageEffect::Nothing) => true,
                (MainPageAction::DownloadUpdate, MainPageEffect::Nothing) => true,
                (
                    MainPageAction::CheckForUpdate,
                    MainPageEffect::Emit(MainSettingsPageEvent::CheckForUpdate),
                ) => true,
                (MainPageAction::OpenUrl(u), MainPageEffect::OpenUrl(v)) => u == v,
                _ => false,
            },
    {
        match action {
            MainPageAction::Relaunch | MainPageAction::DownloadUpdate => MainPageEffect::Nothing,
            MainPageAction::CheckForUpdate => MainPageEffect::Emit(
                MainSettingsPageEvent::CheckForUpdate,
            ),
            MainPageAction::OpenUrl(url) => MainPageEffect::OpenUrl(url.clone()),
        }
    }

    /// The name of the view.
    pub fn ui_name() -> (r: &'static str)
        ensures
            r@ == "MainSettingsPage"@,
    {
        "MainSettingsPage"
    }
}

/// How often system information is refreshed, in seconds.
pub const REFRESH_INTERVAL_S: usize = 5;

/// The time window a resource usage report covers, in seconds.
pub const REPORT_WINDOW_S: usize = 300;

/// The number of samples in a resource usage report.
pub const REPORT_SAMPLE_COUNT: usize = REPORT_WINDOW_S / REFRESH_INTERVAL_S;

/// The refresh interval divides the report window into a whole number of samples.
pub proof fn law_report_window_whole_samples()
    ensures
        REPORT_WINDOW_S % REFRESH_INTERVAL_S == 0,
        REPORT_SAMPLE_COUNT * REFRESH_INTERVAL_S == REPORT_WINDOW_S,
{
}

/// Calls `byte_unit::Byte::GIGABYTE.multiply(10)` and gives the bytes. Its source defines a
/// gigabyte as 10^9 bytes, so this is 10^10.
#[verifier::external_body]
fn memory_usage_warning_threshold() -> (t: Option<u64>)
    ensures
        t == Some(10_000_000_000u64),
{
    byte_unit::Byte::GIGABYTE.multiply(10).map(|b| b.as_u64())
}

/// Events of the system information model.
#[derive(Clone, Copy, Debug, PartialEq, Eq, Structural)]
pub enum SystemInfoEvent {
    /// New system information is available.
    Refreshed,
    /// The application uses a lot of memory.
    MemoryUsageHigh,
}

/// A fixed-size circular buffer of resource usage samples: it holds at most a report's worth
/// (`REPORT_SAMPLE_COUNT`) of them.
pub struct StatsBuffer<T> {
    stats: VecDeque<T>,
}

impl<T> StatsBuffer<T> {
    /// The buffer never holds more than a report's worth of samples.
    #[verifier::type_invariant]
    spec fn within_report_size(&self) -> bool {
        self.stats@.len() <= REPORT_SAMPLE_COUNT
    }

    /// The samples, oldest first.
    pub closed spec fn samples(&self) -> Seq<T> {
        self.stats@
    }

    /// An empty buffer with room for a report's worth of samples.
    pub fn new() -> (r: Self)
        ensures
            r.samples().len() == 0,
    {
        StatsBuffer { stats: VecDeque::with_capacity(REPORT_SAMPLE_COUNT) }
    }

    /// Whether the buffer is full of samples: it holds a report's worth. Adding a sample then
    /// replaces the oldest one.
    pub fn is_full(&self) -> (r: bool)
        ensures
            r <==> self.samples().len() == REPORT_SAMPLE_COUNT,
            self.samples().len() <= REPORT_SAMPLE_COUNT,
    {
        proof {
            use_type_invariant(self);
        }
        self.stats.len() == REPORT_SAMPLE_COUNT
    }

    /// Adds a sample. When the buffer is full the oldest sample is dropped first.
    pub fn push(&mut self, sample: T)
        ensures
            old(self).samples().len() < REPORT_SAMPLE_COUNT ==> final(self).samples() == old(
                self,
            ).samples().push(sample),
            old(self).samples().len() >= REPORT_SAMPLE_COUNT ==> final(self).samples() == old(
                self,
            ).samples().drop_first().push(sample),
            final(self).samples().len() <= REPORT_SAMPLE_COUNT,
    {
        proof {
            use_type_invariant(&*self);
        }
        let full = self.is_full();
        let mut stats: VecDeque<T> = VecDeque::new();
        std::mem::swap(&mut stats, &mut self.stats);
        if full {
            let _ = stats.pop_front();
        }
        stats.push_back(sample);
        self.stats = stats;
    }

    /// The number of samples.
    pub fn len(&self) -> (r: usize)
        ensures
            r == self.samples().len(),
            r <= REPORT_SAMPLE_COUNT,
    {
        proof {
            use_type_invariant(self);
        }
        self.stats.len()
    }

    /// The `i`-th sample, oldest first.
    pub fn get(&self, i: usize) -> (r: &T)
        requires
            i < self.samples().len(),
        ensures
            *r == self.samples()[i as int],
    {
        &self.stats[i]
    }
}

/// The system information model's own state: whether the high-memory event was sent, and the
/// recent samples.
pub struct SystemInfo<T> {
    has_emitted_memory_warning_event: bool,
    stats: StatsBuffer<T>,
}

impl<T> SystemInfo<T> {
    pub closed spec fn warned(&self) -> bool {
        self.has_emitted_memory_warning_event
    }

    pub closed spec fn samples(&self) -> Seq<T> {
        self.stats.samples()
    }

    pub fn new() -> (r: Self)
        ensures
            !r.warned(),
            r.samples().len() == 0,
    {
        SystemInfo { has_emitted_memory_warning_event: false, stats: StatsBuffer::new() }
    }

    /// Stores a resource usage sample; once a report's worth is stored, the oldest one is
    /// dropped to make room.
    pub fn record_sample(&mut self, sample: T)
        ensures
            final(self).warned() == old(self).warned(),
            old(self).samples().len() < REPORT_SAMPLE_COUNT ==> final(self).samples() == old(
                self,
            ).samples().push(sample),
            old(self).samples().len() >= REPORT_SAMPLE_COUNT ==> final(self).samples() == old(
                self,
            ).samples().drop_first().push(sample),
    {
        self.stats.push(sample);
    }

    /// The stored samples' count.
    pub fn sample_count(&self) -> (r: usize)
        ensures
            r == self.samples().len(),
    {
        self.stats.len()
    }

    /// Checks the memory footprint (which includes swapped and compressed memory) against the
    /// 10 GB threshold. The first time it is reached, `MemoryUsageHigh` is returned to be
    /// emitted; after that, never again.
    pub fn check_for_excessive_memory_usage(&mut self, rss_bytes: u64, footprint_bytes: u64) -> (r:
        Option<SystemInfoEvent>)
        ensures
            r == (if !old(self).warned() && footprint_bytes >= 10_000_000_000u64 {
                Some(SystemInfoEvent::MemoryUsageHigh)
            } else {
                None
            }),
            final(self).warned() == (old(self).warned() || footprint_bytes >= 10_000_000_000u64),
            final(self).samples() == old(self).samples(),
    {
        let _ = rss_bytes;
        if self.has_emitted_memory_warning_event {
            return None;
        }
        let threshold = match memory_usage_warning_threshold() {
            Some(t) => t,
            None => {
                return None;
            },
        };
        if footprint_bytes < threshold {
            return None;
        }
        self.has_emitted_memory_warning_event = true;
        Some(SystemInfoEvent::MemoryUsageHigh)
    }
}

/// The high-memory event is sent at most once.
pub proof fn law_memory_warning_at_most_once<T>(
    before: SystemInfo<T>,
    after: SystemInfo<T>,
    event: Option<SystemInfoEvent>,
    footprint_bytes: u64,
)
    requires
        before.warned(),
        event == (if !before.warned() && footprint_bytes >= 10_000_000_000u64 {
            Some(SystemInfoEvent::MemoryUsageHigh)
        } else {
            None
        }),
    ensures
        event is None,
{
}

} // verus!
