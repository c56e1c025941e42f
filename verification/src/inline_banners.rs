//! Inline banners of the terminal view: their ids, the notification banners,
//! the SSH ControlMaster error banner, and what a password prompt triggers.
use vstd::prelude::*;

use crate::notifications::NotificationsTrigger;

verus! {

/// The kind of an inline banner.
#[derive(Clone, Copy, Debug, Eq, PartialEq, Hash, Structural)]
pub enum InlineBannerType {
    NotificationsDiscovery,
    NotificationsError,
    Ssh,
    PromptSuggestions,
    AliasExpansion,
    SharedSessionStart,
    SharedSessionEnd,
    ShellProcessTerminated,
    OpenInWarp,
    VimMode,
}

/// An inline banner: its unique id and its kind.
#[derive(Clone, Copy, Debug, Eq, PartialEq, Hash, Structural)]
pub struct InlineBannerItem {
    pub id: usize,
    pub banner_type: InlineBannerType,
}

impl InlineBannerItem {
    pub fn new(id: usize, banner_type: InlineBannerType) -> (r: Self)
        ensures
            r.id == id,
            r.banner_type == banner_type,
    {
        InlineBannerItem { id, banner_type }
    }
}

/// Hands out the ids of inline banners: 0, 1, 2, ...
#[derive(Debug, Default)]
pub struct InlineBannersState {
    next_banner_id: usize,
}

impl InlineBannersState {
    /// How many ids were handed out.
    pub closed spec fn issued(&self) -> nat {
        self.next_banner_id as nat
    }

    pub fn new() -> (r: Self)
        ensures
            r.issued() == 0,
    {
        InlineBannersState { next_banner_id: 0 }
    }

    /// The id for the next inline banner.
    pub fn next_banner_id(&mut self) -> (id: usize)
        requires
            old(self).issued() < usize::MAX,
        ensures
            id == old(self).issued(),
            final(self).issued() == old(self).issued() + 1,
    {
        let next_id = self.next_banner_id;
        self.next_banner_id = self.next_banner_id + 1;
        next_id
    }

    /// The id of the last banner inserted, if any.
    pub fn last_banner_id(&self) -> (r: Option<usize>)
        ensures
            r == (if self.issued() > 0 {
                Some((self.issued() - 1) as usize)
            } else {
                None
            }),
    {
        if self.next_banner_id > 0 {
            Some(self.next_banner_id - 1)
        } else {
            None
        }
    }
}

/// The id just handed out is the last one, and ids are never handed out twice.
pub proof fn law_banner_ids_fresh(before: InlineBannersState, after: InlineBannersState, id: usize, earlier: usize)
    requires
        id == before.issued(),
        after.issued() == before.issued() + 1,
        earlier < before.issued(),
    ensures
        after.issued() > 0 && (after.issued() - 1) as usize == id,
        earlier != id,
{
}

/// The state of an open notifications error banner: its id in the block list.
#[derive(Debug, Clone, Copy, PartialEq, Eq, Structural)]
pub struct NotificationsErrorBannerState {
    pub banner_id: usize,
}

/// Closed: no banner is needed. Triggered: the banner is not open, but should be.
/// Open: the banner is showing.
#[derive(Debug, Clone, Copy, PartialEq, Eq, Structural)]
pub enum NotificationsErrorBannerType {
    Closed,
    Triggered,
    Open { state: NotificationsErrorBannerState },
}

impl Default for NotificationsErrorBannerType {
    fn default() -> (r: Self)
        ensures
            r is Closed,
    {
        NotificationsErrorBannerType::Closed
    }
}

/// The notifications error banner: the last error that sending a notification
/// gave, and whether the banner is open.
#[derive(Debug)]
pub struct NotificationsErrorBanner<Error> {
    pub error: Option<Error>,
    pub banner_type: NotificationsErrorBannerType,
}

impl<Error> NotificationsErrorBanner<Error> {
    /// A closed banner with no error.
    pub fn new() -> (r: Self)
        ensures
            r.error is None,
            r.banner_type is Closed,
    {
        NotificationsErrorBanner { error: None, banner_type: NotificationsErrorBannerType::Closed }
    }

    /// Records an error in sending a notification. Where notifications are not
    /// supported nothing changes. Otherwise the error is kept, and a closed
    /// banner is opened, or, while the active block is still running, marked
    /// to be opened later. The banner to add to the block list is returned.
    pub fn show_notification_error(
        &mut self,
        error: Error,
        supported_on_platform: bool,
        active_block_long_running: bool,
        banners: &mut InlineBannersState,
    ) -> (r: Option<InlineBannerItem>)
        requires
            old(banners).issued() < usize::MAX,
        ensures
            !supported_on_platform ==> r is None && *final(self) == *old(self) && *final(banners)
                == *old(banners),
            supported_on_platform ==> final(self).error == Some(error),
            supported_on_platform && !(old(self).banner_type is Closed) ==> r is None
                && final(self).banner_type == old(self).banner_type && *final(banners)
                == *old(banners),
            supported_on_platform && old(self).banner_type is Closed && active_block_long_running
                ==> r is None && final(self).banner_type is Triggered && *final(banners)
                == *old(banners),
            supported_on_platform && old(self).banner_type is Closed && !active_block_long_running
                ==> {
                let id = old(banners).issued() as usize;
                &&& r == Some(InlineBannerItem { id, banner_type: InlineBannerType::NotificationsError })
                &&& final(self).banner_type == NotificationsErrorBannerType::Open {
                    state: NotificationsErrorBannerState { banner_id: id },
                }
                &&& final(banners).issued() == old(banners).issued() + 1
            },
    {
        if !supported_on_platform {
            return None;
        }
        self.error = Some(error);
        match self.banner_type {
            NotificationsErrorBannerType::Closed => {
                if active_block_long_running {
                    self.banner_type = NotificationsErrorBannerType::Triggered;
                    None
                } else {
                    let banner_id = banners.next_banner_id();
                    self.banner_type = NotificationsErrorBannerType::Open {
                        state: NotificationsErrorBannerState { banner_id },
                    };
                    Some(InlineBannerItem::new(banner_id, InlineBannerType::NotificationsError))
                }
            },
            _ => None,
        }
    }

    /// Closes the banner; gives the id of the banner to remove from the block
    /// list, if it was open.
    pub fn close(&mut self) -> (r: Option<usize>)
        ensures
            final(self).banner_type is Closed,
            final(self).error == old(self).error,
            r == (match old(self).banner_type {
                NotificationsErrorBannerType::Open { state } => Some(state.banner_id),
                _ => None,
            }),
    {
        let r = match self.banner_type {
            NotificationsErrorBannerType::Open { state } => Some(state.banner_id),
            _ => None,
        };
        self.banner_type = NotificationsErrorBannerType::Closed;
        r
    }
}

/// The state of an open notifications discovery banner: its id in the block
/// list.
#[derive(Debug, Clone, Copy, PartialEq, Eq, Structural)]
pub struct NotificationsDiscoveryBannerState {
    pub banner_id: usize,
}

/// Unset: nothing happened yet. Closed: no banner is needed. Triggered: there
/// is a reason to show the banner, but it is not open yet (the banner for
/// password notifications waits for the block to complete). Open: the banner
/// is showing, with the outcome of the permission request once it came
/// (`Outcome`).
#[derive(Debug, Clone)]
pub enum NotificationsDiscoveryBanner<Outcome> {
    Unset,
    Closed,
    Triggered(NotificationsTrigger),
    Open {
        trigger: NotificationsTrigger,
        request_outcome: Option<Outcome>,
        state: NotificationsDiscoveryBannerState,
    },
}

impl<Outcome> NotificationsDiscoveryBanner<Outcome> {
    /// Closes the banner; gives the id of the banner to remove from the block
    /// list, if it was open.
    pub fn close(&mut self) -> (r: Option<usize>)
        ensures
            *final(self) is Closed,
            r == (match *old(self) {
                NotificationsDiscoveryBanner::Open { state, .. } => Some(state.banner_id),
                _ => None,
            }),
    {
        let r = match self {
            NotificationsDiscoveryBanner::Open { state, .. } => Some(state.banner_id),
            _ => None,
        };
        *self = NotificationsDiscoveryBanner::Closed;
        r
    }

    /// Records the outcome of the request for notification permissions, which
    /// an open banner shows.
    pub fn record_request_outcome(&mut self, outcome: Outcome)
        ensures
            *final(self) == (match *old(self) {
                NotificationsDiscoveryBanner::Open { trigger, state, .. } => NotificationsDiscoveryBanner::Open {
                    trigger,
                    request_outcome: Some(outcome),
                    state,
                },
                other => other,
            }),
    {
        if let NotificationsDiscoveryBanner::Open { request_outcome, .. } = self {
            *request_outcome = Some(outcome);
        }
    }
}

/// Whether the user turned notifications on, dismissed them, or has not
/// chosen yet.
#[derive(Debug, Clone, Copy, PartialEq, Eq, Structural)]
pub enum NotificationsMode {
    Unset,
    Enabled,
    Dismissed,
}

/// What happens when a command asks for a password.
#[derive(Debug, Clone, Copy, PartialEq, Eq, Structural)]
pub enum PasswordPromptAction {
    Nothing,
    /// Send a notification that the command needs attention.
    SendNotification,
    /// Offer notifications once the block completes.
    TriggerDiscoveryBanner,
}

/// Decides what to do when the block at a password prompt is checked again:
/// nothing unless it is still the active, running block; then a notification
/// where notifications and "needs attention" ones are on, or, where the user
/// has not chosen about notifications and no discovery banner is set up, the
/// discovery banner is marked to be offered.
pub fn maybe_send_password_notification<Outcome>(
    block_active_and_running: bool,
    mode: NotificationsMode,
    is_needs_attention_enabled: bool,
    discovery_banner: &mut NotificationsDiscoveryBanner<Outcome>,
) -> (r: PasswordPromptAction)
    ensures
        r == (if !block_active_and_running {
            PasswordPromptAction::Nothing
        } else if mode is Enabled && is_needs_attention_enabled {
            PasswordPromptAction::SendNotification
        } else if mode is Unset && *old(discovery_banner) is Unset {
            PasswordPromptAction::TriggerDiscoveryBanner
        } else {
            PasswordPromptAction::Nothing
        }),
        r is TriggerDiscoveryBanner ==> *final(discovery_banner) == NotificationsDiscoveryBanner::<
            Outcome,
        >::Triggered(NotificationsTrigger::NeedsAttention),
        !(r is TriggerDiscoveryBanner) ==> *final(discovery_banner) == *old(discovery_banner),
{
    if !block_active_and_running {
        return PasswordPromptAction::Nothing;
    }
    match mode {
        NotificationsMode::Enabled => {
            if is_needs_attention_enabled {
                PasswordPromptAction::SendNotification
            } else {
                PasswordPromptAction::Nothing
            }
        },
        NotificationsMode::Unset => {
            let unset = match discovery_banner {
                NotificationsDiscoveryBanner::Unset => true,
                _ => false,
            };
            if unset {
                *discovery_banner = NotificationsDiscoveryBanner::Triggered(NotificationsTrigger::NeedsAttention);
                PasswordPromptAction::TriggerDiscoveryBanner
            } else {
                PasswordPromptAction::Nothing
            }
        },
        NotificationsMode::Dismissed => PasswordPromptAction::Nothing,
    }
}

/// The identifier of a shell session.
#[derive(Debug, Clone, Copy, PartialEq, Eq, Hash, Structural)]
pub struct SessionId(pub u64);

/// The banner shown when an SSH ControlMaster error was detected, in which case
/// completions do not work as expected.
#[derive(Debug, Clone, Copy, PartialEq, Eq, Structural)]
pub struct ControlMasterErrorBannerState {
    /// Whether the banner is visible.
    pub is_open: bool,
    /// The session the error occurred in, so that the banner is not shown twice
    /// for one session.
    pub associated_session_id: Option<SessionId>,
}

impl Default for ControlMasterErrorBannerState {
    fn default() -> (r: Self)
        ensures
            !r.is_open,
            r.associated_session_id is None,
    {
        ControlMasterErrorBannerState { is_open: false, associated_session_id: None }
    }
}

impl ControlMasterErrorBannerState {
    /// The state after a ControlMaster error in `session`: the banner opens for
    /// that session unless it was already shown for it.
    pub open spec fn after_error(self, session: Option<SessionId>) -> Self {
        if self.associated_session_id != session {
            ControlMasterErrorBannerState { is_open: true, associated_session_id: session }
        } else {
            self
        }
    }

    /// Handles a ControlMaster error in the active session. Returns whether the
    /// state changed, so that the view is redrawn.
    pub fn handle_control_master_error(&mut self, active_session_id: Option<SessionId>) -> (changed: bool)
        ensures
            changed == (old(self).associated_session_id != active_session_id),
            *final(self) == old(self).after_error(active_session_id),
    {
        let same = match (self.associated_session_id, active_session_id) {
            (Some(a), Some(b)) => a.0 == b.0,
            (None, None) => true,
            _ => false,
        };
        if !same {
            *self = ControlMasterErrorBannerState { is_open: true, associated_session_id: active_session_id };
        }
        !same
    }
}

/// After an error in a session the banner is tied to that session, and a
/// second error in the same session changes nothing.
pub proof fn law_control_master_banner_once_per_session(
    s: ControlMasterErrorBannerState,
    session: Option<SessionId>,
)
    ensures
        s.after_error(session).associated_session_id == session,
        s.after_error(session).after_error(session) == s.after_error(session),
{
}

/// An error in a session the banner was not shown for opens it; one in the session it was
/// shown for leaves the state as it was.
pub proof fn law_control_master_banner_opens_for_new_session(
    s: ControlMasterErrorBannerState,
    session: Option<SessionId>,
)
    ensures
        s.associated_session_id != session ==> s.after_error(session).is_open,
        s.associated_session_id == session ==> s.after_error(session) == s,
{
}

} // verus!
