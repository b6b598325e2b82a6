//! Notification gating: whether desktop notifications are sent at all.
//!
//! Showing a notification is I/O and lives outside this library; the
//! transport layer reads the flag through [`NotificationService::is_enabled`]
//! before it touches the desktop.

use vstd::prelude::*;

verus! {

/// Gate for in-app notifications.
#[derive(Debug, Clone)]
pub struct NotificationService {
    enabled: bool,
}

impl NotificationService {
    /// Whether notifications are sent.
    pub closed spec fn spec_enabled(self) -> bool {
        self.enabled
    }

    /// A service that sends notifications exactly when `enabled`.
    pub fn new(enabled: bool) -> (s: NotificationService)
        ensures
            s.spec_enabled() == enabled,
    {
        NotificationService { enabled }
    }

    /// Whether notifications are sent.
    pub fn is_enabled(&self) -> (r: bool)
        ensures
            r == self.spec_enabled(),
    {
        self.enabled
    }
}

/// Gate for desktop notifications.
#[derive(Debug, Clone)]
pub struct DesktopNotificationService {
    enabled: bool,
}

impl DesktopNotificationService {
    /// Whether notifications are sent.
    pub closed spec fn spec_enabled(self) -> bool {
        self.enabled
    }

    /// A service that sends notifications exactly when `enabled`.
    pub fn new(enabled: bool) -> (s: DesktopNotificationService)
        ensures
            s.spec_enabled() == enabled,
    {
        DesktopNotificationService { enabled }
    }

    /// Whether notifications are sent.
    pub fn is_enabled(&self) -> (r: bool)
        ensures
            r == self.spec_enabled(),
    {
        self.enabled
    }
}

} // verus!
