//! Notification delivery configuration: the channel clients and a
//! user's delivery preferences. Sending itself is a collaborator's
//! concern and happens outside this crate.

use vstd::prelude::*;

verus! {

/// The kinds of events a user can be notified about.
pub enum NotificationType {
    AnalysisComplete,
    NewVulnerability,
    VulnerabilityFixed,
    ProjectInvite,
    ProjectUpdate,
    Custom(String),
}

/// One user's delivery preferences.
pub struct NotificationPreferences {
    pub user_id: String,
    pub email_notifications: bool,
    pub slack_notifications: bool,
    pub webhook_url: Option<String>,
    pub notification_types: Vec<NotificationType>,
}

/// Configuration for delivering notifications by mail.
pub struct EmailClient {
    smtp_server: String,
    smtp_port: u16,
    username: String,
    password: String,
}

impl EmailClient {
    pub closed spec fn server(&self) -> Seq<char> {
        self.smtp_server@
    }

    pub closed spec fn port(&self) -> u16 {
        self.smtp_port
    }

    pub closed spec fn user(&self) -> Seq<char> {
        self.username@
    }

    pub closed spec fn pass(&self) -> Seq<char> {
        self.password@
    }

    pub fn new(smtp_server: String, smtp_port: u16, username: String, password: String) -> (r:
        Self)
        ensures
            r.server() == smtp_server@,
            r.port() == smtp_port,
            r.user() == username@,
            r.pass() == password@,
    {
        EmailClient { smtp_server, smtp_port, username, password }
    }
}

/// Configuration for delivering notifications to a chat webhook.
pub struct SlackClient {
    webhook_url: String,
}

impl SlackClient {
    pub closed spec fn webhook(&self) -> Seq<char> {
        self.webhook_url@
    }

    pub fn new(webhook_url: String) -> (r: Self)
        ensures
            r.webhook() == webhook_url@,
    {
        SlackClient { webhook_url }
    }
}

} // verus!
