//! SMTP notification configuration.

use vstd::prelude::*;

verus! {

/// SMTP configuration for sending email notifications.
///
/// The library decides from these values whether a report is owed and
/// what it says; the binary performs the actual delivery.
#[derive(Debug)]
pub struct SMTP {
    /// Whether email notifications are enabled
    pub enabled: bool,
    /// SMTP username
    pub username: String,
    /// SMTP password
    pub password: String,
    /// SMTP server hostname
    pub smtp_host: String,
    /// SMTP server port
    pub smtp_port: u16,
    /// Email sender address
    pub from: String,
    /// List of recipient email addresses
    pub to: Vec<String>,
    /// Optional list of CC recipient addresses
    pub cc: Option<Vec<String>>,
}

} // verus!
