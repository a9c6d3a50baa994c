//! Main configuration structures.

use vstd::prelude::*;
use crate::email::SMTP;
use crate::postgres::Postgres;

verus! {

/// Primary configuration structure containing all settings for one run.
pub struct Config {
    /// PostgreSQL database configuration
    pub postgres: Postgres,
    /// Optional SMTP email configuration
    pub smtp: Option<SMTP>,
}

impl Config {
    /// Applies the command-line override of the notification setting.
    ///
    /// A `Some` flag replaces the `enabled` field of the SMTP section when
    /// one is present; without an SMTP section, or with no flag given, the
    /// configuration is left as loaded.
    pub fn apply_email_override(&mut self, email_flag: Option<bool>)
        ensures
            final(self).postgres == old(self).postgres,
            match (old(self).smtp, email_flag) {
                (Some(smtp), Some(flag)) => final(self).smtp == Some(
                    SMTP { enabled: flag, ..smtp },
                ),
                _ => final(self).smtp == old(self).smtp,
            },
    {
        if let Some(smtp) = self.smtp.as_mut() {
            if let Some(flag) = email_flag {
                smtp.enabled = flag;
            }
        }
    }

    /// Whether notification is owed at the end of a successful run:
    /// an SMTP section must be present and enabled.
    pub open spec fn spec_notification_enabled(self) -> bool {
        match self.smtp {
            Some(smtp) => smtp.enabled,
            None => false,
        }
    }

    /// Executable twin of [`Self::spec_notification_enabled`].
    pub fn notification_enabled(&self) -> (b: bool)
        ensures
            b == self.spec_notification_enabled(),
    {
        match &self.smtp {
            Some(smtp) => smtp.enabled,
            None => false,
        }
    }
}

} // verus!
