//! The outbound-mail seam: one method, delivering a one-time code. The
//! development mailer sends nothing.

use vstd::prelude::*;
use crate::auth::model::CodePurpose;

verus! {

/// A mail send failed. The message is for logs only, never for a client.
#[derive(Debug, Clone, PartialEq, Eq)]
pub struct MailError(pub String);

impl MailError {
    /// The failure's message.
    pub fn message(&self) -> (r: &str)
        ensures
            r@ == self.0@,
    {
        self.0.as_str()
    }
}

/// Delivers a one-time code to an address for a purpose.
pub trait Mailer: Send + Sync {
    /// Deliver `code` to `to` for `purpose`.
    fn send_code(&self, to: &str, purpose: CodePurpose, code: &str) -> Result<(), MailError>;
}

/// Development mailer: performs no send and never fails.
#[derive(Debug, Clone, Copy)]
pub struct LogMailer;

impl Mailer for LogMailer {
    fn send_code(&self, to: &str, purpose: CodePurpose, code: &str) -> (r: Result<(), MailError>)
        ensures
            r is Ok,
    {
        Ok(())
    }
}

} // verus!
