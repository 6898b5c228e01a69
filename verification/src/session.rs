//! The credential session: the client/config/identity triple held by the
//! long-lived application context, plus the decision logic of the connect and
//! reconnect operations. The network and credential-provider calls themselves
//! happen outside; their textual failures are handed in and decided here.

use vstd::prelude::*;

use crate::classify::{classification_of, classify, expired_classification, ErrorKind};
use crate::text::{contains_text, lower_text, str_to_chars, text_has};

verus! {

/// A failure surfaced to the caller: a complete message and whether an
/// interactive re-authentication (followed by a reconnect) is the remedy.
pub struct AwsError {
    pub message: String,
    pub requires_reconnect: bool,
}

/// What a successful connect reports back.
pub struct AwsConnectionInfo {
    pub profile: Option<String>,
    pub region: Option<String>,
}

/// The session triple. `C` is the remote client handle and `D` the resolved
/// configuration; both are opaque here and owned by the caller's runtime.
/// Invariant: client and config are both present or both absent — the session
/// is never half-initialized.
pub struct Session<C, D> {
    pub client: Option<C>,
    pub config: Option<D>,
    pub active_profile: Option<String>,
}

impl<C, D> Session<C, D> {
    /// Both halves of the triple are present or both are absent.
    pub open spec fn wf(&self) -> bool {
        self.client is Some <==> self.config is Some
    }

    pub open spec fn initialized(&self) -> bool {
        self.client is Some && self.config is Some
    }

    pub fn new() -> (s: Self)
        ensures
            s.wf(),
            !s.initialized(),
            s.client is None,
            s.config is None,
            s.active_profile is None,
    {
        Session { client: None, config: None, active_profile: None }
    }

    /// Atomically replaces the whole triple after a validated connect. The
    /// fields are written in a fixed order — identity, then config, then
    /// client — so a concurrent reader who sees a live client also sees its
    /// matching config.
    pub fn install(&mut self, client: C, config: D, profile: Option<String>)
        ensures
            final(self).wf(),
            final(self).initialized(),
            final(self).client == Some(client),
            final(self).config == Some(config),
            final(self).active_profile == profile,
    {
        self.active_profile = profile;
        self.config = Some(config);
        self.client = Some(client);
    }

    /// Clears the triple at the start of a reconnect, so no stale client can
    /// survive a failed attempt. The active identity is retained separately:
    /// a reconnect without a hint falls back to it, not to "unset".
    pub fn reconnect_begin(&mut self)
        ensures
            final(self).wf(),
            !final(self).initialized(),
            final(self).client is None,
            final(self).config is None,
            final(self).active_profile == old(self).active_profile,
    {
        self.client = None;
        self.config = None;
    }

    pub fn is_initialized(&self) -> (r: bool)
        ensures
            r == self.initialized(),
    {
        self.client.is_some() && self.config.is_some()
    }

    /// Fails with the distinct local "not initialized" error when an
    /// operation is attempted before a successful connect; never confused
    /// with a remote classification.
    pub fn check_ready(&self) -> (r: Result<(), AwsError>)
        ensures
            r is Ok <==> self.initialized(),
            r is Err ==> r->Err_0.message@ == "AWS client not initialized"@
                && !r->Err_0.requires_reconnect,
    {
        if self.is_initialized() {
            Ok(())
        } else {
            Err(AwsError {
                message: "AWS client not initialized".to_owned(),
                requires_reconnect: false,
            })
        }
    }
}

/// Resolution of the identity to connect with: explicit argument, else the
/// previously active identity, else the environment's choice, else unset.
pub fn resolve_profile(hint: Option<String>, stored: Option<String>, env: Option<String>) -> (r:
    Option<String>)
    ensures
        r == if hint is Some {
            hint
        } else if stored is Some {
            stored
        } else {
            env
        },
{
    match hint {
        Some(p) => Some(p),
        None => match stored {
            Some(p) => Some(p),
            None => env,
        },
    }
}

/// A decided failure: the error to return and whether the interactive
/// re-authentication flow should be triggered before returning it.
pub struct FailureDecision {
    pub error: AwsError,
    pub trigger_reauth: bool,
}

/// A credential-provider failure warrants re-authentication when the
/// classification across its three textual forms is `Expired`, or when the
/// identity is SSO-backed and the primary message mentions credentials at all.
pub open spec fn credential_failure_triggers_reauth(
    msg: Seq<char>,
    dbg: Seq<char>,
    src: Seq<char>,
    uses_sso: bool,
) -> bool {
    classification_of(lower_text(msg), lower_text(dbg), lower_text(src), msg).0
        == ErrorKind::Expired || (uses_sso && contains_text(msg, "credential"@))
}

/// Decides a failure of the pre-network credential validation step of a
/// connect or reconnect, from the failure's three textual forms. The
/// classified message is what propagates; when the SSO-backed identity alone
/// forces the trigger, the error still reads as an expired session, since the
/// remedy is the same browser login.
pub fn credential_failure(
    error_msg: &str,
    error_debug: &str,
    error_source: &str,
    uses_sso: bool,
) -> (r: FailureDecision)
    ensures
        r.trigger_reauth == credential_failure_triggers_reauth(
            error_msg@,
            error_debug@,
            error_source@,
            uses_sso,
        ),
        r.error.requires_reconnect == r.trigger_reauth,
        ({
            let c = classification_of(
                lower_text(error_msg@),
                lower_text(error_debug@),
                lower_text(error_source@),
                error_msg@,
            );
            if r.trigger_reauth && c.0 != ErrorKind::Expired {
                r.error.message@
                    == "Your AWS session has expired. Please run 'aws sso login' to refresh your credentials."@
            } else {
                r.error.message@ == c.1
            }
        }),
{
    let c = classify(error_msg, error_debug, error_source);
    let expired = matches!(c.kind, ErrorKind::Expired);
    let msg_chars = str_to_chars(error_msg);
    let trigger = expired || (uses_sso && text_has(&msg_chars, "credential"));
    if trigger && !expired {
        FailureDecision {
            error: AwsError {
                message:
                    "Your AWS session has expired. Please run 'aws sso login' to refresh your credentials.".to_owned(),
                requires_reconnect: true,
            },
            trigger_reauth: true,
        }
    } else {
        FailureDecision {
            error: AwsError { message: c.message, requires_reconnect: trigger },
            trigger_reauth: trigger,
        }
    }
}

/// The error returned when the resolved configuration offers no credential
/// provider at all.
pub fn missing_provider_error() -> (e: AwsError)
    ensures
        e.message@
            == "No AWS credentials configured. Please run 'aws sso login' or configure credentials."@,
        !e.requires_reconnect,
{
    AwsError {
        message:
            "No AWS credentials configured. Please run 'aws sso login' or configure credentials.".to_owned(),
        requires_reconnect: false,
    }
}

/// Decides any remote-call failure — the cheap probe of a connect as well as
/// a page failure of a listing or fetching operation: the classified message
/// propagates, never the raw diagnostic, and the `Expired` classification
/// additionally triggers re-authentication before the error is returned.
pub fn remote_failure(error_msg: &str) -> (r: FailureDecision)
    ensures
        r.trigger_reauth == expired_classification(lower_text(error_msg@), error_msg@),
        r.error.requires_reconnect == r.trigger_reauth,
        r.error.message@ == classification_of(
            lower_text(error_msg@),
            lower_text(error_msg@),
            lower_text(error_msg@),
            error_msg@,
        ).1,
{
    let c = classify(error_msg, error_msg, error_msg);
    let trigger = matches!(c.kind, ErrorKind::Expired);
    FailureDecision {
        error: AwsError { message: c.message, requires_reconnect: trigger },
        trigger_reauth: trigger,
    }
}

} // verus!
