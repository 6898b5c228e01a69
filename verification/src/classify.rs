//! Classification of raw remote-API error text into a small taxonomy of
//! actionable outcomes, by case-insensitive substring matching over up to
//! three textual representations of the same failure (the primary message,
//! the debug rendering, and the wrapped cause). The first matching category
//! wins; the order matters because the categories overlap in phrasing.

use vstd::prelude::*;

use crate::text::{
    chars_to_string, contains_text, lower_str, lower_text, replace_chars, replace_text,
    str_to_chars, text_has, trim_chars, trim_text, CharClass,
};

verus! {

/// The actionable outcome a raw error text is mapped to.
#[derive(Clone, Copy, PartialEq, Eq, Structural, Debug)]
pub enum ErrorKind {
    /// The remote session is no longer valid and interactive re-auth helps.
    Expired,
    /// No usable credentials or profile configuration was found.
    NoCredentials,
    /// The credentials work but lack permission.
    AccessDenied,
    /// The remote endpoint could not be reached.
    Network,
    /// The remote side asked the caller to slow down.
    RateLimited,
    /// The requested resource does not exist.
    NotFound,
    /// Nothing recognizable; the cleaned raw text is surfaced instead.
    Unknown,
}

/// The pattern occurs in at least one of the three texts.
pub open spec fn hits3(a: Seq<char>, b: Seq<char>, c: Seq<char>, pat: Seq<char>) -> bool {
    contains_text(a, pat) || contains_text(b, pat) || contains_text(c, pat)
}

pub open spec fn expired_phrasing(a: Seq<char>, b: Seq<char>, c: Seq<char>) -> bool {
    hits3(a, b, c, "token has expired"@) || hits3(a, b, c, "sso session"@) || hits3(
        a,
        b,
        c,
        "refresh token"@,
    ) || hits3(a, b, c, "invalid_grant"@) || hits3(a, b, c, "the sso session"@) || hits3(
        a,
        b,
        c,
        "expired sso token"@,
    ) || hits3(a, b, c, "sso token"@)
}

pub open spec fn missing_credentials_phrasing(a: Seq<char>, b: Seq<char>, c: Seq<char>) -> bool {
    hits3(a, b, c, "no credentials"@) || hits3(a, b, c, "missing credentials"@) || hits3(
        a,
        b,
        c,
        "failed to load credentials"@,
    ) || (hits3(a, b, c, "credential"@) && (hits3(a, b, c, "provider"@) || hits3(
        a,
        b,
        c,
        "not found"@,
    ))) || (hits3(a, b, c, "could not find"@) && (hits3(a, b, c, "profile"@) || hits3(
        a,
        b,
        c,
        "credential"@,
    )))
}

pub open spec fn access_denied_phrasing(a: Seq<char>, b: Seq<char>, c: Seq<char>) -> bool {
    hits3(a, b, c, "accessdenied"@) || hits3(a, b, c, "access denied"@) || hits3(
        a,
        b,
        c,
        "not authorized"@,
    ) || hits3(a, b, c, "unauthorized"@)
}

pub open spec fn invalid_credentials_phrasing(a: Seq<char>, b: Seq<char>, c: Seq<char>) -> bool {
    hits3(a, b, c, "invalid"@) && hits3(a, b, c, "credential"@)
}

pub open spec fn dispatch_phrasing(a: Seq<char>, b: Seq<char>, c: Seq<char>) -> bool {
    hits3(a, b, c, "dispatch failure"@) || hits3(a, b, c, "dispatchfailure"@)
}

/// Vocabulary that marks a dispatch failure as credential-related.
pub open spec fn credential_vocabulary(a: Seq<char>, b: Seq<char>, c: Seq<char>) -> bool {
    hits3(a, b, c, "credential"@) || hits3(a, b, c, "sso"@) || hits3(a, b, c, "token"@) || hits3(
        a,
        b,
        c,
        "profile"@,
    )
}

pub open spec fn connector_phrasing(a: Seq<char>, b: Seq<char>, c: Seq<char>) -> bool {
    hits3(a, b, c, "connector error"@) || hits3(a, b, c, "hyper::error"@)
}

pub open spec fn timeout_phrasing(a: Seq<char>, b: Seq<char>, c: Seq<char>) -> bool {
    hits3(a, b, c, "timeout"@) || hits3(a, b, c, "timed out"@)
}

pub open spec fn dns_phrasing(a: Seq<char>, b: Seq<char>, c: Seq<char>) -> bool {
    hits3(a, b, c, "dns"@) || hits3(a, b, c, "name resolution"@)
}

pub open spec fn not_found_phrasing(a: Seq<char>, b: Seq<char>, c: Seq<char>) -> bool {
    hits3(a, b, c, "resourcenotfound"@) || hits3(a, b, c, "does not exist"@)
}

pub open spec fn throttle_phrasing(a: Seq<char>, b: Seq<char>, c: Seq<char>) -> bool {
    hits3(a, b, c, "throttling"@) || hits3(a, b, c, "rate exceeded"@)
}

pub open spec fn region_phrasing(a: Seq<char>, b: Seq<char>, c: Seq<char>) -> bool {
    hits3(a, b, c, "region"@) && hits3(a, b, c, "not"@)
}

pub open spec fn service_unavailable_phrasing(a: Seq<char>, b: Seq<char>, c: Seq<char>) -> bool {
    hits3(a, b, c, "service"@) && hits3(a, b, c, "unavailable"@)
}

/// The raw text with known wrapper noise stripped: diagnostic prefixes
/// replaced, then wrapper punctuation trimmed from both ends.
pub open spec fn cleaned_text(raw: Seq<char>) -> Seq<char> {
    trim_text(
        replace_text(
            replace_text(
                replace_text(raw, "DispatchFailure("@, ""@),
                "ConnectorError"@,
                "Connection error"@,
            ),
            "SdkError"@,
            ""@,
        ),
        CharClass::WrapPunct,
    )
}

/// The decision chain: first matching category wins. `a`, `b`, `c` are the
/// lowercased texts; `raw` is the primary text as received, used only by the
/// fallback branch. Returns the kind together with the message text.
pub open spec fn classification_of(
    a: Seq<char>,
    b: Seq<char>,
    c: Seq<char>,
    raw: Seq<char>,
) -> (ErrorKind, Seq<char>) {
    if expired_phrasing(a, b, c) {
        (
            ErrorKind::Expired,
            "Your AWS session has expired. Please run 'aws sso login' to refresh your credentials."@,
        )
    } else if missing_credentials_phrasing(a, b, c) {
        (
            ErrorKind::NoCredentials,
            "No AWS credentials found. Please run 'aws sso login' or configure your AWS credentials."@,
        )
    } else if access_denied_phrasing(a, b, c) {
        (
            ErrorKind::AccessDenied,
            "Access denied. Your AWS credentials don't have permission for this operation."@,
        )
    } else if invalid_credentials_phrasing(a, b, c) {
        (ErrorKind::NoCredentials, "Invalid AWS credentials. Please check your AWS configuration."@)
    } else if dispatch_phrasing(a, b, c) {
        if credential_vocabulary(a, b, c) {
            (
                ErrorKind::Expired,
                "AWS credentials error. Please run 'aws sso login' or check your AWS configuration."@,
            )
        } else {
            (
                ErrorKind::Network,
                "Unable to connect to AWS. This could be a network issue or expired credentials. Try running 'aws sso login'."@,
            )
        }
    } else if connector_phrasing(a, b, c) {
        (ErrorKind::Network, "Unable to connect to AWS. Please check your network connection."@)
    } else if timeout_phrasing(a, b, c) {
        (ErrorKind::Network, "Connection to AWS timed out. Please try again."@)
    } else if dns_phrasing(a, b, c) {
        (ErrorKind::Network, "Unable to resolve AWS endpoint. Please check your network connection."@)
    } else if not_found_phrasing(a, b, c) {
        (ErrorKind::NotFound, "The requested log group was not found."@)
    } else if throttle_phrasing(a, b, c) {
        (ErrorKind::RateLimited, "AWS rate limit exceeded. Please wait a moment and try again."@)
    } else if region_phrasing(a, b, c) {
        (
            ErrorKind::NoCredentials,
            "Invalid or missing AWS region. Please check your AWS configuration."@,
        )
    } else if service_unavailable_phrasing(a, b, c) {
        (
            ErrorKind::Network,
            "AWS CloudWatch Logs service is temporarily unavailable. Please try again later."@,
        )
    } else {
        if cleaned_text(raw).len() < 5 {
            (ErrorKind::Unknown, "An unexpected error occurred while connecting to AWS."@)
        } else {
            (ErrorKind::Unknown, cleaned_text(raw))
        }
    }
}

/// A classified failure: the taxonomy kind and a complete, user-actionable
/// message.
pub struct Classification {
    pub kind: ErrorKind,
    pub message: String,
}

fn any3(la: &Vec<char>, lb: &Vec<char>, lc: &Vec<char>, pat: &str) -> (r: bool)
    ensures
        r == hits3(la@, lb@, lc@, pat@),
{
    text_has(la, pat) || text_has(lb, pat) || text_has(lc, pat)
}

/// The cleaned fallback text, as characters.
fn clean_raw(raw: &str) -> (r: Vec<char>)
    ensures
        r@ == cleaned_text(raw@),
{
    let raw_chars = str_to_chars(raw);
    let p1 = str_to_chars("DispatchFailure(");
    let p2 = str_to_chars("ConnectorError");
    let p3 = str_to_chars("SdkError");
    let r2 = str_to_chars("Connection error");
    let empty = str_to_chars("");
    proof {
        reveal_strlit("DispatchFailure(");
        reveal_strlit("ConnectorError");
        reveal_strlit("SdkError");
    }
    let s1 = replace_chars(&raw_chars, &p1, &empty);
    let s2 = replace_chars(&s1, &p2, &r2);
    let s3 = replace_chars(&s2, &p3, &empty);
    trim_chars(&s3, CharClass::WrapPunct)
}

/// Classify a failure from up to three textual representations of it:
/// the primary message, the debug rendering, and the wrapped cause. A
/// representation that is unavailable is passed as the empty string.
/// Matching is case-insensitive; only the fallback branch echoes (cleaned)
/// raw text, and only from the primary message.
pub fn classify(raw: &str, debug_text: &str, source_text: &str) -> (r: Classification)
    ensures
        r.kind == classification_of(
            lower_text(raw@),
            lower_text(debug_text@),
            lower_text(source_text@),
            raw@,
        ).0,
        r.message@ == classification_of(
            lower_text(raw@),
            lower_text(debug_text@),
            lower_text(source_text@),
            raw@,
        ).1,
{
    let la = lower_str(raw);
    let lb = lower_str(debug_text);
    let lc = lower_str(source_text);
    if any3(&la, &lb, &lc, "token has expired") || any3(&la, &lb, &lc, "sso session") || any3(
        &la,
        &lb,
        &lc,
        "refresh token",
    ) || any3(&la, &lb, &lc, "invalid_grant") || any3(&la, &lb, &lc, "the sso session") || any3(
        &la,
        &lb,
        &lc,
        "expired sso token",
    ) || any3(&la, &lb, &lc, "sso token") {
        Classification {
            kind: ErrorKind::Expired,
            message:
                "Your AWS session has expired. Please run 'aws sso login' to refresh your credentials.".to_owned(),
        }
    } else if any3(&la, &lb, &lc, "no credentials") || any3(&la, &lb, &lc, "missing credentials")
        || any3(&la, &lb, &lc, "failed to load credentials") || (any3(&la, &lb, &lc, "credential")
        && (any3(&la, &lb, &lc, "provider") || any3(&la, &lb, &lc, "not found"))) || (any3(
        &la,
        &lb,
        &lc,
        "could not find",
    ) && (any3(&la, &lb, &lc, "profile") || any3(&la, &lb, &lc, "credential"))) {
        Classification {
            kind: ErrorKind::NoCredentials,
            message:
                "No AWS credentials found. Please run 'aws sso login' or configure your AWS credentials.".to_owned(),
        }
    } else if any3(&la, &lb, &lc, "accessdenied") || any3(&la, &lb, &lc, "access denied") || any3(
        &la,
        &lb,
        &lc,
        "not authorized",
    ) || any3(&la, &lb, &lc, "unauthorized") {
        Classification {
            kind: ErrorKind::AccessDenied,
            message:
                "Access denied. Your AWS credentials don't have permission for this operation.".to_owned(),
        }
    } else if any3(&la, &lb, &lc, "invalid") && any3(&la, &lb, &lc, "credential") {
        Classification {
            kind: ErrorKind::NoCredentials,
            message: "Invalid AWS credentials. Please check your AWS configuration.".to_owned(),
        }
    } else if any3(&la, &lb, &lc, "dispatch failure") || any3(&la, &lb, &lc, "dispatchfailure") {
        if any3(&la, &lb, &lc, "credential") || any3(&la, &lb, &lc, "sso") || any3(
            &la,
            &lb,
            &lc,
            "token",
        ) || any3(&la, &lb, &lc, "profile") {
            Classification {
                kind: ErrorKind::Expired,
                message:
                    "AWS credentials error. Please run 'aws sso login' or check your AWS configuration.".to_owned(),
            }
        } else {
            Classification {
                kind: ErrorKind::Network,
                message:
                    "Unable to connect to AWS. This could be a network issue or expired credentials. Try running 'aws sso login'.".to_owned(),
            }
        }
    } else if any3(&la, &lb, &lc, "connector error") || any3(&la, &lb, &lc, "hyper::error") {
        Classification {
            kind: ErrorKind::Network,
            message: "Unable to connect to AWS. Please check your network connection.".to_owned(),
        }
    } else if any3(&la, &lb, &lc, "timeout") || any3(&la, &lb, &lc, "timed out") {
        Classification {
            kind: ErrorKind::Network,
            message: "Connection to AWS timed out. Please try again.".to_owned(),
        }
    } else if any3(&la, &lb, &lc, "dns") || any3(&la, &lb, &lc, "name resolution") {
        Classification {
            kind: ErrorKind::Network,
            message:
                "Unable to resolve AWS endpoint. Please check your network connection.".to_owned(),
        }
    } else if any3(&la, &lb, &lc, "resourcenotfound") || any3(&la, &lb, &lc, "does not exist") {
        Classification {
            kind: ErrorKind::NotFound,
            message: "The requested log group was not found.".to_owned(),
        }
    } else if any3(&la, &lb, &lc, "throttling") || any3(&la, &lb, &lc, "rate exceeded") {
        Classification {
            kind: ErrorKind::RateLimited,
            message: "AWS rate limit exceeded. Please wait a moment and try again.".to_owned(),
        }
    } else if any3(&la, &lb, &lc, "region") && any3(&la, &lb, &lc, "not") {
        Classification {
            kind: ErrorKind::NoCredentials,
            message: "Invalid or missing AWS region. Please check your AWS configuration.".to_owned(),
        }
    } else if any3(&la, &lb, &lc, "service") && any3(&la, &lb, &lc, "unavailable") {
        Classification {
            kind: ErrorKind::Network,
            message:
                "AWS CloudWatch Logs service is temporarily unavailable. Please try again later.".to_owned(),
        }
    } else {
        let cleaned = clean_raw(raw);
        if cleaned.len() < 5 {
            Classification {
                kind: ErrorKind::Unknown,
                message: "An unexpected error occurred while connecting to AWS.".to_owned(),
            }
        } else {
            Classification { kind: ErrorKind::Unknown, message: chars_to_string(&cleaned) }
        }
    }
}

/// The human-friendly message for a failure of which only one textual
/// representation is at hand.
pub fn humanize_aws_error(error_msg: &str) -> (r: String)
    ensures
        r@ == classification_of(
            lower_text(error_msg@),
            lower_text(error_msg@),
            lower_text(error_msg@),
            error_msg@,
        ).1,
{
    let c = classify(error_msg, error_msg, error_msg);
    c.message
}

/// The failure text classifies as an expired session. This is the one
/// condition under which a remote-call failure triggers the interactive
/// re-authentication flow: a text that classifies as missing credentials or
/// denied access calls for reconfiguration, not for a browser login.
pub open spec fn expired_classification(l: Seq<char>, raw: Seq<char>) -> bool {
    classification_of(l, l, l, raw).0 == ErrorKind::Expired
}

/// Whether the error text classifies as an expired interactive session, so
/// that a browser re-authentication is the remedy. Case-insensitive.
pub fn is_sso_session_expired(error_msg: &str) -> (r: bool)
    ensures
        r == expired_classification(lower_text(error_msg@), error_msg@),
{
    let c = classify(error_msg, error_msg, error_msg);
    matches!(c.kind, ErrorKind::Expired)
}

/// Law: an error text containing token / SSO-session / invalid-grant phrasing,
/// in any of the three (lowercased) representations, always classifies as
/// `Expired`, whatever else the texts contain.
pub proof fn lemma_expired_phrasing_wins(a: Seq<char>, b: Seq<char>, c: Seq<char>, raw: Seq<char>)
    requires
        expired_phrasing(a, b, c),
    ensures
        classification_of(a, b, c, raw).0 == ErrorKind::Expired,
{
}

/// Law: an error text containing both "dispatch failure" and "credential"
/// is never classified as a plain network failure; the generic dispatch
/// wrapper is treated as credential trouble whenever credential vocabulary
/// appears anywhere in it.
pub proof fn lemma_dispatch_with_credential_never_network(
    a: Seq<char>,
    b: Seq<char>,
    c: Seq<char>,
    raw: Seq<char>,
)
    requires
        hits3(a, b, c, "dispatch failure"@),
        hits3(a, b, c, "credential"@),
    ensures
        classification_of(a, b, c, raw).0 != ErrorKind::Network,
        classification_of(a, b, c, raw).0 == ErrorKind::Expired || classification_of(
            a,
            b,
            c,
            raw,
        ).0 == ErrorKind::NoCredentials || classification_of(a, b, c, raw).0
            == ErrorKind::AccessDenied,
{
}

/// Law: with "dispatch failure" and "credential" present and none of the
/// earlier, more specific credential categories matching, the classification
/// is exactly the `Expired`-remedial outcome.
pub proof fn lemma_dispatch_with_credential_expired_remedy(
    a: Seq<char>,
    b: Seq<char>,
    c: Seq<char>,
    raw: Seq<char>,
)
    requires
        hits3(a, b, c, "dispatch failure"@),
        hits3(a, b, c, "credential"@),
        !missing_credentials_phrasing(a, b, c),
        !access_denied_phrasing(a, b, c),
        !invalid_credentials_phrasing(a, b, c),
    ensures
        classification_of(a, b, c, raw).0 == ErrorKind::Expired,
{
}

} // verus!
