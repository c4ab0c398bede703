//! The catalog client's own rules: how a response status and its message
//! become a result, and how the endpoint URL is normalised. The requests
//! themselves are sent by the caller.

use vstd::prelude::*;
use vstd::string::*;
use crate::text::{concat_str, decimal, substring, to_decimal};

verus! {

/// A failed response, by status.
pub enum StatusError {
    /// 401.
    Authentication { message: String },
    /// 403.
    PermissionDenied { message: String },
    /// 404.
    NotFound { message: String },
    /// 422.
    Validation { message: String },
    /// Any other status outside 200..300.
    Api { status: u16, message: String },
}

/// What a response status means.
pub enum ResponseKind {
    /// 204: success without a body.
    NoContent,
    /// Another status in 200..300: success with a body.
    Success,
    /// A failure.
    Failure(StatusError),
}

/// `message`, or `fallback` when it is empty.
pub open spec fn or_default(message: Seq<char>, fallback: Seq<char>) -> Seq<char> {
    if message.len() == 0 { fallback } else { message }
}

/// What status `status` with body message `message` means: success for 204
/// and for 200..300; otherwise the failure of that status, with the message,
/// or a default text when the body had none.
pub open spec fn response_kind(status: u16, message: Seq<char>, r: ResponseKind) -> bool {
    if status == 204 {
        r is NoContent
    } else if 200 <= status < 300 {
        r is Success
    } else if status == 401 {
        r matches ResponseKind::Failure(StatusError::Authentication { message: m })
            && m@ == or_default(message, "Unauthenticated"@)
    } else if status == 403 {
        r matches ResponseKind::Failure(StatusError::PermissionDenied { message: m })
            && m@ == or_default(message, "Permission denied"@)
    } else if status == 404 {
        r matches ResponseKind::Failure(StatusError::NotFound { message: m })
            && m@ == or_default(message, "Not found"@)
    } else if status == 422 {
        r matches ResponseKind::Failure(StatusError::Validation { message: m })
            && m@ == or_default(message, "Validation error"@)
    } else {
        r matches ResponseKind::Failure(StatusError::Api { status: s, message: m })
            && s == status && m@ == or_default(message, "HTTP "@ + decimal(status as nat))
    }
}

fn message_or(message: &str, fallback: String) -> (r: String)
    ensures
        r@ == or_default(message@, fallback@),
{
    if message.unicode_len() == 0 { fallback } else { message.to_owned() }
}

/// Classifies a response by its status and the `message` of its body (empty
/// when the body has none).
pub fn classify_response(status: u16, message: &str) -> (r: ResponseKind)
    ensures
        response_kind(status, message@, r),
{
    proof {
        reveal_strlit("Unauthenticated");
        reveal_strlit("Permission denied");
        reveal_strlit("Not found");
        reveal_strlit("Validation error");
        reveal_strlit("HTTP ");
    }
    if status == 204 {
        ResponseKind::NoContent
    } else if 200 <= status && status < 300 {
        ResponseKind::Success
    } else if status == 401 {
        ResponseKind::Failure(StatusError::Authentication { message: message_or(message, "Unauthenticated".to_owned()) })
    } else if status == 403 {
        ResponseKind::Failure(StatusError::PermissionDenied { message: message_or(message, "Permission denied".to_owned()) })
    } else if status == 404 {
        ResponseKind::Failure(StatusError::NotFound { message: message_or(message, "Not found".to_owned()) })
    } else if status == 422 {
        ResponseKind::Failure(StatusError::Validation { message: message_or(message, "Validation error".to_owned()) })
    } else {
        let fallback = concat_str("HTTP ", to_decimal(status as u64).as_str());
        ResponseKind::Failure(StatusError::Api { status, message: message_or(message, fallback) })
    }
}

/// `s` without the slashes that end it.
pub open spec fn without_trailing_slashes(s: Seq<char>) -> Seq<char>
    decreases s.len(),
{
    if s.len() > 0 && s.last() == '/' { without_trailing_slashes(s.drop_last()) } else { s }
}

/// The endpoint URL without the slashes that end it, so that paths can be
/// appended to it.
pub fn normalize_base_url(url: &str) -> (r: String)
    ensures
        r@ == without_trailing_slashes(url@),
{
    let s = url.to_owned();
    let mut end: usize = url.unicode_len();
    proof {
        assert(s@.subrange(0, end as int) =~= s@);
    }
    while end > 0 && url.get_char(end - 1) == '/'
        invariant
            end <= s@.len(),
            s@ == url@,
            without_trailing_slashes(s@.subrange(0, end as int)) == without_trailing_slashes(url@),
        decreases end,
    {
        proof {
            assert(s@.subrange(0, end as int).drop_last() =~= s@.subrange(0, end as int - 1));
        }
        end = end - 1;
    }
    substring(&s, 0, end)
}

} // verus!
