//! Server-side request errors and the checks on a bearer credential: reading
//! it from the `Authorization` header, and accepting a verified subject only
//! while its expiry has not passed.

use vstd::prelude::*;
use crate::votes::VoteError;

verus! {

/// A failed request, as the server reports it.
#[derive(Debug, Clone)]
pub enum AppError {
    /// The credential is missing its verification or has expired.
    Unauthorized,
    /// The request itself is at fault, for the reason given.
    BadRequest(String),
    /// The store failed.
    Database,
}

/// The HTTP status for each error.
pub open spec fn status_of(e: AppError) -> u16 {
    match e {
        AppError::Unauthorized => 401,
        AppError::BadRequest(_) => 400,
        AppError::Database => 500,
    }
}

/// The response text for each error.
pub open spec fn message_of(e: AppError) -> Seq<char> {
    match e {
        AppError::Unauthorized => "Unauthorized - Invalid or missing JWT token"@,
        AppError::BadRequest(m) => m@,
        AppError::Database => "Database error"@,
    }
}

impl AppError {
    /// The HTTP status code of the response for this error.
    pub fn status_code(&self) -> (r: u16)
        ensures
            r == status_of(*self),
    {
        match self {
            AppError::Unauthorized => 401,
            AppError::BadRequest(_) => 400,
            AppError::Database => 500,
        }
    }

    /// The text of the response for this error.
    pub fn message(&self) -> (r: String)
        ensures
            r@ == message_of(*self),
    {
        match self {
            AppError::Unauthorized => "Unauthorized - Invalid or missing JWT token".to_owned(),
            AppError::BadRequest(m) => m.clone(),
            AppError::Database => "Database error".to_owned(),
        }
    }
}

/// The request error for a refused vote.
pub fn vote_error_response(e: VoteError) -> (r: AppError)
    ensures
        r matches AppError::BadRequest(m) && m@ == match e {
            VoteError::InvalidType => "Invalid vote type"@,
            VoteError::UnknownTheme => "Theme not found"@,
        },
{
    match e {
        VoteError::InvalidType => AppError::BadRequest("Invalid vote type".to_owned()),
        VoteError::UnknownTheme => AppError::BadRequest("Theme not found".to_owned()),
    }
}

/// The rest of `s` after `prefix`, when `s` starts with it.
fn strip_prefix_of<'a>(s: &'a str, prefix: &str) -> (r: Option<&'a str>)
    ensures
        match r {
            Some(rest) => s@ == prefix@ + rest@,
            None => !prefix@.is_prefix_of(s@),
        },
{
    let n = prefix.unicode_len();
    let m = s.unicode_len();
    if n > m {
        return None;
    }
    let mut i: usize = 0;
    while i < n
        invariant
            n == prefix@.len(),
            m == s@.len(),
            n <= m,
            i <= n,
            forall|j: int| 0 <= j < i ==> s@[j] == prefix@[j],
        decreases n - i,
    {
        if s.get_char(i) != prefix.get_char(i) {
            assert(s@.subrange(0, n as int)[i as int] != prefix@[i as int]);
            return None;
        }
        i = i + 1;
    }
    let rest = s.substring_char(n, m);
    assert(s@ =~= prefix@ + rest@);
    Some(rest)
}

/// The outcome of reading a bearer credential from the `Authorization`
/// header: a missing header, or one that does not start with `Bearer `, is a
/// bad request.
pub open spec fn bearer_of(header: Option<Seq<char>>) -> Result<Seq<char>, Seq<char>> {
    match header {
        None => Err("no auth"@),
        Some(h) => if "Bearer "@.is_prefix_of(h) {
            Ok(h.subrange(7, h.len() as int))
        } else {
            Err("no bearer"@)
        },
    }
}

/// Reads the credential from the value of the `Authorization` header, if
/// the request has one; see `bearer_of`.
pub fn bearer_token(header: Option<&str>) -> (r: Result<String, AppError>)
    ensures
        match bearer_of(
            match header {
                Some(h) => Some(h@),
                None => None,
            },
        ) {
            Ok(t) => r matches Ok(s) && s@ == t,
            Err(m) => r matches Err(AppError::BadRequest(b)) && b@ == m,
        },
{
    proof {
        reveal_strlit("Bearer ");
    }
    match header {
        None => Err(AppError::BadRequest("no auth".to_owned())),
        Some(h) => match strip_prefix_of(h, "Bearer ") {
            Some(rest) => {
                assert(h@.subrange(0, 7) =~= "Bearer "@);
                assert(h@.subrange(7, h@.len() as int) =~= rest@);
                Ok(rest.to_owned())
            },
            None => Err(AppError::BadRequest("no bearer".to_owned())),
        },
    }
}

/// Whether a credential expiring at `exp` has expired at `now` (both in
/// Unix seconds): only once `now` is past `exp`.
pub fn is_expired(exp: i64, now: i64) -> (r: bool)
    ensures
        r == (now > exp),
{
    now > exp
}

/// Whether `r` is what a credential check gives for the outcome `verified`
/// of the signature check (`None` when that failed, else the subject and
/// expiry) at time `now`: a failed check and an expired credential are both
/// refused alike; otherwise the subject is accepted.
pub open spec fn subject_outcome(
    verified: Option<(String, i64)>,
    now: i64,
    r: Result<String, AppError>,
) -> bool {
    match verified {
        None => r matches Err(AppError::Unauthorized),
        Some((sub, exp)) => if now > exp {
            r matches Err(AppError::Unauthorized)
        } else {
            r == Ok::<String, AppError>(sub)
        },
    }
}

/// The subject of a credential at time `now`; see `subject_outcome`.
pub fn subject_at(verified: Option<(String, i64)>, now: i64) -> (r: Result<String, AppError>)
    ensures
        subject_outcome(verified, now, r),
{
    match verified {
        None => Err(AppError::Unauthorized),
        Some((sub, exp)) => if is_expired(exp, now) {
            Err(AppError::Unauthorized)
        } else {
            Ok(sub)
        },
    }
}

/// Relies on `SystemTime::now` and `SystemTime::duration_since` of std: the
/// whole seconds since the Unix epoch, or, for a clock set before it, the
/// whole seconds before it. Nothing here can predict the reading.
#[verifier::external_body]
fn read_clock() -> Result<u64, u64> {
    std::time::SystemTime::now()
        .duration_since(std::time::UNIX_EPOCH)
        .map(|d| d.as_secs())
        .map_err(|e| e.duration().as_secs())
}

/// A clock reading as signed Unix seconds, clamped to the range of `i64`.
pub open spec fn seconds_of(reading: Result<u64, u64>) -> i64 {
    match reading {
        Ok(after) => if after > i64::MAX {
            i64::MAX
        } else {
            after as i64
        },
        Err(before) => if before > i64::MAX {
            i64::MIN
        } else {
            (-(before as int)) as i64
        },
    }
}

/// Turns a clock reading into Unix seconds; see `seconds_of`.
pub fn clock_seconds(reading: Result<u64, u64>) -> (r: i64)
    ensures
        r == seconds_of(reading),
{
    match reading {
        Ok(after) => if after > i64::MAX as u64 {
            i64::MAX
        } else {
            after as i64
        },
        Err(before) => if before > i64::MAX as u64 {
            i64::MIN
        } else {
            -(before as i64)
        },
    }
}

/// The subject of a credential, checked against the current time. The result
/// is what `subject_outcome` gives at some time: so a failed check is always
/// refused, a credential that never expires is always accepted, and an
/// accepted credential yields its own subject.
pub fn authorized_subject(verified: Option<(String, i64)>) -> (r: Result<String, AppError>)
    ensures
        exists|now: i64| subject_outcome(verified, now, r),
        verified is None ==> r matches Err(AppError::Unauthorized),
        r matches Ok(s) ==> verified matches Some((sub, _)) && s == sub,
        r is Err ==> r matches Err(AppError::Unauthorized),
{
    let now = clock_seconds(read_clock());
    let r = subject_at(verified, now);
    assert(subject_outcome(verified, now, r));
    r
}

} // verus!
