//! Account rules: password and email checks, registration, numeric
//! identifiers, role changes, and the password-reset token with the digest
//! under which it is stored.

use vstd::prelude::*;
use vstd::string::*;
use vstd::utf8::encode_utf8;
use argon2::password_hash::{rand_core::OsRng, SaltString};
use argon2::{Argon2, PasswordHash, PasswordHasher, PasswordVerifier};
use email_address::EmailAddress;
use crate::cache::{blake3_digest, blake3_hash};
use crate::errors::{AppError, AppErrorView};
use crate::graphql::UserRole;
use crate::text::{is_ascii_alphanumeric, random_alphanumeric};

verus! {

/// The fewest bytes a password may have.
pub const MIN_PASSWORD_BYTES: usize = 8;

/// The number of characters in a password-reset token.
pub const PASSWORD_RESET_TOKEN_LENGTH: usize = 32;

/// Minimum seconds between password-reset token issuances for one user.
pub const PASSWORD_RESET_RATE_LIMIT_SECONDS: i64 = 60;

/// The number of bytes of the UTF-8 encoding of `s`.
pub open spec fn utf8_len(s: Seq<char>) -> nat {
    vstd::utf8::encode_utf8(s).len()
}

/// Why a password is refused: fewer than eight bytes.
pub open spec fn password_rejection(password: Seq<char>) -> Option<AppErrorView> {
    if (utf8_len(password) as usize) < MIN_PASSWORD_BYTES {
        Some(AppErrorView::Validation("Password must be at least 8 characters long"@))
    } else {
        None
    }
}

pub fn validate_password(password: &str) -> (r: Result<(), AppError>)
    ensures
        r is Ok <==> password_rejection(password@) is None,
        r matches Err(e) ==> Some(e@) == password_rejection(password@),
{
    if password.len() < MIN_PASSWORD_BYTES {
        return Err(AppError::Validation(String::from_str("Password must be at least 8 characters long")));
    }
    Ok(())
}

/// Whether `email_address::EmailAddress::is_valid` accepts `address`.
pub uninterp spec fn email_address_accepts(address: Seq<char>) -> bool;

/// `email_address::EmailAddress::is_valid`: whether the address parses under
/// the crate's default options. Its verdict, a function of the address alone,
/// is named by [`email_address_accepts`]; the grammar is not restated.
#[verifier::external_body]
fn email_is_valid(address: &str) -> (valid: bool)
    ensures
        valid == email_address_accepts(address@),
{
    EmailAddress::is_valid(address)
}

/// What a check of an email's format answers, given whether it parsed.
pub open spec fn email_format_outcome(accepted: bool) -> Result<(), AppErrorView> {
    if accepted {
        Ok(())
    } else {
        Err(AppErrorView::Validation("Invalid email format"@))
    }
}

/// Lets an accepted address through and refuses any other as
/// `Invalid email format`.
pub fn email_format_check(accepted: bool) -> (r: Result<(), AppError>)
    ensures
        match r {
            Ok(()) => email_format_outcome(accepted) is Ok,
            Err(e) => email_format_outcome(accepted) == Err::<(), AppErrorView>(e@),
        },
{
    if accepted {
        Ok(())
    } else {
        Err(AppError::Validation(String::from_str("Invalid email format")))
    }
}

/// Checks that `email` is a well-formed address.
pub fn validate_email_format(email: &str) -> (r: Result<(), AppError>)
    ensures
        match r {
            Ok(()) => email_format_outcome(email_address_accepts(email@)) is Ok,
            Err(e) => email_format_outcome(email_address_accepts(email@)) == Err::<(), AppErrorView>(e@),
        },
{
    email_format_check(email_is_valid(email))
}

/// Refuses an email address that `existing` other accounts already use.
pub fn ensure_email_available(existing: i64) -> (r: Result<(), AppError>)
    ensures
        r is Ok <==> existing <= 0,
        r matches Err(e) ==> e@ == AppErrorView::Validation("Email already in use"@),
{
    if existing > 0 {
        return Err(AppError::Validation(String::from_str("Email already in use")));
    }
    Ok(())
}

/// Why a registration is refused, checked in order: registration switched
/// off, then the password, then the email's format (`email_accepted` is the
/// verdict on it).
pub open spec fn registration_rejection(
    enable_registration: bool,
    password: Seq<char>,
    email_accepted: bool,
) -> Option<AppErrorView> {
    if !enable_registration {
        Some(AppErrorView::Forbidden)
    } else if password_rejection(password) is Some {
        password_rejection(password)
    } else if !email_accepted {
        Some(AppErrorView::Validation("Invalid email format"@))
    } else {
        None
    }
}

/// The checks a registration passes before the address's uniqueness is
/// looked up, given the verdict on the email's format.
pub fn registration_check_with(
    enable_registration: bool,
    password: &str,
    email_accepted: bool,
) -> (r: Result<(), AppError>)
    ensures
        r is Ok <==> registration_rejection(enable_registration, password@, email_accepted) is None,
        r matches Err(e) ==> Some(e@) == registration_rejection(
            enable_registration,
            password@,
            email_accepted,
        ),
{
    if !enable_registration {
        return Err(AppError::Forbidden);
    }
    validate_password(password)?;
    email_format_check(email_accepted)
}

/// The checks a registration passes before the address's uniqueness is
/// looked up.
pub fn registration_check(enable_registration: bool, email: &str, password: &str) -> (r: Result<
    (),
    AppError,
>)
    ensures
        r is Ok <==> registration_rejection(
            enable_registration,
            password@,
            email_address_accepts(email@),
        ) is None,
        r matches Err(e) ==> Some(e@) == registration_rejection(
            enable_registration,
            password@,
            email_address_accepts(email@),
        ),
{
    if !enable_registration {
        return Err(AppError::Forbidden);
    }
    let accepted = email_is_valid(email);
    registration_check_with(enable_registration, password, accepted)
}

/// What checking `password` against the stored PHC-format `stored_hash` with
/// Argon2 gives: the text of the error that refused the stored hash, or
/// whether the password matches it.
pub uninterp spec fn argon2_check(password: Seq<char>, stored_hash: Seq<char>) -> Result<
    bool,
    Seq<char>,
>;

/// `argon2::PasswordVerifier::verify_password` with `Argon2::default()`, on
/// the stored hash parsed by `password_hash::PasswordHash::new`; a parse error
/// is returned as its `Display` text, and any refusal by the verifier counts
/// as a mismatch. The outcome is named by [`argon2_check`]; it depends on the
/// two texts alone.
#[verifier::external_body]
fn argon2_verify(password: &str, stored_hash: &str) -> (r: Result<bool, String>)
    ensures
        match r {
            Ok(b) => argon2_check(password@, stored_hash@) == Ok::<bool, Seq<char>>(b),
            Err(m) => argon2_check(password@, stored_hash@) == Err::<bool, Seq<char>>(m@),
        },
{
    let parsed = PasswordHash::new(stored_hash).map_err(|e| e.to_string())?;
    Ok(Argon2::default().verify_password(password.as_bytes(), &parsed).is_ok())
}

/// `argon2::PasswordHasher::hash_password` with `Argon2::default()` and a
/// fresh salt from the operating system's generator, rendered as a PHC
/// string. The hash differs from call to call; what holds of every hash is
/// that checking the same password against it succeeds. With the default
/// parameters and a generated salt, Argon2 refuses only a password longer
/// than `argon2::MAX_PWD_LEN` (`0xFFFF_FFFF`) bytes.
#[verifier::external_body]
fn argon2_hash(password: &str) -> (r: Result<String, String>)
    ensures
        match r {
            Ok(h) => argon2_check(password@, h@) == Ok::<bool, Seq<char>>(true),
            Err(_) => encode_utf8(password@).len() > 0xFFFF_FFFF,
        },
{
    let salt = SaltString::generate(&mut OsRng);
    Argon2::default()
        .hash_password(password.as_bytes(), &salt)
        .map(|h| h.to_string())
        .map_err(|e| e.to_string())
}

/// What a password check answers: a match passes, a mismatch is
/// unauthorized, and a stored hash that cannot be read is internal.
pub open spec fn password_check_outcome(check: Result<bool, Seq<char>>) -> Result<(), AppErrorView> {
    match check {
        Ok(true) => Ok(()),
        Ok(false) => Err(AppErrorView::Unauthorized),
        Err(m) => Err(AppErrorView::Internal("Failed to parse password hash from database: "@ + m)),
    }
}

/// Answers a password check from its outcome.
pub fn password_check(check: Result<bool, String>) -> (r: Result<(), AppError>)
    ensures
        match r {
            Ok(()) => password_check_outcome(
                match check {
                    Ok(b) => Ok(b),
                    Err(m) => Err(m@),
                },
            ) is Ok,
            Err(e) => password_check_outcome(
                match check {
                    Ok(b) => Ok(b),
                    Err(m) => Err(m@),
                },
            ) == Err::<(), AppErrorView>(e@),
        },
{
    match check {
        Ok(true) => Ok(()),
        Ok(false) => Err(AppError::Unauthorized),
        Err(m) => Err(
            AppError::Internal(
                String::from_str("Failed to parse password hash from database: ").concat(m.as_str()),
            ),
        ),
    }
}

/// Checks `password` against the stored hash.
pub fn verify_password(password: &str, stored_hash: &str) -> (r: Result<(), AppError>)
    ensures
        match r {
            Ok(()) => password_check_outcome(argon2_check(password@, stored_hash@)) is Ok,
            Err(e) => password_check_outcome(argon2_check(password@, stored_hash@)) == Err::<
                (),
                AppErrorView,
            >(e@),
        },
{
    password_check(argon2_verify(password, stored_hash))
}

/// Hashes a new password for storage. Whatever hash comes back, checking the
/// same password against it succeeds; hashing fails only for a password of
/// more than `0xFFFF_FFFF` bytes, as an internal error.
pub fn hash_password(password: &str) -> (r: Result<String, AppError>)
    ensures
        match r {
            Ok(h) => password_check_outcome(argon2_check(password@, h@)) is Ok,
            Err(e) => e@ is Internal && encode_utf8(password@).len() > 0xFFFF_FFFF,
        },
{
    match argon2_hash(password) {
        Ok(h) => Ok(h),
        Err(m) => Err(AppError::Internal(String::from_str("Failed to hash password: ").concat(m.as_str()))),
    }
}

/// What a password-reset request does once its address was looked up.
#[derive(Clone, Copy, Debug, PartialEq, Eq, Structural)]
pub enum ResetRequestStep {
    /// Answer success and do nothing more: the address names no user, or a
    /// token was issued to that user too recently. The answer is the same as
    /// for an issued token, so that nobody learns which addresses exist.
    AnswerOnly,
    /// Replace the user's tokens with a fresh one and queue the email.
    IssueToken,
}

/// The step for a password-reset request: a token is issued only to a user
/// that exists and has no recent token.
pub fn reset_request_step(user_found: bool, recent_token: bool) -> (r: ResetRequestStep)
    ensures
        r == (if user_found && !recent_token {
            ResetRequestStep::IssueToken
        } else {
            ResetRequestStep::AnswerOnly
        }),
{
    if user_found && !recent_token {
        ResetRequestStep::IssueToken
    } else {
        ResetRequestStep::AnswerOnly
    }
}

/// The role an administrator asks for, or `Invalid role` when the text names
/// none.
pub fn requested_role(role: &str) -> (r: Result<UserRole, AppError>)
    ensures
        match UserRole::from_wire(role@) {
            Some(v) => r == Ok::<UserRole, AppError>(v),
            None => r matches Err(e) && e@ == AppErrorView::Validation("Invalid role"@),
        },
{
    match UserRole::parse(role) {
        Some(v) => Ok(v),
        None => Err(AppError::Validation(String::from_str("Invalid role"))),
    }
}

/// The value of a string of ASCII decimal digits.
pub open spec fn digits_value(s: Seq<char>) -> int
    decreases s.len(),
{
    if s.len() == 0 {
        0
    } else {
        digits_value(s.drop_last()) * 10 + (s.last() as int - '0' as int)
    }
}

pub open spec fn all_digits(s: Seq<char>) -> bool {
    forall|i: int| 0 <= i < s.len() ==> '0' <= #[trigger] s[i] && s[i] <= '9'
}

/// What `str::parse::<i64>` accepts: an optional `+` or `-`, then one or more
/// ASCII digits, denoting a value within `i64`'s range.
pub open spec fn parsed_i64(s: Seq<char>) -> Option<i64> {
    let negative = s.len() > 0 && s[0] == '-';
    let signed = s.len() > 0 && (s[0] == '-' || s[0] == '+');
    let body = if signed {
        s.skip(1)
    } else {
        s
    };
    let value = if negative {
        -digits_value(body)
    } else {
        digits_value(body)
    };
    if body.len() == 0 || !all_digits(body) || value < i64::MIN || value > i64::MAX {
        None
    } else {
        Some(value as i64)
    }
}

/// Parses a signed decimal integer as `str::parse::<i64>` does.
pub fn parse_i64(s: &str) -> (r: Option<i64>)
    ensures
        r == parsed_i64(s@),
{
    let chars = crate::text::chars_of(s);
    let n = chars.len();
    let mut start: usize = 0;
    let mut negative = false;
    if n > 0 && (chars[0] == '-' || chars[0] == '+') {
        negative = chars[0] == '-';
        start = 1;
    }
    let ghost body = chars@.skip(start as int);
    assert(chars@ == s@);
    if start == n {
        assert(body.len() == 0);
        return None;
    }
    // The magnitude read so far, held at 2^63 + 1 once it passes 2^63.
    let cap: u128 = 0x8000_0000_0000_0001;
    let mut magnitude: u128 = 0;
    let mut i: usize = start;
    while i < n
        invariant
            start <= i <= n,
            n == chars.len(),
            chars@ == s@,
            body == chars@.skip(start as int),
            start == (if n > 0 && (chars@[0] == '-' || chars@[0] == '+') {
                1int
            } else {
                0int
            }),
            negative == (n > 0 && chars@[0] == '-'),
            start < n,
            all_digits(chars@.subrange(start as int, i as int)),
            magnitude == (if digits_value(chars@.subrange(start as int, i as int)) >= cap {
                cap as int
            } else {
                digits_value(chars@.subrange(start as int, i as int))
            }),
            cap == 0x8000_0000_0000_0001u128,
        decreases n - i,
    {
        let c = chars[i];
        if !('0' <= c && c <= '9') {
            assert(body[i - start] == c);
            return None;
        }
        let ghost prefix = chars@.subrange(start as int, i as int);
        let ghost next = chars@.subrange(start as int, i + 1);
        assert(next.drop_last() == prefix);
        assert(next.last() == c);
        assert(digits_value(prefix) >= 0) by {
            lemma_digits_value_nonnegative(prefix);
        }
        let d: u128 = ((c as u32) - ('0' as u32)) as u128;
        if magnitude < cap {
            magnitude = magnitude * 10 + d;
            if magnitude > cap {
                magnitude = cap;
            }
        }
        i = i + 1;
    }
    assert(chars@.subrange(start as int, n as int) == body);
    proof {
        lemma_digits_value_nonnegative(body);
        if start == 0 {
            assert(body =~= s@);
        }
    }
    if negative {
        if magnitude > 0x8000_0000_0000_0000 {
            return None;
        }
        Some((-(magnitude as i128)) as i64)
    } else {
        if magnitude > 0x7fff_ffff_ffff_ffff {
            assert(digits_value(body) > i64::MAX);
            return None;
        }
        Some(magnitude as i64)
    }
}

proof fn lemma_digits_value_nonnegative(s: Seq<char>)
    requires
        all_digits(s),
    ensures
        digits_value(s) >= 0,
    decreases s.len(),
{
    if s.len() > 0 {
        assert(all_digits(s.drop_last()));
        lemma_digits_value_nonnegative(s.drop_last());
        assert(s[s.len() - 1] == s.last());
    }
}

/// Parses a numeric identifier sent by a client; text that is not one is
/// refused as `Invalid ID format`.
pub fn parse_id(id: &str) -> (r: Result<i64, AppError>)
    ensures
        match parsed_i64(id@) {
            Some(v) => r == Ok::<i64, AppError>(v),
            None => r matches Err(e) && e@ == AppErrorView::Internal("Invalid ID format"@),
        },
{
    match parse_i64(id) {
        Some(v) => Ok(v),
        None => Err(AppError::Internal(String::from_str("Invalid ID format"))),
    }
}

/// A lowercase hexadecimal digit.
pub open spec fn hex_digit(d: int) -> char {
    if d < 10 {
        (d + 48) as char
    } else {
        (d + 87) as char
    }
}

/// Lowercase hexadecimal, two digits per byte, high nibble first: what
/// `blake3::Hash` writes for `Display`.
pub open spec fn lower_hex(bytes: Seq<u8>) -> Seq<char>
    decreases bytes.len(),
{
    if bytes.len() == 0 {
        seq![]
    } else {
        lower_hex(bytes.drop_last()) + seq![
            hex_digit(bytes.last() as int / 16),
            hex_digit(bytes.last() as int % 16),
        ]
    }
}

fn hex_char(d: u8) -> (c: char)
    requires
        d < 16,
    ensures
        c == hex_digit(d as int),
{
    if d < 10 {
        (d + 48) as char
    } else {
        (d + 87) as char
    }
}

/// The digest under which a password-reset token is stored: the BLAKE3 hash
/// of the token's UTF-8 bytes, in lowercase hexadecimal.
pub fn reset_token_digest(token: &str) -> (h: String)
    ensures
        h@ == lower_hex(blake3_digest(token.spec_bytes())),
{
    let digest = blake3_hash(token.as_bytes());
    let mut out = String::new();
    let mut i: usize = 0;
    while i < 32
        invariant
            i <= 32,
            digest@.len() == 32,
            out@ == lower_hex(digest@.take(i as int)),
        decreases 32 - i,
    {
        let b = digest[i];
        let ghost before = digest@.take(i as int);
        crate::text::push_char(&mut out, hex_char(b / 16));
        crate::text::push_char(&mut out, hex_char(b % 16));
        i = i + 1;
        assert(digest@.take(i as int).drop_last() == before);
        assert(digest@.take(i as int).last() == b);
        assert(out@ =~= lower_hex(digest@.take(i as int)));
    }
    assert(digest@.take(32) == digest@);
    out
}

/// A fresh password-reset token: 32 random ASCII letters and digits.
pub fn generate_reset_token() -> (t: String)
    ensures
        t@.len() == PASSWORD_RESET_TOKEN_LENGTH,
        forall|i: int| 0 <= i < t@.len() ==> is_ascii_alphanumeric(#[trigger] t@[i]),
{
    random_alphanumeric(PASSWORD_RESET_TOKEN_LENGTH)
}

} // verus!
