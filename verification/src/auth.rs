//! Expiring authentication keys: a fixed-length random token paired with an
//! absolute expiration instant.
//!
//! [`generate`] draws a fresh random [`Key`] and stamps it with
//! `clock.now() + lifetime`; [`verify`] reads the clock again and accepts the
//! key while `now <= valid_until`, the boundary instant included.

use vstd::prelude::*;
use vstd::string::StrSliceExecFns;
use vstd::string::StringExecFns;

use crate::clock::{max_duration_nanos, Clock, ClockError, Duration, NANOS_PER_SEC};

use rand::Rng;

verus! {

/// Exact number of characters in a [`Key`], for generation and parsing alike.
pub const AUTH_KEY_LENGTH: usize = 32;

/// A validated token: exactly [`AUTH_KEY_LENGTH`] characters. Any other
/// length is unrepresentable; parsing rejects it.
#[derive(Debug, PartialEq, Eq, Hash)]
pub struct Key(String);

impl View for Key {
    type V = Seq<char>;

    /// A key is modelled as its characters.
    closed spec fn view(&self) -> Seq<char> {
        self.0@
    }
}

/// Whether `c` is one of the characters a random key is drawn from:
/// `A`-`Z`, `a`-`z` or `0`-`9`.
pub open spec fn is_key_char(c: char) -> bool {
    ||| 'A' as int <= c as int <= 'Z' as int
    ||| 'a' as int <= c as int <= 'z' as int
    ||| '0' as int <= c as int <= '9' as int
}

/// What parsing a candidate token yields: the candidate's characters when
/// there are exactly [`AUTH_KEY_LENGTH`] of them, and `WrongLength` otherwise.
pub open spec fn spec_parse(s: Seq<char>) -> Result<Seq<char>, ParseKeyError> {
    if s.len() == AUTH_KEY_LENGTH {
        Ok(s)
    } else {
        Err(ParseKeyError::WrongLength)
    }
}

/// Rejection of a candidate token.
#[derive(Clone, Copy, Debug, PartialEq, Eq, Structural)]
pub enum ParseKeyError {
    /// The candidate's length differs from [`AUTH_KEY_LENGTH`].
    WrongLength,
}

/// Relies on rand's `thread_rng` sampling the `Alphanumeric` distribution:
/// `len` characters, each independently drawn from `A`-`Z`, `a`-`z`, `0`-`9`.
#[verifier::external_body]
fn random_alphanumeric(len: usize) -> (r: String)
    ensures
        r@.len() == len as int,
        forall|i: int| 0 <= i < r@.len() ==> is_key_char(#[trigger] r@[i]),
{
    rand::thread_rng()
        .sample_iter(&rand::distributions::Alphanumeric)
        .take(len)
        .map(char::from)
        .collect()
}

impl Key {
    /// Exactly [`AUTH_KEY_LENGTH`] characters.
    pub open spec fn wf(&self) -> bool {
        self@.len() == AUTH_KEY_LENGTH
    }

    /// Parses a candidate token: accepted, character for character, exactly
    /// when it has [`AUTH_KEY_LENGTH`] characters; rejected as `WrongLength`
    /// otherwise. The character set is not restricted.
    pub fn parse(s: &str) -> (r: Result<Key, ParseKeyError>)
        ensures
            r matches Ok(k) ==> spec_parse(s@) == Ok::<Seq<char>, ParseKeyError>(k@) && k.wf(),
            r matches Err(e) ==> spec_parse(s@) == Err::<Seq<char>, ParseKeyError>(e),
    {
        if s.unicode_len() == AUTH_KEY_LENGTH {
            Ok(Key(s.to_owned()))
        } else {
            Err(ParseKeyError::WrongLength)
        }
    }

    /// A fresh random token of [`AUTH_KEY_LENGTH`] characters, each drawn
    /// independently from the alphanumeric alphabet. Every call draws its own
    /// sample.
    pub fn generate_random() -> (k: Key)
        ensures
            k.wf(),
            forall|i: int| 0 <= i < k@.len() ==> is_key_char(#[trigger] k@[i]),
    {
        Key(random_alphanumeric(AUTH_KEY_LENGTH))
    }

    /// The token's characters, raw: the exact string that was parsed or
    /// generated.
    pub fn as_str(&self) -> (r: &str)
        ensures
            r@ == self@,
    {
        self.0.as_str()
    }
}

impl Clone for Key {
    /// An identical token.
    fn clone(&self) -> (r: Self)
        ensures
            r@ == self@,
    {
        Key(self.0.clone())
    }
}

impl core::str::FromStr for Key {
    type Err = ParseKeyError;

    fn from_str(s: &str) -> Result<Self, Self::Err> {
        Key::parse(s)
    }
}

/// A [`Key`] together with the absolute instant up to which it is accepted.
/// Both fields are set once, at generation, and never change: renewal means
/// generating a new key.
#[derive(Debug, PartialEq, Eq)]
pub struct ExpiringKey {
    /// The token itself.
    pub key: Key,
    /// The last instant, measured from the Unix epoch, at which the key is
    /// still accepted.
    pub valid_until: Duration,
}

/// Whether a key is still accepted at the instant `now`: expiration is
/// inclusive, so the key is valid up to and including `valid_until`.
pub open spec fn key_valid_at(key: ExpiringKey, now: Duration) -> bool {
    now@ <= key.valid_until@
}

impl ExpiringKey {
    /// Both fields are well-formed.
    pub open spec fn wf(&self) -> bool {
        self.key.wf() && self.valid_until.wf()
    }

    /// A copy of the token, for looking the key up in storage.
    pub fn id(&self) -> (k: Key)
        ensures
            k@ == self.key@,
    {
        self.key.clone()
    }

    /// A human-readable rendering: the token and the expiration instant as a
    /// UTC timestamp. `None` exactly when the instant lies beyond
    /// [`MAX_RENDERABLE_SECS`], past what the calendar rendering represents.
    pub fn display_string(&self) -> (r: Option<String>)
        requires
            self.valid_until.wf(),
        ensures
            r is Some <==> self.valid_until@ / (NANOS_PER_SEC as int) <= MAX_RENDERABLE_SECS,
            r matches Some(s) ==> s@ == "key: `"@ + self.key@ + "`, valid until `"@
                + utc_render(
                (self.valid_until@ / (NANOS_PER_SEC as int)) as u64,
                (self.valid_until@ % (NANOS_PER_SEC as int)) as u32,
            ) + "`"@,
    {
        let secs = self.valid_until.as_secs();
        let nanos = self.valid_until.subsec_nanos();
        match format_utc_instant(secs, nanos) {
            Some(stamp) => {
                let mut out = "key: `".to_owned();
                out.append(self.key.as_str());
                out.append("`, valid until `");
                out.append(stamp.as_str());
                out.append("`");
                Some(out)
            },
            None => None,
        }
    }
}

impl Clone for ExpiringKey {
    /// An identical key: the same token and the same expiration instant.
    fn clone(&self) -> (r: Self)
        ensures
            r.key@ == self.key@,
            r.valid_until == self.valid_until,
    {
        ExpiringKey { key: self.key.clone(), valid_until: self.valid_until }
    }
}

/// The rendering of an instant as a UTC calendar timestamp, as chrono's
/// display writes it.
pub uninterp spec fn utc_render(secs: u64, nanos: u32) -> Seq<char>;

/// The largest whole-second instant whose UTC calendar rendering exists: the
/// last second of the latest year chrono's calendar reaches.
pub const MAX_RENDERABLE_SECS: u64 = 8_210_266_876_799;

/// Relies on chrono's `DateTime::<Utc>::from_timestamp` and the display of
/// `DateTime<Utc>`: `Some` exactly for instants the chrono calendar
/// represents (whole seconds up to [`MAX_RENDERABLE_SECS`]), rendered in UTC
/// from the instant alone.
#[verifier::external_body]
fn format_utc_instant(secs: u64, nanos: u32) -> (r: Option<String>)
    requires
        nanos < NANOS_PER_SEC,
    ensures
        r is Some <==> secs <= MAX_RENDERABLE_SECS,
        r matches Some(s) ==> s@ == utc_render(secs, nanos),
{
    let signed = match i64::try_from(secs) {
        Ok(signed) => signed,
        Err(_) => return None,
    };
    chrono::DateTime::<chrono::Utc>::from_timestamp(signed, nanos).map(|dt| dt.to_string())
}

/// Why a key was not verified.
#[derive(Debug)]
pub enum AuthError {
    /// The storage collaborator failed while the key was being looked up; the
    /// driver's error is kept whole as the cause.
    KeyVerificationError { source: r2d2_sqlite::rusqlite::Error },
    /// No key could be read for this identity; carries the identity that was
    /// requested and the operation that asked for it.
    UnableToReadKey { location: String, key: Box<Key> },
    /// The key's expiration instant lies before the clock's current reading;
    /// carries the operation that found it expired.
    KeyExpired { location: String },
}

/// Declares rusqlite's `Error`, the storage driver's native error type, so
/// that [`AuthError`] can carry it whole as an opaque cause.
#[verifier::external_type_specification]
#[verifier::external_body]
pub struct ExRusqliteError(r2d2_sqlite::rusqlite::Error);

impl From<r2d2_sqlite::rusqlite::Error> for AuthError {
    /// Wraps a storage-driver failure, keeping the original cause.
    fn from(e: r2d2_sqlite::rusqlite::Error) -> (r: AuthError) {
        AuthError::KeyVerificationError { source: e }
    }
}

impl vstd::std_specs::convert::FromSpecImpl<r2d2_sqlite::rusqlite::Error> for AuthError {
    open spec fn obeys_from_spec() -> bool {
        true
    }

    open spec fn from_spec(e: r2d2_sqlite::rusqlite::Error) -> AuthError {
        AuthError::KeyVerificationError { source: e }
    }
}

/// A fresh expiring key: a random token, accepted up to
/// `clock.now() + lifetime` inclusive. Fails with `Overflow` exactly when
/// that sum exceeds the representable time range; the result is then an
/// error, never a wrapped or truncated instant.
pub fn generate(clock: &Clock, lifetime: Duration) -> (r: Result<ExpiringKey, ClockError>)
    requires
        clock.wf(),
        lifetime.wf(),
    ensures
        r matches Ok(k) ==> k.wf() && (forall|i: int|
            0 <= i < k.key@.len() ==> is_key_char(#[trigger] k.key@[i])),
        r is Err ==> r->Err_0 == ClockError::Overflow,
        clock matches Clock::Stopped { instant } ==> {
            &&& r is Ok <==> instant@ + lifetime@ <= max_duration_nanos()
            &&& (r matches Ok(k) ==> k.valid_until@ == instant@ + lifetime@)
        },
{
    let key = Key::generate_random();
    match clock.add(&lifetime) {
        Ok(valid_until) => Ok(ExpiringKey { key, valid_until }),
        Err(e) => Err(e),
    }
}

/// Whether `auth_key` is still valid at the instant `now`: `Ok` exactly when
/// `now <= valid_until`, the boundary instant included, and `KeyExpired`
/// otherwise. A pure comparison: no side effects, idempotent under repeated
/// calls with the same reading.
pub fn verify_at(auth_key: &ExpiringKey, now: Duration) -> (r: Result<(), AuthError>)
    requires
        auth_key.valid_until.wf(),
        now.wf(),
    ensures
        r is Ok <==> key_valid_at(*auth_key, now),
        r matches Err(e) ==> e matches AuthError::KeyExpired { .. },
{
    if now.le(&auth_key.valid_until) {
        Ok(())
    } else {
        Err(AuthError::KeyExpired { location: "verify".to_owned() })
    }
}

/// Whether `auth_key` is still valid at the clock's current reading: `Ok`
/// exactly when `now <= valid_until`, and `KeyExpired` once `now` has passed
/// `valid_until`.
pub fn verify(auth_key: &ExpiringKey, clock: &Clock) -> (r: Result<(), AuthError>)
    requires
        auth_key.valid_until.wf(),
        clock.wf(),
    ensures
        clock matches Clock::Stopped { instant } ==> (r is Ok <==> key_valid_at(
            *auth_key,
            *instant,
        )),
        r matches Err(e) ==> e matches AuthError::KeyExpired { .. },
{
    let now = clock.now();
    verify_at(auth_key, now)
}

/// Every candidate of exactly [`AUTH_KEY_LENGTH`] characters parses
/// successfully, and the parsed key holds the candidate's characters
/// unchanged; with [`Key::as_str`] returning those characters raw, the key
/// round-trips through parsing.
pub proof fn lemma_parse_round_trip(s: Seq<char>)
    requires
        s.len() == AUTH_KEY_LENGTH,
    ensures
        spec_parse(s) == Ok::<Seq<char>, ParseKeyError>(s),
{
}

/// Every candidate whose length differs from [`AUTH_KEY_LENGTH`] is rejected
/// as `WrongLength`.
pub proof fn lemma_parse_wrong_length(s: Seq<char>)
    requires
        s.len() != AUTH_KEY_LENGTH,
    ensures
        spec_parse(s) == Err::<Seq<char>, ParseKeyError>(ParseKeyError::WrongLength),
{
}

/// A key stamped at `now` with a positive lifetime is valid at `now` itself:
/// verification immediately after generation succeeds.
pub proof fn lemma_fresh_key_valid(key: ExpiringKey, now: Duration, lifetime: Duration)
    requires
        lifetime@ > 0,
        key.valid_until@ == now@ + lifetime@,
    ensures
        key_valid_at(key, now),
{
}

/// Expiration is inclusive: a key is still valid at the very instant
/// `valid_until`.
pub proof fn lemma_boundary_inclusive(key: ExpiringKey, now: Duration)
    requires
        now@ == key.valid_until@,
    ensures
        key_valid_at(key, now),
{
}

} // verus!
