//! The session gate. A client is known by an expiring session cookie and by
//! nothing else; the server keeps no record of sessions. A request to the page
//! root whose cookie is missing, unreadable or past its expiry starts a new
//! session, and with it an empty task list.

use vstd::prelude::*;
use vstd::string::*;
use crate::text::{decimal, push_decimal, text_of};

verus! {

/// A point in time: whole seconds since 1970-01-01 00:00:00 UTC and the
/// nanoseconds past that second.
#[derive(Clone, Copy, Debug, PartialEq, Eq, Structural)]
pub struct Timestamp {
    pub secs: i64,
    pub nanos: u32,
}

impl Timestamp {
    /// The nanoseconds since 1970-01-01 00:00:00 UTC.
    pub open spec fn nanos_since_epoch(self) -> int {
        self.secs * 1_000_000_000 + self.nanos
    }

    /// Whether `self` is strictly later than `other`.
    pub fn later_than(&self, other: &Timestamp) -> (r: bool)
        ensures
            r == (self.nanos_since_epoch() > other.nanos_since_epoch()),
    {
        let a: i128 = (self.secs as i128) * 1_000_000_000 + (self.nanos as i128);
        let b: i128 = (other.secs as i128) * 1_000_000_000 + (other.nanos as i128);
        a > b
    }
}

/// The format in which a cookie carries its expiry, once the zone is added.
pub const EXPIRY_FORMAT: &'static str = "%Y-%m-%d %H:%M:%S %z";

/// The zone that is added to the date and time of a cookie: UTC.
pub const UTC_SUFFIX: &'static str = " +00:00";

/// The number of characters that the date and time of a cookie take.
pub const EXPIRY_LENGTH: usize = 19;

/// The number of characters of a session token.
pub const TOKEN_LENGTH: usize = 128;

/// The seconds that a session cookie lives, as the cookie states them.
pub const SESSION_MAX_AGE: u64 = 600;

/// What `chrono::DateTime::parse_from_str` makes of `text` under `format`:
/// the seconds since the epoch and the nanoseconds past that second of the
/// date and time it reads, or `None` where it reports an error.
pub uninterp spec fn datetime_of(text: Seq<char>, format: Seq<char>) -> Option<(i64, u32)>;

/// `chrono::ParseError`, the error of a text that does not parse. It is
/// carried from the parser to its caller and never looked into.
#[verifier::external_type_specification]
#[verifier::external_body]
pub struct ExParseError(chrono::ParseError);

/// Calls `chrono::DateTime::parse_from_str` and hands back the date and time
/// it read as `timestamp()` and `timestamp_subsec_nanos()` give them, or its
/// error. The contract names the result and claims nothing more of it.
#[verifier::external_body]
fn parse_datetime(text: &str, format: &str) -> (r: Result<(i64, u32), chrono::ParseError>)
    ensures
        match r {
            Ok(at) => datetime_of(text@, format@) == Some(at),
            Err(_) => datetime_of(text@, format@) is None,
        },
{
    match chrono::DateTime::parse_from_str(text, format) {
        Ok(at) => Ok((at.timestamp(), at.timestamp_subsec_nanos())),
        Err(e) => Err(e),
    }
}

/// Reads the system clock with `std::time::SystemTime::now`, turns the time
/// into a `chrono::DateTime<Utc>` with chrono's `From` and hands it back as
/// `timestamp()` and `timestamp_subsec_nanos()` give it. Nothing is claimed of
/// the result: the clock may show any time.
#[verifier::external_body]
fn clock_now() -> Timestamp {
    let at = chrono::DateTime::<chrono::Utc>::from(std::time::SystemTime::now());
    Timestamp { secs: at.timestamp(), nanos: at.timestamp_subsec_nanos() }
}

/// Whether `c` is an ASCII letter or digit.
pub open spec fn is_alphanumeric(c: char) -> bool {
    ('a' <= c <= 'z') || ('A' <= c <= 'Z') || ('0' <= c <= '9')
}

/// Draws one byte from `rand::distributions::Alphanumeric` with
/// `rand::Rng::sample` on the generator that `rand::thread_rng` gives, and
/// hands it back as a character. Which character comes is left open; the
/// distribution draws from a-z, A-Z and 0-9 only.
#[verifier::external_body]
fn random_alphanumeric() -> (c: char)
    ensures
        is_alphanumeric(c),
{
    char::from(rand::Rng::sample(&mut rand::thread_rng(), rand::distributions::Alphanumeric))
}

/// Whether `token` has the shape of a session token: `TOKEN_LENGTH`
/// characters, each an ASCII letter or digit.
pub open spec fn is_session_token(token: Seq<char>) -> bool {
    &&& token.len() == TOKEN_LENGTH
    &&& forall|i: int| 0 <= i < token.len() ==> is_alphanumeric(#[trigger] token[i])
}

/// A new random session token.
pub fn new_session_token() -> (token: String)
    ensures
        is_session_token(token@),
{
    let mut token = String::new();
    let mut i: usize = 0;
    while i < TOKEN_LENGTH
        invariant
            i <= TOKEN_LENGTH,
            token@.len() == i,
            forall|j: int| 0 <= j < token@.len() ==> is_alphanumeric(#[trigger] token@[j]),
        decreases TOKEN_LENGTH - i,
    {
        let c = random_alphanumeric();
        token.push(c);
        i = i + 1;
    }
    token
}

/// The value of the cookie that carries `token`.
pub open spec fn cookie_for(token: Seq<char>) -> Seq<char> {
    "sessionId="@ + token + "; Max-Age="@ + decimal(SESSION_MAX_AGE as nat)
        + "; HttpOnly"@
}

/// The value of the `Set-Cookie` header that hands `token` to the client: the
/// cookie `sessionId`, which lives `SESSION_MAX_AGE` seconds and is kept from
/// scripts.
pub fn session_cookie(token: &str) -> (cookie: String)
    ensures
        cookie@ == cookie_for(token@),
{
    let mut cookie = "sessionId=".to_string();
    cookie.append(token);
    cookie.append("; Max-Age=");
    push_decimal(&mut cookie, SESSION_MAX_AGE);
    cookie.append("; HttpOnly");
    cookie
}

/// What follows the last `'='` of `s`; all of `s` where it holds none.
pub open spec fn after_last_equals(s: Seq<char>) -> Seq<char>
    decreases s.len(),
{
    if s.len() == 0 {
        s
    } else if s.last() == '=' {
        Seq::empty()
    } else {
        after_last_equals(s.drop_last()).push(s.last())
    }
}

/// The first `n` elements of `s`, or all of `s` where it has fewer.
pub open spec fn head(s: Seq<char>, n: nat) -> Seq<char> {
    if s.len() <= n {
        s
    } else {
        s.take(n as int)
    }
}

/// The text that a cookie gives for its expiry, ready to be parsed: the first
/// `EXPIRY_LENGTH` characters of what follows its last `'='`, with the zone
/// UTC added. `None` where fewer characters follow.
pub open spec fn expiry_text_of(cookie: Seq<char>) -> Option<Seq<char>> {
    let value = after_last_equals(cookie);
    if value.len() >= EXPIRY_LENGTH {
        Some(value.take(EXPIRY_LENGTH as int) + UTC_SUFFIX@)
    } else {
        None
    }
}

/// Cuts the expiry out of a cookie; see `expiry_text_of`.
pub fn expiry_text(cookie: &str) -> (r: Option<String>)
    ensures
        text_of(r) == expiry_text_of(cookie@),
{
    let mut value = String::new();
    let mut kept: usize = 0;
    for c in it: cookie.chars()
        invariant
            it.seq() == cookie@,
            kept <= EXPIRY_LENGTH,
            kept == value@.len(),
            value@ == head(
                after_last_equals(cookie@.take(it.index() as int)),
                EXPIRY_LENGTH as nat,
            ),
            kept < EXPIRY_LENGTH ==> value@ == after_last_equals(
                cookie@.take(it.index() as int),
            ),
            kept == EXPIRY_LENGTH ==> after_last_equals(cookie@.take(it.index() as int)).len()
                >= EXPIRY_LENGTH,
    {
        let ghost i = it.index() as int;
        assert(cookie@.take(i + 1).drop_last() =~= cookie@.take(i));
        if c == '=' {
            value = String::new();
            kept = 0;
        } else if kept < EXPIRY_LENGTH {
            value.push(c);
            kept = kept + 1;
        }
    }
    assert(cookie@.take(cookie@.len() as int) =~= cookie@);
    if kept == EXPIRY_LENGTH {
        value.append(UTC_SUFFIX);
        Some(value)
    } else {
        None
    }
}

/// The two states of a session.
#[derive(Clone, Copy, Debug, PartialEq, Eq, Structural)]
pub enum SessionState {
    /// The request carried a cookie whose expiry has not passed.
    Active,
    /// The request carried no cookie, or one that cannot be read, or one
    /// whose expiry has passed.
    Expired,
}

/// The state of a session whose cookie states `expiry`, judged at `now`: it
/// has expired when it states no expiry or when `now` is later than the
/// expiry.
pub open spec fn judged(expiry: Option<(i64, u32)>, now: Timestamp) -> SessionState {
    match expiry {
        Some(at) => {
            let expiry = Timestamp { secs: at.0, nanos: at.1 };
            if now.nanos_since_epoch() > expiry.nanos_since_epoch() {
                SessionState::Expired
            } else {
                SessionState::Active
            }
        },
        None => SessionState::Expired,
    }
}

/// Judges a session by the expiry that was read from its cookie.
pub fn judge(expiry: Option<(i64, u32)>, now: Timestamp) -> (r: SessionState)
    ensures
        r == judged(expiry, now),
{
    match expiry {
        Some(at) => {
            let expiry = Timestamp { secs: at.0, nanos: at.1 };
            if now.later_than(&expiry) {
                SessionState::Expired
            } else {
                SessionState::Active
            }
        },
        None => SessionState::Expired,
    }
}

/// The expiry that a cookie states, where it states one that can be read.
pub open spec fn expiry_of(cookie: Seq<char>) -> Option<(i64, u32)> {
    match expiry_text_of(cookie) {
        Some(text) => datetime_of(text, EXPIRY_FORMAT@),
        None => None,
    }
}

/// The state of the session of a request whose `Cookie` header, if it has
/// one, is `cookie`, at the time `now`.
pub open spec fn session_of(cookie: Option<Seq<char>>, now: Timestamp) -> SessionState {
    match cookie {
        Some(value) => judged(expiry_of(value), now),
        None => SessionState::Expired,
    }
}

/// Reads the expiry that a cookie states. A cookie that states none, or one
/// that is not a date and time in the expected format, gives `None`.
pub fn read_expiry(cookie: &str) -> (r: Option<(i64, u32)>)
    ensures
        r == expiry_of(cookie@),
{
    match expiry_text(cookie) {
        Some(text) => match parse_datetime(text.as_str(), EXPIRY_FORMAT) {
            Ok(at) => Some(at),
            Err(_) => None,
        },
        None => None,
    }
}

/// Decides the state of the session of a request at the time `now`. A missing
/// or malformed cookie never fails the request: the session counts as
/// expired.
pub fn session_state(cookie: &Option<String>, now: Timestamp) -> (r: SessionState)
    ensures
        r == session_of(text_of(*cookie), now),
{
    match cookie {
        Some(value) => judge(read_expiry(value.as_str()), now),
        None => SessionState::Expired,
    }
}

/// Decides the state of the session of a request at the present time, as the
/// system clock shows it.
pub fn session_state_now(cookie: &Option<String>) -> (r: SessionState)
    ensures
        exists|now: Timestamp| r == session_of(text_of(*cookie), now),
{
    let now = clock_now();
    session_state(cookie, now)
}

} // verus!
