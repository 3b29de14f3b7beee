//! Transcription entries: validation, identity and word counting.

use vstd::prelude::*;

use crate::constants::{MAX_HISTORY_ITEMS, MAX_RECORDING_DURATION_MS, MAX_TRANSCRIPTION_LENGTH, MIN_RECORDING_DURATION_MS};
use crate::error::AppError;
use crate::settings::Settings;
use crate::text::{count_words, decimal_seq, decimal_string, signed_decimal_seq, signed_decimal_string, word_count};

verus! {

/// A completed transcription entry.
#[derive(Clone, Debug, PartialEq, Eq)]
pub struct Transcription {
    /// Unique identifier: a UUID in lower-case hyphenated form.
    pub id: String,
    /// Transcribed text content.
    pub text: String,
    /// Recording duration in milliseconds.
    pub duration_ms: i64,
    /// Creation time as an RFC 3339 timestamp in UTC.
    pub created_at: String,
}

/// The message of a rejected transcription.
pub open spec fn transcription_error_text(text: Seq<char>, duration_ms: i64) -> Seq<char> {
    if text.len() > MAX_TRANSCRIPTION_LENGTH {
        "Transcription text exceeds "@ + decimal_seq(MAX_TRANSCRIPTION_LENGTH as nat)
            + " characters"@
    } else if duration_ms < MIN_RECORDING_DURATION_MS {
        "Recording duration "@ + signed_decimal_seq(duration_ms as int) + "ms below minimum "@
            + signed_decimal_seq(MIN_RECORDING_DURATION_MS as int) + "ms"@
    } else {
        "Recording duration "@ + signed_decimal_seq(duration_ms as int) + "ms exceeds maximum "@
            + signed_decimal_seq(MAX_RECORDING_DURATION_MS as int) + "ms"@
    }
}

/// Whether a transcription of `text` lasting `duration_ms` is accepted.
pub open spec fn transcription_valid(text: Seq<char>, duration_ms: i64) -> bool {
    &&& text.len() <= MAX_TRANSCRIPTION_LENGTH
    &&& MIN_RECORDING_DURATION_MS <= duration_ms <= MAX_RECORDING_DURATION_MS
}

/// A transcription is accepted exactly when its text has at most 10000
/// characters and the recording lasted from 150 ms to 60 s, both inclusive.
pub proof fn lemma_transcription_limits(text: Seq<char>, duration_ms: i64)
    ensures
        transcription_valid(text, duration_ms) <==> (text.len() <= 10000 && 150 <= duration_ms
            <= 60000),
{
}

/// Checks a transcription's text length and duration.
pub fn validate_transcription(text: &str, duration_ms: i64) -> (r: Result<(), AppError>)
    ensures
        r is Ok <==> transcription_valid(text@, duration_ms),
        r matches Err(e) ==> e matches AppError::SettingsInvalid(m) && m@
            == transcription_error_text(text@, duration_ms),
{
    if text.unicode_len() > MAX_TRANSCRIPTION_LENGTH {
        let mut m = String::from_str("Transcription text exceeds ");
        m.append(decimal_string(MAX_TRANSCRIPTION_LENGTH as u64).as_str());
        m.append(" characters");
        return Err(AppError::SettingsInvalid(m));
    }
    if duration_ms < MIN_RECORDING_DURATION_MS {
        let mut m = String::from_str("Recording duration ");
        let d = signed_decimal_string(duration_ms);
        let limit = signed_decimal_string(MIN_RECORDING_DURATION_MS);
        m.append(d.as_str());
        m.append("ms below minimum ");
        m.append(limit.as_str());
        m.append("ms");
        assert(m@ =~= "Recording duration "@ + signed_decimal_seq(duration_ms as int)
            + "ms below minimum "@ + signed_decimal_seq(MIN_RECORDING_DURATION_MS as int) + "ms"@);
        return Err(AppError::SettingsInvalid(m));
    }
    if duration_ms > MAX_RECORDING_DURATION_MS {
        let mut m = String::from_str("Recording duration ");
        let d = signed_decimal_string(duration_ms);
        let limit = signed_decimal_string(MAX_RECORDING_DURATION_MS);
        m.append(d.as_str());
        m.append("ms exceeds maximum ");
        m.append(limit.as_str());
        m.append("ms");
        assert(m@ =~= "Recording duration "@ + signed_decimal_seq(duration_ms as int)
            + "ms exceeds maximum "@ + signed_decimal_seq(MAX_RECORDING_DURATION_MS as int) + "ms"@);
        return Err(AppError::SettingsInvalid(m));
    }
    Ok(())
}

/// A UUID in its lower-case hyphenated text form: 36 characters, hyphens at
/// positions 8, 13, 18 and 23, lower-case hexadecimal digits elsewhere.
pub open spec fn is_uuid_text(s: Seq<char>) -> bool {
    &&& s.len() == 36
    &&& forall|i: int|
        0 <= i < 36 ==> if i == 8 || i == 13 || i == 18 || i == 23 {
            #[trigger] s[i] == '-'
        } else {
            ('0' <= s[i] <= '9') || ('a' <= s[i] <= 'f')
        }
}

/// A random (version 4) UUID in hyphenated text form: the version digit is '4'.
pub open spec fn is_uuid_v4_text(s: Seq<char>) -> bool {
    is_uuid_text(s) && s[14] == '4'
}

/// The lower-case hexadecimal digit of `d` (below 16).
pub open spec fn hex_digit(d: u8) -> char {
    if d < 10 {
        (d + 48) as char
    } else {
        (d + 87) as char
    }
}

/// The two hexadecimal digits of a byte, high digit first.
pub open spec fn byte_hex(b: u8) -> Seq<char> {
    seq![hex_digit(b / 16), hex_digit(b % 16)]
}

/// The hexadecimal digits of a run of bytes.
pub open spec fn bytes_hex(bytes: Seq<u8>) -> Seq<char>
    decreases bytes.len(),
{
    if bytes.len() == 0 {
        Seq::empty()
    } else {
        bytes_hex(bytes.drop_last()) + byte_hex(bytes.last())
    }
}

/// Random bytes with the version-4 bits set in byte 6 and the RFC 4122
/// variant bits set in byte 8.
pub open spec fn v4_bytes(bytes: Seq<u8>) -> Seq<u8> {
    bytes.update(6, (bytes[6] & 0x0f) | 0x40).update(8, (bytes[8] & 0x3f) | 0x80)
}

/// The text of the version-4 UUID made from the 16 random bytes `bytes`: the
/// bytes, with the version and variant bits set, in lower-case hexadecimal,
/// grouped 4-2-2-2-6 and joined by hyphens.
pub open spec fn uuid_v4_text_of(bytes: Seq<u8>) -> Seq<char> {
    let v = v4_bytes(bytes);
    bytes_hex(v.subrange(0, 4)) + "-"@ + bytes_hex(v.subrange(4, 6)) + "-"@ + bytes_hex(
        v.subrange(6, 8),
    ) + "-"@ + bytes_hex(v.subrange(8, 10)) + "-"@ + bytes_hex(v.subrange(10, 16))
}

/// `uuid::Builder::from_random_bytes(bytes).into_uuid()` rendered with
/// `to_string()`: `with_version` and `with_variant` set the bits of bytes 6
/// and 8, and `Display` writes the bytes in lower-case hyphenated hexadecimal,
/// which `parse_hyphenated` reads back to the same UUID. It cannot fail.
#[verifier::external_body]
fn uuid_v4_text(bytes: [u8; 16]) -> (id: String)
    ensures
        id@ == uuid_v4_text_of(bytes@),
        is_uuid_v4_text(id@),
        uuid_canonical_text(id@) == Some(id@),
{
    uuid::Builder::from_random_bytes(bytes).into_uuid().to_string()
}

/// Nanoseconds in a second.
pub const NANOS_PER_SEC: u32 = 1_000_000_000;

/// Earliest second that RFC 3339 text can hold: 0000-01-01T00:00:00Z.
pub const EARLIEST_RFC3339_SECOND: i64 = -62_167_219_200;

/// Latest second that RFC 3339 text can hold: 9999-12-31T23:59:59Z.
pub const LATEST_RFC3339_SECOND: i64 = 253_402_300_799;

/// Whether a second since the Unix epoch falls in a year from 0 to 9999,
/// the years that RFC 3339 text writes with four digits.
pub open spec fn in_rfc3339_range(secs: int) -> bool {
    EARLIEST_RFC3339_SECOND <= secs <= LATEST_RFC3339_SECOND
}

/// `std::time::SystemTime::now()` measured against `UNIX_EPOCH`: whether the
/// clock is before the epoch, and the distance as whole seconds and
/// nanoseconds (`Duration::subsec_nanos` is below one second). The time is
/// read from the system clock, so only that bound is stated.
#[verifier::external_body]
fn system_clock() -> (r: (bool, u64, u32))
    ensures
        r.2 < NANOS_PER_SEC,
{
    match std::time::SystemTime::now().duration_since(std::time::UNIX_EPOCH) {
        Ok(d) => (false, d.as_secs(), d.subsec_nanos()),
        Err(e) => (true, e.duration().as_secs(), e.duration().subsec_nanos()),
    }
}

/// The RFC 3339 text in UTC of the instant `secs` seconds and `nanos`
/// nanoseconds after the Unix epoch, when chrono can represent it.
pub uninterp spec fn utc_rfc3339_of(secs: i64, nanos: u32) -> Option<Seq<char>>;

/// `chrono::DateTime::from_timestamp` rendered with `to_rfc3339()`. The result
/// is a function of the arguments. In the years 0 to 9999 the instant exists,
/// and `write_rfc3339` writes a four-digit year, the time, the fraction
/// (`SecondsFormat::AutoSi`) and "+00:00", which `parse_from_rfc3339` reads
/// back to the same instant, so converting to UTC and rendering again gives
/// the same text.
#[verifier::external_body]
fn rfc3339_from_timestamp(secs: i64, nanos: u32) -> (r: Option<String>)
    ensures
        r matches Some(t) ==> utc_rfc3339_of(secs, nanos) == Some(t@),
        r is None ==> utc_rfc3339_of(secs, nanos) is None,
        r is None ==> !(in_rfc3339_range(secs as int) && nanos < NANOS_PER_SEC),
        r matches Some(t) ==> (in_rfc3339_range(secs as int) && nanos < NANOS_PER_SEC
            ==> utc_timestamp_text(t@) == Some(t@)),
{
    chrono::DateTime::from_timestamp(secs, nanos).map(|d| d.to_rfc3339())
}

/// The instant of a clock reading, in nanoseconds after the Unix epoch
/// (negative before it).
pub open spec fn reading_nanos(before_epoch: bool, secs: u64, nanos: u32) -> int {
    if before_epoch {
        -(secs * NANOS_PER_SEC + nanos)
    } else {
        secs * NANOS_PER_SEC + nanos
    }
}

/// The whole second (rounded down) of a clock reading, since the Unix epoch.
pub open spec fn reading_second(before_epoch: bool, secs: u64, nanos: u32) -> int {
    reading_nanos(before_epoch, secs, nanos) / (NANOS_PER_SEC as int)
}

/// The nanoseconds of a clock reading past its whole second.
pub open spec fn reading_subsec(before_epoch: bool, secs: u64, nanos: u32) -> int {
    reading_nanos(before_epoch, secs, nanos) % (NANOS_PER_SEC as int)
}

/// Splits a clock reading into its whole second since the epoch and the
/// nanoseconds past it; none when the distance does not fit an `i64`.
pub fn split_clock_reading(before_epoch: bool, secs: u64, nanos: u32) -> (r: Option<(i64, u32)>)
    requires
        nanos < NANOS_PER_SEC,
    ensures
        r is None <==> secs > i64::MAX,
        r matches Some((s, n)) ==> s == reading_second(before_epoch, secs, nanos) && n
            == reading_subsec(before_epoch, secs, nanos),
{
    if secs > i64::MAX as u64 {
        return None;
    }
    let ghost x = reading_nanos(before_epoch, secs, nanos);
    let r = if !before_epoch {
        (secs as i64, nanos)
    } else if nanos == 0 {
        (0 - secs as i64, 0)
    } else {
        (0 - secs as i64 - 1, NANOS_PER_SEC - nanos)
    };
    proof {
        assert(r.0 * (NANOS_PER_SEC as int) + r.1 == x);
        vstd::arithmetic::div_mod::lemma_fundamental_div_mod_converse(
            x,
            NANOS_PER_SEC as int,
            r.0 as int,
            r.1 as int,
        );
    }
    Some(r)
}

/// The RFC 3339 text of a clock reading, when chrono can represent it.
pub open spec fn clock_text_spec(before_epoch: bool, secs: u64, nanos: u32) -> Option<Seq<char>> {
    if secs > i64::MAX {
        None
    } else {
        utc_rfc3339_of(
            reading_second(before_epoch, secs, nanos) as i64,
            reading_subsec(before_epoch, secs, nanos) as u32,
        )
    }
}

/// The RFC 3339 text in UTC of a clock reading. In the years 0 to 9999 there
/// is one, and it reads back to itself.
pub fn timestamp_text_at(before_epoch: bool, secs: u64, nanos: u32) -> (r: Option<String>)
    requires
        nanos < NANOS_PER_SEC,
    ensures
        match r {
            Some(t) => Some(t@),
            None => None,
        } == clock_text_spec(before_epoch, secs, nanos),
        in_rfc3339_range(reading_second(before_epoch, secs, nanos)) ==> r is Some,
        r matches Some(t) ==> (in_rfc3339_range(reading_second(before_epoch, secs, nanos))
            ==> utc_timestamp_text(t@) == Some(t@)),
{
    match split_clock_reading(before_epoch, secs, nanos) {
        None => None,
        Some((s, n)) => rfc3339_from_timestamp(s, n),
    }
}

/// The current time as RFC 3339 text in UTC; none when chrono cannot
/// represent it.
fn current_timestamp() -> (r: Option<String>)
    ensures
        r matches Some(t) ==> exists|b: bool, s: u64, n: u32|
            n < NANOS_PER_SEC && #[trigger] clock_text_spec(b, s, n) == Some(t@) && (in_rfc3339_range(
                reading_second(b, s, n),
            ) ==> utc_timestamp_text(t@) == Some(t@)),
{
    let (before_epoch, secs, nanos) = system_clock();
    let r = timestamp_text_at(before_epoch, secs, nanos);
    assert(r matches Some(t) ==> clock_text_spec(before_epoch, secs, nanos) == Some(t@));
    r
}

/// The error reported when the system clock cannot be written as a timestamp.
pub open spec fn clock_error_text() -> Seq<char> {
    "System clock is outside the supported range"@
}

/// A transcription built from its parts, given the creation time read from the
/// clock: refused with the validation message when the text or duration is
/// invalid, refused with the clock message when there is no timestamp.
pub open spec fn transcription_from_clock_spec(
    text: Seq<char>,
    duration_ms: i64,
    random_bytes: Seq<u8>,
    created_at: Option<Seq<char>>,
    r: Result<Transcription, AppError>,
) -> bool {
    if !transcription_valid(text, duration_ms) {
        r matches Err(AppError::SettingsInvalid(m)) && m@ == transcription_error_text(text, duration_ms)
    } else {
        match created_at {
            None => r matches Err(AppError::Io(m)) && m@ == clock_error_text(),
            Some(c) => r matches Ok(t) && t.id@ == uuid_v4_text_of(random_bytes) && t.text@ == text
                && t.duration_ms == duration_ms && t.created_at@ == c,
        }
    }
}

impl Transcription {
    /// Creates a transcription with the identifier made from `random_bytes` and
    /// the given creation time, after checking the text length and the
    /// recording duration.
    pub fn from_clock(
        text: String,
        duration_ms: i64,
        random_bytes: [u8; 16],
        created_at: Option<String>,
    ) -> (r: Result<Transcription, AppError>)
        ensures
            transcription_from_clock_spec(
                text@,
                duration_ms,
                random_bytes@,
                match created_at {
                    Some(c) => Some(c@),
                    None => None,
                },
                r,
            ),
            r matches Ok(t) ==> is_uuid_v4_text(t.id@) && uuid_canonical_text(t.id@) == Some(t.id@),
    {
        match validate_transcription(text.as_str(), duration_ms) {
            Err(e) => Err(e),
            Ok(()) => match created_at {
                None => Err(
                    AppError::Io(String::from_str("System clock is outside the supported range")),
                ),
                Some(created_at) => Ok(
                    Transcription { id: uuid_v4_text(random_bytes), text, duration_ms, created_at },
                ),
            },
        }
    }

    /// Creates a new transcription with the identifier made from the fresh
    /// `random_bytes` and the current time, after checking the text length and
    /// the recording duration. A transcription made this way reads back from its
    /// stored row unchanged while the clock is in the years 0 to 9999.
    pub fn new(text: String, duration_ms: i64, random_bytes: [u8; 16]) -> (r: Result<
        Transcription,
        AppError,
    >)
        ensures
            r is Ok ==> transcription_valid(text@, duration_ms),
            !transcription_valid(text@, duration_ms) ==> (r matches Err(AppError::SettingsInvalid(m))
                && m@ == transcription_error_text(text@, duration_ms)),
            transcription_valid(text@, duration_ms) ==> (r is Ok || (r matches Err(AppError::Io(m))
                && m@ == clock_error_text())),
            r matches Ok(t) ==> t.text@ == text@ && t.duration_ms == duration_ms && t.id@
                == uuid_v4_text_of(random_bytes@) && is_uuid_v4_text(t.id@) && uuid_canonical_text(
                t.id@,
            ) == Some(t.id@),
            r matches Ok(t) ==> exists|b: bool, s: u64, n: u32|
                n < NANOS_PER_SEC && #[trigger] clock_text_spec(b, s, n) == Some(t.created_at@)
                    && (in_rfc3339_range(reading_second(b, s, n)) ==> utc_timestamp_text(
                    t.created_at@,
                ) == Some(t.created_at@)),
    {
        match validate_transcription(text.as_str(), duration_ms) {
            Err(e) => Err(e),
            Ok(()) => {
                let created_at = current_timestamp();
                Transcription::from_clock(text, duration_ms, random_bytes, created_at)
            },
        }
    }
}

/// The canonical text form (lower-case hyphenated) of the UUID that `s`
/// denotes, when `s` parses as a UUID.
pub uninterp spec fn uuid_canonical_text(s: Seq<char>) -> Option<Seq<char>>;

/// `uuid::Uuid::parse_str` followed by `to_string()`: parses a UUID in any of
/// the crate's text formats (simple, hyphenated, urn, braced) and renders it
/// in lower-case hyphenated form. The result is a function of the input; the
/// hyphenated form is what `Display` writes, so text already in that form
/// (36 characters, hyphens at 8, 13, 18, 23, hexadecimal digits elsewhere,
/// which `parse_hyphenated` accepts) comes back unchanged.
#[verifier::external_body]
fn parse_uuid_text(s: &str) -> (r: Option<String>)
    ensures
        r matches Some(t) ==> uuid_canonical_text(s@) == Some(t@) && is_uuid_text(t@),
        r is None ==> uuid_canonical_text(s@) is None,
        r is None ==> !is_uuid_text(s@),
        r matches Some(t) ==> (is_uuid_text(s@) ==> t@ == s@),
{
    uuid::Uuid::parse_str(s).ok().map(|u| u.to_string())
}

/// The RFC 3339 text, in UTC, of the instant that the RFC 3339 timestamp `s`
/// denotes, when `s` parses as one.
pub uninterp spec fn utc_timestamp_text(s: Seq<char>) -> Option<Seq<char>>;

/// `chrono::DateTime::parse_from_rfc3339`, converted with `with_timezone(&Utc)`
/// and rendered with `to_rfc3339()`. The result is a function of the input.
#[verifier::external_body]
fn parse_utc_timestamp(s: &str) -> (r: Option<String>)
    ensures
        r matches Some(t) ==> utc_timestamp_text(s@) == Some(t@),
        r is None ==> utc_timestamp_text(s@) is None,
{
    chrono::DateTime::parse_from_rfc3339(s).ok().map(|d| d.with_timezone(&chrono::Utc).to_rfc3339())
}

/// The transcription that a stored history row describes, if its identifier
/// and timestamp both parse.
pub open spec fn transcription_from_row_spec(
    id: Seq<char>,
    text: Seq<char>,
    duration_ms: i64,
    created_at: Seq<char>,
    t: Option<Transcription>,
) -> bool {
    match (uuid_canonical_text(id), utc_timestamp_text(created_at)) {
        (Some(i), Some(c)) => t matches Some(tr) && tr.id@ == i && tr.text@ == text
            && tr.duration_ms == duration_ms && tr.created_at@ == c,
        _ => t is None,
    }
}

/// Rebuilds a transcription from a stored history row; rows whose identifier
/// or timestamp do not parse are skipped. An identifier stored in the form
/// that `Transcription::new` gives is read back unchanged, with the text and
/// the duration.
pub fn transcription_from_row(id: &str, text: String, duration_ms: i64, created_at: &str) -> (t:
    Option<Transcription>)
    ensures
        transcription_from_row_spec(id@, text@, duration_ms, created_at@, t),
        is_uuid_text(id@) ==> (t is Some <==> utc_timestamp_text(created_at@) is Some),
        is_uuid_text(id@) ==> (t matches Some(tr) ==> tr.id@ == id@ && tr.text@ == text@
            && tr.duration_ms == duration_ms),
{
    let parsed_id = parse_uuid_text(id);
    let parsed_time = parse_utc_timestamp(created_at);
    transcription_from_parts(parsed_id, text, duration_ms, parsed_time)
}

/// A transcription made by `Transcription::new` and stored as a row reads back
/// unchanged: same identifier, text, duration and creation time.
pub proof fn lemma_new_transcription_reads_back(t: Transcription, r: Option<Transcription>)
    requires
        uuid_canonical_text(t.id@) == Some(t.id@),
        utc_timestamp_text(t.created_at@) == Some(t.created_at@),
        transcription_from_row_spec(t.id@, t.text@, t.duration_ms, t.created_at@, r),
    ensures
        r matches Some(tr) && tr.id@ == t.id@ && tr.text@ == t.text@ && tr.duration_ms
            == t.duration_ms && tr.created_at@ == t.created_at@,
{
}

/// Assembles a transcription from an already parsed identifier and timestamp;
/// there is none when either failed to parse.
pub fn transcription_from_parts(
    id: Option<String>,
    text: String,
    duration_ms: i64,
    created_at: Option<String>,
) -> (t: Option<Transcription>)
    ensures
        match (id, created_at) {
            (Some(i), Some(c)) => t == Some(Transcription { id: i, text, duration_ms, created_at: c }),
            _ => t is None,
        },
{
    match (id, created_at) {
        (Some(i), Some(c)) => Some(Transcription { id: i, text, duration_ms, created_at: c }),
        _ => None,
    }
}

/// How many history items to fetch: the requested number, or the retention
/// limit when none is given.
pub fn history_limit(limit: Option<u32>) -> (n: u32)
    ensures
        n == match limit {
            Some(l) => l,
            None => MAX_HISTORY_ITEMS,
        },
{
    match limit {
        Some(l) => l,
        None => MAX_HISTORY_ITEMS,
    }
}

/// Adds the words of `text` to the running word total; returns whether the
/// total changed (and so needs saving).
pub fn record_word_count(settings: &mut Settings, text: &str) -> (changed: bool)
    requires
        old(settings).total_words + word_count(text@) <= u64::MAX,
    ensures
        final(settings).total_words == old(settings).total_words + word_count(text@),
        changed == (word_count(text@) > 0),
        *final(settings) == (Settings { total_words: final(settings).total_words, ..*old(settings) }),
{
    let n = count_words(text);
    if n > 0 {
        settings.total_words = settings.total_words + n as u64;
        true
    } else {
        false
    }
}

} // verus!
