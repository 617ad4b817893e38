//! The two sources of values that no computation determines: the clock and the
//! random generator of identifiers.
use vstd::prelude::*;

verus! {

/// An upper bound on every millisecond timestamp that `chrono` can represent
/// (its last representable instant falls in the year 262142).
pub open spec fn max_unix_ms() -> int {
    10_000_000_000_000_000
}

/// Reads the wall clock: `chrono::Utc::now().timestamp_millis()`.
///
/// Nothing ties the value to anything else; what is stated holds of every outcome:
/// `Utc::now` panics on a clock set before 1970 and on an instant past chrono's range,
/// so a value that comes back lies between the two.
#[verifier::external_body]
pub(crate) fn now_unix_ms() -> (t: i64)
    ensures
        0 <= t < max_unix_ms(),
{
    chrono::Utc::now().timestamp_millis()
}

/// An upper bound on every whole-second timestamp that `chrono` can represent.
pub open spec fn max_unix_secs() -> int {
    10_000_000_000_000
}

/// An upper bound on every nanosecond timestamp that `chrono` can represent.
pub open spec fn max_unix_ns() -> int {
    max_unix_secs() * 1_000_000_000
}

/// Reads the wall clock: `chrono::Utc::now()`, as its whole seconds since the epoch
/// (`timestamp`) and the nanoseconds past them (`timestamp_subsec_nanos`).
///
/// Nothing ties the value to anything else; what is stated holds of every outcome:
/// `Utc::now` panics on a clock set before 1970 and builds the instant from a
/// `Duration` since the epoch, whose sub-second part is below one second.
#[verifier::external_body]
fn now_parts() -> (r: (i64, u32))
    ensures
        0 <= r.0 < max_unix_secs(),
        r.1 < 1_000_000_000,
{
    let t = chrono::Utc::now();
    (t.timestamp(), t.timestamp_subsec_nanos())
}

/// The wall clock in nanoseconds since the epoch.
pub fn now_unix_ns() -> (t: i128)
    ensures
        0 <= t < max_unix_ns(),
{
    let (secs, nanos) = now_parts();
    assert(secs * 1_000_000_000 + nanos < max_unix_ns()) by (nonlinear_arith)
        requires
            0 <= secs < max_unix_secs(),
            nanos < 1_000_000_000,
    ;
    (secs as i128) * 1_000_000_000 + (nanos as i128)
}

/// Whether `c` is a digit of lower-case hexadecimal.
pub open spec fn is_lower_hex(c: char) -> bool {
    ('0' <= c && c <= '9') || ('a' <= c && c <= 'f')
}

/// The shape of a hyphenated lower-case UUID: 36 characters, hyphens at
/// positions 8, 13, 18 and 23, lower-case hex digits everywhere else.
pub open spec fn is_uuid_text(s: Seq<char>) -> bool {
    &&& s.len() == 36
    &&& forall|i: int|
        0 <= i < 36 ==> if i == 8 || i == 13 || i == 18 || i == 23 {
            s[i] == '-'
        } else {
            is_lower_hex(#[trigger] s[i])
        }
}

/// The shape of a random (version 4, RFC 4122 variant) UUID written hyphenated: the
/// version digit `4` at position 14 and a variant digit among `8`, `9`, `a`, `b` at
/// position 19.
pub open spec fn is_v4_uuid_text(s: Seq<char>) -> bool {
    &&& is_uuid_text(s)
    &&& s[14] == '4'
    &&& (s[19] == '8' || s[19] == '9' || s[19] == 'a' || s[19] == 'b')
}

/// A fresh random identifier: `uuid::Uuid::new_v4().to_string()`.
///
/// The value is random; what is stated holds of every outcome: `new_v4` sets the version
/// nibble to 4 and the variant bits to `10`, and `Uuid`'s `Display` writes the hyphenated
/// lower-case form.
#[verifier::external_body]
pub(crate) fn new_uuid() -> (s: String)
    ensures
        is_v4_uuid_text(s@),
{
    uuid::Uuid::new_v4().to_string()
}

} // verus!
