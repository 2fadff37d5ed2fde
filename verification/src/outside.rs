//! Calls into the crates that the library leans on, each with the contract it is trusted to keep.

use vstd::prelude::*;

verus! {

/// The lower-case hexadecimal digit of a number below sixteen.
pub open spec fn hex_char(d: nat) -> char {
    if d < 10 {
        (d + 48) as u8 as char
    } else {
        (d + 87) as u8 as char
    }
}

/// The power of sixteen with the given exponent.
pub open spec fn pow16(n: nat) -> nat
    decreases n,
{
    if n == 0 {
        1
    } else {
        16 * pow16((n - 1) as nat)
    }
}

/// The hyphenated form of a 128-bit identifier: groups of 8, 4, 4, 4 and 12 lower-case
/// hexadecimal digits, most significant first.
pub open spec fn hyphenated(value: u128) -> Seq<char> {
    Seq::new(
        36,
        |i: int|
            if i == 8 || i == 13 || i == 18 || i == 23 {
                '-'
            } else {
                let before = if i < 8 {
                    0int
                } else if i < 13 {
                    1
                } else if i < 18 {
                    2
                } else if i < 23 {
                    3
                } else {
                    4
                };
                hex_char(((value as nat) / pow16((31 - (i - before)) as nat)) % 16)
            },
    )
}

/// What `uuid::Uuid::parse_str` reads in a text.
pub uninterp spec fn uuid_value(text: Seq<char>) -> Option<u128>;

/// What `uuid::Uuid::new_v5` derives from a namespace and a name.
pub uninterp spec fn uuid_v5_value(namespace: u128, name: Seq<u8>) -> u128;

/// What `chrono::DateTime::parse_from_rfc3339` reads in a text: the instant in whole seconds and
/// in whole milliseconds since 1970, or the message of its error.
pub uninterp spec fn rfc3339_instant(text: Seq<char>) -> Result<(i64, i64), Seq<char>>;

/// Whether `serde_json::from_slice` finds that the bytes end in the middle of a JSON value.
pub uninterp spec fn json_truncated(bytes: Seq<u8>) -> bool;

/// The text that `serde_json::Value::pointer` finds in what `serde_json::from_str` reads, where it
/// finds a text, or the message of the parse error.
pub uninterp spec fn json_text(line: Seq<char>, pointer: Seq<char>) -> Result<
    Option<Seq<char>>,
    Seq<char>,
>;

/// The value that `serde_json::from_str` reads in a text, as a number that stands for it and for
/// every value that is `==` to it, or the message of the parse error.
pub uninterp spec fn json_value(text: Seq<char>) -> Result<int, Seq<char>>;

/// Whether two texts hold the same JSON value. Where one of them holds none: whether it is the
/// first, and the message of the parse error.
pub open spec fn json_same(a: Seq<char>, b: Seq<char>) -> Result<bool, (bool, Seq<char>)> {
    match (json_value(a), json_value(b)) {
        (Err(message), _) => Err((true, message)),
        (Ok(_), Err(message)) => Err((false, message)),
        (Ok(left), Ok(right)) => Ok(left == right),
    }
}

/// The text of an optional string.
pub open spec fn opt_text(text: Option<String>) -> Option<Seq<char>> {
    match text {
        Some(s) => Some(s@),
        None => None,
    }
}

/// `uuid::Uuid::from_u128`, printed with the `Display` of `uuid::Uuid`. Trusted to give the
/// hyphenated lower-case form of the value.
#[verifier::external_body]
pub(crate) fn uuid_text(value: u128) -> (r: String)
    ensures
        r@ == hyphenated(value),
{
    uuid::Uuid::from_u128(value).to_string()
}

/// `uuid::Uuid::parse_str`. Trusted to depend on the text alone, and to read the hyphenated form
/// of a value as that value.
#[verifier::external_body]
pub(crate) fn parse_uuid(text: &str) -> (r: Option<u128>)
    ensures
        r == uuid_value(text@),
        forall|value: u128| text@ == #[trigger] hyphenated(value) ==> r == Some(value),
{
    uuid::Uuid::parse_str(text).ok().map(|parsed| parsed.as_u128())
}

/// `uuid::Uuid::new_v5`. Trusted to depend on the namespace and the bytes of the name alone.
#[verifier::external_body]
pub(crate) fn uuid_v5(namespace: u128, name: &[u8]) -> (r: u128)
    ensures
        r == uuid_v5_value(namespace, name@),
{
    uuid::Uuid::new_v5(&uuid::Uuid::from_u128(namespace), name).as_u128()
}

/// `chrono::DateTime::parse_from_rfc3339`, read out with `timestamp` and `timestamp_millis`.
/// Trusted to depend on the text alone.
#[verifier::external_body]
pub(crate) fn parse_rfc3339(text: &str) -> (r: Result<(i64, i64), String>)
    ensures
        match r {
            Ok(instant) => rfc3339_instant(text@) == Ok::<(i64, i64), Seq<char>>(instant),
            Err(message) => rfc3339_instant(text@) == Err::<(i64, i64), Seq<char>>(message@),
        },
{
    match chrono::DateTime::parse_from_rfc3339(text) {
        Ok(instant) => Ok((instant.timestamp(), instant.timestamp_millis())),
        Err(error) => Err(error.to_string()),
    }
}

/// `serde_json::from_slice` into a `serde_json::Value`, with `is_eof` on its error. Trusted to
/// depend on the bytes alone.
#[verifier::external_body]
pub(crate) fn json_is_truncated(bytes: &[u8]) -> (r: bool)
    ensures
        r == json_truncated(bytes@),
{
    serde_json::from_slice::<serde_json::Value>(bytes).is_err_and(|error| error.is_eof())
}

/// `serde_json::from_str` into a `serde_json::Value`, read out with `pointer` and `as_str`. Trusted
/// to depend on the text and the pointer alone.
#[verifier::external_body]
pub(crate) fn json_text_at(line: &str, pointer: &str) -> (r: Result<Option<String>, String>)
    ensures
        match r {
            Ok(text) => json_text(line@, pointer@) == Ok::<Option<Seq<char>>, Seq<char>>(
                opt_text(text),
            ),
            Err(message) => json_text(line@, pointer@) == Err::<Option<Seq<char>>, Seq<char>>(
                message@,
            ),
        },
{
    match serde_json::from_str::<serde_json::Value>(line) {
        Ok(value) => Ok(value.pointer(pointer).and_then(|found| found.as_str()).map(str::to_owned)),
        Err(error) => Err(error.to_string()),
    }
}

/// `serde_json::from_str` into a `serde_json::Value`, on two texts, with `==` on the values.
/// Trusted to read each text by itself, to depend on the text alone, and to compare values by an
/// equivalence: a value equals itself, the order of the two does not matter, and two values that
/// equal a third are equal. (No text is read as a number that differs from itself.)
#[verifier::external_body]
pub(crate) fn json_same_value(a: &str, b: &str) -> (r: Result<bool, (bool, String)>)
    ensures
        match r {
            Ok(same) => {
                &&& json_value(a@) is Ok && json_value(b@) is Ok
                &&& same == (json_value(a@) == json_value(b@))
            },
            Err((true, message)) => json_value(a@) == Err::<int, Seq<char>>(message@),
            Err((false, message)) => {
                &&& json_value(a@) is Ok
                &&& json_value(b@) == Err::<int, Seq<char>>(message@)
            },
        },
{
    match serde_json::from_str::<serde_json::Value>(a) {
        Err(error) => Err((true, error.to_string())),
        Ok(left) => match serde_json::from_str::<serde_json::Value>(b) {
            Err(error) => Err((false, error.to_string())),
            Ok(right) => Ok(left == right),
        },
    }
}

} // verus!
