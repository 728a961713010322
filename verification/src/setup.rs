//! What has to hold before the poller can start.

use crate::types::Api;
use vstd::prelude::*;
use vstd::string::*;
use vstd::utf8::encode_utf8;

verus! {

/// Why the tracker cannot start.
#[derive(Clone, Copy, PartialEq, Eq, Debug, Structural)]
pub enum StartupError {
    /// The client identifier is not a number that fits in 64 bits.
    InvalidClientId,
}

/// What the statistics client is made from.
#[derive(Clone, Debug)]
pub struct Credentials {
    pub client_id: u64,
    pub secret: String,
    pub username: String,
}

/// The byte is a decimal digit.
pub open spec fn is_digit(b: u8) -> bool {
    0x30 <= b <= 0x39
}

/// Every byte is a decimal digit.
pub open spec fn all_digits(bytes: Seq<u8>) -> bool {
    forall|i: int| 0 <= i < bytes.len() ==> is_digit(#[trigger] bytes[i])
}

/// The number that a run of decimal digits writes.
pub open spec fn number_of(digits: Seq<u8>) -> nat
    decreases digits.len(),
{
    if digits.len() == 0 {
        0
    } else {
        number_of(digits.drop_last()) * 10 + (digits.last() - 0x30) as nat
    }
}

/// The bytes behind an optional leading plus sign.
pub open spec fn unsigned_part(bytes: Seq<u8>) -> Seq<u8> {
    if bytes.len() > 0 && bytes[0] == 0x2b {
        bytes.skip(1)
    } else {
        bytes
    }
}

/// The identifier that a text writes: an optional plus sign, then one decimal
/// digit or more, and a value that fits in 64 bits. Every other text writes
/// none.
pub open spec fn parsed_id(bytes: Seq<u8>) -> Option<u64> {
    let digits = unsigned_part(bytes);
    if digits.len() > 0 && all_digits(digits) && number_of(digits) <= u64::MAX {
        Some(number_of(digits) as u64)
    } else {
        None
    }
}

/// A run of digits writes a number that is at least the number that any of its
/// prefixes writes.
proof fn lemma_number_grows(digits: Seq<u8>, k: int)
    requires
        0 <= k <= digits.len(),
        all_digits(digits),
    ensures
        number_of(digits.take(k)) <= number_of(digits),
    decreases digits.len() - k,
{
    if k == digits.len() {
        assert(digits.take(k) == digits);
    } else {
        lemma_number_grows(digits, k + 1);
        let longer = digits.take(k + 1);
        assert(longer.drop_last() == digits.take(k));
        assert(is_digit(digits[k]));
        assert(longer.last() == digits[k]);
        assert(number_of(longer) == number_of(digits.take(k)) * 10 + (digits[k] - 0x30) as nat);
    }
}

/// Reads a client identifier from the bytes of a text.
pub fn parse_client_id(id: &str) -> (value: Option<u64>)
    ensures
        value == parsed_id(encode_utf8(id@)),
{
    let bytes = id.as_bytes();
    let start: usize = if bytes.len() > 0 && bytes[0] == 0x2b {
        1
    } else {
        0
    };
    let ghost digits = unsigned_part(bytes@);
    assert(digits == bytes@.skip(start as int));
    if start == bytes.len() {
        return None;
    }
    let mut value: u64 = 0;
    let mut i: usize = start;
    assert(digits.take(0) == Seq::<u8>::empty());
    while i < bytes.len()
        invariant
            start <= i <= bytes.len(),
            bytes@ == encode_utf8(id@),
            digits == unsigned_part(bytes@),
            digits == bytes@.skip(start as int),
            all_digits(digits.take(i - start)),
            value == number_of(digits.take(i - start)),
        decreases bytes.len() - i,
    {
        let b = bytes[i];
        let ghost longer = digits.take(i - start + 1);
        proof {
            assert(longer.drop_last() == digits.take(i - start));
            assert(longer.last() == b);
            assert(digits[i - start] == b);
        }
        if b < 0x30 || b > 0x39 {
            assert(!all_digits(digits));
            return None;
        }
        let d: u64 = (b - 0x30) as u64;
        if value > (u64::MAX - d) / 10 {
            proof {
                assert(number_of(longer) == value * 10 + d);
                assert(number_of(longer) > u64::MAX);
                if all_digits(digits) {
                    lemma_number_grows(digits, i - start + 1);
                }
            }
            return None;
        }
        value = value * 10 + d;
        assert(all_digits(longer)) by {
            assert forall|j: int| 0 <= j < longer.len() implies is_digit(#[trigger] longer[j]) by {
                if j < longer.len() - 1 {
                    assert(longer[j] == digits.take(i - start)[j]);
                }
            }
        }
        i += 1;
    }
    assert(digits.take(i - start) == digits);
    Some(value)
}

/// The view of what `credentials` gives.
pub open spec fn credentials_of(
    id: Seq<u8>,
    secret: Seq<char>,
    username: Seq<char>,
) -> Result<(u64, Seq<char>, Seq<char>), StartupError> {
    match parsed_id(id) {
        Some(client_id) => Ok((client_id, secret, username)),
        None => Err(StartupError::InvalidClientId),
    }
}

/// What an outcome of `credentials` says, with its texts as sequences.
pub open spec fn outcome_view(outcome: Result<Credentials, StartupError>) -> Result<
    (u64, Seq<char>, Seq<char>),
    StartupError,
> {
    match outcome {
        Ok(c) => Ok((c.client_id, c.secret@, c.username@)),
        Err(e) => Err(e),
    }
}

/// Turns the configured record into what the statistics client is made from.
/// The tracker cannot start on an identifier that is no number.
pub fn credentials(api: &Api) -> (outcome: Result<Credentials, StartupError>)
    ensures
        outcome_view(outcome) == credentials_of(
            encode_utf8(api.id@),
            api.secret@,
            api.username@,
        ),
{
    match parse_client_id(api.id.as_str()) {
        Some(client_id) => Ok(
            Credentials { client_id, secret: api.secret.clone(), username: api.username.clone() },
        ),
        None => Err(StartupError::InvalidClientId),
    }
}

} // verus!
