//! Identifier generation and key formatting.
//!
//! Generated identifiers are a short prefix, an underscore, and a fresh
//! 32-character token, so every generated identifier of one kind has one
//! fixed length. The cache key and the drainer stream name are fixed string
//! shapes over the identifiers they embed.

use vstd::prelude::*;

use crate::TOKEN_LENGTH;

verus! {

/// Characters a generated token is made of.
pub open spec fn is_lower_hex_char(c: char) -> bool {
    ('0' <= c && c <= '9') || ('a' <= c && c <= 'f')
}

/// A generated token: exactly `TOKEN_LENGTH` lowercase hexadecimal characters.
pub open spec fn is_token(s: Seq<char>) -> bool {
    s.len() == TOKEN_LENGTH && (forall|i: int|
        0 <= i < s.len() ==> is_lower_hex_char(#[trigger] s[i]))
}

/// Relies on uuid::Uuid::new_v4 and its simple formatter: a fresh version-4
/// identifier rendered as exactly 32 lowercase hexadecimal characters. The
/// value is random; only its shape is promised.
#[verifier::external_body]
pub fn generate_token() -> (r: String)
    ensures
        is_token(r@),
{
    uuid::Uuid::new_v4().as_simple().to_string()
}

/// Relies on time::OffsetDateTime::now_utc: the current UTC wall-clock time
/// as whole seconds since the Unix epoch. Nothing is promised of the value.
#[verifier::external_body]
pub fn unix_now() -> i64 {
    time::OffsetDateTime::now_utc().unix_timestamp()
}

/// The shape of an identifier generated from a prefix and a token.
pub open spec fn spec_generated_id(prefix: Seq<char>, token: Seq<char>) -> Seq<char> {
    prefix + seq!['_'] + token
}

/// Joins a prefix and a token into one identifier, `prefix_token`.
pub fn make_id(prefix: &str, token: &String) -> (r: String)
    ensures
        r@ == spec_generated_id(prefix@, token@),
{
    proof {
        reveal_strlit("_");
    }
    let mut s = prefix.to_owned();
    s.append("_");
    s.append(token.as_str());
    proof {
        assert("_"@ =~= seq!['_']);
        assert(s@ =~= spec_generated_id(prefix@, token@));
    }
    s
}

/// Length of a generated payment identifier: `pay`, an underscore, a token.
pub const PAYMENT_ID_LENGTH: usize = 36;

/// Generates a fallback payment identifier of the fixed configured length,
/// used when a request carries none.
pub fn generate_payment_id() -> (r: String)
    ensures
        r@.len() == PAYMENT_ID_LENGTH,
{
    proof {
        reveal_strlit("pay");
    }
    let token = generate_token();
    make_id("pay", &token)
}

/// Length of a generated validation identifier: `val`, an underscore, a token.
pub const VALIDATION_ID_LENGTH: usize = 36;

/// Generates an identifier for one standalone verification run.
pub fn generate_validation_id() -> (r: String)
    ensures
        r@.len() == VALIDATION_ID_LENGTH,
{
    proof {
        reveal_strlit("val");
    }
    let token = generate_token();
    make_id("val", &token)
}

/// Length of a generated attempt identifier: `att`, an underscore, a token.
pub const ATTEMPT_ID_LENGTH: usize = 36;

/// Generates an identifier for one payment attempt.
pub fn generate_attempt_id() -> (r: String)
    ensures
        r@.len() == ATTEMPT_ID_LENGTH,
{
    proof {
        reveal_strlit("att");
    }
    let token = generate_token();
    make_id("att", &token)
}

/// Length of a generated refund identifier: `ref`, an underscore, a token.
pub const REFUND_ID_LENGTH: usize = 36;

/// Generates an idempotency key for one refund.
pub fn generate_refund_id() -> (r: String)
    ensures
        r@.len() == REFUND_ID_LENGTH,
{
    proof {
        reveal_strlit("ref");
    }
    let token = generate_token();
    make_id("ref", &token)
}

/// The shape of a client secret: the payment identifier, `_secret_`, a token.
pub open spec fn spec_client_secret(payment_id: Seq<char>, token: Seq<char>) -> Seq<char> {
    payment_id + "_secret_"@ + token
}

/// Builds the client secret handed back for a payment.
pub fn make_client_secret(payment_id: &str, token: &String) -> (r: String)
    ensures
        r@ == spec_client_secret(payment_id@, token@),
{
    let mut s = payment_id.to_owned();
    s.append("_secret_");
    s.append(token.as_str());
    s
}

/// The shape of a cache key: the business identifier, an underscore, the
/// merchant identifier.
pub open spec fn spec_cache_key(business_id: Seq<char>, merchant_id: Seq<char>) -> Seq<char> {
    business_id + seq!['_'] + merchant_id
}

/// Builds the key under which the cache holds a row.
pub fn cache_key(business_id: &str, merchant_id: &str) -> (r: String)
    ensures
        r@ == spec_cache_key(business_id@, merchant_id@),
{
    proof {
        reveal_strlit("_");
        assert("_"@ =~= seq!['_']);
    }
    let mut s = business_id.to_owned();
    s.append("_");
    s.append(merchant_id);
    s
}

/// The character of one decimal digit.
pub open spec fn spec_digit(d: int) -> char {
    if d == 0 {
        '0'
    } else if d == 1 {
        '1'
    } else if d == 2 {
        '2'
    } else if d == 3 {
        '3'
    } else if d == 4 {
        '4'
    } else if d == 5 {
        '5'
    } else if d == 6 {
        '6'
    } else if d == 7 {
        '7'
    } else if d == 8 {
        '8'
    } else {
        '9'
    }
}

/// The decimal digits of a positive number, most significant first; empty
/// for zero.
pub open spec fn spec_decimal_digits(n: int) -> Seq<char>
    decreases n,
{
    if n <= 0 {
        Seq::empty()
    } else {
        spec_decimal_digits(n / 10).push(spec_digit(n % 10))
    }
}

/// The decimal rendering of a number.
pub open spec fn spec_decimal(n: int) -> Seq<char> {
    if n == 0 {
        seq!['0']
    } else {
        spec_decimal_digits(n)
    }
}

fn digit_str(d: u64) -> (r: &'static str)
    requires
        d < 10,
    ensures
        r@ =~= seq![spec_digit(d as int)],
{
    proof {
        reveal_strlit("0");
        reveal_strlit("1");
        reveal_strlit("2");
        reveal_strlit("3");
        reveal_strlit("4");
        reveal_strlit("5");
        reveal_strlit("6");
        reveal_strlit("7");
        reveal_strlit("8");
        reveal_strlit("9");
    }
    match d {
        0 => "0",
        1 => "1",
        2 => "2",
        3 => "3",
        4 => "4",
        5 => "5",
        6 => "6",
        7 => "7",
        8 => "8",
        _ => "9",
    }
}

fn decimal_digits(n: u64) -> (r: String)
    ensures
        r@ == spec_decimal_digits(n as int),
    decreases n,
{
    if n == 0 {
        String::new()
    } else {
        let mut s = decimal_digits(n / 10);
        s.append(digit_str(n % 10));
        proof {
            assert(s@ =~= spec_decimal_digits((n / 10) as int).push(spec_digit((n % 10) as int)));
        }
        s
    }
}

/// Renders a number in decimal.
pub fn u64_to_decimal(n: u64) -> (r: String)
    ensures
        r@ == spec_decimal(n as int),
{
    if n == 0 {
        proof {
            reveal_strlit("0");
            assert("0"@ =~= seq!['0']);
        }
        "0".to_owned()
    } else {
        decimal_digits(n)
    }
}

/// The shape of a shard key: `shard`, an underscore, the shard number in
/// decimal.
pub open spec fn spec_shard_key_name(shard: int) -> Seq<char> {
    spec_generated_id("shard"@, spec_decimal(shard))
}

/// Names the shard a business id hashes to, `shard_0` through
/// `shard_{partitions-1}`.
pub fn shard_key_name(shard: u64) -> (r: String)
    ensures
        r@ == spec_shard_key_name(shard as int),
{
    let dec = u64_to_decimal(shard);
    make_id("shard", &dec)
}

/// The shape of a drainer stream name: the shard key in braces, an
/// underscore, the configured stream name.
pub open spec fn spec_drainer_stream_name(shard_key: Seq<char>, stream: Seq<char>) -> Seq<char> {
    seq!['{'] + shard_key + seq!['}', '_'] + stream
}

/// Builds the name of the change stream for one shard.
pub fn drainer_stream_name(shard_key: &str, stream: &str) -> (r: String)
    ensures
        r@ == spec_drainer_stream_name(shard_key@, stream@),
{
    proof {
        reveal_strlit("{");
        reveal_strlit("}_");
        assert("{"@ =~= seq!['{']);
        assert("}_"@ =~= seq!['}', '_']);
    }
    let mut s = "{".to_owned();
    s.append(shard_key);
    s.append("}_");
    s.append(stream);
    s
}

} // verus!
