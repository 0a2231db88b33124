//! Helpers of the login flow: account types, e-mail and interval checks,
//! region codes, password hashing, request ids, base64 and time text.

use vstd::prelude::*;
use vstd::string::*;
use crate::error::WebullError;
use crate::text::{has_char, str_eq};

verus! {

#[verifier::external_type_specification]
#[verifier::external_body]
pub struct ExDecodeError(base64::DecodeError);

/// The lowercase hex MD5 digest of the UTF-8 bytes of a text.
pub uninterp spec fn md5_hex_of(s: Seq<char>) -> Seq<char>;

/// The standard-alphabet, padded base64 text of some bytes.
pub uninterp spec fn base64_of(b: Seq<u8>) -> Seq<char>;

/// The bytes that a standard-alphabet, padded base64 text decodes to, if it is valid.
pub uninterp spec fn base64_decoded(s: Seq<char>) -> Option<Seq<u8>>;

/// The UTC date and time `YYYY-MM-DD HH:MM:SS` of a count of seconds since the
/// Unix epoch, if it is within chrono's range.
pub uninterp spec fn utc_text_of(secs: int) -> Option<Seq<char>>;

/// Relies on md5::compute and the LowerHex rendering of its digest: two
/// lowercase hex digits for each of the sixteen digest bytes.
#[verifier::external_body]
fn md5_hex(s: &str) -> (r: String)
    ensures
        r@ == md5_hex_of(s@),
        r@.len() == 32,
{
    format!("{:x}", md5::compute(s.as_bytes()))
}

/// Relies on uuid's Uuid::new_v4 and its Display rendering: a random id in the
/// hyphenated form, 36 characters with a hyphen at positions 8, 13, 18 and 23
/// and a lowercase hex digit everywhere else.
#[verifier::external_body]
fn fresh_uuid() -> (r: String)
    ensures
        r@.len() == 36,
        forall|i: int| 0 <= i < 36 ==> (r@[i] == '-' <==> (i == 8 || i == 13 || i == 18 || i == 23)),
{
    uuid::Uuid::new_v4().to_string()
}

/// Relies on base64's STANDARD engine encode.
#[verifier::external_body]
fn standard_encode(data: &[u8]) -> (r: String)
    ensures
        r@ == base64_of(data@),
{
    base64::Engine::encode(&base64::engine::general_purpose::STANDARD, data)
}

/// Relies on base64's STANDARD engine decode: the decoded bytes, or an error
/// on text that is not valid padded base64.
#[verifier::external_body]
fn standard_decode(encoded: &str) -> (r: Result<Vec<u8>, base64::DecodeError>)
    ensures
        match r {
            Ok(v) => base64_decoded(encoded@) == Some(v@),
            Err(_) => base64_decoded(encoded@) is None,
        },
{
    base64::Engine::decode(&base64::engine::general_purpose::STANDARD, encoded)
}

/// Relies on chrono's DateTime::from_timestamp, which refuses seconds out of
/// its range, and on its `%Y-%m-%d %H:%M:%S` formatting.
#[verifier::external_body]
fn utc_text(secs: i64) -> (r: Option<String>)
    ensures
        match r {
            Some(t) => utc_text_of(secs as int) == Some(t@),
            None => utc_text_of(secs as int) is None,
        },
{
    chrono::DateTime::from_timestamp(secs, 0).map(|d| d.format("%Y-%m-%d %H:%M:%S").to_string())
}

/// The salt put in front of a password before hashing.
pub open spec fn password_salt() -> Seq<char> {
    "wl_app-a&b@!423^"@
}

/// The domain part of an e-mail address: at least two dot-separated labels,
/// none of them empty.
pub open spec fn domain_ok(d: Seq<char>) -> bool {
    &&& d.contains('.')
    &&& d[0] != '.'
    &&& d[d.len() - 1] != '.'
    &&& forall|j: int| 0 <= j < d.len() - 1 ==> !(#[trigger] d[j] == '.' && d[j + 1] == '.')
}

/// One `@`, something before it, and a valid domain after it.
pub open spec fn email_ok(s: Seq<char>) -> bool {
    exists|i: int|
        0 < i < s.len() && s[i] == '@' && (forall|j: int| 0 <= j < s.len() && s[j] == '@' ==> j == i)
            && domain_ok(#[trigger] s.subrange(i + 1, s.len() as int))
}

/// The account type code of a username: 2 for an e-mail address, 1 for a phone
/// number (a leading `+`), 2 otherwise; `None` for a malformed address.
pub open spec fn account_type_of(s: Seq<char>) -> Option<i32> {
    if s.contains('@') {
        if email_ok(s) {
            Some(2)
        } else {
            None
        }
    } else if s.len() > 0 && s[0] == '+' {
        Some(1)
    } else {
        Some(2)
    }
}

/// The chart intervals the server knows.
pub open spec fn interval_ok(s: Seq<char>) -> bool {
    s == "1m"@ ||
        s == "3m"@ ||
        s == "5m"@ ||
        s == "15m"@ ||
        s == "30m"@ ||
        s == "60m"@ ||
        s == "120m"@ ||
        s == "240m"@ ||
        s == "1h"@ ||
        s == "2h"@ ||
        s == "4h"@ ||
        s == "1d"@ ||
        s == "1w"@ ||
        s == "1M"@ ||
        s == "d1"@ ||
        s == "d5"@ ||
        s == "m1"@ ||
        s == "m5"@ ||
        s == "m15"@ ||
        s == "m30"@ ||
        s == "m60"@ ||
        s == "m120"@ ||
        s == "m240"@ ||
        s == "h1"@ ||
        s == "h2"@ ||
        s == "h4"@ ||
        s == "w1"@ ||
        s == "mo1"@
}

/// The region code of a region name; the US when none is known.
pub open spec fn region_code_of(region: Option<Seq<char>>) -> i32 {
    match region {
        Some(r) => if r == "us"@ || r == "US"@ {
            6
        } else if r == "cn"@ || r == "CN"@ {
            1
        } else if r == "hk"@ || r == "HK"@ {
            2
        } else {
            6
        },
        None => 6,
    }
}

/// The seconds of a millisecond timestamp, rounded toward zero.
pub open spec fn seconds_of_millis(ms: int) -> int {
    if ms >= 0 {
        ms / 1000
    } else {
        -((-ms) / 1000)
    }
}

fn domain_check(s: &str, from: usize) -> (r: bool)
    requires
        from <= s@.len(),
    ensures
        r == domain_ok(s@.subrange(from as int, s@.len() as int)),
{
    let n = s.unicode_len();
    let ghost d = s@.subrange(from as int, n as int);
    if from == n {
        return false;
    }
    if s.get_char(from) == '.' || s.get_char(n - 1) == '.' {
        return false;
    }
    let mut seen_dot = false;
    let mut k: usize = from;
    while k < n
        invariant
            n == s@.len(),
            from <= k <= n,
            d == s@.subrange(from as int, n as int),
            seen_dot == exists|j: int| from <= j < k && s@[j] == '.',
            forall|j: int| from <= j < k && j + 1 < n ==> !(#[trigger] s@[j] == '.' && s@[j + 1] == '.'),
        decreases n - k,
    {
        let c = s.get_char(k);
        if c == '.' {
            if k + 1 < n && s.get_char(k + 1) == '.' {
                assert(d[k - from] == '.' && d[k - from + 1] == '.');
                return false;
            }
            seen_dot = true;
        }
        k = k + 1;
    }
    if !seen_dot {
        assert(!d.contains('.')) by {
            if d.contains('.') {
                let j = choose|j: int| 0 <= j < d.len() && d[j] == '.';
                assert(s@[from + j] == '.');
            }
        }
        return false;
    }
    proof {
        let j0 = choose|j: int| from <= j < n && s@[j] == '.';
        assert(d[j0 - from] == '.');
    }
    assert forall|j: int| 0 <= j < d.len() - 1 implies !(#[trigger] d[j] == '.' && d[j + 1] == '.') by {
        assert(d[j] == s@[from + j]);
        assert(d[j + 1] == s@[from + j + 1]);
    }
    true
}

/// Whether a text is a plausible e-mail address: exactly one `@`, a non-empty
/// part before it, and after it at least two dot-separated labels, none empty.
pub fn validate_email(email: &str) -> (r: bool)
    ensures
        r == email_ok(email@),
{
    let n = email.unicode_len();
    let mut i: usize = 0;
    while i < n && email.get_char(i) != '@'
        invariant
            n == email@.len(),
            i <= n,
            forall|j: int| 0 <= j < i ==> email@[j] != '@',
        decreases n - i,
    {
        i = i + 1;
    }
    if i == n {
        return false;
    }
    assert(email@[i as int] == '@');
    let mut k: usize = i + 1;
    while k < n
        invariant
            n == email@.len(),
            i < k <= n,
            email@[i as int] == '@',
            forall|j: int| i < j < k ==> email@[j] != '@',
        decreases n - k,
    {
        if email.get_char(k) == '@' {
            assert(!email_ok(email@)) by {
                if email_ok(email@) {
                    let w = choose|w: int|
                        0 < w < email@.len() && email@[w] == '@' && (forall|j: int|
                            0 <= j < email@.len() && email@[j] == '@' ==> j == w) && domain_ok(
                            #[trigger] email@.subrange(w + 1, email@.len() as int),
                        );
                    assert(i == w);
                    assert(k == w);
                }
            }
            return false;
        }
        k = k + 1;
    }
    if i == 0 {
        assert(!email_ok(email@)) by {
            if email_ok(email@) {
                let w = choose|w: int|
                    0 < w < email@.len() && email@[w] == '@' && (forall|j: int|
                        0 <= j < email@.len() && email@[j] == '@' ==> j == w) && domain_ok(
                        #[trigger] email@.subrange(w + 1, email@.len() as int),
                    );
                assert(0 == w);
            }
        }
        return false;
    }
    let ok = domain_check(email, i + 1);
    assert(forall|j: int| 0 <= j < email@.len() && email@[j] == '@' ==> j == i);
    if !ok {
        assert(!email_ok(email@)) by {
            if email_ok(email@) {
                let w = choose|w: int|
                    0 < w < email@.len() && email@[w] == '@' && (forall|j: int|
                        0 <= j < email@.len() && email@[j] == '@' ==> j == w) && domain_ok(
                        #[trigger] email@.subrange(w + 1, email@.len() as int),
                    );
                assert(i == w);
            }
        }
    }
    ok
}

/// The account type code of a username.
pub fn get_account_type(username: &str) -> (r: Result<i32, WebullError>)
    ensures
        match account_type_of(username@) {
            Some(t) => r == Ok::<i32, WebullError>(t),
            None => r matches Err(e) && e is InvalidParameter,
        },
{
    if has_char(username, '@') {
        if validate_email(username) {
            Ok(2)
        } else {
            Err(WebullError::InvalidParameter(String::from_str("Invalid email format")))
        }
    } else if username.unicode_len() > 0 && username.get_char(0) == '+' {
        Ok(1)
    } else {
        Ok(2)
    }
}

/// The interval, if the server knows it.
pub fn parse_interval(s: &str) -> (r: Result<String, WebullError>)
    ensures
        match r {
            Ok(v) => interval_ok(s@) && v@ == s@,
            Err(e) => !interval_ok(s@) && e is InvalidParameter,
        },
{
    let ok = str_eq(s, "1m") ||
        str_eq(s, "3m") ||
        str_eq(s, "5m") ||
        str_eq(s, "15m") ||
        str_eq(s, "30m") ||
        str_eq(s, "60m") ||
        str_eq(s, "120m") ||
        str_eq(s, "240m") ||
        str_eq(s, "1h") ||
        str_eq(s, "2h") ||
        str_eq(s, "4h") ||
        str_eq(s, "1d") ||
        str_eq(s, "1w") ||
        str_eq(s, "1M") ||
        str_eq(s, "d1") ||
        str_eq(s, "d5") ||
        str_eq(s, "m1") ||
        str_eq(s, "m5") ||
        str_eq(s, "m15") ||
        str_eq(s, "m30") ||
        str_eq(s, "m60") ||
        str_eq(s, "m120") ||
        str_eq(s, "m240") ||
        str_eq(s, "h1") ||
        str_eq(s, "h2") ||
        str_eq(s, "h4") ||
        str_eq(s, "w1") ||
        str_eq(s, "mo1");
    if ok {
        Ok(String::from_str(s))
    } else {
        let mut m = String::from_str("Invalid interval: ");
        m.append(s);
        Err(WebullError::InvalidParameter(m))
    }
}

/// The region code of a region name.
pub fn get_region_code(region: Option<&str>) -> (r: i32)
    ensures
        r == region_code_of(
            match region {
                Some(g) => Some(g@),
                None => None,
            },
        ),
{
    match region {
        Some(g) => if str_eq(g, "us") || str_eq(g, "US") {
            6
        } else if str_eq(g, "cn") || str_eq(g, "CN") {
            1
        } else if str_eq(g, "hk") || str_eq(g, "HK") {
            2
        } else {
            6
        },
        None => 6,
    }
}

/// The salted MD5 hex digest that the server expects in place of a password.
pub fn hash_password(password: &str) -> (r: String)
    ensures
        r@ == md5_hex_of(password_salt() + password@),
        r@.len() == 32,
{
    let mut salted = String::from_str("wl_app-a&b@!423^");
    salted.append(password);
    md5_hex(salted.as_str())
}

/// A fresh random id: 36 characters, hyphens at positions 8, 13, 18 and 23.
pub fn new_idempotency_key() -> (r: String)
    ensures
        r@.len() == 36,
{
    fresh_uuid()
}

/// A fresh random request id: a UUID without its hyphens, 32 characters.
pub fn generate_req_id() -> (r: String)
    ensures
        r@.len() == 32,
        !r@.contains('-'),
{
    let u = fresh_uuid();
    let mut out = String::new();
    let mut i: usize = 0;
    while i < 36
        invariant
            u@.len() == 36,
            forall|j: int| 0 <= j < 36 ==> (u@[j] == '-' <==> (j == 8 || j == 13 || j == 18 || j == 23)),
            i <= 36,
            out@.len() == i - (if i > 23 {
                4int
            } else if i > 18 {
                3int
            } else if i > 13 {
                2int
            } else if i > 8 {
                1int
            } else {
                0int
            }),
            !out@.contains('-'),
        decreases 36 - i,
    {
        let c = u.as_str().substring_char(i, i + 1);
        assert(c@ == seq![u@[i as int]]);
        if u.get_char(i) != '-' {
            let ghost before = out@;
            out.append(c);
            assert(!out@.contains('-')) by {
                if out@.contains('-') {
                    let j = choose|j: int| 0 <= j < out@.len() && out@[j] == '-';
                    if j < before.len() {
                        assert(before[j] == '-');
                    }
                }
            }
        }
        i = i + 1;
    }
    out
}

/// The base64 text of some bytes.
pub fn base64_encode(data: &[u8]) -> (r: String)
    ensures
        r@ == base64_of(data@),
{
    standard_encode(data)
}

/// The bytes of a base64 text.
pub fn base64_decode(encoded: &str) -> (r: Result<Vec<u8>, WebullError>)
    ensures
        match r {
            Ok(v) => base64_decoded(encoded@) == Some(v@),
            Err(e) => base64_decoded(encoded@) is None && e is SerializationError,
        },
{
    match standard_decode(encoded) {
        Ok(v) => Ok(v),
        Err(_) => Err(WebullError::SerializationError(String::from_str("invalid base64 text"))),
    }
}

/// The UTC time text of a millisecond timestamp; the epoch when the time is
/// out of range.
pub fn timestamp_to_string(timestamp: i64) -> (r: String)
    ensures
        r@ == match utc_text_of(seconds_of_millis(timestamp as int)) {
            Some(t) => t,
            None => match utc_text_of(0) {
                Some(t) => t,
                None => Seq::<char>::empty(),
            },
        },
{
    let secs: i64 = if timestamp >= 0 {
        timestamp / 1000
    } else {
        let m: i128 = -(timestamp as i128);
        -((m / 1000) as i64)
    };
    match utc_text(secs) {
        Some(t) => t,
        None => match utc_text(0) {
            Some(t) => t,
            None => String::new(),
        },
    }
}

} // verus!
