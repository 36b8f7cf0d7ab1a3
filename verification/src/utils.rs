//! Utility functions: identifier conversions, encodings, digests, text
//! helpers, job identifiers, retry and rate-limiting policies.

use vstd::prelude::*;
use vstd::string::StringSliceAdditionalSpecFns;
use sha1::{Digest, Sha1};
use sha2::Sha256;
use hmac::{Hmac, Mac};
use rand::Rng;
use crate::encoding::{
    base64_decode_of, base64_encode_of, hex_decode_of, hex_decoded, hex_encode_of, hex_encoded,
};
use crate::text::{decimal, push_char, push_decimal, str_chars};
use crate::types::{SteamError, SteamID, individual_public_prefix, is_invalid_state_error};
pub use crate::file_size::format_file_size;

verus! {

/// The smallest community identifier: the first individual account in the
/// public universe.
pub const MIN_COMMUNITY_ID: u64 = 76561197960265728;

/// Converts a community identifier to a `SteamID`; identifiers below
/// `MIN_COMMUNITY_ID` are refused.
pub fn community_id_to_steam_id(community_id: u64) -> (r: Result<SteamID, SteamError>)
    ensures
        community_id >= MIN_COMMUNITY_ID ==> r == Ok::<SteamID, SteamError>(SteamID { id: community_id }),
        community_id < MIN_COMMUNITY_ID ==> (r matches Err(e) && is_invalid_state_error(
            e,
            "Invalid community ID"@,
        )),
{
    if community_id < MIN_COMMUNITY_ID {
        return Err(SteamError::InvalidState { message: String::from_str("Invalid community ID") });
    }
    Ok(SteamID::new(community_id))
}

/// Converts an account number to the `SteamID` of the individual account in
/// the public universe.
pub fn account_id_to_steam_id(account_id: u32) -> (s: SteamID)
    ensures
        s.id == individual_public_prefix() + account_id,
{
    SteamID::from_account_id(account_id)
}

/// The current Unix time in seconds, from the system clock
/// (`SystemTime::now`); a clock set before 1970 reads as zero.
#[verifier::external_body]
pub fn get_unix_timestamp() -> u64 {
    std::time::SystemTime::now().duration_since(std::time::UNIX_EPOCH).unwrap_or_default().as_secs()
}

/// A uniformly random byte (`rand::thread_rng().gen::<u8>()`).
#[verifier::external_body]
fn random_u8() -> u8 {
    rand::thread_rng().gen::<u8>()
}

/// A uniformly random `i32` (`rand::thread_rng().gen::<i32>()`).
#[verifier::external_body]
fn random_i32() -> i32 {
    rand::thread_rng().gen::<i32>()
}

/// A uniformly random `u32` (`rand::random::<u32>()`).
#[verifier::external_body]
pub(crate) fn random_u32() -> u32 {
    rand::random::<u32>()
}

/// Length in bytes of a machine identifier.
pub const MACHINE_ID_LEN: usize = 20;

/// Twenty random bytes identifying this machine.
pub fn generate_machine_id() -> (v: Vec<u8>)
    ensures
        v@.len() == MACHINE_ID_LEN,
{
    let mut v: Vec<u8> = Vec::new();
    let mut i: usize = 0;
    while i < MACHINE_ID_LEN
        invariant
            i <= MACHINE_ID_LEN,
            v@.len() == i,
        decreases MACHINE_ID_LEN - i,
    {
        v.push(random_u8());
        i = i + 1;
    }
    v
}

/// A random session identifier.
pub fn generate_session_id() -> i32 {
    random_i32()
}

/// Lowercase hexadecimal text of bytes.
pub fn bytes_to_hex(bytes: &[u8]) -> (s: String)
    ensures
        s@ == hex_encoded(bytes@),
{
    hex_encode_of(bytes)
}

/// `e` is an `Unknown` error whose message starts with `prefix`.
pub open spec fn is_unknown_error_starting(e: SteamError, prefix: Seq<char>) -> bool {
    e matches SteamError::Unknown { message } && message@.len() >= prefix.len()
        && message@.subrange(0, prefix.len() as int) == prefix
}

/// The bytes of a hexadecimal text (either case); texts of odd length or
/// with other characters are refused.
pub fn hex_to_bytes(hex_str: &str) -> (r: Result<Vec<u8>, SteamError>)
    ensures
        match hex_decoded(hex_str@) {
            Some(b) => r matches Ok(v) && v@ == b,
            None => r matches Err(e) && is_unknown_error_starting(e, "Failed to decode hex: "@),
        },
{
    match hex_decode_of(hex_str) {
        Ok(v) => Ok(v),
        Err(detail) => {
            let mut message = String::from_str("Failed to decode hex: ");
            let ghost prefix = message@;
            message.append(detail.as_str());
            assert(message@.subrange(0, prefix.len() as int) =~= prefix);
            Err(SteamError::Unknown { message })
        },
    }
}

/// Decoding the hexadecimal text of bytes gives the bytes back.
pub proof fn lemma_hex_text_roundtrip(d: Seq<u8>)
    ensures
        hex_decoded(hex_encoded(d)) == Some(d),
{
    crate::encoding::lemma_hex_roundtrip(d);
}

/// Standard padded Base64 text of bytes.
pub fn base64_encode(data: &[u8]) -> (s: String)
    ensures
        s@ == crate::encoding::base64_encoded(data@),
{
    base64_encode_of(data)
}

/// The bytes of a canonical standard padded Base64 text; other texts are
/// refused.
pub fn base64_decode(data: &str) -> (r: Result<Vec<u8>, SteamError>)
    ensures
        match crate::encoding::base64_decoded(data@) {
            Some(b) => r matches Ok(v) && v@ == b,
            None => r matches Err(e) && is_unknown_error_starting(e, "Failed to decode base64: "@),
        },
{
    match base64_decode_of(data) {
        Ok(v) => Ok(v),
        Err(detail) => {
            let mut message = String::from_str("Failed to decode base64: ");
            let ghost prefix = message@;
            message.append(detail.as_str());
            assert(message@.subrange(0, prefix.len() as int) =~= prefix);
            Err(SteamError::Unknown { message })
        },
    }
}

/// Decoding the Base64 text of bytes gives the bytes back.
pub proof fn lemma_base64_text_roundtrip(d: Seq<u8>)
    ensures
        crate::encoding::base64_decoded(crate::encoding::base64_encoded(d)) == Some(d),
{
    crate::encoding::lemma_base64_roundtrip(d);
}

/// Whether a character is alphabetic or numeric in Unicode
/// (`char::is_alphanumeric`).
pub uninterp spec fn unicode_alphanumeric(c: char) -> bool;

/// `char::is_alphanumeric`.
#[verifier::external_body]
fn char_is_alphanumeric(c: char) -> (b: bool)
    ensures
        b == unicode_alphanumeric(c),
{
    c.is_alphanumeric()
}

/// Characters allowed in a user name: Unicode letters and digits, `_` and `-`.
pub open spec fn username_char_ok(c: char) -> bool {
    unicode_alphanumeric(c) || c == '_' || c == '-'
}

/// The characters a user name may hold are exactly the Unicode letters and
/// digits, `_` and `-`: any other character, such as `+`, `@`, `.` or a
/// space, is refused.
pub proof fn lemma_username_chars()
    ensures
        forall|c: char|
            #[trigger] username_char_ok(c) == (unicode_alphanumeric(c) || c == '_' || c == '-'),
{
}

/// Longest accepted user name, in UTF-8 bytes.
pub const MAX_USERNAME_BYTES: usize = 64;

/// A user name is valid when it is nonempty, at most 64 bytes long in UTF-8
/// and made of letters, digits, `_` and `-`.
pub fn is_valid_steam_username(username: &str) -> (b: bool)
    ensures
        b == (username@.len() > 0 && username.spec_bytes().len() <= 64 && forall|i: int|
            0 <= i < username@.len() ==> #[trigger] username_char_ok(username@[i])),
        b == (username@.len() > 0 && username.spec_bytes().len() <= 64 && forall|i: int|
            0 <= i < username@.len() ==> unicode_alphanumeric(#[trigger] username@[i])
                || username@[i] == '_' || username@[i] == '-'),
{
    proof {
        lemma_username_chars();
    }
    if username.is_empty() || username.as_bytes().len() > MAX_USERNAME_BYTES {
        return false;
    }
    let chars = str_chars(username);
    let mut i: usize = 0;
    while i < chars.len()
        invariant
            chars@ == username@,
            i <= chars@.len(),
            forall|j: int| 0 <= j < i ==> #[trigger] username_char_ok(username@[j]),
        decreases chars@.len() - i,
    {
        let c = chars[i];
        if !(char_is_alphanumeric(c) || c == '_' || c == '-') {
            assert(!username_char_ok(username@[i as int]));
            return false;
        }
        i = i + 1;
    }
    assert forall|i: int| 0 <= i < username@.len() implies unicode_alphanumeric(
        #[trigger] username@[i],
    ) || username@[i] == '_' || username@[i] == '-' by {
        assert(username_char_ok(username@[i]));
    }
    true
}

/// Control characters (Unicode general category Cc): U+0000 to U+001F and
/// U+007F to U+009F.
pub open spec fn is_control_char(c: char) -> bool {
    (c as u32) <= 0x1F || (0x7F <= (c as u32) && (c as u32) <= 0x9F)
}

/// Characters that file systems reserve in names.
pub open spec fn is_reserved_filename_char(c: char) -> bool {
    c == '<' || c == '>' || c == ':' || c == '"' || c == '/' || c == '\\' || c == '|' || c == '?'
        || c == '*'
}

/// The replacement of one character of a file name.
pub open spec fn sanitized_char(c: char) -> char {
    if is_reserved_filename_char(c) || is_control_char(c) { '_' } else { c }
}

/// Replaces reserved and control characters of a file name with `_`.
pub fn sanitize_filename(filename: &str) -> (r: String)
    ensures
        r@ == sanitized_name(filename@),
{
    let chars = str_chars(filename);
    let mut out = String::new();
    let mut i: usize = 0;
    while i < chars.len()
        invariant
            chars@ == filename@,
            i <= chars@.len(),
            out@ == filename@.subrange(0, i as int).map_values(|c: char| sanitized_char(c)),
        decreases chars@.len() - i,
    {
        let c = chars[i];
        let code = c as u32;
        let reserved = c == '<' || c == '>' || c == ':' || c == '"' || c == '/' || c == '\\' || c
            == '|' || c == '?' || c == '*';
        let control = code <= 0x1F || (0x7F <= code && code <= 0x9F);
        let d = if reserved || control { '_' } else { c };
        push_char(&mut out, d);
        i = i + 1;
        assert(out@ =~= filename@.subrange(0, i as int).map_values(|c: char| sanitized_char(c)));
    }
    assert(filename@.subrange(0, i as int) =~= filename@);
    out
}

/// A file name with each character sanitized.
pub open spec fn sanitized_name(name: Seq<char>) -> Seq<char> {
    name.map_values(|c: char| sanitized_char(c))
}

/// A sanitized file name is as long as the name and holds no reserved
/// and no control character; every other character is kept in place.
pub proof fn lemma_sanitized_name_is_clean(name: Seq<char>)
    ensures
        sanitized_name(name).len() == name.len(),
        forall|i: int|
            0 <= i < name.len() ==> {
                let c = #[trigger] sanitized_name(name)[i];
                &&& !is_reserved_filename_char(c)
                &&& !is_control_char(c)
                &&& (!is_reserved_filename_char(name[i]) && !is_control_char(name[i]) ==> c
                    == name[i])
            },
{
}

/// Sanitizing replaces exactly the nine characters `<`, `>`, `:`, `"`,
/// `/`, `\`, `|`, `?`, `*` and the control characters (U+0000 to U+001F,
/// U+007F to U+009F) with `_`; every other character, the space included,
/// stays in its place.
pub proof fn lemma_sanitize_exact(name: Seq<char>)
    ensures
        sanitized_name(name).len() == name.len(),
        forall|i: int|
            0 <= i < name.len() ==> {
                let c = name[i];
                let replaced = c == '<' || c == '>' || c == ':' || c == '"' || c == '/' || c
                    == '\\' || c == '|' || c == '?' || c == '*' || (c as u32) <= 0x1F || (0x7F
                    <= (c as u32) && (c as u32) <= 0x9F);
                #[trigger] sanitized_name(name)[i] == (if replaced { '_' } else { c })
            },
{
}

/// `pat` occurs in `s` at position `i`.
pub open spec fn occurs_at(s: Seq<char>, pat: Seq<char>, i: int) -> bool {
    0 <= i && i + pat.len() <= s.len() && s.subrange(i, i + pat.len()) == pat
}

/// The first position at or after `i` where `pat` occurs in `s`.
pub open spec fn find_from(s: Seq<char>, pat: Seq<char>, i: int) -> Option<int>
    decreases s.len() + 1 - i,
{
    if i < 0 || i + pat.len() > s.len() {
        None
    } else if occurs_at(s, pat, i) {
        Some(i)
    } else {
        find_from(s, pat, i + 1)
    }
}

/// The first position where `pat` occurs in `s` (as `str::find`, counted in
/// characters).
pub open spec fn find_first(s: Seq<char>, pat: Seq<char>) -> Option<int> {
    find_from(s, pat, 0)
}

/// The value of a string of decimal digits.
pub open spec fn digits_value(s: Seq<char>) -> nat
    decreases s.len(),
{
    if s.len() == 0 {
        0
    } else {
        digits_value(s.drop_last()) * 10 + ((s.last() as nat) - 48) as nat
    }
}

/// Every character is an ASCII digit.
pub open spec fn all_digits(s: Seq<char>) -> bool {
    forall|i: int| 0 <= i < s.len() ==> '0' <= #[trigger] s[i] && s[i] <= '9'
}

/// `u32`'s parsing of decimal text: an optional leading `+`, then one or more
/// digits whose value fits in 32 bits.
pub open spec fn parse_u32(s: Seq<char>) -> Option<u32> {
    let ds = if s.len() > 0 && s[0] == '+' { s.drop_first() } else { s };
    if ds.len() == 0 || !all_digits(ds) || digits_value(ds) > u32::MAX {
        None
    } else {
        Some(digits_value(ds) as u32)
    }
}

/// The application identifier in a store URL: the text after the first
/// `/app/` up to the first `/` (or, when there is none, the first `?`),
/// read as a `u32`.
pub open spec fn store_url_app_id(url: Seq<char>) -> Option<u32> {
    match find_first(url, seq!['/', 'a', 'p', 'p', '/']) {
        None => None,
        Some(start) => {
            let part = url.subrange(start + 5, url.len() as int);
            let end = match find_first(part, seq!['/']) {
                Some(e) => Some(e),
                None => find_first(part, seq!['?']),
            };
            match end {
                Some(e) => parse_u32(part.subrange(0, e)),
                None => parse_u32(part),
            }
        },
    }
}

/// The first position at or after `from` where `pat` occurs in `s`.
fn find_chars(s: &Vec<char>, pat: &Vec<char>, from: usize) -> (r: Option<usize>)
    requires
        from <= s@.len(),
    ensures
        r matches Some(k) ==> find_from(s@, pat@, from as int) == Some(k as int),
        r is None ==> find_from(s@, pat@, from as int) is None,
    decreases s@.len() - from,
{
    if pat.len() > s.len() - from {
        return None;
    }
    let mut k: usize = 0;
    while k < pat.len()
        invariant
            from + pat@.len() <= s.len(),
            s@.len() == s.len(),
            k <= pat@.len(),
            forall|j: int| 0 <= j < k ==> s@[from + j] == pat@[j],
        decreases pat@.len() - k,
    {
        if s[from + k] != pat[k] {
            assert(s@.subrange(from as int, from + pat@.len())[k as int] != pat@[k as int]);
            assert(!occurs_at(s@, pat@, from as int));
            if from == s.len() {
                return None;
            }
            return find_chars(s, pat, from + 1);
        }
        k = k + 1;
    }
    assert(s@.subrange(from as int, from + pat@.len()) =~= pat@);
    Some(from)
}

/// Parses `s[lo..hi]` as `u32` parses decimal text.
fn parse_u32_chars(s: &Vec<char>, lo: usize, hi: usize) -> (r: Option<u32>)
    requires
        lo <= hi <= s@.len(),
    ensures
        r == parse_u32(s@.subrange(lo as int, hi as int)),
{
    let ghost t = s@.subrange(lo as int, hi as int);
    let mut start = lo;
    if lo < hi && s[lo] == '+' {
        start = lo + 1;
    }
    let ghost ds = s@.subrange(start as int, hi as int);
    assert(ds =~= (if t.len() > 0 && t[0] == '+' { t.drop_first() } else { t }));
    if start == hi {
        return None;
    }
    let mut value: u32 = 0;
    let mut i = start;
    while i < hi
        invariant
            lo <= start < hi <= s@.len(),
            start <= i <= hi,
            ds == s@.subrange(start as int, hi as int),
            t == s@.subrange(lo as int, hi as int),
            ds == (if t.len() > 0 && t[0] == '+' { t.drop_first() } else { t }),
            all_digits(s@.subrange(start as int, i as int)),
            value == digits_value(s@.subrange(start as int, i as int)),
        decreases hi - i,
    {
        let c = s[i];
        assert(s@.subrange(start as int, i + 1).drop_last() =~= s@.subrange(start as int, i as int));
        if !('0' <= c && c <= '9') {
            assert(ds[i - start] == c);
            assert(!all_digits(ds));
            assert(t.len() > 0);
            assert(parse_u32(t) is None);
            return None;
        }
        let d = (c as u32) - 48;
        let next = (value as u64) * 10 + (d as u64);
        assert(next == digits_value(s@.subrange(start as int, i + 1)));
        if next > u32::MAX as u64 {
            proof {
                if all_digits(ds) {
                    lemma_digits_value_prefix_mono(ds, (i + 1 - start) as nat);
                    assert(ds.subrange(0, (i + 1 - start) as int) =~= s@.subrange(start as int, i + 1));
                }
            }
            assert(!all_digits(ds) || digits_value(ds) > u32::MAX);
            assert(t.len() > 0);
            assert(parse_u32(t) is None);
            return None;
        }
        value = next as u32;
        i = i + 1;
        assert(all_digits(s@.subrange(start as int, i as int)));
    }
    assert(s@.subrange(start as int, i as int) =~= ds);
    Some(value)
}

/// A digit string's value is at least the value of any of its prefixes.
proof fn lemma_digits_value_prefix_mono(s: Seq<char>, n: nat)
    requires
        n <= s.len(),
        all_digits(s),
    ensures
        digits_value(s.subrange(0, n as int)) <= digits_value(s),
    decreases s.len() - n,
{
    if n < s.len() {
        lemma_digits_value_prefix_mono(s, n + 1);
        let p = s.subrange(0, n + 1 as int);
        assert(p.drop_last() =~= s.subrange(0, n as int));
        assert('0' <= p.last());
    } else {
        assert(s.subrange(0, n as int) =~= s);
    }
}

/// Extracts the application identifier from a Steam store URL such as
/// `https://store.steampowered.com/app/730/...`.
pub fn parse_steam_store_url(url: &str) -> (r: Option<u32>)
    ensures
        r == store_url_app_id(url@),
{
    let s = str_chars(url);
    let pat = vec!['/', 'a', 'p', 'p', '/'];
    assert(pat@ =~= seq!['/', 'a', 'p', 'p', '/']);
    let slen = s.len();
    proof {
        lemma_find_from_bounds(s@, pat@, 0);
    }
    match find_chars(&s, &pat, 0) {
        None => None,
        Some(start) => {
            assert(start + 5 <= slen);
            let part = slice_chars(&s, start + 5);
            let ghost p = url@.subrange(start + 5, url@.len() as int);
            assert(part@ =~= p);
            let slash = vec!['/'];
            let question = vec!['?'];
            assert(slash@ =~= seq!['/']);
            assert(question@ =~= seq!['?']);
            let end = match find_chars(&part, &slash, 0) {
                Some(e) => Some(e),
                None => find_chars(&part, &question, 0),
            };
            match end {
                Some(e) => {
                    proof {
                        lemma_find_from_bounds(part@, if find_first(part@, seq!['/']) is Some { seq!['/'] } else { seq!['?'] }, 0);
                    }
                    parse_u32_chars(&part, 0, e)
                },
                None => {
                    assert(part@.subrange(0, part@.len() as int) =~= part@);
                    parse_u32_chars(&part, 0, part.len())
                },
            }
        },
    }
}

/// A found position lies within the string.
proof fn lemma_find_from_bounds(s: Seq<char>, pat: Seq<char>, i: int)
    ensures
        find_from(s, pat, i) matches Some(k) ==> i <= k && k + pat.len() <= s.len(),
    decreases s.len() + 1 - i,
{
    if i < 0 || i + pat.len() > s.len() {
    } else if occurs_at(s, pat, i) {
    } else {
        lemma_find_from_bounds(s, pat, i + 1);
    }
}

/// The search finds the first occurrence at or after `i`.
proof fn lemma_find_from_first(s: Seq<char>, pat: Seq<char>, i: int, k: int)
    requires
        0 <= i <= k,
        occurs_at(s, pat, k),
        forall|j: int| i <= j < k ==> !occurs_at(s, pat, j),
    ensures
        find_from(s, pat, i) == Some(k),
    decreases k - i,
{
    if i < k {
        lemma_find_from_first(s, pat, i + 1, k);
    }
}

/// The search finds nothing where nothing occurs.
proof fn lemma_find_from_none(s: Seq<char>, pat: Seq<char>, i: int)
    requires
        0 <= i,
        forall|j: int| i <= j ==> !occurs_at(s, pat, j),
    ensures
        find_from(s, pat, i) is None,
    decreases s.len() + 1 - i,
{
    if i + pat.len() <= s.len() {
        lemma_find_from_none(s, pat, i + 1);
    }
}

/// A one-character pattern occurs exactly where that character stands.
proof fn lemma_occurs_char(s: Seq<char>, c: char, j: int)
    ensures
        occurs_at(s, seq![c], j) == (0 <= j < s.len() && s[j] == c),
{
    if 0 <= j < s.len() {
        if s[j] == c {
            assert(s.subrange(j, j + 1) =~= seq![c]);
        } else {
            assert(s.subrange(j, j + 1)[0] != seq![c][0]);
        }
    }
}

/// The application identifier of a store URL is the decimal number right
/// after the first `/app/`; it ends where the URL ends, at a `/`, or, when
/// no `/` follows it, at a `?` that starts the query.
pub proof fn lemma_store_url_id(prefix: Seq<char>, digits: Seq<char>, rest: Seq<char>)
    requires
        forall|i: int|
            0 <= i < prefix.len() ==> !occurs_at(
                prefix + seq!['/', 'a', 'p', 'p', '/'],
                seq!['/', 'a', 'p', 'p', '/'],
                i,
            ),
        digits.len() > 0,
        all_digits(digits),
        digits_value(digits) <= u32::MAX,
        rest.len() == 0 || rest[0] == '/' || (rest[0] == '?' && forall|j: int|
            0 <= j < rest.len() ==> rest[j] != '/'),
    ensures
        store_url_app_id(prefix + seq!['/', 'a', 'p', 'p', '/'] + digits + rest) == Some(
            digits_value(digits) as u32,
        ),
{
    let a = seq!['/', 'a', 'p', 'p', '/'];
    let pa = prefix + a;
    let url = pa + digits + rest;
    let n = prefix.len() as int;
    assert forall|i: int| 0 <= i < n implies !occurs_at(url, a, i) by {
        assert(!occurs_at(pa, a, i));
        assert(url.subrange(i, i + 5) =~= pa.subrange(i, i + 5));
    }
    assert(url.subrange(n, n + 5) =~= a);
    lemma_find_from_first(url, a, 0, n);
    let part = url.subrange(n + 5, url.len() as int);
    assert(part =~= digits + rest);
    let dl = digits.len() as int;
    assert forall|j: int| 0 <= j < dl implies part[j] != '/' && part[j] != '?' by {
        assert(part[j] == digits[j]);
        assert('0' <= digits[j] && digits[j] <= '9');
    }
    assert(digits[0] != '+') by {
        assert('0' <= digits[0] && digits[0] <= '9');
    }
    assert(part.subrange(0, dl) =~= digits);
    if rest.len() == 0 {
        assert(part =~= digits);
        assert forall|j: int| 0 <= j implies !occurs_at(part, seq!['/'], j) by {
            lemma_occurs_char(part, '/', j);
        }
        assert forall|j: int| 0 <= j implies !occurs_at(part, seq!['?'], j) by {
            lemma_occurs_char(part, '?', j);
        }
        lemma_find_from_none(part, seq!['/'], 0);
        lemma_find_from_none(part, seq!['?'], 0);
    } else if rest[0] == '/' {
        assert forall|j: int| 0 <= j < dl implies !occurs_at(part, seq!['/'], j) by {
            lemma_occurs_char(part, '/', j);
        }
        lemma_occurs_char(part, '/', dl);
        lemma_find_from_first(part, seq!['/'], 0, dl);
    } else {
        assert forall|j: int| 0 <= j implies !occurs_at(part, seq!['/'], j) by {
            lemma_occurs_char(part, '/', j);
            if dl <= j < part.len() {
                assert(part[j] == rest[j - dl]);
            }
        }
        lemma_find_from_none(part, seq!['/'], 0);
        assert forall|j: int| 0 <= j < dl implies !occurs_at(part, seq!['?'], j) by {
            lemma_occurs_char(part, '?', j);
        }
        lemma_occurs_char(part, '?', dl);
        lemma_find_from_first(part, seq!['?'], 0, dl);
    }
}

/// The characters of `s` from position `from` on.
fn slice_chars(s: &Vec<char>, from: usize) -> (r: Vec<char>)
    requires
        from <= s@.len(),
    ensures
        r@ == s@.subrange(from as int, s@.len() as int),
{
    let mut r: Vec<char> = Vec::new();
    let mut i = from;
    while i < s.len()
        invariant
            from <= i <= s@.len(),
            r@ == s@.subrange(from as int, i as int),
        decreases s@.len() - i,
    {
        r.push(s[i]);
        i = i + 1;
        assert(r@ =~= s@.subrange(from as int, i as int));
    }
    r
}


/// An IP address, by its octets (IPv4) or its 16-bit segments (IPv6).
#[derive(Debug, Clone, Copy, PartialEq, Eq)]
pub enum IpAddress {
    V4([u8; 4]),
    V6([u16; 8]),
}

/// The masked text of an address: the first two parts in decimal, the rest
/// replaced by `XXX` (IPv4) or `XXXX` (IPv6).
pub open spec fn masked_ip_text(ip: IpAddress) -> Seq<char> {
    match ip {
        IpAddress::V4(o) => decimal(o@[0] as nat) + seq!['.'] + decimal(o@[1] as nat)
            + ".XXX.XXX"@,
        IpAddress::V6(g) => decimal(g@[0] as nat) + seq![':'] + decimal(g@[1] as nat)
            + ":XXXX:XXXX:XXXX:XXXX:XXXX:XXXX"@,
    }
}

/// Masks an IP address for display, keeping its first two parts.
pub fn mask_ip_address(ip: IpAddress) -> (s: String)
    ensures
        s@ == masked_ip_text(ip),
{
    let mut s = String::new();
    match ip {
        IpAddress::V4(o) => {
            push_decimal(&mut s, o[0] as u64);
            push_char(&mut s, '.');
            push_decimal(&mut s, o[1] as u64);
            s.append(".XXX.XXX");
        },
        IpAddress::V6(g) => {
            push_decimal(&mut s, g[0] as u64);
            push_char(&mut s, ':');
            push_decimal(&mut s, g[1] as u64);
            s.append(":XXXX:XXXX:XXXX:XXXX:XXXX:XXXX");
        },
    }
    assert(s@ =~= masked_ip_text(ip));
    s
}

/// The SHA-1 digest of a byte string.
pub uninterp spec fn sha1_digest(data: Seq<u8>) -> Seq<u8>;

/// The SHA-256 digest of a byte string.
pub uninterp spec fn sha256_digest(data: Seq<u8>) -> Seq<u8>;

/// The HMAC-SHA1 tag of a message under a key.
pub uninterp spec fn hmac_sha1_tag(key: Seq<u8>, data: Seq<u8>) -> Seq<u8>;

/// SHA-1 of `data` (`sha1::Sha1::digest`); the digest is 20 bytes long.
#[verifier::external_body]
fn sha1_digest_of(data: &[u8]) -> (d: Vec<u8>)
    ensures
        d@ == sha1_digest(data@),
        d@.len() == 20,
{
    Sha1::digest(data).to_vec()
}

/// SHA-256 of `data` (`sha2::Sha256::digest`); the digest is 32 bytes long.
#[verifier::external_body]
fn sha256_digest_of(data: &[u8]) -> (d: Vec<u8>)
    ensures
        d@ == sha256_digest(data@),
        d@.len() == 32,
{
    Sha256::digest(data).to_vec()
}

/// HMAC-SHA1 of `data` under `key` (`hmac::Hmac::<Sha1>::new_from_slice`,
/// then `update` and `finalize`). The key setup accepts keys of every length,
/// so the result is always `Ok`; the tag is 20 bytes long.
#[verifier::external_body]
fn hmac_sha1_of(key: &[u8], data: &[u8]) -> (r: Result<Vec<u8>, String>)
    ensures
        r is Ok,
        r matches Ok(t) ==> t@ == hmac_sha1_tag(key@, data@),
        r matches Ok(t) ==> t@.len() == 20,
{
    match Hmac::<Sha1>::new_from_slice(key) {
        Ok(mut mac) => {
            mac.update(data);
            Ok(mac.finalize().into_bytes().to_vec())
        },
        Err(e) => Err(e.to_string()),
    }
}

/// SHA-1 digest of `data`.
pub fn sha1_hash(data: &[u8]) -> (d: Vec<u8>)
    ensures
        d@ == sha1_digest(data@),
        d@.len() == 20,
{
    sha1_digest_of(data)
}

/// SHA-256 digest of `data`.
pub fn sha256_hash(data: &[u8]) -> (d: Vec<u8>)
    ensures
        d@ == sha256_digest(data@),
        d@.len() == 32,
{
    sha256_digest_of(data)
}

/// HMAC-SHA1 tag of `data` under `key`.
pub fn hmac_sha1(key: &[u8], data: &[u8]) -> (r: Result<Vec<u8>, SteamError>)
    ensures
        r matches Ok(t) && t@ == hmac_sha1_tag(key@, data@) && t@.len() == 20,
{
    match hmac_sha1_of(key, data) {
        Ok(t) => Ok(t),
        Err(detail) => {
            let mut message = String::from_str("Failed to create HMAC: ");
            message.append(detail.as_str());
            Err(SteamError::Crypto(message))
        },
    }
}

/// The job identifier for a timestamp and a counter value: the low 32 bits
/// of the timestamp in the high half, the counter in the low half.
pub open spec fn job_id_of(timestamp: u64, counter: u32) -> nat {
    (timestamp as nat % 0x1_0000_0000) * 0x1_0000_0000 + counter as nat
}

/// Combines a timestamp and a counter value into a job identifier.
pub fn job_id(timestamp: u64, counter: u32) -> (id: u64)
    ensures
        id as nat == job_id_of(timestamp, counter),
{
    let c = counter as u64;
    let id = (timestamp << 32u64) | c;
    assert(c < 0x1_0000_0000 ==> (timestamp << 32u64) | c == (timestamp % 0x1_0000_0000) * 0x1_0000_0000 + c)
        by (bit_vector);
    id
}

/// The next value of a job counter, wrapping at `2^32`.
pub open spec fn next_counter(c: u32) -> u32 {
    ((c as nat + 1) % 0x1_0000_0000) as u32
}

/// Creates a job identifier from the current time and the next value of
/// `counter`, which it advances.
pub fn create_job_id(counter: &mut u32) -> (id: u64)
    ensures
        *final(counter) == next_counter(*old(counter)),
        id as nat % 0x1_0000_0000 == *final(counter),
{
    let next = if *counter == u32::MAX { 0 } else { *counter + 1 };
    *counter = next;
    let timestamp = get_unix_timestamp();
    let id = job_id(timestamp, next);
    assert(id as nat % 0x1_0000_0000 == next) by (nonlinear_arith)
        requires
            id as nat == (timestamp as nat % 0x1_0000_0000) * 0x1_0000_0000 + next as nat,
            next < 0x1_0000_0000,
    ;
    id
}

/// Longest delay between retries, in milliseconds.
pub const MAX_RETRY_DELAY_MS: u64 = 60_000;

/// The delay after `delay_ms`: doubled, capped at sixty seconds.
pub open spec fn next_retry_delay(delay_ms: u64) -> u64 {
    if 2 * delay_ms > MAX_RETRY_DELAY_MS { MAX_RETRY_DELAY_MS } else { (2 * delay_ms) as u64 }
}

/// Backoff delays double until they would pass sixty seconds, and from then
/// on stay at sixty seconds.
pub proof fn lemma_retry_delay_capped(delay_ms: u64)
    ensures
        next_retry_delay(delay_ms) <= MAX_RETRY_DELAY_MS,
        delay_ms <= MAX_RETRY_DELAY_MS / 2 ==> next_retry_delay(delay_ms) == 2 * delay_ms,
        delay_ms > MAX_RETRY_DELAY_MS / 2 ==> next_retry_delay(delay_ms) == MAX_RETRY_DELAY_MS,
{
}

/// What to do after a failed attempt.
#[derive(Debug, Clone, Copy, PartialEq, Eq, Structural)]
pub enum RetryAction {
    /// Report the last failure.
    GiveUp,
    /// Wait this many milliseconds, then try again.
    RetryAfter(u64),
}

/// Exponential backoff: up to `max_attempts` attempts, waiting between them
/// a delay that starts at the initial delay and doubles up to sixty seconds.
#[derive(Debug, Clone, Copy, PartialEq, Eq, Structural)]
pub struct RetryPolicy {
    pub attempt: u32,
    pub max_attempts: u32,
    pub delay_ms: u64,
}

impl RetryPolicy {
    /// A policy before its first attempt.
    pub fn new(max_attempts: u32, initial_delay_ms: u64) -> (p: RetryPolicy)
        ensures
            p.attempt == 0,
            p.max_attempts == max_attempts,
            p.delay_ms == initial_delay_ms,
    {
        RetryPolicy { attempt: 0, max_attempts, delay_ms: initial_delay_ms }
    }

    /// Starts the next attempt; `false` when every attempt has been used.
    pub fn begin_attempt(&mut self) -> (started: bool)
        ensures
            started == (old(self).attempt < old(self).max_attempts),
            started ==> final(self).attempt == old(self).attempt + 1,
            !started ==> final(self).attempt == old(self).attempt,
            final(self).max_attempts == old(self).max_attempts,
            final(self).delay_ms == old(self).delay_ms,
    {
        if self.attempt < self.max_attempts {
            self.attempt = self.attempt + 1;
            true
        } else {
            false
        }
    }

    /// Decides after a failed attempt: give up after the last attempt,
    /// otherwise wait the current delay and double it (capped).
    pub fn on_failure(&mut self) -> (a: RetryAction)
        ensures
            old(self).attempt >= old(self).max_attempts ==> a == RetryAction::GiveUp
                && *final(self) == *old(self),
            old(self).attempt < old(self).max_attempts ==> a == RetryAction::RetryAfter(
                old(self).delay_ms,
            ) && final(self).delay_ms == next_retry_delay(old(self).delay_ms)
                && final(self).attempt == old(self).attempt && final(self).max_attempts
                == old(self).max_attempts,
    {
        if self.attempt >= self.max_attempts {
            return RetryAction::GiveUp;
        }
        let wait = self.delay_ms;
        self.delay_ms = if self.delay_ms > MAX_RETRY_DELAY_MS / 2 {
            MAX_RETRY_DELAY_MS
        } else {
            2 * self.delay_ms
        };
        RetryAction::RetryAfter(wait)
    }
}

/// A token bucket: up to `max_tokens` acquisitions, refilled in full once
/// `refill_rate_ms` milliseconds have passed since the last refill.
/// Times are milliseconds on a monotonic clock.
#[derive(Debug, Clone, Copy, PartialEq, Eq, Structural)]
pub struct RateLimiter {
    tokens: u32,
    max_tokens: u32,
    refill_rate_ms: u64,
    last_refill_ms: u64,
}

/// Whether an acquisition at `now_ms` finds the refill period passed since
/// the last refill.
pub open spec fn refill_due(l: RateLimiter, now_ms: u64) -> bool {
    now_ms >= l.last_refill_ms() && now_ms - l.last_refill_ms() >= l.refill_rate_ms()
}

/// The tokens an acquisition at `now_ms` finds: a full bucket when the
/// refill is due, otherwise what is left.
pub open spec fn tokens_at(l: RateLimiter, now_ms: u64) -> u32 {
    if refill_due(l, now_ms) { l.max_tokens() } else { l.tokens() }
}

/// How many of a series of acquisitions, at the given times in order, are
/// granted.
pub open spec fn grants(l: RateLimiter, times: Seq<u64>) -> nat
    decreases times.len(),
{
    if times.len() == 0 {
        0
    } else {
        (if tokens_at(l, times[0]) > 0 { 1nat } else { 0nat }) + grants(
            l.after_acquire(times[0]),
            times.drop_first(),
        )
    }
}

/// Within one refill period no more acquisitions are granted than the bucket
/// holds: when every acquisition happens at or after the last refill and
/// before the period has passed, at most `tokens` of them are granted.
pub proof fn lemma_grants_within_period(l: RateLimiter, times: Seq<u64>)
    requires
        l.wf(),
        forall|i: int|
            0 <= i < times.len() ==> l.last_refill_ms() <= #[trigger] times[i] && times[i]
                - l.last_refill_ms() < l.refill_rate_ms(),
    ensures
        grants(l, times) <= l.tokens(),
    decreases times.len(),
{
    if times.len() > 0 {
        let t = times[0];
        let next = l.after_acquire(t);
        assert(!refill_due(l, t));
        assert(next.last_refill_ms() == l.last_refill_ms());
        assert forall|i: int| 0 <= i < times.drop_first().len() implies next.last_refill_ms()
            <= #[trigger] times.drop_first()[i] && times.drop_first()[i] - next.last_refill_ms()
            < next.refill_rate_ms() by {
            assert(times.drop_first()[i] == times[i + 1]);
        }
        lemma_grants_within_period(next, times.drop_first());
    }
}

impl RateLimiter {
    pub closed spec fn tokens(self) -> u32 {
        self.tokens
    }

    pub closed spec fn max_tokens(self) -> u32 {
        self.max_tokens
    }

    pub closed spec fn refill_rate_ms(self) -> u64 {
        self.refill_rate_ms
    }

    pub closed spec fn last_refill_ms(self) -> u64 {
        self.last_refill_ms
    }

    /// The bucket never holds more than its capacity.
    pub open spec fn wf(self) -> bool {
        self.tokens() <= self.max_tokens()
    }

    /// A full bucket, last refilled at `now_ms`.
    pub fn new(max_tokens: u32, refill_rate_ms: u64, now_ms: u64) -> (l: RateLimiter)
        ensures
            l.wf(),
            l.tokens() == max_tokens,
            l.max_tokens() == max_tokens,
            l.refill_rate_ms() == refill_rate_ms,
            l.last_refill_ms() == now_ms,
    {
        RateLimiter { tokens: max_tokens, max_tokens, refill_rate_ms, last_refill_ms: now_ms }
    }

    /// The bucket after an acquisition at `now_ms`.
    pub closed spec fn after_acquire(self, now_ms: u64) -> RateLimiter {
        let available = tokens_at(self, now_ms);
        RateLimiter {
            tokens: if available > 0 { (available - 1) as u32 } else { 0 },
            max_tokens: self.max_tokens,
            refill_rate_ms: self.refill_rate_ms,
            last_refill_ms: if refill_due(self, now_ms) { now_ms } else { self.last_refill_ms },
        }
    }

    /// Takes a token at time `now_ms`, refilling first when the refill period
    /// has passed; `false` when the bucket is empty.
    pub fn acquire(&mut self, now_ms: u64) -> (granted: bool)
        requires
            old(self).wf(),
        ensures
            final(self).wf(),
            granted == (tokens_at(*old(self), now_ms) > 0),
            *final(self) == old(self).after_acquire(now_ms),
            final(self).max_tokens() == old(self).max_tokens(),
            final(self).refill_rate_ms() == old(self).refill_rate_ms(),
            final(self).last_refill_ms() == (if refill_due(*old(self), now_ms) {
                now_ms
            } else {
                old(self).last_refill_ms()
            }),
            final(self).tokens() == (if granted {
                (tokens_at(*old(self), now_ms) - 1) as u32
            } else {
                0
            }),
    {
        self.refill_tokens(now_ms);
        if self.tokens > 0 {
            self.tokens = self.tokens - 1;
            true
        } else {
            false
        }
    }

    fn refill_tokens(&mut self, now_ms: u64)
        requires
            old(self).wf(),
        ensures
            final(self).wf(),
            final(self).max_tokens == old(self).max_tokens,
            final(self).refill_rate_ms == old(self).refill_rate_ms,
            ({
                let refilled = now_ms >= old(self).last_refill_ms && now_ms
                    - old(self).last_refill_ms >= old(self).refill_rate_ms;
                &&& refilled ==> final(self).tokens == old(self).max_tokens
                    && final(self).last_refill_ms == now_ms
                &&& !refilled ==> final(self).tokens == old(self).tokens
                    && final(self).last_refill_ms == old(self).last_refill_ms
            }),
    {
        let elapsed = if now_ms >= self.last_refill_ms { now_ms - self.last_refill_ms } else { 0 };
        if now_ms >= self.last_refill_ms && elapsed >= self.refill_rate_ms {
            self.tokens = self.max_tokens;
            self.last_refill_ms = now_ms;
        }
    }
}

} // verus!
