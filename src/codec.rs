//! Byte and text helpers used when reading program logs and instruction data.
use base64::engine::general_purpose;
use base64::Engine;
use crate::assembler::Pubkey;
use vstd::prelude::*;
use vstd::string::StringExecFns;
use vstd::string::StringSliceAdditionalSpecFns;

verus! {

/// The number `256^n`.
pub open spec fn pow256(n: nat) -> nat
    decreases n,
{
    if n == 0 {
        1
    } else {
        256 * pow256((n - 1) as nat)
    }
}

/// The unsigned number whose little-endian encoding is `s`.
pub open spec fn le_value(s: Seq<u8>) -> nat
    decreases s.len(),
{
    if s.len() == 0 {
        0
    } else {
        s[0] as nat + 256 * le_value(s.drop_first())
    }
}

pub proof fn lemma_pow256_monotone(a: nat, b: nat)
    requires
        a <= b,
    ensures
        1 <= pow256(a) <= pow256(b),
    decreases b,
{
    if b > 0 {
        if a < b {
            lemma_pow256_monotone(a, (b - 1) as nat);
        } else {
            lemma_pow256_monotone((a - 1) as nat, (b - 1) as nat);
        }
    }
}

proof fn lemma_pow256_values()
    ensures
        pow256(2) == 0x1_0000,
        pow256(4) == 0x1_0000_0000,
        pow256(8) == 0x1_0000_0000_0000_0000,
{
    assert(pow256(0) == 1);
    assert(pow256(1) == 0x100);
    assert(pow256(2) == 0x1_0000);
    assert(pow256(3) == 0x100_0000);
    assert(pow256(4) == 0x1_0000_0000);
    assert(pow256(5) == 0x100_0000_0000);
    assert(pow256(6) == 0x1_0000_0000_0000);
    assert(pow256(7) == 0x100_0000_0000_0000);
    assert(pow256(8) == 0x1_0000_0000_0000_0000);
}

proof fn lemma_le_value_bound(s: Seq<u8>)
    ensures
        le_value(s) < pow256(s.len()),
    decreases s.len(),
{
    if s.len() > 0 {
        let t = s.drop_first();
        lemma_le_value_bound(t);
        let v = le_value(t);
        let p = pow256(t.len());
        let b = s[0] as nat;
        assert(b + 256 * v < 256 * p) by (nonlinear_arith)
            requires
                b < 256,
                v < p,
        ;
    }
}

/// Reads the little-endian number of `width` bytes that starts at `offset`.
fn read_le(data: &[u8], offset: usize, width: usize) -> (r: u64)
    requires
        1 <= width <= 8,
        offset + width <= data@.len(),
    ensures
        r as nat == le_value(data@.subrange(offset as int, offset + width)),
{
    let ghost s = data@.subrange(offset as int, offset + width);
    proof {
        lemma_le_value_bound(s);
        lemma_pow256_monotone(width as nat, 8);
        lemma_pow256_values();
    }
    let len = data.len();
    let mut acc: u64 = 0;
    let mut k: usize = width;
    while k > 0
        invariant
            len == data@.len(),
            0 <= k <= width,
            width <= 8,
            offset + width <= data@.len(),
            s == data@.subrange(offset as int, offset + width),
            acc as nat == le_value(s.subrange(k as int, width as int)),
        decreases k,
    {
        let ghost tail = s.subrange(k as int, width as int);
        let ghost longer = s.subrange(k - 1, width as int);
        proof {
            assert(longer.drop_first() =~= tail);
            lemma_le_value_bound(longer);
            lemma_pow256_monotone(longer.len(), 8);
            lemma_pow256_values();
        }
        let b = data[offset + k - 1];
        assert(b == longer[0]);
        acc = acc * 256 + b as u64;
        k = k - 1;
    }
    assert(s.subrange(0, width as int) =~= s);
    acc
}

/// Reads a little-endian `u64` at `offset`, if eight bytes are there.
pub fn read_u64_le(data: &[u8], offset: usize) -> (r: Option<u64>)
    ensures
        offset + 8 <= data@.len() ==> r == Some(
            le_value(data@.subrange(offset as int, offset + 8)) as u64,
        ),
        offset + 8 > data@.len() ==> r is None,
{
    if offset > data.len() || data.len() - offset < 8 {
        return None;
    }
    Some(read_le(data, offset, 8))
}

/// Reads a little-endian `u32` at `offset`, if four bytes are there.
pub fn read_u32_le(data: &[u8], offset: usize) -> (r: Option<u32>)
    ensures
        offset + 4 <= data@.len() ==> r == Some(
            le_value(data@.subrange(offset as int, offset + 4)) as u32,
        ),
        offset + 4 > data@.len() ==> r is None,
{
    if offset > data.len() || data.len() - offset < 4 {
        return None;
    }
    let v = read_le(data, offset, 4);
    proof {
        lemma_le_value_bound(data@.subrange(offset as int, offset + 4));
        lemma_pow256_values();
    }
    Some(v as u32)
}

/// Reads a little-endian `u16` at `offset`, if two bytes are there.
pub fn read_u16_le(data: &[u8], offset: usize) -> (r: Option<u16>)
    ensures
        offset + 2 <= data@.len() ==> r == Some(
            le_value(data@.subrange(offset as int, offset + 2)) as u16,
        ),
        offset + 2 > data@.len() ==> r is None,
{
    if offset > data.len() || data.len() - offset < 2 {
        return None;
    }
    let v = read_le(data, offset, 2);
    proof {
        lemma_le_value_bound(data@.subrange(offset as int, offset + 2));
        lemma_pow256_values();
    }
    Some(v as u16)
}

/// Reads one byte at `offset`, if the slice holds that position.
pub fn read_u8(data: &[u8], offset: usize) -> (r: Option<u8>)
    ensures
        offset < data@.len() ==> r == Some(data@[offset as int]),
        offset >= data@.len() ==> r is None,
{
    if offset < data.len() {
        Some(data[offset])
    } else {
        None
    }
}

/// Whether every index names one of `account_count` accounts.
pub fn validate_account_indices(indices: &[u8], account_count: usize) -> (r: bool)
    ensures
        r == forall|i: int| 0 <= i < indices@.len() ==> (#[trigger] indices@[i] as nat) < account_count,
{
    let mut i: usize = 0;
    while i < indices.len()
        invariant
            0 <= i <= indices@.len(),
            forall|j: int| 0 <= j < i ==> (#[trigger] indices@[j] as nat) < account_count,
        decreases indices@.len() - i,
    {
        if (indices[i] as usize) >= account_count {
            return false;
        }
        i = i + 1;
    }
    true
}

/// Splits `data` into its first `length` bytes (the discriminator) and the rest.
pub fn extract_discriminator(length: usize, data: &[u8]) -> (r: Option<(&[u8], &[u8])>)
    ensures
        length > data@.len() ==> r is None,
        length <= data@.len() ==> (r matches Some((head, rest)) && head@ == data@.subrange(
            0,
            length as int,
        ) && rest@ == data@.subrange(length as int, data@.len() as int)),
{
    if data.len() < length {
        return None;
    }
    Some(data.split_at(length))
}

/// Whether the text of `data` begins with the text of `expected`.
pub fn discriminator_matches(data: &str, expected: &str) -> (r: bool)
    ensures
        r == expected.spec_bytes().is_prefix_of(data.spec_bytes()),
{
    let d = data.as_bytes();
    let e = expected.as_bytes();
    if d.len() < e.len() {
        return false;
    }
    let mut i: usize = 0;
    while i < e.len()
        invariant
            d@ == data.spec_bytes(),
            e@ == expected.spec_bytes(),
            e@.len() <= d@.len(),
            0 <= i <= e@.len(),
            forall|j: int| 0 <= j < i ==> d@[j] == e@[j],
        decreases e@.len() - i,
    {
        if d[i] != e[i] {
            assert(d@.subrange(0, e@.len() as int)[i as int] != e@[i as int]);
            return false;
        }
        i = i + 1;
    }
    assert(e@ =~= d@.subrange(0, e@.len() as int));
    true
}

/// The text of `log` after `prefix`, if `log` begins with it.
pub fn extract_program_log<'a>(log: &'a str, prefix: &str) -> (r: Option<&'a str>)
    ensures
        prefix@.is_prefix_of(log@) ==> (r matches Some(rest) && rest@ == log@.subrange(
            prefix@.len() as int,
            log@.len() as int,
        )),
        !prefix@.is_prefix_of(log@) ==> r is None,
{
    let n = log.unicode_len();
    let m = prefix.unicode_len();
    if n < m {
        return None;
    }
    let mut i: usize = 0;
    while i < m
        invariant
            n == log@.len(),
            m == prefix@.len(),
            m <= n,
            0 <= i <= m,
            forall|j: int| 0 <= j < i ==> log@[j] == prefix@[j],
        decreases m - i,
    {
        if log.get_char(i) != prefix.get_char(i) {
            return None;
        }
        i = i + 1;
    }
    assert(prefix@ =~= log@.subrange(0, m as int));
    Some(log.substring_char(m, n))
}

/// The text of a "Program data: " log line after that marker.
pub fn extract_program_data(log: &str) -> (r: Option<&str>)
    ensures
        "Program data: "@.is_prefix_of(log@) ==> (r matches Some(rest) && rest@ == log@.subrange(
            "Program data: "@.len() as int,
            log@.len() as int,
        )),
        !"Program data: "@.is_prefix_of(log@) ==> r is None,
{
    extract_program_log(log, "Program data: ")
}

/// An owned copy of a text.
pub(crate) fn string_of(s: &str) -> (r: String)
    ensures
        r@ == s@,
{
    String::from_str(s)
}

/// Relies on `SystemTime::now` and `duration_since(UNIX_EPOCH)`: whole
/// seconds since the Unix epoch, `None` where the clock reads earlier.
#[verifier::external_body]
fn unix_seconds() -> (r: Option<u64>) {
    match std::time::SystemTime::now().duration_since(std::time::UNIX_EPOCH) {
        Ok(d) => Some(d.as_secs()),
        Err(_) => None,
    }
}

/// A clock reading in whole seconds as a signed timestamp: readings past the
/// signed range saturate, and a clock before the epoch reads as the epoch.
pub fn timestamp_from(seconds: Option<u64>) -> (r: i64)
    ensures
        seconds matches Some(s) ==> r == (if s <= i64::MAX as u64 { s as i64 } else { i64::MAX }),
        seconds is None ==> r == 0,
{
    match seconds {
        Some(s) => if s <= i64::MAX as u64 {
            s as i64
        } else {
            i64::MAX
        },
        None => 0,
    }
}

/// The current time in whole seconds since the Unix epoch.
pub fn current_timestamp() -> (r: i64)
    ensures
        r >= 0,
{
    timestamp_from(unix_seconds())
}

/// The standard base64 text of a byte string.
pub uninterp spec fn base64_of(b: Seq<u8>) -> Seq<char>;

/// What standard base64 decoding makes of a text: `None` where the text is
/// not valid standard base64.
pub uninterp spec fn base64_decoded(s: Seq<char>) -> Option<Seq<u8>>;

#[verifier::external_type_specification]
#[verifier::external_body]
pub struct ExDecodeError(base64::DecodeError);

/// Relies on base64's `STANDARD.encode`: the padded standard base64 text,
/// `4 * ceil(n / 3)` characters long.
#[verifier::external_body]
pub fn encode_base64(data: &[u8]) -> (r: String)
    requires
        data@.len() <= 0x1000_0000_0000,
    ensures
        r@ == base64_of(data@),
        r@.len() == 4 * ((data@.len() + 2) / 3),
{
    general_purpose::STANDARD.encode(data)
}

/// Relies on base64's `STANDARD.decode`: the bytes that the text stands for,
/// or the decoding error.
#[verifier::external_body]
pub fn decode_base64(data: &str) -> (r: Result<Vec<u8>, base64::DecodeError>)
    ensures
        r is Ok <==> base64_decoded(data@) is Some,
        r matches Ok(v) ==> base64_decoded(data@) == Some(v@),
{
    general_purpose::STANDARD.decode(data)
}

/// The base58 text of a byte string, as account addresses are written.
pub uninterp spec fn base58_of(b: Seq<u8>) -> Seq<char>;

/// The 32 bytes that a base58 address text stands for; `None` where the text
/// is not base58 or does not stand for exactly 32 bytes.
pub uninterp spec fn base58_decoded(s: Seq<char>) -> Option<Seq<u8>>;

/// Relies on solana-pubkey's `Display` for `Pubkey`: the base58 text of the
/// address bytes, at most 44 characters.
#[verifier::external_body]
pub(crate) fn pubkey_text(key: &Pubkey) -> (r: String)
    ensures
        r@ == base58_of(key.bytes@),
        r@.len() <= 44,
{
    solana_sdk::pubkey::Pubkey::new_from_array(key.bytes).to_string()
}

/// Relies on solana-pubkey's `FromStr` for `Pubkey`: the address a base58
/// text stands for, if it stands for one.
#[verifier::external_body]
pub(crate) fn parse_pubkey(s: &str) -> (r: Option<Pubkey>)
    ensures
        r is Some <==> base58_decoded(s@) is Some,
        r matches Some(k) ==> base58_decoded(s@) == Some(k.bytes@),
{
    match s.parse::<solana_sdk::pubkey::Pubkey>() {
        Ok(k) => Some(Pubkey { bytes: k.to_bytes() }),
        Err(_) => None,
    }
}

/// A text shortened for logs: kept whole up to 8 characters, else its first
/// four and last four characters around an ellipsis.
pub open spec fn shortened(s: Seq<char>) -> Seq<char> {
    if s.len() <= 8 {
        s
    } else {
        s.subrange(0, 4) + "..."@ + s.subrange(s.len() - 4, s.len() as int)
    }
}

/// Shortens a text for logs.
pub fn shorten(s: &str) -> (r: String)
    ensures
        r@ == shortened(s@),
{
    let n = s.unicode_len();
    if n <= 8 {
        return string_of(s);
    }
    let mut r = string_of(s.substring_char(0, 4));
    r.append("...");
    r.append(s.substring_char(n - 4, n));
    r
}

/// An address written short for logs: the first and last four characters of
/// its base58 text.
pub fn format_pubkey_short(pubkey: &Pubkey) -> (r: String)
    ensures
        r@ == shortened(base58_of(pubkey.bytes@)),
{
    let text = pubkey_text(pubkey);
    shorten(text.as_str())
}

} // verus!
