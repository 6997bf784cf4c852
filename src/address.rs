//! Content addresses of customer accounts.
use vstd::prelude::*;

verus! {

/// The 512-bit digest of a byte string, as produced by rust-crypto's SHA-512.
pub uninterp spec fn sha512_of(data: Seq<u8>) -> Seq<u8>;

/// Relies on `crypto::sha2::Sha512` (`Digest::input` then `Digest::result`):
/// the result is the 64-byte SHA-512 digest of `data`.
#[verifier::external_body]
pub(crate) fn sha512(data: &[u8]) -> (r: Vec<u8>)
    ensures
        r@ == sha512_of(data@),
        r@.len() == 64,
{
    let mut sha = crypto::sha2::Sha512::new();
    crypto::digest::Digest::input(&mut sha, data);
    let mut out = vec![0u8; 64];
    crypto::digest::Digest::result(&mut sha, &mut out);
    out
}

/// Relies on `String::push`: appends one character.
#[verifier::external_body]
pub(crate) fn push_char(s: &mut String, c: char)
    ensures
        final(s)@ == old(s)@.push(c),
{
    s.push(c)
}

/// The lowercase hexadecimal digit of a value below sixteen.
pub open spec fn hex_digit(d: int) -> char {
    if d < 10 {
        ((48 + d) as u8) as char
    } else {
        ((87 + d) as u8) as char
    }
}

pub open spec fn is_lower_hex(c: char) -> bool {
    ('0' <= c && c <= '9') || ('a' <= c && c <= 'f')
}

/// Two lowercase hex digits per byte, high nibble first.
pub open spec fn hex_of(b: Seq<u8>) -> Seq<char> {
    Seq::new(
        2 * b.len(),
        |i: int|
            if i % 2 == 0 {
                hex_digit(b[i / 2] as int / 16)
            } else {
                hex_digit(b[i / 2] as int % 16)
            },
    )
}

/// The ASCII decimal representation of `n`, without leading zeros.
pub open spec fn decimal_ascii(n: nat) -> Seq<u8>
    decreases n,
{
    if n < 10 {
        seq![(48 + n) as u8]
    } else {
        decimal_ascii(n / 10).push((48 + n % 10) as u8)
    }
}

/// The namespace prefix of every Smallbank address.
pub open spec fn namespace_prefix() -> Seq<char> {
    seq!['3', '3', '2', '5', '1', '4']
}

/// The address of a customer: the namespace prefix followed by the first
/// 32 hex characters of the SHA-512 digest of the customer id in decimal.
pub open spec fn address_of(customer_id: u32) -> Seq<char> {
    namespace_prefix() + hex_of(sha512_of(decimal_ascii(customer_id as nat))).take(32)
}

proof fn lemma_hex_digit(d: int)
    requires
        0 <= d < 16,
    ensures
        is_lower_hex(hex_digit(d)),
{
}

fn hex_char(d: u8) -> (c: char)
    requires
        d < 16,
    ensures
        c == hex_digit(d as int),
{
    if d < 10 {
        (48 + d) as char
    } else {
        (87 + d) as char
    }
}

/// Appends the hex encoding of the first `n` bytes of `b`.
fn push_hex(s: &mut String, b: &[u8], n: usize)
    requires
        n <= b@.len(),
    ensures
        final(s)@ == old(s)@ + hex_of(b@.take(n as int)),
{
    let ghost start = s@;
    let mut i: usize = 0;
    while i < n
        invariant
            i <= n <= b@.len(),
            s@ =~= start + hex_of(b@.take(i as int)),
        decreases n - i,
    {
        let byte = b[i];
        push_char(s, hex_char(byte / 16));
        push_char(s, hex_char(byte % 16));
        i = i + 1;
        assert(s@ =~= start + hex_of(b@.take(i as int)));
    }
}

/// Lowercase hex encoding of a byte string.
pub fn bytes_to_hex_str(b: &[u8]) -> (r: String)
    ensures
        r@ == hex_of(b@),
{
    let mut s = String::new();
    push_hex(&mut s, b, b.len());
    assert(b@.take(b@.len() as int) =~= b@);
    assert(s@ =~= hex_of(b@));
    s
}

/// The first `2 * n` characters of a hex encoding are the encoding of the
/// first `n` bytes.
proof fn lemma_hex_prefix(b: Seq<u8>, n: int)
    requires
        0 <= n <= b.len(),
    ensures
        hex_of(b).take(2 * n) =~= hex_of(b.take(n)),
{
}

proof fn lemma_hex_chars(b: Seq<u8>)
    ensures
        forall|i: int| 0 <= i < hex_of(b).len() ==> is_lower_hex(#[trigger] hex_of(b)[i]),
{
    assert forall|i: int| 0 <= i < hex_of(b).len() implies is_lower_hex(#[trigger] hex_of(b)[i]) by {
        lemma_hex_digit(b[i / 2] as int / 16);
        lemma_hex_digit(b[i / 2] as int % 16);
    }
}

/// Appends the ASCII decimal digits of `n`.
fn push_decimal_ascii(v: &mut Vec<u8>, n: u32)
    ensures
        final(v)@ == old(v)@ + decimal_ascii(n as nat),
    decreases n,
{
    if n >= 10 {
        push_decimal_ascii(v, n / 10);
    }
    v.push(48 + (n % 10) as u8);
    assert(final(v)@ =~= old(v)@ + decimal_ascii(n as nat));
}

/// The content address of a customer account: 38 lowercase hex characters.
pub fn customer_id_address(customer_id: u32) -> (r: String)
    ensures
        r@ == address_of(customer_id),
        r@.len() == 38,
        forall|i: int| 0 <= i < r@.len() ==> is_lower_hex(#[trigger] r@[i]),
{
    let mut digits: Vec<u8> = Vec::new();
    push_decimal_ascii(&mut digits, customer_id);
    assert(digits@ =~= decimal_ascii(customer_id as nat));
    let digest = sha512(digits.as_slice());
    let mut s = String::new();
    push_char(&mut s, '3');
    push_char(&mut s, '3');
    push_char(&mut s, '2');
    push_char(&mut s, '5');
    push_char(&mut s, '1');
    push_char(&mut s, '4');
    assert(s@ =~= namespace_prefix());
    push_hex(&mut s, digest.as_slice(), 16);
    proof {
        lemma_hex_prefix(digest@, 16);
        lemma_hex_chars(digest@.take(16));
    }
    s
}

} // verus!
