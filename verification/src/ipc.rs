//! The local IPC socket's wire rules: the little-endian length prefix that
//! frames every JSON payload, and the loopback-port derivation used where
//! the socket is a TCP port picked from a filesystem path.
//!
//! The socket itself (connect, read, write) lives outside the library;
//! these functions work on the plain bytes that cross it.

use vstd::prelude::*;
use vstd::string::StringSliceAdditionalSpecFns;

verus! {

/// Lowest port of the dynamic/private range that the hash maps into.
pub const PORT_RANGE_START: u32 = 49152;

/// Number of ports in the dynamic/private range.
pub const PORT_RANGE_LEN: u32 = 16384;

/// The value of eight bytes read as a little-endian 64-bit integer.
pub open spec fn le_value(s: Seq<u8>) -> u64
    recommends
        s.len() == 8,
{
    (s[0] as u64) | ((s[1] as u64) << 8) | ((s[2] as u64) << 16) | ((s[3] as u64) << 24) | ((
    s[4] as u64) << 32) | ((s[5] as u64) << 40) | ((s[6] as u64) << 48) | ((s[7] as u64) << 56)
}

/// Encodes a payload length as the eight little-endian bytes that prefix a
/// framed message.
pub fn length_prefix(len: u64) -> (r: Vec<u8>)
    ensures
        r@.len() == 8,
        le_value(r@) == len,
{
    let b0: u8 = (len & 0xff) as u8;
    let b1: u8 = ((len >> 8) & 0xff) as u8;
    let b2: u8 = ((len >> 16) & 0xff) as u8;
    let b3: u8 = ((len >> 24) & 0xff) as u8;
    let b4: u8 = ((len >> 32) & 0xff) as u8;
    let b5: u8 = ((len >> 40) & 0xff) as u8;
    let b6: u8 = ((len >> 48) & 0xff) as u8;
    let b7: u8 = ((len >> 56) & 0xff) as u8;
    assert((b0 as u64) | ((b1 as u64) << 8) | ((b2 as u64) << 16) | ((b3 as u64) << 24) | ((
    b4 as u64) << 32) | ((b5 as u64) << 40) | ((b6 as u64) << 48) | ((b7 as u64) << 56) == len)
        by (bit_vector)
        requires
            b0 == (len & 0xff) as u8,
            b1 == ((len >> 8) & 0xff) as u8,
            b2 == ((len >> 16) & 0xff) as u8,
            b3 == ((len >> 24) & 0xff) as u8,
            b4 == ((len >> 32) & 0xff) as u8,
            b5 == ((len >> 40) & 0xff) as u8,
            b6 == ((len >> 48) & 0xff) as u8,
            b7 == ((len >> 56) & 0xff) as u8,
    ;
    let r: Vec<u8> = vec![b0, b1, b2, b3, b4, b5, b6, b7];
    assert(r@ =~= seq![b0, b1, b2, b3, b4, b5, b6, b7]);
    r
}

/// Reads a frame's length prefix back as the payload length.
pub fn read_length_prefix(header: &[u8]) -> (r: u64)
    requires
        header@.len() == 8,
    ensures
        r == le_value(header@),
{
    (header[0] as u64) | ((header[1] as u64) << 8) | ((header[2] as u64) << 16) | ((
    header[3] as u64) << 24) | ((header[4] as u64) << 32) | ((header[5] as u64) << 40) | ((
    header[6] as u64) << 48) | ((header[7] as u64) << 56)
}

/// Frames one message: the payload's length as eight little-endian bytes,
/// then the payload itself.
pub fn frame_message(payload: &Vec<u8>) -> (r: Vec<u8>)
    ensures
        r@.len() == payload@.len() + 8,
        le_value(r@.subrange(0, 8)) == payload@.len(),
        r@.subrange(8, r@.len() as int) == payload@,
{
    let mut r: Vec<u8> = length_prefix(payload.len() as u64);
    let ghost header = r@;
    let mut i: usize = 0;
    while i < payload.len()
        invariant
            0 <= i <= payload@.len(),
            header.len() == 8,
            le_value(header) == payload@.len(),
            r@ == header + payload@.subrange(0, i as int),
        decreases payload@.len() - i,
    {
        r.push(payload[i]);
        i = i + 1;
        assert(r@ =~= header + payload@.subrange(0, i as int));
    }
    assert(payload@.subrange(0, payload@.len() as int) =~= payload@);
    assert(r@.subrange(0, 8) =~= header);
    assert(r@.subrange(8, r@.len() as int) =~= payload@);
    r
}

/// The DJB2 hash of a byte string, folded modulo 2^32 as 32-bit
/// wrapping arithmetic folds it.
pub open spec fn djb2(bytes: Seq<u8>) -> int
    decreases bytes.len(),
{
    if bytes.len() == 0 {
        5381
    } else {
        (djb2(bytes.drop_last()) * 33 + bytes.last()) % 0x1_0000_0000
    }
}

/// The loopback port a socket path hashes to: always inside the
/// dynamic/private range 49152..=65535.
pub open spec fn port_from_path(path: Seq<u8>) -> int {
    djb2(path) % (PORT_RANGE_LEN as int) + (PORT_RANGE_START as int)
}

/// Every `djb2` value lies in `[0, 2^32)`.
pub proof fn lemma_djb2_bounds(bytes: Seq<u8>)
    ensures
        0 <= djb2(bytes) < 0x1_0000_0000,
    decreases bytes.len(),
{
    if bytes.len() > 0 {
        lemma_djb2_bounds(bytes.drop_last());
    }
}

/// Hashes a socket path into a TCP port of the dynamic/private range.
pub fn calculate_port_from_hash(socket_path: &str) -> (r: u16)
    ensures
        r == port_from_path(socket_path.spec_bytes()),
        PORT_RANGE_START <= r <= 65535,
{
    let bytes: &[u8] = socket_path.as_bytes();
    let ghost all = bytes@;
    let mut hash: u64 = 5381;
    let mut i: usize = 0;
    while i < bytes.len()
        invariant
            0 <= i <= all.len(),
            bytes@ == all,
            hash == djb2(all.subrange(0, i as int)),
            hash < 0x1_0000_0000,
        decreases all.len() - i,
    {
        let b: u8 = bytes[i];
        hash = (hash * 33 + (b as u64)) % 0x1_0000_0000;
        i = i + 1;
        proof {
            let prefix = all.subrange(0, i as int);
            assert(prefix.drop_last() =~= all.subrange(0, i as int - 1));
            assert(prefix.last() == b);
        }
    }
    proof {
        assert(all.subrange(0, all.len() as int) =~= all);
        lemma_djb2_bounds(all);
    }
    let port: u64 = hash % (PORT_RANGE_LEN as u64) + (PORT_RANGE_START as u64);
    port as u16
}

/// Whether a byte is ASCII whitespace as trimming understands it.
pub open spec fn is_ws(c: u8) -> bool {
    c == 32 || c == 9 || c == 10 || c == 13
}

/// Whether a byte is an ASCII decimal digit.
pub open spec fn is_digit(c: u8) -> bool {
    48 <= c <= 57
}

/// Index of the first byte from `i` on that is not whitespace; the length
/// where every byte from `i` on is whitespace.
pub open spec fn first_non_ws(s: Seq<u8>, i: int) -> int
    recommends
        0 <= i <= s.len(),
    decreases s.len() - i when 0 <= i <= s.len()
{
    if i >= s.len() {
        s.len() as int
    } else if is_ws(s[i]) {
        first_non_ws(s, i + 1)
    } else {
        i
    }
}

/// One past the last byte below `j` that is not whitespace; 0 where every
/// byte below `j` is whitespace.
pub open spec fn end_non_ws(s: Seq<u8>, j: int) -> int
    recommends
        0 <= j <= s.len(),
    decreases j when 0 <= j <= s.len()
{
    if j <= 0 {
        0
    } else if is_ws(s[j - 1]) {
        end_non_ws(s, j - 1)
    } else {
        j
    }
}

/// The byte string with leading and trailing ASCII whitespace removed.
pub open spec fn trim_spec(s: Seq<u8>) -> Seq<u8> {
    let a = first_non_ws(s, 0);
    let b = end_non_ws(s, s.len() as int);
    if a <= b {
        s.subrange(a, b)
    } else {
        Seq::empty()
    }
}

/// Whether every byte of the string is a decimal digit.
pub open spec fn all_digits(s: Seq<u8>) -> bool {
    forall|i: int| 0 <= i < s.len() ==> is_digit(#[trigger] s[i])
}

/// The number a digit string denotes.
pub open spec fn parse_digits(s: Seq<u8>) -> int
    decreases s.len(),
{
    if s.len() == 0 {
        0
    } else {
        parse_digits(s.drop_last()) * 10 + (s.last() - 48)
    }
}

/// What parsing a port out of a text file yields: the file's content,
/// trimmed, read as a decimal number if it is one and fits a `u16`.
pub open spec fn parse_port_spec(s: Seq<u8>) -> Option<u16> {
    let t = trim_spec(s);
    if t.len() > 0 && all_digits(t) && parse_digits(t) <= 65535 {
        Some(parse_digits(t) as u16)
    } else {
        None
    }
}

/// A digit string denotes a number that is at least 0.
pub proof fn lemma_parse_digits_nonneg(s: Seq<u8>)
    requires
        all_digits(s),
    ensures
        parse_digits(s) >= 0,
    decreases s.len(),
{
    if s.len() > 0 {
        assert(all_digits(s.drop_last())) by {
            assert(forall|i: int|
                0 <= i < s.len() - 1 ==> s.drop_last()[i] == #[trigger] s[i]);
        }
        lemma_parse_digits_nonneg(s.drop_last());
    }
}

/// Extending a digit string on the right never shrinks its value.
pub proof fn lemma_parse_digits_prefix(s: Seq<u8>, k: int)
    requires
        all_digits(s),
        0 <= k <= s.len(),
    ensures
        parse_digits(s.subrange(0, k)) <= parse_digits(s),
    decreases s.len() - k,
{
    if k == s.len() {
        assert(s.subrange(0, k) =~= s);
    } else {
        let p = s.subrange(0, k);
        let q = s.subrange(0, k + 1);
        assert(q.drop_last() =~= p);
        assert(all_digits(p)) by {
            assert(forall|i: int| 0 <= i < k ==> p[i] == #[trigger] s[i]);
        }
        lemma_parse_digits_nonneg(p);
        assert(parse_digits(q) == parse_digits(p) * 10 + (s[k] - 48));
        assert(parse_digits(p) * 10 >= parse_digits(p)) by (nonlinear_arith)
            requires
                parse_digits(p) >= 0,
        ;
        lemma_parse_digits_prefix(s, k + 1);
    }
}

/// Where every byte below `j` is whitespace, `end_non_ws` walks to 0.
pub proof fn lemma_end_non_ws_all_ws(s: Seq<u8>, j: int)
    requires
        0 <= j <= s.len(),
        forall|k: int| 0 <= k < j ==> is_ws(#[trigger] s[k]),
    ensures
        end_non_ws(s, j) == 0,
    decreases j,
{
    if j > 0 {
        lemma_end_non_ws_all_ws(s, j - 1);
    }
}

/// Parses the content of the port file: trims ASCII whitespace, then reads
/// a decimal number; anything else, or a value over 65535, is rejected.
pub fn parse_port(content: &[u8]) -> (r: Option<u16>)
    ensures
        r == parse_port_spec(content@),
{
    let ghost s = content@;
    let len: usize = content.len();
    let mut start: usize = 0;
    while start < len && is_ws_exec(content[start])
        invariant
            0 <= start <= len,
            len == s.len(),
            content@ == s,
            first_non_ws(s, 0) == first_non_ws(s, start as int),
            forall|k: int| 0 <= k < start ==> is_ws(#[trigger] s[k]),
        decreases len - start,
    {
        start = start + 1;
    }
    assert(first_non_ws(s, 0) == start as int);
    let mut end: usize = len;
    while end > start && is_ws_exec(content[end - 1])
        invariant
            start <= end <= len,
            len == s.len(),
            content@ == s,
            end_non_ws(s, s.len() as int) == end_non_ws(s, end as int),
            start == len || !is_ws(s[start as int]),
            start == len || end > start,
        decreases end,
    {
        end = end - 1;
    }
    if start >= end {
        // Only whitespace: the leading scan ran off the end, so the whole
        // string is whitespace and the trimmed text is empty.
        assert(end == start);
        assert(start == len);
        proof {
            lemma_end_non_ws_all_ws(s, s.len() as int);
        }
        assert(trim_spec(s).len() == 0);
        return None;
    }
    assert(end_non_ws(s, s.len() as int) == end as int);
    let ghost t = trim_spec(s);
    assert(t =~= s.subrange(start as int, end as int));
    let mut acc: u32 = 0;
    let mut i: usize = start;
    while i < end
        invariant
            start <= i <= end <= len,
            len == s.len(),
            content@ == s,
            t == trim_spec(s),
            t == s.subrange(start as int, end as int),
            t.len() == end - start,
            forall|j: int| 0 <= j < i - start ==> is_digit(#[trigger] t[j]),
            acc == parse_digits(t.subrange(0, i - start)),
            acc <= 65535,
        decreases end - i,
    {
        let c: u8 = content[i];
        assert(t[i - start] == c);
        if c < 48 || c > 57 {
            assert(!is_digit(t[i as int - start as int]));
            return None;
        }
        let next: u32 = acc * 10 + ((c - 48) as u32);
        proof {
            let p = t.subrange(0, i - start);
            let q = t.subrange(0, i + 1 - start);
            assert(q.drop_last() =~= p);
            assert(q.last() == c);
        }
        i = i + 1;
        if next > 65535 {
            proof {
                if all_digits(t) {
                    lemma_parse_digits_prefix(t, i - start);
                }
            }
            return None;
        }
        acc = next;
    }
    assert(t.subrange(0, end - start) =~= t);
    assert(all_digits(t));
    Some(acc as u16)
}

/// Whitespace test, usable from executable code.
pub fn is_ws_exec(c: u8) -> (r: bool)
    ensures
        r == is_ws(c),
{
    c == 32 || c == 9 || c == 10 || c == 13
}

/// The decimal digits of a number, most significant first.
pub open spec fn dec_ascii(n: int) -> Seq<u8>
    recommends
        n >= 0,
    decreases n,
{
    if n <= 9 {
        seq![(48 + (if n >= 0 { n } else { 0 })) as u8]
    } else {
        dec_ascii(n / 10).push((48 + n % 10) as u8)
    }
}

/// Appends the decimal digits of `n` to `out`.
fn push_decimal(n: u32, out: &mut Vec<u8>)
    ensures
        final(out)@ == old(out)@ + dec_ascii(n as int),
    decreases n,
{
    if n <= 9 {
        out.push(48 + (n as u8));
        assert(final(out)@ =~= old(out)@ + dec_ascii(n as int));
    } else {
        push_decimal(n / 10, out);
        out.push(48 + ((n % 10) as u8));
        assert(final(out)@ =~= old(out)@ + dec_ascii(n as int));
    }
}

/// The text written to the port file: the chosen port in decimal ASCII.
pub fn port_file_contents(port: u16) -> (r: Vec<u8>)
    ensures
        r@ == dec_ascii(port as int),
{
    let mut out: Vec<u8> = Vec::new();
    push_decimal(port as u32, &mut out);
    assert(out@ =~= dec_ascii(port as int));
    out
}

/// Every byte of a rendered decimal number is a digit.
pub proof fn lemma_dec_ascii_digits(n: int)
    requires
        n >= 0,
    ensures
        dec_ascii(n).len() >= 1,
        all_digits(dec_ascii(n)),
    decreases n,
{
    if n > 9 {
        lemma_dec_ascii_digits(n / 10);
        let s = dec_ascii(n);
        assert(forall|i: int|
            0 <= i < s.len() - 1 ==> s[i] == #[trigger] dec_ascii(n / 10)[i]);
    }
}

/// Reading a rendered decimal number back yields the number.
pub proof fn lemma_parse_dec_ascii(n: int)
    requires
        n >= 0,
    ensures
        parse_digits(dec_ascii(n)) == n,
    decreases n,
{
    if n <= 9 {
        let s = dec_ascii(n);
        assert(s =~= seq![(48 + n) as u8]);
        assert(s.drop_last() =~= Seq::<u8>::empty());
        assert(parse_digits(Seq::<u8>::empty()) == 0);
        assert(parse_digits(s) == 0 * 10 + (s.last() - 48));
    } else {
        lemma_parse_dec_ascii(n / 10);
        let s = dec_ascii(n);
        assert(s == dec_ascii(n / 10).push((48 + n % 10) as u8));
        assert(s.drop_last() =~= dec_ascii(n / 10));
        assert(s.last() == (48 + n % 10) as u8);
        assert(parse_digits(s) == (n / 10) * 10 + n % 10);
        assert((n / 10) * 10 + n % 10 == n) by {
            vstd::arithmetic::div_mod::lemma_fundamental_div_mod(n, 10);
        }
    }
}

/// Writing a port to the file and reading it back returns the same port:
/// the rendered digits survive the trim and parse exactly.
pub proof fn lemma_port_file_round_trip(port: u16)
    ensures
        parse_port_spec(dec_ascii(port as int)) == Some(port),
{
    let s = dec_ascii(port as int);
    lemma_dec_ascii_digits(port as int);
    lemma_parse_dec_ascii(port as int);
    assert(!is_ws(s[0]));
    assert(!is_ws(s[s.len() - 1]));
    assert(first_non_ws(s, 0) == 0);
    assert(end_non_ws(s, s.len() as int) == s.len());
    assert(trim_spec(s) =~= s);
}

/// Picks the loopback port for a socket path: the port stored in the path's
/// file where it parses, else the path's hash.
pub fn socket_path_to_port(file_content: Option<&Vec<u8>>, socket_path: &str) -> (r: u16)
    ensures
        match file_content {
            Some(c) => match parse_port_spec(c@) {
                Some(p) => r == p,
                None => r == port_from_path(socket_path.spec_bytes()),
            },
            None => r == port_from_path(socket_path.spec_bytes()),
        },
{
    match file_content {
        Some(content) => match parse_port(content.as_slice()) {
            Some(port) => port,
            None => calculate_port_from_hash(socket_path),
        },
        None => calculate_port_from_hash(socket_path),
    }
}

} // verus!
