//! Byte-level text helpers: UTF-8 views of strings, ASCII runs, decimal digits.
use vstd::prelude::*;
use vstd::utf8::*;

verus! {

broadcast use vstd::utf8::encode_utf8_valid_utf8, vstd::utf8::valid_utf8_concat;

/// The UTF-8 bytes of a character sequence (what `str::as_bytes` yields).
pub open spec fn bytes_of(s: Seq<char>) -> Seq<u8> {
    encode_utf8(s)
}

/// Every byte is 7-bit ASCII.
pub open spec fn is_ascii_bytes(b: Seq<u8>) -> bool {
    forall|i: int| 0 <= i < b.len() ==> #[trigger] b[i] < 0x80
}

/// `n` copies of the byte `b`.
pub open spec fn repeat(b: u8, n: nat) -> Seq<u8> {
    Seq::new(n, |_i: int| b)
}

/// `n` ASCII `'0'` bytes.
pub open spec fn zeros(n: nat) -> Seq<u8> {
    repeat(0x30u8, n)
}

/// `n` ASCII space bytes.
pub open spec fn spaces(n: nat) -> Seq<u8> {
    repeat(0x20u8, n)
}

/// The ASCII decimal digits of `n` (no sign, no leading zeros; `"0"` for zero).
pub open spec fn decimal(n: nat) -> Seq<u8>
    decreases n,
{
    if n < 10 {
        seq![(0x30 + n) as u8]
    } else {
        decimal(n / 10) + seq![(0x30 + n % 10) as u8]
    }
}

/// All-ASCII byte sequences are valid UTF-8.
pub proof fn lemma_ascii_valid_utf8(b: Seq<u8>)
    requires
        is_ascii_bytes(b),
    ensures
        valid_utf8(b),
    decreases b.len(),
{
    if b.len() > 0 {
        let b0 = b[0];
        assert(b0 < 0x80);
        assert((b0 & 0x7Fu8) as u32 <= 0x7F) by (bit_vector);
        let rest = b.subrange(1, b.len() as int);
        assert(pop_first_scalar(b) =~= rest);
        assert(is_ascii_bytes(rest)) by {
            assert forall|i: int| 0 <= i < rest.len() implies #[trigger] rest[i] < 0x80 by {
                assert(rest[i] == b[i + 1]);
            }
        }
        lemma_ascii_valid_utf8(rest);
    }
}

/// The decimal digits of any number are non-empty ASCII digits.
pub proof fn lemma_decimal_digits(n: nat)
    ensures
        decimal(n).len() >= 1,
        forall|i: int| 0 <= i < decimal(n).len() ==> 0x30 <= #[trigger] decimal(n)[i] <= 0x39,
        is_ascii_bytes(decimal(n)),
    decreases n,
{
    if n >= 10 {
        lemma_decimal_digits(n / 10);
    }
}

/// Numbers below `10^k` (with `k >= 1`) have at most `k` decimal digits.
pub proof fn lemma_decimal_len_bound(n: nat, k: nat)
    requires
        k >= 1,
        n < pow10(k),
    ensures
        decimal(n).len() <= k,
    decreases k,
{
    if n >= 10 {
        if k == 1 {
            assert(pow10(1) == 10) by {
                reveal_with_fuel(pow10, 2);
            }
        } else {
            let p = pow10((k - 1) as nat);
            assert(pow10(k) == 10 * p);
            assert(n / 10 < p) by (nonlinear_arith)
                requires
                    n < 10 * p,
            ;
            lemma_decimal_len_bound(n / 10, (k - 1) as nat);
        }
    }
}

/// `10^k`.
pub open spec fn pow10(k: nat) -> nat
    decreases k,
{
    if k == 0 { 1 } else { 10 * pow10((k - 1) as nat) }
}

/// Builds a `String` from bytes that are valid UTF-8.
///
/// Wraps `String::from_utf8`, which by its documentation succeeds exactly on valid UTF-8
/// input and keeps the bytes as they are; the contract claims that the resulting string
/// decodes those bytes.
#[verifier::external_body]
fn string_from_utf8(v: Vec<u8>) -> (s: String)
    requires
        valid_utf8(v@),
    ensures
        s@ == decode_utf8(v@),
{
    match String::from_utf8(v) {
        Ok(s) => s,
        Err(_) => String::new(),
    }
}

/// Builds a `String` whose UTF-8 bytes are exactly `v`.
pub fn string_of_bytes(v: Vec<u8>) -> (s: String)
    requires
        valid_utf8(v@),
    ensures
        bytes_of(s@) == v@,
        s@ == decode_utf8(v@),
{
    let ghost b = v@;
    let s = string_from_utf8(v);
    proof {
        decode_utf8_encode_utf8(b);
    }
    s
}

/// What `String::from_utf8_lossy` makes of `b`.
pub uninterp spec fn utf8_lossy(b: Seq<u8>) -> Seq<char>;

/// The text of `b`, with invalid UTF-8 sequences replaced by U+FFFD.
///
/// Wraps `String::from_utf8_lossy`; its result is named [`utf8_lossy`]. The documentation
/// also states that valid UTF-8 input is returned as it is, which the second clause says.
#[verifier::external_body]
pub(crate) fn string_from_utf8_lossy(b: &[u8]) -> (s: String)
    ensures
        s@ == utf8_lossy(b@),
        valid_utf8(b@) ==> s@ == decode_utf8(b@),
{
    String::from_utf8_lossy(b).into_owned()
}

/// A copy of the bytes of `v`.
pub fn copy_bytes(v: &Vec<u8>) -> (r: Vec<u8>)
    ensures
        r@ == v@,
{
    vstd::slice::slice_to_vec(v.as_slice())
}

/// The one-character string of `c`.
///
/// Wraps `char::to_string` (via `ToString`), documented to give the string holding just `c`.
#[verifier::external_body]
pub(crate) fn char_to_string(c: char) -> (s: String)
    ensures
        s@ == seq![c],
{
    c.to_string()
}

/// Appends `n` copies of the ASCII byte `b`.
pub fn push_repeat(m: &mut Vec<u8>, b: u8, n: usize)
    requires
        b < 0x80,
        valid_utf8(old(m)@),
    ensures
        final(m)@ == old(m)@ + repeat(b, n as nat),
        valid_utf8(final(m)@),
{
    let ghost start = m@;
    let mut i: usize = 0;
    while i < n
        invariant
            0 <= i <= n,
            m@ == start + repeat(b, i as nat),
        decreases n - i,
    {
        m.push(b);
        i = i + 1;
        proof {
            assert(m@ =~= start + repeat(b, i as nat));
        }
    }
    proof {
        lemma_ascii_valid_utf8(repeat(b, n as nat));
    }
}

/// Appends the bytes of `s`.
pub fn push_slice(m: &mut Vec<u8>, s: &[u8])
    requires
        valid_utf8(old(m)@),
        valid_utf8(s@),
    ensures
        final(m)@ == old(m)@ + s@,
        valid_utf8(final(m)@),
{
    let ghost start = m@;
    let mut i: usize = 0;
    while i < s.len()
        invariant
            0 <= i <= s@.len(),
            m@ == start + s@.subrange(0, i as int),
        decreases s@.len() - i,
    {
        m.push(s[i]);
        i = i + 1;
        proof {
            assert(m@ =~= start + s@.subrange(0, i as int));
        }
    }
    proof {
        assert(s@.subrange(0, s@.len() as int) =~= s@);
    }
}

/// Appends the bytes of the string `s`.
pub fn push_str(m: &mut Vec<u8>, s: &str)
    requires
        valid_utf8(old(m)@),
    ensures
        final(m)@ == old(m)@ + bytes_of(s@),
        valid_utf8(final(m)@),
{
    push_slice(m, s.as_bytes());
}

/// Appends one ASCII byte.
pub fn push_ascii(m: &mut Vec<u8>, b: u8)
    requires
        b < 0x80,
        valid_utf8(old(m)@),
    ensures
        final(m)@ == old(m)@.push(b),
        valid_utf8(final(m)@),
{
    m.push(b);
    proof {
        lemma_ascii_valid_utf8(seq![b]);
        assert(m@ =~= old(m)@ + seq![b]);
    }
}

/// Appends the decimal digits of `n`.
pub fn push_decimal(m: &mut Vec<u8>, n: u64)
    requires
        valid_utf8(old(m)@),
    ensures
        final(m)@ == old(m)@ + decimal(n as nat),
        valid_utf8(final(m)@),
    decreases n,
{
    if n >= 10 {
        push_decimal(m, n / 10);
    }
    let d: u8 = (n % 10) as u8;
    push_ascii(m, 0x30 + d);
    proof {
        assert(m@ =~= old(m)@ + decimal(n as nat));
    }
}

/// The decimal digits of `n` as a `String`.
pub fn decimal_string(n: u64) -> (s: String)
    ensures
        bytes_of(s@) == decimal(n as nat),
        s@ == decode_utf8(decimal(n as nat)),
{
    let mut m: Vec<u8> = Vec::new();
    proof {
        lemma_ascii_valid_utf8(Seq::<u8>::empty());
    }
    push_decimal(&mut m, n);
    proof {
        assert(m@ =~= decimal(n as nat));
    }
    string_of_bytes(m)
}

// ---------------------------------------------------------------------------
// Byte fields of strings
// ---------------------------------------------------------------------------

/// The field of length `len` starting at the 1-based byte position `pos1` of `b`, clamped to
/// the end of `b`; empty when it starts past the end or does not fall on character
/// boundaries.
pub open spec fn field_bytes(b: Seq<u8>, pos1: int, len: int) -> Seq<u8> {
    if pos1 == 0 || pos1 > b.len() {
        Seq::<u8>::empty()
    } else {
        let i = pos1 - 1;
        let end = if i + len < b.len() { i + len } else { b.len() as int };
        if is_char_boundary(b, i) && is_char_boundary(b, end) {
            b.subrange(i, end)
        } else {
            Seq::<u8>::empty()
        }
    }
}

/// `b` without its trailing ASCII spaces.
pub open spec fn trim_end_spaces(b: Seq<u8>) -> Seq<u8>
    decreases b.len(),
{
    if b.len() > 0 && b.last() == 0x20 {
        trim_end_spaces(b.drop_last())
    } else {
        b
    }
}

/// Unicode `White_Space` characters (what `char::is_whitespace` accepts).
pub open spec fn is_unicode_whitespace(c: char) -> bool {
    ||| '\t' <= c && c <= '\r'
    ||| c == ' '
    ||| c == '\u{85}'
    ||| c == '\u{A0}'
    ||| c == '\u{1680}'
    ||| '\u{2000}' <= c && c <= '\u{200A}'
    ||| c == '\u{2028}'
    ||| c == '\u{2029}'
    ||| c == '\u{202F}'
    ||| c == '\u{205F}'
    ||| c == '\u{3000}'
}

/// `s` without its leading whitespace.
pub open spec fn trim_start_ws(s: Seq<char>) -> Seq<char>
    decreases s.len(),
{
    if s.len() > 0 && is_unicode_whitespace(s[0]) {
        trim_start_ws(s.drop_first())
    } else {
        s
    }
}

/// `s` without its trailing whitespace.
pub open spec fn trim_end_ws(s: Seq<char>) -> Seq<char>
    decreases s.len(),
{
    if s.len() > 0 && is_unicode_whitespace(s.last()) {
        trim_end_ws(s.drop_last())
    } else {
        s
    }
}

/// `s` without leading and trailing whitespace.
pub open spec fn trim_ws(s: Seq<char>) -> Seq<char> {
    trim_end_ws(trim_start_ws(s))
}

/// The empty string.
pub fn empty_str() -> (r: &'static str)
    ensures
        r@ == Seq::<char>::empty(),
        bytes_of(r@) == Seq::<u8>::empty(),
{
    proof {
        reveal_strlit("");
    }
    ""
}

/// A new empty `String`.
pub fn empty_string() -> (r: String)
    ensures
        r@ == Seq::<char>::empty(),
        bytes_of(r@) == Seq::<u8>::empty(),
{
    String::new()
}

/// A boundary of a valid sequence stays a boundary of any prefix that ends on a boundary.
pub proof fn lemma_boundary_in_prefix(b: Seq<u8>, end: int, i: int)
    requires
        valid_utf8(b),
        0 <= i <= end <= b.len(),
        is_char_boundary(b, end),
        is_char_boundary(b, i),
    ensures
        valid_utf8(b.subrange(0, end)),
        is_char_boundary(b.subrange(0, end), i),
{
    let pre = b.subrange(0, end);
    valid_utf8_split(b, end);
    is_char_boundary_start_end_of_seq(pre);
    if 0 < i < end {
        is_char_boundary_iff_not_is_continuation_byte(b, i);
        assert(pre[i] == b[i]);
        is_char_boundary_iff_not_is_continuation_byte(pre, i);
    }
}

/// A position whose byte is ASCII (or the end) is a character boundary.
pub proof fn lemma_ascii_byte_boundary(b: Seq<u8>, i: int)
    requires
        valid_utf8(b),
        0 <= i <= b.len(),
        i < b.len() ==> b[i] < 0x80,
    ensures
        is_char_boundary(b, i),
{
    is_char_boundary_start_end_of_seq(b);
    if i < b.len() {
        is_char_boundary_iff_not_is_continuation_byte(b, i);
    }
}

/// The position right after an ASCII byte is a character boundary.
pub proof fn lemma_boundary_after_ascii(b: Seq<u8>, j: int)
    requires
        valid_utf8(b),
        0 < j <= b.len(),
        b[j - 1] < 0x80,
    ensures
        is_char_boundary(b, j),
{
    is_char_boundary_start_end_of_seq(b);
    if j < b.len() {
        lemma_ascii_byte_boundary(b, j - 1);
        valid_utf8_split(b, j - 1);
        let s = b.subrange(j - 1, b.len() as int);
        assert(s[0] == b[j - 1]);
        assert(valid_utf8(s));
        assert(pop_first_scalar(s) =~= b.subrange(j, b.len() as int));
        let t = b.subrange(j, b.len() as int);
        assert(valid_utf8(t));
        assert(t[0] == b[j]);
        assert(valid_first_scalar(t));
        is_char_boundary_iff_not_is_continuation_byte(b, j);
    }
}

/// The field of `p` of length `len` at the 1-based byte position `pos1` (clamped; empty
/// when out of range or not on character boundaries).
pub fn field(p: &str, pos1: usize, len: usize) -> (r: &str)
    ensures
        bytes_of(r@) == field_bytes(bytes_of(p@), pos1 as int, len as int),
{
    let b = p.as_bytes();
    let n = b.len();
    if pos1 == 0 || pos1 > n {
        return empty_str();
    }
    let i = pos1 - 1;
    let end = if len < n - i { i + len } else { n };
    if p.is_char_boundary(i) && p.is_char_boundary(end) {
        let (head, _) = p.split_at(end);
        proof {
            lemma_boundary_in_prefix(b@, end as int, i as int);
        }
        let (_, mid) = head.split_at(i);
        proof {
            assert(bytes_of(mid@) =~= b@.subrange(i as int, end as int));
        }
        mid
    } else {
        empty_str()
    }
}

/// `s` without its trailing ASCII spaces (`str::trim_end_matches(' ')`).
pub fn trim_end_spaces_str(s: &str) -> (r: &str)
    ensures
        bytes_of(r@) == trim_end_spaces(bytes_of(s@)),
{
    let b = s.as_bytes();
    let mut k: usize = b.len();
    proof {
        assert(b@.subrange(0, k as int) =~= b@);
    }
    while k > 0 && b[k - 1] == 0x20
        invariant
            0 <= k <= b@.len(),
            trim_end_spaces(b@) == trim_end_spaces(b@.subrange(0, k as int)),
            forall|j: int| k <= j < b@.len() ==> b@[j] == 0x20,
        decreases k,
    {
        proof {
            assert(b@.subrange(0, k as int).drop_last() =~= b@.subrange(0, k - 1));
        }
        k = k - 1;
    }
    proof {
        lemma_ascii_byte_boundary(b@, k as int);
    }
    let (head, _) = s.split_at(k);
    proof {
        if k == 0 {
            assert(b@.subrange(0, 0) =~= Seq::<u8>::empty());
        }
        assert(bytes_of(head@) =~= b@.subrange(0, k as int));
    }
    head
}

/// `s` without leading and trailing Unicode whitespace.
///
/// Wraps `str::trim`, documented to remove leading and trailing characters with the
/// Unicode `White_Space` property; the contract lists those characters.
#[verifier::external_body]
pub(crate) fn trim_whitespace(s: &str) -> (r: &str)
    ensures
        r@ == trim_ws(s@),
{
    s.trim()
}

// ---------------------------------------------------------------------------
// Decimal integers
// ---------------------------------------------------------------------------

/// Every byte is an ASCII digit.
pub open spec fn all_digits(b: Seq<u8>) -> bool {
    forall|i: int| 0 <= i < b.len() ==> 0x30 <= #[trigger] b[i] <= 0x39
}

/// The value of a run of ASCII digits.
pub open spec fn digits_value(b: Seq<u8>) -> int
    decreases b.len(),
{
    if b.len() == 0 {
        0
    } else {
        digits_value(b.drop_last()) * 10 + (b.last() - 0x30)
    }
}

/// What `str::parse` of a signed integer type with bounds `min..=max` gives for the text `b`:
/// an optional `+`/`-` sign then at least one ASCII digit, and a value within bounds.
pub open spec fn parse_signed(b: Seq<u8>, min: int, max: int) -> Option<int> {
    let signed = b.len() > 0 && (b[0] == 0x2B || b[0] == 0x2D);
    let negative = b.len() > 0 && b[0] == 0x2D;
    let digits = if signed { b.drop_first() } else { b };
    if digits.len() == 0 || !all_digits(digits) {
        None
    } else {
        let v = if negative { -digits_value(digits) } else { digits_value(digits) };
        if min <= v && v <= max { Some(v) } else { None }
    }
}

/// What `s.trim().parse::<i64>().ok()` gives for the bytes `b` of a string.
pub open spec fn parse_trimmed(b: Seq<u8>, min: int, max: int) -> Option<int> {
    parse_signed(bytes_of(trim_ws(decode_utf8(b))), min, max)
}

proof fn lemma_digits_value_prefix_grows(b: Seq<u8>, i: int, j: int)
    requires
        all_digits(b),
        0 <= i <= j <= b.len(),
    ensures
        0 <= digits_value(b.subrange(0, i)) <= digits_value(b.subrange(0, j)),
    decreases j - i,
{
    if i < j {
        lemma_digits_value_prefix_grows(b, i, j - 1);
        assert(b.subrange(0, j).drop_last() =~= b.subrange(0, j - 1));
    } else {
        lemma_digits_value_nonneg(b.subrange(0, i));
    }
}

proof fn lemma_digits_value_nonneg(b: Seq<u8>)
    requires
        all_digits(b),
    ensures
        digits_value(b) >= 0,
    decreases b.len(),
{
    if b.len() > 0 {
        assert(all_digits(b.drop_last()));
        lemma_digits_value_nonneg(b.drop_last());
    }
}

/// Reads a non-empty run of ASCII digits whose value is at most `2^63`.
fn read_digits(d: &[u8]) -> (r: Option<u128>)
    ensures
        match r {
            Some(v) => d@.len() > 0 && all_digits(d@) && v == digits_value(d@)
                && v <= 9223372036854775808,
            None => d@.len() == 0 || !all_digits(d@) || digits_value(d@) > 9223372036854775808,
        },
{
    let n = d.len();
    if n == 0 {
        return None;
    }
    let mut acc: u128 = 0;
    let mut i: usize = 0;
    while i < n
        invariant
            0 <= i <= n,
            n == d@.len(),
            all_digits(d@.subrange(0, i as int)),
            acc == digits_value(d@.subrange(0, i as int)),
            acc <= 9223372036854775808,
        decreases n - i,
    {
        let c = d[i];
        if c < 0x30 || c > 0x39 {
            return None;
        }
        proof {
            assert(d@.subrange(0, i + 1).drop_last() =~= d@.subrange(0, i as int));
            assert(all_digits(d@.subrange(0, i + 1))) by {
                assert forall|k: int| 0 <= k < i + 1 implies 0x30 <= #[trigger] d@.subrange(0, i + 1)[k] <= 0x39 by {
                    if k < i {
                        assert(d@.subrange(0, i + 1)[k] == d@.subrange(0, i as int)[k]);
                    }
                }
            }
        }
        let next: u128 = acc * 10 + (c - 0x30) as u128;
        i = i + 1;
        if next > 9223372036854775808 {
            proof {
                if all_digits(d@) {
                    assert(d@.subrange(0, n as int) =~= d@);
                    lemma_digits_value_prefix_grows(d@, i as int, n as int);
                }
            }
            return None;
        }
        acc = next;
    }
    proof {
        assert(d@.subrange(0, n as int) =~= d@);
    }
    Some(acc)
}

/// Parses the bytes `b` as a signed 64-bit integer (sign, digits, range).
pub fn parse_i64_bytes(b: &[u8]) -> (r: Option<i64>)
    ensures
        match parse_signed(b@, i64::MIN as int, i64::MAX as int) {
            Some(v) => r == Some(v as i64),
            None => r is None,
        },
{
    let n = b.len();
    if n == 0 {
        return None;
    }
    let signed = b[0] == 0x2B || b[0] == 0x2D;
    let negative = b[0] == 0x2D;
    let start: usize = if signed { 1 } else { 0 };
    let digits = vstd::slice::slice_subrange(b, start, n);
    proof {
        if signed {
            assert(digits@ =~= b@.drop_first());
        } else {
            assert(digits@ =~= b@);
        }
    }
    match read_digits(digits) {
        None => None,
        Some(v) => {
            if negative {
                let neg: i128 = -(v as i128);
                Some(neg as i64)
            } else if v > 9223372036854775807 {
                None
            } else {
                Some(v as i64)
            }
        },
    }
}

/// Parses the bytes `b` as a signed 32-bit integer (sign, digits, range).
pub fn parse_i32_bytes(b: &[u8]) -> (r: Option<i32>)
    ensures
        match parse_signed(b@, i32::MIN as int, i32::MAX as int) {
            Some(v) => r == Some(v as i32),
            None => r is None,
        },
{
    match parse_i64_bytes(b) {
        Some(v) => {
            if v < -2147483648 || v > 2147483647 {
                None
            } else {
                Some(v as i32)
            }
        },
        None => {
            proof {
                let p = parse_signed(b@, i32::MIN as int, i32::MAX as int);
                if p is Some {
                    assert(parse_signed(b@, i64::MIN as int, i64::MAX as int) is Some);
                }
            }
            None
        },
    }
}

} // verus!
