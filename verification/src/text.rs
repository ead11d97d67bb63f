//! Small verified text utilities shared by the descriptor protocol: string
//! equality, character search, and decimal/hexadecimal numerals.

use vstd::prelude::*;

verus! {

/// Compare two string slices character by character.
pub fn str_eq(a: &str, b: &str) -> (r: bool)
    ensures
        r == (a@ == b@),
{
    let la = a.unicode_len();
    let lb = b.unicode_len();
    if la != lb {
        return false;
    }
    let mut i: usize = 0;
    while i < la
        invariant
            la == a@.len(),
            lb == b@.len(),
            la == lb,
            i <= la,
            forall|j: int| 0 <= j < i ==> a@[j] == b@[j],
        decreases la - i,
    {
        if a.get_char(i) != b.get_char(i) {
            return false;
        }
        i += 1;
    }
    proof {
        assert(a@ =~= b@);
    }
    true
}

/// The index of the first occurrence of `c` in `s`, if any.
pub open spec fn find_char(s: Seq<char>, c: char) -> Option<int>
    decreases s.len(),
{
    if s.len() == 0 {
        None
    } else if s[0] == c {
        Some(0)
    } else {
        match find_char(s.drop_first(), c) {
            Some(i) => Some(i + 1),
            None => None,
        }
    }
}

/// `find_char` names the first occurrence: the character stands there and
/// nowhere earlier, and a `None` means the character does not occur.
pub proof fn lemma_find_char(s: Seq<char>, c: char)
    ensures
        match find_char(s, c) {
            Some(i) => 0 <= i < s.len() && s[i] == c && forall|j: int| 0 <= j < i ==> s[j] != c,
            None => forall|j: int| 0 <= j < s.len() ==> s[j] != c,
        },
    decreases s.len(),
{
    if s.len() == 0 {
    } else if s[0] == c {
    } else {
        lemma_find_char(s.drop_first(), c);
        assert(forall|j: int| 0 < j < s.len() ==> s[j] == s.drop_first()[j - 1]);
    }
}

/// Scan a string slice for the first occurrence of a character.
pub fn find_char_in(s: &str, c: char) -> (r: Option<usize>)
    ensures
        match r {
            Some(i) => find_char(s@, c) == Some(i as int),
            None => find_char(s@, c) is None,
        },
{
    let len = s.unicode_len();
    let mut i: usize = 0;
    while i < len
        invariant
            len == s@.len(),
            i <= len,
            forall|j: int| 0 <= j < i ==> s@[j] != c,
        decreases len - i,
    {
        if s.get_char(i) == c {
            proof {
                lemma_find_char(s@, c);
            }
            return Some(i);
        }
        i += 1;
    }
    proof {
        lemma_find_char(s@, c);
    }
    None
}

/// A string free of NUL characters, as the kernel requires of key
/// descriptions (they travel as NUL-terminated C strings).
pub open spec fn nul_free(s: Seq<char>) -> bool {
    find_char(s, '\0') is None
}

/// Check that a string holds no NUL character.
pub fn is_nul_free(s: &str) -> (r: bool)
    ensures
        r == nul_free(s@),
{
    match find_char_in(s, '\0') {
        Some(_) => false,
        None => true,
    }
}

/// Relies on String::from_utf8: it succeeds exactly on valid UTF-8 input,
/// and the resulting string holds the characters the bytes encode.
#[verifier::external_body]
pub fn string_from_utf8(v: Vec<u8>) -> (r: Option<String>)
    ensures
        match r {
            Some(s) => vstd::utf8::valid_utf8(v@) && s@ == vstd::utf8::decode_utf8(v@),
            None => !vstd::utf8::valid_utf8(v@),
        },
{
    match String::from_utf8(v) {
        Ok(s) => Some(s),
        Err(_) => None,
    }
}

/// The lowercase hexadecimal digit of a value below 16.
pub open spec fn hex_digit_char(d: int) -> char {
    if d == 0 {
        '0'
    } else if d == 1 {
        '1'
    } else if d == 2 {
        '2'
    } else if d == 3 {
        '3'
    } else if d == 4 {
        '4'
    } else if d == 5 {
        '5'
    } else if d == 6 {
        '6'
    } else if d == 7 {
        '7'
    } else if d == 8 {
        '8'
    } else if d == 9 {
        '9'
    } else if d == 10 {
        'a'
    } else if d == 11 {
        'b'
    } else if d == 12 {
        'c'
    } else if d == 13 {
        'd'
    } else if d == 14 {
        'e'
    } else {
        'f'
    }
}

/// The eight-digit lowercase hexadecimal numeral of a 32-bit value, as the
/// kernel prints a permission mask.
pub open spec fn hex_repr8(v: u32) -> Seq<char> {
    seq![
        hex_digit_char(((v >> 28) & 0xf) as int),
        hex_digit_char(((v >> 24) & 0xf) as int),
        hex_digit_char(((v >> 20) & 0xf) as int),
        hex_digit_char(((v >> 16) & 0xf) as int),
        hex_digit_char(((v >> 12) & 0xf) as int),
        hex_digit_char(((v >> 8) & 0xf) as int),
        hex_digit_char(((v >> 4) & 0xf) as int),
        hex_digit_char((v & 0xf) as int),
    ]
}

/// Appending a digit multiplies the numeral's value by the base and adds
/// the digit.
proof fn lemma_hex_value_push(s: Seq<char>, c: char)
    ensures
        hex_value(s.push(c)) == hex_value(s) * 16 + hex_digit_value(c),
{
    assert(s.push(c).drop_last() =~= s);
    assert(s.push(c).last() == c);
}

/// A hexadecimal digit character denotes the value it was made from.
proof fn lemma_hex_digit_char_value(d: int)
    requires
        0 <= d < 16,
    ensures
        is_hex_digit(hex_digit_char(d)),
        hex_digit_value(hex_digit_char(d)) == d,
{
}

/// The single-character string of a hexadecimal digit.
fn hex_digit_str(d: u32) -> (r: &'static str)
    requires
        d < 16,
    ensures
        r@.len() == 1,
        r@[0] == hex_digit_char(d as int),
{
    proof {
        reveal_strlit("0");
        reveal_strlit("1");
        reveal_strlit("2");
        reveal_strlit("3");
        reveal_strlit("4");
        reveal_strlit("5");
        reveal_strlit("6");
        reveal_strlit("7");
        reveal_strlit("8");
        reveal_strlit("9");
        reveal_strlit("a");
        reveal_strlit("b");
        reveal_strlit("c");
        reveal_strlit("d");
        reveal_strlit("e");
        reveal_strlit("f");
    }
    if d == 0 {
        "0"
    } else if d == 1 {
        "1"
    } else if d == 2 {
        "2"
    } else if d == 3 {
        "3"
    } else if d == 4 {
        "4"
    } else if d == 5 {
        "5"
    } else if d == 6 {
        "6"
    } else if d == 7 {
        "7"
    } else if d == 8 {
        "8"
    } else if d == 9 {
        "9"
    } else if d == 10 {
        "a"
    } else if d == 11 {
        "b"
    } else if d == 12 {
        "c"
    } else if d == 13 {
        "d"
    } else if d == 14 {
        "e"
    } else {
        "f"
    }
}

/// Print a 32-bit value as an eight-digit lowercase hexadecimal numeral.
pub fn u32_to_hex8(v: u32) -> (r: String)
    ensures
        r@ == hex_repr8(v),
{
    proof {
        assert((v >> 28) & 0xf < 16 && (v >> 24) & 0xf < 16 && (v >> 20) & 0xf < 16 && (v >> 16)
            & 0xf < 16 && (v >> 12) & 0xf < 16 && (v >> 8) & 0xf < 16 && (v >> 4) & 0xf < 16 && v
            & 0xf < 16) by (bit_vector);
    }
    let mut s = String::new();
    s.append(hex_digit_str((v >> 28) & 0xf));
    s.append(hex_digit_str((v >> 24) & 0xf));
    s.append(hex_digit_str((v >> 20) & 0xf));
    s.append(hex_digit_str((v >> 16) & 0xf));
    s.append(hex_digit_str((v >> 12) & 0xf));
    s.append(hex_digit_str((v >> 8) & 0xf));
    s.append(hex_digit_str((v >> 4) & 0xf));
    s.append(hex_digit_str(v & 0xf));
    proof {
        assert(s@ =~= hex_repr8(v));
    }
    s
}

/// Law: serializing a 32-bit value as its eight-digit hexadecimal numeral
/// and parsing the numeral back yields the value again.
pub proof fn lemma_hex_repr8_round_trip(v: u32)
    ensures
        hex_repr8(v).len() == 8,
        parse_hex_u32(hex_repr8(v)) == Some(v),
{
    let d7 = ((v >> 28) & 0xf) as int;
    let d6 = ((v >> 24) & 0xf) as int;
    let d5 = ((v >> 20) & 0xf) as int;
    let d4 = ((v >> 16) & 0xf) as int;
    let d3 = ((v >> 12) & 0xf) as int;
    let d2 = ((v >> 8) & 0xf) as int;
    let d1 = ((v >> 4) & 0xf) as int;
    let d0 = (v & 0xf) as int;
    assert((v >> 28) & 0xf < 16 && (v >> 24) & 0xf < 16 && (v >> 20) & 0xf < 16 && (v >> 16) & 0xf
        < 16 && (v >> 12) & 0xf < 16 && (v >> 8) & 0xf < 16 && (v >> 4) & 0xf < 16 && v & 0xf < 16)
        by (bit_vector);
    lemma_hex_digit_char_value(d7);
    lemma_hex_digit_char_value(d6);
    lemma_hex_digit_char_value(d5);
    lemma_hex_digit_char_value(d4);
    lemma_hex_digit_char_value(d3);
    lemma_hex_digit_char_value(d2);
    lemma_hex_digit_char_value(d1);
    lemma_hex_digit_char_value(d0);
    let t0 = Seq::<char>::empty();
    let t1 = t0.push(hex_digit_char(d7));
    let t2 = t1.push(hex_digit_char(d6));
    let t3 = t2.push(hex_digit_char(d5));
    let t4 = t3.push(hex_digit_char(d4));
    let t5 = t4.push(hex_digit_char(d3));
    let t6 = t5.push(hex_digit_char(d2));
    let t7 = t6.push(hex_digit_char(d1));
    let t8 = t7.push(hex_digit_char(d0));
    lemma_hex_value_push(t0, hex_digit_char(d7));
    lemma_hex_value_push(t1, hex_digit_char(d6));
    lemma_hex_value_push(t2, hex_digit_char(d5));
    lemma_hex_value_push(t3, hex_digit_char(d4));
    lemma_hex_value_push(t4, hex_digit_char(d3));
    lemma_hex_value_push(t5, hex_digit_char(d2));
    lemma_hex_value_push(t6, hex_digit_char(d1));
    lemma_hex_value_push(t7, hex_digit_char(d0));
    assert(hex_value(t0) == 0);
    assert(t8 =~= hex_repr8(v));
    let h1 = d7;
    let h2 = h1 * 16 + d6;
    let h3 = h2 * 16 + d5;
    let h4 = h3 * 16 + d4;
    let h5 = h4 * 16 + d3;
    let h6 = h5 * 16 + d2;
    let h7 = h6 * 16 + d1;
    let h8 = h7 * 16 + d0;
    assert(hex_value(hex_repr8(v)) == h8);
    assert(((v >> 28) & 0xf) * 0x10000000 + ((v >> 24) & 0xf) * 0x1000000 + ((v >> 20) & 0xf)
        * 0x100000 + ((v >> 16) & 0xf) * 0x10000 + ((v >> 12) & 0xf) * 0x1000 + ((v >> 8) & 0xf)
        * 0x100 + ((v >> 4) & 0xf) * 0x10 + (v & 0xf) == v) by (bit_vector);
}

/// A decimal digit.
pub open spec fn is_dec_digit(c: char) -> bool {
    '0' <= c && c <= '9'
}

/// The value of a decimal digit.
pub open spec fn dec_digit_value(c: char) -> int {
    c as u32 - '0' as u32
}

/// A non-empty string of decimal digits.
pub open spec fn is_dec_string(s: Seq<char>) -> bool {
    s.len() > 0 && forall|i: int| 0 <= i < s.len() ==> is_dec_digit(#[trigger] s[i])
}

/// The number a string of decimal digits denotes.
pub open spec fn dec_value(s: Seq<char>) -> int
    decreases s.len(),
{
    if s.len() == 0 {
        0
    } else {
        dec_value(s.drop_last()) * 10 + dec_digit_value(s.last())
    }
}

/// What parsing an unsigned 32-bit decimal numeral yields: the denoted
/// number, if the string is a numeral and the number fits.
pub open spec fn parse_dec_u32(s: Seq<char>) -> Option<u32> {
    if is_dec_string(s) && dec_value(s) <= u32::MAX {
        Some(dec_value(s) as u32)
    } else {
        None
    }
}

/// A hexadecimal digit, either case.
pub open spec fn is_hex_digit(c: char) -> bool {
    ('0' <= c && c <= '9') || ('a' <= c && c <= 'f') || ('A' <= c && c <= 'F')
}

/// The value of a hexadecimal digit.
pub open spec fn hex_digit_value(c: char) -> int {
    if '0' <= c && c <= '9' {
        c as u32 - '0' as u32
    } else if 'a' <= c && c <= 'f' {
        c as u32 - 'a' as u32 + 10
    } else {
        c as u32 - 'A' as u32 + 10
    }
}

/// A non-empty string of hexadecimal digits.
pub open spec fn is_hex_string(s: Seq<char>) -> bool {
    s.len() > 0 && forall|i: int| 0 <= i < s.len() ==> is_hex_digit(#[trigger] s[i])
}

/// The number a string of hexadecimal digits denotes.
pub open spec fn hex_value(s: Seq<char>) -> int
    decreases s.len(),
{
    if s.len() == 0 {
        0
    } else {
        hex_value(s.drop_last()) * 16 + hex_digit_value(s.last())
    }
}

/// What parsing an unsigned 32-bit hexadecimal numeral yields.
pub open spec fn parse_hex_u32(s: Seq<char>) -> Option<u32> {
    if is_hex_string(s) && hex_value(s) <= u32::MAX {
        Some(hex_value(s) as u32)
    } else {
        None
    }
}

/// Digit values are single digits, so a numeral's value never shrinks when
/// digits are appended.
proof fn lemma_dec_value_nonneg(s: Seq<char>)
    requires
        forall|i: int| 0 <= i < s.len() ==> is_dec_digit(#[trigger] s[i]),
    ensures
        dec_value(s) >= 0,
    decreases s.len(),
{
    if s.len() > 0 {
        lemma_dec_value_nonneg(s.drop_last());
    }
}

proof fn lemma_dec_value_prefix_le(s: Seq<char>, i: int)
    requires
        forall|j: int| 0 <= j < s.len() ==> is_dec_digit(#[trigger] s[j]),
        0 <= i <= s.len(),
    ensures
        dec_value(s.take(i)) <= dec_value(s),
    decreases s.len() - i,
{
    if i < s.len() {
        lemma_dec_value_prefix_le(s, i + 1);
        lemma_dec_value_nonneg(s.take(i));
        assert(s.take(i + 1).drop_last() =~= s.take(i));
        assert(dec_value(s.take(i)) <= dec_value(s.take(i)) * 10 + dec_digit_value(s[i]));
    } else {
        assert(s.take(i) =~= s);
    }
}

proof fn lemma_hex_value_nonneg(s: Seq<char>)
    requires
        forall|i: int| 0 <= i < s.len() ==> is_hex_digit(#[trigger] s[i]),
    ensures
        hex_value(s) >= 0,
    decreases s.len(),
{
    if s.len() > 0 {
        lemma_hex_value_nonneg(s.drop_last());
    }
}

proof fn lemma_hex_value_prefix_le(s: Seq<char>, i: int)
    requires
        forall|j: int| 0 <= j < s.len() ==> is_hex_digit(#[trigger] s[j]),
        0 <= i <= s.len(),
    ensures
        hex_value(s.take(i)) <= hex_value(s),
    decreases s.len() - i,
{
    if i < s.len() {
        lemma_hex_value_prefix_le(s, i + 1);
        lemma_hex_value_nonneg(s.take(i));
        assert(s.take(i + 1).drop_last() =~= s.take(i));
        assert(hex_value(s.take(i)) <= hex_value(s.take(i)) * 16 + hex_digit_value(s[i]));
    } else {
        assert(s.take(i) =~= s);
    }
}

/// Parse an unsigned 32-bit decimal numeral.
pub fn parse_u32_dec(s: &str) -> (r: Option<u32>)
    ensures
        r == parse_dec_u32(s@),
{
    let len = s.unicode_len();
    if len == 0 {
        return None;
    }
    let mut acc: u64 = 0;
    let mut i: usize = 0;
    while i < len
        invariant
            len == s@.len(),
            0 < len,
            i <= len,
            forall|j: int| 0 <= j < i ==> is_dec_digit(#[trigger] s@[j]),
            acc == dec_value(s@.take(i as int)),
            acc <= u32::MAX,
        decreases len - i,
    {
        let c = s.get_char(i);
        if !('0' <= c && c <= '9') {
            return None;
        }
        let digit = (c as u32) - ('0' as u32);
        let next: u64 = acc * 10 + digit as u64;
        proof {
            assert(s@.take(i + 1).drop_last() =~= s@.take(i as int));
            assert(s@.take(i + 1).last() == s@[i as int]);
        }
        if next > u32::MAX as u64 {
            proof {
                if is_dec_string(s@) {
                    lemma_dec_value_prefix_le(s@, i + 1);
                }
            }
            return None;
        }
        acc = next;
        i += 1;
    }
    proof {
        assert(s@.take(len as int) =~= s@);
    }
    Some(acc as u32)
}

/// Parse an unsigned 32-bit hexadecimal numeral, accepting either case.
pub fn parse_u32_hex(s: &str) -> (r: Option<u32>)
    ensures
        r == parse_hex_u32(s@),
{
    let len = s.unicode_len();
    if len == 0 {
        return None;
    }
    let mut acc: u64 = 0;
    let mut i: usize = 0;
    while i < len
        invariant
            len == s@.len(),
            0 < len,
            i <= len,
            forall|j: int| 0 <= j < i ==> is_hex_digit(#[trigger] s@[j]),
            acc == hex_value(s@.take(i as int)),
            acc <= u32::MAX,
        decreases len - i,
    {
        let c = s.get_char(i);
        let digit: u32 = if '0' <= c && c <= '9' {
            (c as u32) - ('0' as u32)
        } else if 'a' <= c && c <= 'f' {
            (c as u32) - ('a' as u32) + 10
        } else if 'A' <= c && c <= 'F' {
            (c as u32) - ('A' as u32) + 10
        } else {
            return None;
        };
        let next: u64 = acc * 16 + digit as u64;
        proof {
            assert(s@.take(i + 1).drop_last() =~= s@.take(i as int));
            assert(s@.take(i + 1).last() == s@[i as int]);
        }
        if next > u32::MAX as u64 {
            proof {
                if is_hex_string(s@) {
                    lemma_hex_value_prefix_le(s@, i + 1);
                }
            }
            return None;
        }
        acc = next;
        i += 1;
    }
    proof {
        assert(s@.take(len as int) =~= s@);
    }
    Some(acc as u32)
}

} // verus!
