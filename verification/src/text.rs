//! Small verified helpers on bytes and strings.

use vstd::prelude::*;
use vstd::string::{StringExecFns, StringSliceAdditionalSpecFns};
use vstd::utf8::encode_utf8_decode_utf8;

verus! {

/// Index of the first occurrence of `b` in `s`, or the length of `s` when
/// there is none.
pub open spec fn find_byte(s: Seq<u8>, b: u8) -> int
    decreases s.len(),
{
    if s.len() == 0 {
        0
    } else if s[0] == b {
        0
    } else {
        1 + find_byte(s.drop_first(), b)
    }
}

/// Whether `s` begins with `prefix`.
pub open spec fn has_prefix(s: Seq<u8>, prefix: Seq<u8>) -> bool {
    prefix.len() <= s.len() && s.subrange(0, prefix.len() as int) == prefix
}

/// An index that holds `b` and has no `b` before it is the one that
/// `find_byte` gives; so is the length, where no index holds `b`.
pub proof fn lemma_find_byte(s: Seq<u8>, b: u8, i: int)
    requires
        0 <= i <= s.len(),
        forall|j: int| 0 <= j < i ==> s[j] != b,
        i < s.len() ==> s[i] == b,
    ensures
        find_byte(s, b) == i,
    decreases s.len(),
{
    if s.len() > 0 && i > 0 {
        let t = s.drop_first();
        assert forall|j: int| 0 <= j < i - 1 implies t[j] != b by {
            assert(t[j] == s[j + 1]);
        }
        lemma_find_byte(t, b, i - 1);
    }
}

/// Index of the first occurrence of `b` in `bytes`, or their length when
/// there is none.
pub fn find(bytes: &[u8], b: u8) -> (index: usize)
    ensures
        index == find_byte(bytes@, b),
        index <= bytes@.len(),
        forall|j: int| 0 <= j < index ==> bytes@[j] != b,
        index < bytes@.len() ==> bytes@[index as int] == b,
{
    let n = bytes.len();
    let mut index: usize = 0;
    while index < n && bytes[index] != b
        invariant
            index <= n,
            n == bytes@.len(),
            forall|j: int| 0 <= j < index ==> bytes@[j] != b,
        decreases n - index,
    {
        index += 1;
    }
    proof {
        lemma_find_byte(bytes@, b, index as int);
    }
    index
}

/// Whether two byte strings are the same.
pub fn bytes_equal(a: &[u8], b: &[u8]) -> (result: bool)
    ensures
        result == (a@ == b@),
{
    if a.len() != b.len() {
        return false;
    }
    let n = a.len();
    let mut i: usize = 0;
    while i < n
        invariant
            i <= n,
            n == a@.len(),
            n == b@.len(),
            forall|j: int| 0 <= j < i ==> a@[j] == b@[j],
        decreases n - i,
    {
        if a[i] != b[i] {
            return false;
        }
        i += 1;
    }
    assert(a@ =~= b@);
    true
}

/// Whether `bytes` continues at index `start` with `pattern`.
pub fn continues_with(bytes: &[u8], start: usize, pattern: &[u8]) -> (result: bool)
    requires
        start <= bytes@.len(),
    ensures
        result == has_prefix(bytes@.subrange(start as int, bytes@.len() as int), pattern@),
{
    let ghost rest = bytes@.subrange(start as int, bytes@.len() as int);
    let n = pattern.len();
    if bytes.len() - start < n {
        return false;
    }
    let mut i: usize = 0;
    while i < n
        invariant
            i <= n,
            n == pattern@.len(),
            start + n <= bytes@.len() <= usize::MAX,
            rest == bytes@.subrange(start as int, bytes@.len() as int),
            forall|j: int| 0 <= j < i ==> rest[j] == pattern@[j],
        decreases n - i,
    {
        if bytes[start + i] != pattern[i] {
            assert(rest.subrange(0, n as int)[i as int] == rest[i as int]);
            return false;
        }
        i += 1;
    }
    assert(rest.subrange(0, n as int) =~= pattern@);
    true
}

/// Whether two strings hold the same characters.
pub fn str_equals(a: &str, b: &str) -> (result: bool)
    ensures
        result == (a@ == b@),
{
    proof {
        encode_utf8_decode_utf8(a@);
        encode_utf8_decode_utf8(b@);
    }
    bytes_equal(a.as_bytes(), b.as_bytes())
}

/// The character that stands for a digit below sixteen, in lower case.
pub open spec fn digit_text(d: nat) -> Seq<char> {
    if d == 0 {
        "0"@
    } else if d == 1 {
        "1"@
    } else if d == 2 {
        "2"@
    } else if d == 3 {
        "3"@
    } else if d == 4 {
        "4"@
    } else if d == 5 {
        "5"@
    } else if d == 6 {
        "6"@
    } else if d == 7 {
        "7"@
    } else if d == 8 {
        "8"@
    } else if d == 9 {
        "9"@
    } else if d == 10 {
        "a"@
    } else if d == 11 {
        "b"@
    } else if d == 12 {
        "c"@
    } else if d == 13 {
        "d"@
    } else if d == 14 {
        "e"@
    } else {
        "f"@
    }
}

/// The decimal numeral of `n`, without leading zeros.
pub open spec fn number_text(n: nat) -> Seq<char>
    decreases n,
{
    if n < 10 {
        digit_text(n)
    } else {
        number_text(n / 10) + digit_text(n % 10)
    }
}

/// The decimal numeral of `n`, with a `-` in front where `n` is negative.
pub open spec fn signed_text(n: int) -> Seq<char> {
    if n < 0 {
        "-"@ + number_text((-n) as nat)
    } else {
        number_text(n as nat)
    }
}

/// The bytes of `bytes` written as two hexadecimal digits each, in lower
/// case.
pub open spec fn hex_text(bytes: Seq<u8>) -> Seq<char>
    decreases bytes.len(),
{
    if bytes.len() == 0 {
        Seq::empty()
    } else {
        hex_text(bytes.drop_last()) + digit_text((bytes.last() / 16) as nat) + digit_text(
            (bytes.last() % 16) as nat,
        )
    }
}

/// The character that stands for the digit `d`.
pub fn digit_str(d: u64) -> (text: &'static str)
    requires
        d < 16,
    ensures
        text@ == digit_text(d as nat),
{
    if d == 0 {
        "0"
    } else if d == 1 {
        "1"
    } else if d == 2 {
        "2"
    } else if d == 3 {
        "3"
    } else if d == 4 {
        "4"
    } else if d == 5 {
        "5"
    } else if d == 6 {
        "6"
    } else if d == 7 {
        "7"
    } else if d == 8 {
        "8"
    } else if d == 9 {
        "9"
    } else if d == 10 {
        "a"
    } else if d == 11 {
        "b"
    } else if d == 12 {
        "c"
    } else if d == 13 {
        "d"
    } else if d == 14 {
        "e"
    } else {
        "f"
    }
}

/// The decimal numeral of `n`, without leading zeros.
pub fn number_string(n: u64) -> (text: String)
    ensures
        text@ == number_text(n as nat),
    decreases n,
{
    if n < 10 {
        String::from_str(digit_str(n))
    } else {
        number_string(n / 10).concat(digit_str(n % 10))
    }
}

/// The decimal numeral of `n`, with a `-` in front where `n` is negative.
pub fn signed_string(n: i64) -> (text: String)
    ensures
        text@ == signed_text(n as int),
{
    if n < 0 {
        let magnitude: u64 = ((-(n + 1)) as u64) + 1;
        let mut text = String::from_str("-");
        text.append(number_string(magnitude).as_str());
        text
    } else {
        number_string(n as u64)
    }
}

} // verus!
