//! Small verified text utilities: character search, string equality,
//! decimal parsing and rendering of unsigned 16-bit numbers.

use vstd::prelude::*;
use vstd::string::*;

verus! {

/// The first index `>= i` at which `c` occurs in `s`, or `s.len()` if it
/// does not occur there.
pub open spec fn first_index_from(s: Seq<char>, c: char, i: int) -> int
    decreases s.len() - i,
{
    if i < 0 || i >= s.len() {
        s.len() as int
    } else if s[i] == c {
        i
    } else {
        first_index_from(s, c, i + 1)
    }
}

/// The first index at which `c` occurs in `s`, or `s.len()` if none.
pub open spec fn first_index(s: Seq<char>, c: char) -> int {
    first_index_from(s, c, 0)
}

pub proof fn lemma_first_index_from(s: Seq<char>, c: char, i: int)
    requires
        0 <= i <= s.len(),
    ensures
        i <= first_index_from(s, c, i) <= s.len(),
        first_index_from(s, c, i) < s.len() ==> s[first_index_from(s, c, i)] == c,
        forall|j: int| i <= j < first_index_from(s, c, i) ==> s[j] != c,
    decreases s.len() - i,
{
    if i < s.len() && s[i] != c {
        lemma_first_index_from(s, c, i + 1);
    }
}

/// The first occurrence of `c` in `s`, if any.
pub fn find_char(s: &str, c: char) -> (r: Option<usize>)
    ensures
        first_index(s@, c) == s@.len() ==> r is None,
        first_index(s@, c) < s@.len() ==> (r matches Some(i) && i as int == first_index(s@, c)),
{
    let len: usize = s.unicode_len();
    let mut k: usize = 0;
    while k < len
        invariant
            0 <= k <= len,
            len == s@.len(),
            first_index(s@, c) == first_index_from(s@, c, k as int),
        decreases len - k,
    {
        if s.get_char(k) == c {
            return Some(k);
        }
        k = k + 1;
    }
    None
}

/// Whether two strings hold the same characters.
pub fn str_eq(a: &str, b: &str) -> (r: bool)
    ensures
        r == (a@ == b@),
{
    let la: usize = a.unicode_len();
    let lb: usize = b.unicode_len();
    if la != lb {
        return false;
    }
    let mut k: usize = 0;
    while k < la
        invariant
            0 <= k <= la,
            la == a@.len(),
            la == b@.len(),
            forall|j: int| 0 <= j < k ==> a@[j] == b@[j],
        decreases la - k,
    {
        if a.get_char(k) != b.get_char(k) {
            return false;
        }
        k = k + 1;
    }
    proof {
        assert(a@ =~= b@);
    }
    true
}

/// Whether `c` is an ASCII decimal digit.
pub open spec fn is_digit(c: char) -> bool {
    '0' <= c && c <= '9'
}

/// The numeric value of an ASCII decimal digit.
pub open spec fn digit_val(c: char) -> int {
    c as int - '0' as int
}

/// Whether every character of `s` is an ASCII decimal digit.
pub open spec fn all_digits(s: Seq<char>) -> bool {
    forall|i: int| 0 <= i < s.len() ==> is_digit(s[i])
}

/// The number denoted by a sequence of decimal digits, most significant
/// first.
pub open spec fn digits_val(s: Seq<char>) -> int
    decreases s.len(),
{
    if s.len() == 0 {
        0
    } else {
        digits_val(s.drop_last()) * 10 + digit_val(s.last())
    }
}

/// `s` without an optional leading plus sign, as accepted when parsing an
/// unsigned number.
pub open spec fn unsigned_body(s: Seq<char>) -> Seq<char> {
    if s.len() > 0 && s[0] == '+' {
        s.skip(1)
    } else {
        s
    }
}

/// Whether `s` is a decimal numeral (with optional leading `+`) whose value
/// fits in an unsigned 16-bit integer.
pub open spec fn is_u16_text(s: Seq<char>) -> bool {
    let b = unsigned_body(s);
    b.len() > 0 && all_digits(b) && digits_val(b) <= 65535
}

/// The value denoted by a decimal numeral with optional leading `+`.
pub open spec fn u16_text_val(s: Seq<char>) -> int {
    digits_val(unsigned_body(s))
}

pub proof fn lemma_digits_val_nonneg(s: Seq<char>)
    requires
        all_digits(s),
    ensures
        digits_val(s) >= 0,
    decreases s.len(),
{
    if s.len() > 0 {
        assert(all_digits(s.drop_last())) by {
            assert(forall|i: int|
                0 <= i < s.len() - 1 ==> s.drop_last()[i] == s[i] && is_digit(s[i]));
        }
        lemma_digits_val_nonneg(s.drop_last());
    }
}

pub proof fn lemma_digits_val_monotonic(s: Seq<char>, k: int)
    requires
        all_digits(s),
        0 <= k <= s.len(),
    ensures
        digits_val(s) >= digits_val(s.take(k)),
    decreases s.len() - k,
{
    if k < s.len() {
        let t = s.take(k + 1);
        assert(t.drop_last() =~= s.take(k));
        assert(t.last() == s[k]);
        assert(all_digits(t)) by {
            assert(forall|i: int| 0 <= i < k + 1 ==> t[i] == s[i] && is_digit(s[i]));
        }
        assert(all_digits(s.take(k))) by {
            assert(forall|i: int| 0 <= i < k ==> s.take(k)[i] == s[i] && is_digit(s[i]));
        }
        lemma_digits_val_nonneg(s.take(k));
        assert(digits_val(t) == digits_val(s.take(k)) * 10 + digit_val(s[k]));
        assert(digit_val(s[k]) >= 0);
        assert(digits_val(t) >= digits_val(s.take(k)));
        lemma_digits_val_monotonic(s, k + 1);
        assert(s.take(s.len() as int) =~= s);
    } else {
        assert(s.take(k) =~= s);
    }
}

/// Parse a decimal numeral (optional leading `+`, then digits) into an
/// unsigned 16-bit integer, as the daemon's `rpcport` setting is read.
/// Returns the value exactly when the text denotes a number below 2^16.
pub fn parse_u16(s: &str) -> (r: Option<u16>)
    ensures
        is_u16_text(s@) ==> (r matches Some(v) && v as int == u16_text_val(s@)),
        !is_u16_text(s@) ==> r is None,
{
    let len: usize = s.unicode_len();
    let start: usize = if len > 0 && s.get_char(0) == '+' {
        1
    } else {
        0
    };
    let ghost body = unsigned_body(s@);
    proof {
        assert(body =~= s@.skip(start as int));
    }
    if start >= len {
        return None;
    }
    let mut acc: u32 = 0;
    let mut i: usize = start;
    while i < len
        invariant
            start <= i <= len,
            len == s@.len(),
            start + body.len() == len,
            body == s@.skip(start as int),
            body == unsigned_body(s@),
            acc <= 65535,
            acc as int == digits_val(body.take(i - start)),
            all_digits(body.take(i - start)),
        decreases len - i,
    {
        let c = s.get_char(i);
        assert(body[i - start] == c);
        if c < '0' || c > '9' {
            proof {
                assert(!is_digit(body[i - start]));
                assert(!all_digits(body));
            }
            return None;
        }
        let d: u32 = (c as u32) - ('0' as u32);
        let next: u32 = acc * 10 + d;
        proof {
            let t = body.take(i - start + 1);
            assert(t.drop_last() =~= body.take(i - start));
            assert(t.last() == body[i - start]);
            assert(forall|j: int|
                0 <= j < i - start + 1 ==> t[j] == body.take(i - start + 1)[j]);
            assert(all_digits(t)) by {
                assert(forall|j: int|
                    0 <= j < t.len() ==> t[j] == body[j] && (j < i - start ==> is_digit(
                        body.take(i - start)[j],
                    )));
            }
            assert(digits_val(t) == next as int);
        }
        if next > 65535 {
            proof {
                if all_digits(body) {
                    lemma_digits_val_monotonic(body, i - start + 1);
                    assert(digits_val(body) >= next as int);
                }
                assert(!is_u16_text(s@));
            }
            return None;
        }
        acc = next;
        i = i + 1;
    }
    proof {
        assert(body.take(len - start) =~= body);
    }
    Some(acc as u16)
}

/// The ASCII-uppercase counterpart of a character: a lowercase ASCII letter
/// becomes the matching capital, anything else is itself.
pub open spec fn upper_char(c: char) -> char {
    if c == 'a' {
        'A'
    } else if c == 'b' {
        'B'
    } else if c == 'c' {
        'C'
    } else if c == 'd' {
        'D'
    } else if c == 'e' {
        'E'
    } else if c == 'f' {
        'F'
    } else if c == 'g' {
        'G'
    } else if c == 'h' {
        'H'
    } else if c == 'i' {
        'I'
    } else if c == 'j' {
        'J'
    } else if c == 'k' {
        'K'
    } else if c == 'l' {
        'L'
    } else if c == 'm' {
        'M'
    } else if c == 'n' {
        'N'
    } else if c == 'o' {
        'O'
    } else if c == 'p' {
        'P'
    } else if c == 'q' {
        'Q'
    } else if c == 'r' {
        'R'
    } else if c == 's' {
        'S'
    } else if c == 't' {
        'T'
    } else if c == 'u' {
        'U'
    } else if c == 'v' {
        'V'
    } else if c == 'w' {
        'W'
    } else if c == 'x' {
        'X'
    } else if c == 'y' {
        'Y'
    } else if c == 'z' {
        'Z'
    } else {
        c
    }
}

/// A text with each character ASCII-uppercased.
pub open spec fn upper_text(s: Seq<char>) -> Seq<char> {
    Seq::new(s.len(), |i: int| upper_char(s[i]))
}

fn upper_letter_str(c: char) -> (r: Option<&'static str>)
    ensures
        'a' <= c && c <= 'z' ==> (r matches Some(t) && t@ =~= seq![upper_char(c)]),
        !('a' <= c && c <= 'z') ==> r is None,
{
    proof {
        reveal_strlit("A");
        reveal_strlit("B");
        reveal_strlit("C");
        reveal_strlit("D");
        reveal_strlit("E");
        reveal_strlit("F");
        reveal_strlit("G");
        reveal_strlit("H");
        reveal_strlit("I");
        reveal_strlit("J");
        reveal_strlit("K");
        reveal_strlit("L");
        reveal_strlit("M");
        reveal_strlit("N");
        reveal_strlit("O");
        reveal_strlit("P");
        reveal_strlit("Q");
        reveal_strlit("R");
        reveal_strlit("S");
        reveal_strlit("T");
        reveal_strlit("U");
        reveal_strlit("V");
        reveal_strlit("W");
        reveal_strlit("X");
        reveal_strlit("Y");
        reveal_strlit("Z");
    }
    match c {
        'a' => Some("A"),
        'b' => Some("B"),
        'c' => Some("C"),
        'd' => Some("D"),
        'e' => Some("E"),
        'f' => Some("F"),
        'g' => Some("G"),
        'h' => Some("H"),
        'i' => Some("I"),
        'j' => Some("J"),
        'k' => Some("K"),
        'l' => Some("L"),
        'm' => Some("M"),
        'n' => Some("N"),
        'o' => Some("O"),
        'p' => Some("P"),
        'q' => Some("Q"),
        'r' => Some("R"),
        's' => Some("S"),
        't' => Some("T"),
        'u' => Some("U"),
        'v' => Some("V"),
        'w' => Some("W"),
        'x' => Some("X"),
        'y' => Some("Y"),
        'z' => Some("Z"),
        _ => None,
    }
}

/// ASCII-uppercase a string, as coin tickers are normalized into file and
/// directory names.
pub fn ascii_uppercase(s: &str) -> (r: String)
    ensures
        r@ == upper_text(s@),
{
    let len: usize = s.unicode_len();
    let mut out = String::new();
    let mut i: usize = 0;
    while i < len
        invariant
            i <= len,
            len == s@.len(),
            out@ == upper_text(s@).take(i as int),
        decreases len - i,
    {
        let c = s.get_char(i);
        match upper_letter_str(c) {
            Some(t) => out.append(t),
            None => {
                let piece = s.substring_char(i, i + 1);
                proof {
                    assert(piece@ =~= seq![s@[i as int]]);
                    assert(upper_char(s@[i as int]) == s@[i as int]);
                }
                out.append(piece);
            },
        }
        proof {
            assert(out@ =~= upper_text(s@).take(i + 1));
        }
        i = i + 1;
    }
    proof {
        assert(upper_text(s@).take(len as int) =~= upper_text(s@));
    }
    out
}

/// The character denoting the decimal digit `d`.
pub open spec fn digit_char(d: int) -> char {
    if d == 0 {
        '0'
    } else if d == 1 {
        '1'
    } else if d == 2 {
        '2'
    } else if d == 3 {
        '3'
    } else if d == 4 {
        '4'
    } else if d == 5 {
        '5'
    } else if d == 6 {
        '6'
    } else if d == 7 {
        '7'
    } else if d == 8 {
        '8'
    } else {
        '9'
    }
}

/// The decimal numeral of a non-negative number, most significant digit
/// first, with no leading zeros (a single `0` for zero).
pub open spec fn dec_digits(n: int) -> Seq<char>
    decreases n,
{
    if n < 10 {
        seq![digit_char(n)]
    } else {
        dec_digits(n / 10).push(digit_char(n % 10))
    }
}

fn digit_str(d: u16) -> (r: &'static str)
    requires
        d < 10,
    ensures
        r@ =~= seq![digit_char(d as int)],
{
    proof {
        reveal_strlit("0");
        reveal_strlit("1");
        reveal_strlit("2");
        reveal_strlit("3");
        reveal_strlit("4");
        reveal_strlit("5");
        reveal_strlit("6");
        reveal_strlit("7");
        reveal_strlit("8");
        reveal_strlit("9");
    }
    match d {
        0 => "0",
        1 => "1",
        2 => "2",
        3 => "3",
        4 => "4",
        5 => "5",
        6 => "6",
        7 => "7",
        8 => "8",
        _ => "9",
    }
}

/// Render an unsigned 16-bit number as its decimal numeral.
pub fn u16_string(n: u16) -> (r: String)
    ensures
        r@ == dec_digits(n as int),
    decreases n,
{
    if n < 10 {
        String::from_str(digit_str(n))
    } else {
        let q: u16 = n / 10;
        let m: u16 = n % 10;
        assert(q < n);
        let prefix = u16_string(q);
        let r = prefix.concat(digit_str(m));
        proof {
            assert(r@ =~= dec_digits((n / 10) as int).push(digit_char((n % 10) as int)));
        }
        r
    }
}

} // verus!
