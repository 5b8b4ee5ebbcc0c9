use vstd::prelude::*;

use vstd::utf8::{encode_utf8, is_ascii_chars, is_ascii_chars_encode_utf8};

verus! {

/// Appends one character to a string (std `String::push`).
///
/// Trusted: the contract claims only that the string's characters gain `c`
/// at the end, as std documents.
#[verifier::external_body]
pub(crate) fn push_char(s: &mut String, c: char)
    ensures
        final(s)@ == old(s)@.push(c),
{
    s.push(c);
}

/// The characters of `s`, in order.
pub fn chars_of(s: &str) -> (v: Vec<char>)
    ensures
        v@ == s@,
{
    let mut v: Vec<char> = Vec::new();
    for c in it: s.chars()
        invariant
            it.seq() == s@,
            v@ == s@.take(it.index() as int),
    {
        v.push(c);
        assert(v@ =~= s@.take(it.index() + 1));
    }
    assert(v@ =~= s@);
    v
}


/// Unicode `White_Space` characters (what std `char::is_whitespace` tests).
pub open spec fn is_whitespace_spec(c: char) -> bool {
    let u = c as u32;
    ||| 0x09 <= u <= 0x0D
    ||| u == 0x20
    ||| u == 0x85
    ||| u == 0xA0
    ||| u == 0x1680
    ||| 0x2000 <= u <= 0x200A
    ||| u == 0x2028
    ||| u == 0x2029
    ||| u == 0x202F
    ||| u == 0x205F
    ||| u == 0x3000
}

/// Whether `c` is Unicode `White_Space`, as std `char::is_whitespace` tests.
pub(crate) fn char_is_whitespace(c: char) -> (r: bool)
    ensures
        r == is_whitespace_spec(c),
{
    let u = c as u32;
    (0x09 <= u && u <= 0x0D) || u == 0x20 || u == 0x85 || u == 0xA0 || u == 0x1680 || (0x2000 <= u && u <= 0x200A)
        || u == 0x2028 || u == 0x2029 || u == 0x202F || u == 0x205F || u == 0x3000
}

/// Appends the characters of `t`.
pub fn push_str(s: &mut String, t: &str)
    ensures
        final(s)@ == old(s)@ + t@,
{
    let chars = chars_of(t);
    let mut i: usize = 0;
    while i < chars.len()
        invariant
            i <= chars@.len(),
            chars@ == t@,
            s@ == old(s)@ + chars@.take(i as int),
        decreases chars@.len() - i,
    {
        push_char(s, chars[i]);
        i = i + 1;
        assert(s@ =~= old(s)@ + chars@.take(i as int));
    }
    assert(chars@.take(i as int) =~= chars@);
}

/// A string holding `a` followed by `b`.
pub fn concat_str(a: &str, b: &str) -> (s: String)
    ensures
        s@ == a@ + b@,
{
    let mut s = String::new();
    push_str(&mut s, a);
    push_str(&mut s, b);
    assert(s@ =~= a@ + b@);
    s
}

/// The character of a decimal digit.
pub open spec fn digit_char(d: nat) -> char {
    (48 + d) as char
}

/// Decimal digits of `n`, without leading zeros.
pub open spec fn decimal_spec(n: nat) -> Seq<char>
    decreases n,
{
    if n < 10 {
        seq![digit_char(n)]
    } else {
        decimal_spec(n / 10).push(digit_char(n % 10))
    }
}

/// Appends the decimal digits of `n`.
pub fn push_decimal(s: &mut String, n: u64)
    ensures
        final(s)@ == old(s)@ + decimal_spec(n as nat),
    decreases n,
{
    if n >= 10 {
        push_decimal(s, n / 10);
    }
    let d = (n % 10) as u8;
    push_char(s, (48 + d) as char);
    assert(s@ =~= old(s)@ + decimal_spec(n as nat));
}

/// A string holding exactly the characters `chars`.
pub fn string_of(chars: &Vec<char>) -> (s: String)
    ensures
        s@ == chars@,
{
    let mut s = String::new();
    let mut i: usize = 0;
    while i < chars.len()
        invariant
            i <= chars@.len(),
            s@ == chars@.take(i as int),
        decreases chars@.len() - i,
    {
        push_char(&mut s, chars[i]);
        i = i + 1;
        assert(s@ =~= chars@.take(i as int));
    }
    assert(chars@.take(i as int) =~= chars@);
    s
}

/// Whether two strings hold the same characters.
pub fn str_eq(a: &str, b: &str) -> (r: bool)
    ensures
        r == (a@ == b@),
{
    let x = chars_of(a);
    let y = chars_of(b);
    if x.len() != y.len() {
        return false;
    }
    let mut i: usize = 0;
    while i < x.len()
        invariant
            x@ == a@,
            y@ == b@,
            x@.len() == y@.len(),
            i <= x@.len(),
            x@.take(i as int) == y@.take(i as int),
        decreases x@.len() - i,
    {
        let xc: char = x[i];
        let yc: char = y[i];
        if xc != yc {
            assert(a@[i as int] != b@[i as int]);
            return false;
        }
        assert(x@.take(i + 1) =~= x@.take(i as int).push(x@[i as int]));
        assert(y@.take(i + 1) =~= y@.take(i as int).push(y@[i as int]));
        i = i + 1;
    }
    assert(x@.take(i as int) =~= x@);
    assert(y@.take(i as int) =~= y@);
    true
}

/// The character of a hex digit value below 16, upper case.
pub open spec fn nibble_upper(n: u8) -> char {
    if n < 10 {
        (48 + n) as char
    } else {
        (55 + n) as char
    }
}

/// The character of a hex digit value below 16, lower case.
pub open spec fn nibble_lower(n: u8) -> char {
    if n < 10 {
        (48 + n) as char
    } else {
        (87 + n) as char
    }
}

/// Upper-case hex of `bytes`, two digits per byte.
pub open spec fn hex_upper_spec(bytes: Seq<u8>) -> Seq<char>
    decreases bytes.len(),
{
    if bytes.len() == 0 {
        Seq::empty()
    } else {
        hex_upper_spec(bytes.drop_last()) + seq![nibble_upper(bytes.last() / 16), nibble_upper(bytes.last() % 16)]
    }
}

/// Lower-case hex of `bytes`, two digits per byte.
pub open spec fn hex_lower_spec(bytes: Seq<u8>) -> Seq<char>
    decreases bytes.len(),
{
    if bytes.len() == 0 {
        Seq::empty()
    } else {
        hex_lower_spec(bytes.drop_last()) + seq![nibble_lower(bytes.last() / 16), nibble_lower(bytes.last() % 16)]
    }
}

pub fn nibble_upper_char(n: u8) -> (c: char)
    requires
        n < 16,
    ensures
        c == nibble_upper(n),
{
    if n < 10 {
        (48 + n) as char
    } else {
        (55 + n) as char
    }
}

/// Appends the two upper-case hex digits of `b`.
pub fn push_hex_upper(s: &mut String, b: u8)
    ensures
        final(s)@ == old(s)@ + seq![nibble_upper(b / 16), nibble_upper(b % 16)],
{
    let hi = nibble_upper_char(b / 16);
    let lo = nibble_upper_char(b % 16);
    push_char(s, hi);
    push_char(s, lo);
    assert(s@ =~= old(s)@ + seq![nibble_upper(b / 16), nibble_upper(b % 16)]);
}

/// Whether `c` is an ASCII hex digit.
pub open spec fn is_hex_char(c: char) -> bool {
    ('0' <= c && c <= '9') || ('a' <= c && c <= 'f') || ('A' <= c && c <= 'F')
}

/// The value of an ASCII hex digit.
pub open spec fn hex_char_val(c: char) -> u8 {
    if '0' <= c && c <= '9' {
        (c as u32 - 48) as u8
    } else if 'a' <= c && c <= 'f' {
        (c as u32 - 87) as u8
    } else {
        (c as u32 - 55) as u8
    }
}

/// Whether `b` is an ASCII hex digit.
pub open spec fn is_hex_byte(b: u8) -> bool {
    (48 <= b <= 57) || (97 <= b <= 102) || (65 <= b <= 70)
}

/// The value of an ASCII hex digit byte.
pub open spec fn hex_byte_val(b: u8) -> u8 {
    if 48 <= b <= 57 {
        (b - 48) as u8
    } else if 97 <= b <= 102 {
        (b - 87) as u8
    } else {
        (b - 55) as u8
    }
}

/// Bytes written as pairs of hex digit bytes, most significant digit first.
pub open spec fn unhex_bytes(digits: Seq<u8>) -> Seq<u8> {
    Seq::new(digits.len() / 2, |i: int| (hex_byte_val(digits[2 * i]) * 16 + hex_byte_val(digits[2 * i + 1])) as u8)
}

/// Bytes written as pairs of hex digit characters, most significant digit first.
pub open spec fn unhex_chars(digits: Seq<char>) -> Seq<u8> {
    Seq::new(digits.len() / 2, |i: int| (hex_char_val(digits[2 * i]) * 16 + hex_char_val(digits[2 * i + 1])) as u8)
}


/// ASCII lower case of one character; other characters are unchanged.
pub open spec fn ascii_lower(c: char) -> char {
    if 'A' <= c && c <= 'Z' {
        ((c as u32) + 32) as char
    } else {
        c
    }
}

/// ASCII lower case of every character.
pub open spec fn lower_chars(s: Seq<char>) -> Seq<char> {
    s.map_values(|c: char| ascii_lower(c))
}

pub fn ascii_lower_char(c: char) -> (r: char)
    ensures
        r == ascii_lower(c),
{
    if 'A' <= c && c <= 'Z' {
        ((c as u32) + 32) as u8 as char
    } else {
        c
    }
}

/// The characters of `s` in ASCII lower case.
pub fn lower_chars_of(s: &str) -> (v: Vec<char>)
    ensures
        v@ == lower_chars(s@),
{
    let chars = chars_of(s);
    let mut v: Vec<char> = Vec::with_capacity(chars.len());
    let mut i: usize = 0;
    while i < chars.len()
        invariant
            i <= chars@.len(),
            v@ == lower_chars(chars@.take(i as int)),
        decreases chars@.len() - i,
    {
        v.push(ascii_lower_char(chars[i]));
        i = i + 1;
        assert(v@ =~= lower_chars(chars@.take(i as int)));
    }
    assert(chars@.take(i as int) =~= chars@);
    v
}

/// Whether two character vectors are equal.
pub fn chars_eq(a: &Vec<char>, b: &Vec<char>) -> (r: bool)
    ensures
        r == (a@ == b@),
{
    if a.len() != b.len() {
        return false;
    }
    let mut i: usize = 0;
    while i < a.len()
        invariant
            a@.len() == b@.len(),
            i <= a@.len(),
            a@.take(i as int) == b@.take(i as int),
        decreases a@.len() - i,
    {
        let x: char = a[i];
        let y: char = b[i];
        if x != y {
            assert(a@[i as int] != b@[i as int]);
            return false;
        }
        assert(a@.take(i + 1) =~= a@.take(i as int).push(a@[i as int]));
        assert(b@.take(i + 1) =~= b@.take(i as int).push(b@[i as int]));
        i = i + 1;
    }
    assert(a@.take(i as int) =~= a@);
    assert(b@.take(i as int) =~= b@);
    true
}

/// Whether two strings are equal up to ASCII case.
pub fn eq_ignore_ascii_case(a: &str, b: &str) -> (r: bool)
    ensures
        r == (lower_chars(a@) == lower_chars(b@)),
{
    let x = lower_chars_of(a);
    let y = lower_chars_of(b);
    chars_eq(&x, &y)
}

/// Whether `needle` occurs in `hay` starting at `i`.
pub open spec fn occurs_at(hay: Seq<char>, needle: Seq<char>, i: int) -> bool {
    0 <= i && i + needle.len() <= hay.len() && hay.subrange(i, i + needle.len()) == needle
}

/// Whether `needle` occurs somewhere in `hay`.
pub open spec fn contains_chars(hay: Seq<char>, needle: Seq<char>) -> bool {
    exists|i: int| occurs_at(hay, needle, i)
}

fn occurs_at_exec(hay: &Vec<char>, needle: &Vec<char>, i: usize) -> (r: bool)
    requires
        i + needle@.len() <= hay@.len(),
    ensures
        r == occurs_at(hay@, needle@, i as int),
{
    let hl = hay.len();
    let mut j: usize = 0;
    while j < needle.len()
        invariant
            hl == hay@.len(),
            i + needle@.len() <= hay@.len(),
            j <= needle@.len(),
            forall|k: int| 0 <= k < j ==> hay@[i + k] == needle@[k],
        decreases needle@.len() - j,
    {
        let x: char = hay[i + j];
        let y: char = needle[j];
        if x != y {
            assert(hay@.subrange(i as int, i + needle@.len())[j as int] != needle@[j as int]);
            return false;
        }
        j = j + 1;
    }
    assert(hay@.subrange(i as int, i + needle@.len()) =~= needle@);
    true
}

/// Whether `needle` occurs somewhere in `hay`.
pub fn contains_exec(hay: &Vec<char>, needle: &Vec<char>) -> (r: bool)
    ensures
        r == contains_chars(hay@, needle@),
{
    if needle.len() > hay.len() {
        return false;
    }
    let last = hay.len() - needle.len();
    let mut i: usize = 0;
    while i < last
        invariant
            last == hay@.len() - needle@.len(),
            needle@.len() <= hay@.len(),
            i <= last,
            forall|k: int| 0 <= k < i ==> !occurs_at(hay@, needle@, k),
        decreases last - i,
    {
        if occurs_at_exec(hay, needle, i) {
            return true;
        }
        i = i + 1;
    }
    let r = occurs_at_exec(hay, needle, last);
    assert(!r ==> forall|k: int| !occurs_at(hay@, needle@, k));
    r
}

pub(crate) proof fn lemma_nibble_upper(n: u8)
    requires
        n < 16,
    ensures
        is_hex_char(nibble_upper(n)),
        hex_char_val(nibble_upper(n)) == n,
        nibble_upper(n) != ':' && nibble_upper(n) != '-' && !is_whitespace_spec(nibble_upper(n)),
        nibble_upper(n) <= '\u{7f}',
{
}

pub(crate) proof fn lemma_hex_upper_shape(b: Seq<u8>)
    ensures
        hex_upper_spec(b).len() == 2 * b.len(),
        forall|i: int|
            #![trigger hex_upper_spec(b)[2 * i]]
            #![trigger hex_upper_spec(b)[2 * i + 1]]
            0 <= i < b.len() ==> hex_upper_spec(b)[2 * i] == nibble_upper(b[i] / 16)
                && hex_upper_spec(b)[2 * i + 1] == nibble_upper(b[i] % 16),
    decreases b.len(),
{
    if b.len() > 0 {
        lemma_hex_upper_shape(b.drop_last());
        let h = hex_upper_spec(b);
        let p = hex_upper_spec(b.drop_last());
        assert forall|i: int| 0 <= i < b.len() implies h[2 * i] == nibble_upper(b[i] / 16)
            && h[2 * i + 1] == nibble_upper(b[i] % 16) by {
            if i < b.len() - 1 {
                assert(b.drop_last()[i] == b[i]);
                assert(h[2 * i] == p[2 * i]);
                assert(h[2 * i + 1] == p[2 * i + 1]);
            }
        }
    }
}

pub(crate) proof fn lemma_nibble_lower(n: u8)
    requires
        n < 16,
    ensures
        is_hex_char(nibble_lower(n)),
        hex_char_val(nibble_lower(n)) == n,
        nibble_lower(n) != ':' && nibble_lower(n) != '-' && !is_whitespace_spec(nibble_lower(n)),
        nibble_lower(n) <= '\u{7f}',
{
}

pub(crate) proof fn lemma_hex_lower_shape(b: Seq<u8>)
    ensures
        hex_lower_spec(b).len() == 2 * b.len(),
        forall|i: int|
            #![trigger hex_lower_spec(b)[2 * i]]
            #![trigger hex_lower_spec(b)[2 * i + 1]]
            0 <= i < b.len() ==> hex_lower_spec(b)[2 * i] == nibble_lower(b[i] / 16)
                && hex_lower_spec(b)[2 * i + 1] == nibble_lower(b[i] % 16),
    decreases b.len(),
{
    if b.len() > 0 {
        lemma_hex_lower_shape(b.drop_last());
        let h = hex_lower_spec(b);
        let p = hex_lower_spec(b.drop_last());
        assert forall|i: int| 0 <= i < b.len() implies h[2 * i] == nibble_lower(b[i] / 16)
            && h[2 * i + 1] == nibble_lower(b[i] % 16) by {
            if i < b.len() - 1 {
                assert(b.drop_last()[i] == b[i]);
                assert(h[2 * i] == p[2 * i]);
                assert(h[2 * i + 1] == p[2 * i + 1]);
            }
        }
    }
}


/// The UTF-8 bytes of hex text made by `hex_lower_spec` or `hex_upper_spec`
/// decode back to the bytes.
pub(crate) proof fn lemma_hex_text_bytes(b: Seq<u8>, h: Seq<char>, upper: bool)
    requires
        h == (if upper { hex_upper_spec(b) } else { hex_lower_spec(b) }),
    ensures
        is_ascii_chars(h),
        encode_utf8(h).len() == 2 * b.len(),
        forall|i: int| 0 <= i < encode_utf8(h).len() ==> is_hex_byte(#[trigger] encode_utf8(h)[i]),
        unhex_bytes(encode_utf8(h)) == b,
{
    if upper {
        lemma_hex_upper_shape(b);
    } else {
        lemma_hex_lower_shape(b);
    }
    assert forall|i: int| 0 <= i < h.len() implies '\0' <= #[trigger] h[i] <= '\u{7f}' && is_hex_char(h[i]) by {
        let j = i / 2;
        if upper {
            lemma_nibble_upper(b[j] / 16);
            lemma_nibble_upper(b[j] % 16);
        } else {
            lemma_nibble_lower(b[j] / 16);
            lemma_nibble_lower(b[j] % 16);
        }
        if i % 2 == 0 {
            assert(i == 2 * j);
        } else {
            assert(i == 2 * j + 1);
        }
    }
    is_ascii_chars_encode_utf8(h);
    let e = encode_utf8(h);
    assert forall|i: int| 0 <= i < e.len() implies is_hex_byte(#[trigger] e[i]) && hex_byte_val(e[i]) == hex_char_val(h[i]) by {
        assert(h[i] as u8 == e[i]);
        assert(is_hex_char(h[i]));
        assert('\0' <= h[i] <= '\u{7f}');
    }
    assert forall|j: int| 0 <= j < b.len() implies #[trigger] unhex_bytes(e)[j] == b[j] by {
        assert(hex_byte_val(e[2 * j]) == hex_char_val(h[2 * j]));
        assert(hex_byte_val(e[2 * j + 1]) == hex_char_val(h[2 * j + 1]));
        if upper {
            lemma_nibble_upper(b[j] / 16);
            lemma_nibble_upper(b[j] % 16);
        } else {
            lemma_nibble_lower(b[j] / 16);
            lemma_nibble_lower(b[j] % 16);
        }
    }
    assert(unhex_bytes(e) =~= b);
}

} // verus!
