use vstd::prelude::*;

use crate::hexenc::{hex_decode, hex_decode_spec};
use crate::packet::{is_hex_separator, strip_separators};
use crate::text::{
    char_is_whitespace, chars_of, hex_upper_spec, lemma_hex_text_bytes, lemma_nibble_upper, nibble_upper, push_char,
    push_hex_upper,
};
use vstd::utf8::encode_utf8;

verus! {

/// A Bluetooth device address.
#[derive(Debug, Clone, Copy, PartialEq, Eq, Hash)]
pub struct MacAddr(pub [u8; 6]);

/// A string that is not a MAC address.
#[derive(Debug, Clone, PartialEq, Eq, Structural)]
pub enum MacParseError {
    Invalid,
}

/// The address `MacAddr::parse` reads from `s`: the separators (':', '-',
/// whitespace) are dropped and the rest must be exactly 12 hex digits.
pub open spec fn parse_mac_spec(s: Seq<char>) -> Option<Seq<u8>> {
    let digits = encode_utf8(strip_separators(s));
    if digits.len() != 12 {
        None
    } else {
        hex_decode_spec(digits)
    }
}

/// The two upper-case hex digits of a byte.
pub open spec fn hex_pair(b: u8) -> Seq<char> {
    seq![nibble_upper(b / 16), nibble_upper(b % 16)]
}

/// Bytes as upper-case hex pairs joined by ':'.
pub open spec fn colon_hex_spec(bytes: Seq<u8>) -> Seq<char>
    decreases bytes.len(),
{
    if bytes.len() == 0 {
        Seq::empty()
    } else if bytes.len() == 1 {
        hex_pair(bytes[0])
    } else {
        colon_hex_spec(bytes.drop_last()) + seq![':'] + hex_pair(bytes.last())
    }
}

/// Message of a MAC address parse failure.
pub open spec fn mac_error_message() -> Seq<char> {
    "MAC 地址格式无效"@
}

impl MacParseError {
    /// The message of the error, as the user sees it.
    pub fn message(&self) -> (s: String)
        ensures
            s@ == mac_error_message(),
    {
        "MAC 地址格式无效".to_owned()
    }
}

impl MacAddr {
    /// Reads an address written as 12 hex digits, with any ':', '-' or
    /// whitespace between them.
    pub fn parse(input: &str) -> (r: Result<Self, MacParseError>)
        ensures
            match parse_mac_spec(input@) {
                Some(b) => r matches Ok(m) && m.0@ == b,
                None => r == Err::<MacAddr, MacParseError>(MacParseError::Invalid),
            },
    {
        let chars = chars_of(input);
        let mut hex = String::new();
        let mut i: usize = 0;
        while i < chars.len()
            invariant
                i <= chars@.len(),
                chars@ == input@,
                hex@ == strip_separators(chars@.take(i as int)),
            decreases chars@.len() - i,
        {
            let c = chars[i];
            assert(chars@.take(i + 1).drop_last() =~= chars@.take(i as int));
            if c != ':' && c != '-' && !char_is_whitespace(c) {
                push_char(&mut hex, c);
            }
            i = i + 1;
        }
        assert(chars@.take(i as int) =~= chars@);
        if hex.as_str().as_bytes().len() != 12 {
            return Err(MacParseError::Invalid);
        }
        let bytes = match hex_decode(hex.as_str()) {
            Ok(b) => b,
            Err(_) => return Err(MacParseError::Invalid),
        };
        let mac: [u8; 6] = [bytes[0], bytes[1], bytes[2], bytes[3], bytes[4], bytes[5]];
        assert(mac@ =~= bytes@);
        Ok(MacAddr(mac))
    }

    /// The address as upper-case hex pairs joined by ':'.
    pub fn to_colon_string(self) -> (s: String)
        ensures
            s@ == colon_hex_spec(self.0@),
    {
        let b = self.0;
        let mut s = String::new();
        let mut i: usize = 0;
        while i < 6
            invariant
                i <= 6,
                b@.len() == 6,
                s@ == colon_hex_spec(b@.take(i as int)),
            decreases 6 - i,
        {
            assert(b@.take(i + 1).drop_last() =~= b@.take(i as int));
            if i > 0 {
                push_char(&mut s, ':');
            }
            push_hex_upper(&mut s, b[i]);
            i = i + 1;
            assert(s@ =~= colon_hex_spec(b@.take(i as int)));
        }
        assert(b@.take(6) =~= b@);
        s
    }
}

proof fn lemma_strip_concat(a: Seq<char>, b: Seq<char>)
    ensures
        strip_separators(a + b) == strip_separators(a) + strip_separators(b),
    decreases b.len(),
{
    if b.len() == 0 {
        assert(a + b =~= a);
        assert(strip_separators(a) + strip_separators(b) =~= strip_separators(a));
    } else {
        lemma_strip_concat(a, b.drop_last());
        assert((a + b).drop_last() =~= a + b.drop_last());
        assert((a + b).last() == b.last());
        if !is_hex_separator(b.last()) {
            assert(strip_separators(a) + strip_separators(b) =~= (strip_separators(a) + strip_separators(
                b.drop_last(),
            )).push(b.last()));
        }
    }
}

proof fn lemma_strip_colon_hex(bytes: Seq<u8>)
    ensures
        strip_separators(colon_hex_spec(bytes)) == hex_upper_spec(bytes),
    decreases bytes.len(),
{
    if bytes.len() == 0 {
    } else {
        let x = bytes.last();
        lemma_nibble_upper(x / 16);
        lemma_nibble_upper(x % 16);
        let pair = hex_pair(x);
        assert(strip_separators(pair) =~= pair) by {
            let one = seq![nibble_upper(x / 16)];
            assert(pair.drop_last() =~= one);
            assert(pair.last() == nibble_upper(x % 16));
            assert(one.drop_last() =~= Seq::<char>::empty());
            assert(one.last() == nibble_upper(x / 16));
            assert(strip_separators(Seq::<char>::empty()) =~= Seq::<char>::empty());
            assert(strip_separators(one) =~= Seq::<char>::empty().push(nibble_upper(x / 16)));
            assert(strip_separators(pair) =~= one.push(nibble_upper(x % 16)));
        }
        assert(hex_upper_spec(bytes) =~= hex_upper_spec(bytes.drop_last()) + pair);
        if bytes.len() == 1 {
            assert(bytes.drop_last() =~= Seq::<u8>::empty());
            assert(hex_upper_spec(bytes.drop_last()) + pair =~= pair);
        } else {
            lemma_strip_colon_hex(bytes.drop_last());
            let head = colon_hex_spec(bytes.drop_last());
            lemma_strip_concat(head + seq![':'], pair);
            lemma_strip_concat(head, seq![':']);
            let colon = seq![':'];
            assert(colon.drop_last() =~= Seq::<char>::empty());
            assert(colon.last() == ':');
            assert(is_hex_separator(':'));
            assert(strip_separators(Seq::<char>::empty()) =~= Seq::<char>::empty());
            assert(strip_separators(colon) =~= Seq::<char>::empty());
            assert(strip_separators(head) + Seq::<char>::empty() =~= strip_separators(head));
        }
    }
}

/// Law: an address written by `to_colon_string` reads back as the same
/// address.
pub proof fn law_mac_roundtrip(bytes: Seq<u8>)
    requires
        bytes.len() == 6,
    ensures
        parse_mac_spec(colon_hex_spec(bytes)) == Some(bytes),
{
    lemma_strip_colon_hex(bytes);
    lemma_hex_text_bytes(bytes, hex_upper_spec(bytes), true);
}

} // verus!
