use vstd::prelude::*;

use crate::mac::{colon_hex_spec, law_mac_roundtrip, mac_error_message, parse_mac_spec, MacAddr};

verus! {

/// A six-byte address packed big-endian into the low 48 bits of a `u64`.
pub open spec fn pack48(b: Seq<u8>) -> u64 {
    ((b[0] as u64) << 40u64) | ((b[1] as u64) << 32u64) | ((b[2] as u64) << 24u64) | ((b[3] as u64) << 16u64)
        | ((b[4] as u64) << 8u64) | (b[5] as u64)
}

/// The six bytes of the low 48 bits of `a`, most significant first.
pub open spec fn unpack48(a: u64) -> Seq<u8> {
    seq![
        ((a >> 40u64) & 0xffu64) as u8,
        ((a >> 32u64) & 0xffu64) as u8,
        ((a >> 24u64) & 0xffu64) as u8,
        ((a >> 16u64) & 0xffu64) as u8,
        ((a >> 8u64) & 0xffu64) as u8,
        (a & 0xffu64) as u8,
    ]
}

/// Reads an address (see `MacAddr::parse`) as a packed 48-bit number; the
/// error is the parse failure's message.
pub fn parse_u64(s: &str) -> (r: Result<u64, String>)
    ensures
        match parse_mac_spec(s@) {
            Some(b) => r == Ok::<u64, String>(pack48(b)),
            None => (r matches Err(m) && m@ == mac_error_message()),
        },
{
    let mac = match MacAddr::parse(s) {
        Ok(m) => m,
        Err(e) => return Err(e.message()),
    };
    let b = mac.0;
    Ok(((b[0] as u64) << 40) | ((b[1] as u64) << 32) | ((b[2] as u64) << 24) | ((b[3] as u64) << 16) | ((
    b[4] as u64) << 8) | (b[5] as u64))
}

/// The low 48 bits of a number as an address in colon form.
pub fn from_u64(addr: u64) -> (s: String)
    ensures
        s@ == colon_hex_spec(unpack48(addr)),
{
    let mac = MacAddr(
        [
            ((addr >> 40) & 0xff) as u8,
            ((addr >> 32) & 0xff) as u8,
            ((addr >> 24) & 0xff) as u8,
            ((addr >> 16) & 0xff) as u8,
            ((addr >> 8) & 0xff) as u8,
            (addr & 0xff) as u8,
        ],
    );
    assert(mac.0@ =~= unpack48(addr));
    mac.to_colon_string()
}

/// Reads an address as a packed number (same as `parse_u64`).
pub fn parse_addr(s: &str) -> (r: Result<u64, String>)
    ensures
        match parse_mac_spec(s@) {
            Some(b) => r == Ok::<u64, String>(pack48(b)),
            None => (r matches Err(m) && m@ == mac_error_message()),
        },
{
    parse_u64(s)
}

/// Writes a packed address in colon form (same as `from_u64`).
pub fn format_addr(addr: u64) -> (s: String)
    ensures
        s@ == colon_hex_spec(unpack48(addr)),
{
    from_u64(addr)
}

proof fn lemma_unpack_pack(b0: u8, b1: u8, b2: u8, b3: u8, b4: u8, b5: u8)
    ensures
        ({
            let a = ((b0 as u64) << 40u64) | ((b1 as u64) << 32u64) | ((b2 as u64) << 24u64) | ((b3 as u64)
                << 16u64) | ((b4 as u64) << 8u64) | (b5 as u64);
            &&& ((a >> 40u64) & 0xffu64) as u8 == b0
            &&& ((a >> 32u64) & 0xffu64) as u8 == b1
            &&& ((a >> 24u64) & 0xffu64) as u8 == b2
            &&& ((a >> 16u64) & 0xffu64) as u8 == b3
            &&& ((a >> 8u64) & 0xffu64) as u8 == b4
            &&& (a & 0xffu64) as u8 == b5
        }),
{
    assert(({
        let a = ((b0 as u64) << 40u64) | ((b1 as u64) << 32u64) | ((b2 as u64) << 24u64) | ((b3 as u64)
            << 16u64) | ((b4 as u64) << 8u64) | (b5 as u64);
        &&& ((a >> 40u64) & 0xffu64) as u8 == b0
        &&& ((a >> 32u64) & 0xffu64) as u8 == b1
        &&& ((a >> 24u64) & 0xffu64) as u8 == b2
        &&& ((a >> 16u64) & 0xffu64) as u8 == b3
        &&& ((a >> 8u64) & 0xffu64) as u8 == b4
        &&& (a & 0xffu64) as u8 == b5
    })) by (bit_vector);
}

proof fn lemma_pack_unpack(a: u64)
    requires
        a >> 48u64 == 0,
    ensures
        ((((a >> 40u64) & 0xffu64) as u8) as u64) << 40u64 | ((((a >> 32u64) & 0xffu64) as u8) as u64) << 32u64
            | ((((a >> 24u64) & 0xffu64) as u8) as u64) << 24u64 | ((((a >> 16u64) & 0xffu64) as u8) as u64)
            << 16u64 | ((((a >> 8u64) & 0xffu64) as u8) as u64) << 8u64 | (((a & 0xffu64) as u8) as u64) == a,
{
    assert(((((a >> 40u64) & 0xffu64) as u8) as u64) << 40u64 | ((((a >> 32u64) & 0xffu64) as u8) as u64)
        << 32u64 | ((((a >> 24u64) & 0xffu64) as u8) as u64) << 24u64 | ((((a >> 16u64) & 0xffu64) as u8)
        as u64) << 16u64 | ((((a >> 8u64) & 0xffu64) as u8) as u64) << 8u64 | (((a & 0xffu64) as u8) as u64)
        == a) by (bit_vector)
        requires
            a >> 48u64 == 0,
    ;
}

/// Law: a packed address written in colon form reads back as the same
/// number, for every number of at most 48 bits.
pub proof fn law_addr_roundtrip(a: u64)
    requires
        a >> 48u64 == 0,
    ensures
        parse_mac_spec(colon_hex_spec(unpack48(a))) == Some(unpack48(a)),
        pack48(unpack48(a)) == a,
{
    law_mac_roundtrip(unpack48(a));
    lemma_pack_unpack(a);
}

/// Law: an address read as a number and written back gives the colon form
/// of the address that was read.
pub proof fn law_addr_canonical(b: Seq<u8>)
    requires
        b.len() == 6,
    ensures
        unpack48(pack48(b)) == b,
{
    lemma_unpack_pack(b[0], b[1], b[2], b[3], b[4], b[5]);
    assert(unpack48(pack48(b)) =~= b);
}

} // verus!
