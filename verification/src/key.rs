use vstd::prelude::*;

use crate::crypto::{hmac_sha256, hmac_sha256_spec, sha256, sha256_spec};
use crate::hexenc::hex_encode;
use crate::text::hex_lower_spec;
use vstd::string::StringSliceAdditionalSpecFns;
use vstd::utf8::encode_utf8;

verus! {

/// Identifier of a LAN group, derived from its passphrase.
#[derive(Debug, Clone, Copy, PartialEq, Eq)]
pub struct GroupId(pub [u8; 16]);

/// HMAC key of a LAN group, derived from its passphrase.
#[derive(Clone)]
pub struct GroupKey(pub [u8; 32]);

/// Domain prefix hashed before the passphrase to get the group id.
pub open spec fn group_id_prefix() -> Seq<u8> {
    encode_utf8("edifierctrl-group-v1\0"@)
}

/// Domain prefix hashed before the passphrase to get the group key.
pub open spec fn group_key_prefix() -> Seq<u8> {
    encode_utf8("edifierctrl-group-key-v1\0"@)
}

/// The group id of a passphrase: the first 16 bytes of SHA-256 over the id
/// prefix and the passphrase's UTF-8 bytes.
pub open spec fn group_id_spec(passphrase: Seq<char>) -> Seq<u8> {
    sha256_spec(group_id_prefix() + encode_utf8(passphrase)).take(16)
}

/// The group key of a passphrase: SHA-256 over the key prefix and the
/// passphrase's UTF-8 bytes.
pub open spec fn group_key_spec(passphrase: Seq<char>) -> Seq<u8> {
    sha256_spec(group_key_prefix() + encode_utf8(passphrase))
}

impl GroupId {
    /// The group id a digest gives: its first 16 bytes.
    pub fn from_digest(digest: &[u8; 32]) -> (id: GroupId)
        ensures
            id.0@ == digest@.take(16),
    {
        let mut gid = [0u8; 16];
        let mut i: usize = 0;
        while i < 16
            invariant
                i <= 16,
                digest@.len() == 32,
                gid@.len() == 16,
                forall|k: int| 0 <= k < i ==> gid@[k] == digest@[k],
            decreases 16 - i,
        {
            gid[i] = digest[i];
            i = i + 1;
        }
        assert(gid@ =~= digest@.take(16));
        GroupId(gid)
    }

    /// The id as lower-case hex.
    pub fn to_hex(self) -> (s: String)
        ensures
            s@ == hex_lower_spec(self.0@),
    {
        hex_encode(self.0.as_slice())
    }
}

fn concat_bytes(a: &[u8], b: &[u8]) -> (v: Vec<u8>)
    ensures
        v@ == a@ + b@,
{
    let mut v: Vec<u8> = Vec::with_capacity(a.len());
    v.extend_from_slice(a);
    v.extend_from_slice(b);
    assert(v@ =~= a@ + b@);
    v
}

/// Derives the group id and the HMAC key from a passphrase; the passphrase
/// itself is not kept.
pub fn derive_group(passphrase: &str) -> (r: (GroupId, GroupKey))
    ensures
        r.0.0@ == group_id_spec(passphrase@),
        r.1.0@ == group_key_spec(passphrase@),
{
    let pass = passphrase.as_bytes();
    let id_input = concat_bytes("edifierctrl-group-v1\0".as_bytes(), pass);
    let id_hash = sha256(id_input.as_slice());
    let key_input = concat_bytes("edifierctrl-group-key-v1\0".as_bytes(), pass);
    let key = sha256(key_input.as_slice());
    (GroupId::from_digest(&id_hash), GroupKey(key))
}

/// The HMAC-SHA-256 tag of `body` under the group key.
pub fn sign(key: &GroupKey, body: &[u8]) -> (tag: [u8; 32])
    ensures
        tag@ == hmac_sha256_spec(key.0@, body@),
{
    hmac_sha256(key.0.as_slice(), body)
}

/// Whether `mac` is the tag of `body` under the group key.
pub fn verify(key: &GroupKey, body: &[u8], mac: &[u8; 32]) -> (ok: bool)
    ensures
        ok == (hmac_sha256_spec(key.0@, body@) == mac@),
{
    let tag = sign(key, body);
    let mut i: usize = 0;
    while i < 32
        invariant
            i <= 32,
            tag@ == hmac_sha256_spec(key.0@, body@),
            tag@.len() == 32,
            mac@.len() == 32,
            forall|k: int| 0 <= k < i ==> tag@[k] == mac@[k],
        decreases 32 - i,
    {
        if tag[i] != mac[i] {
            assert(tag@[i as int] != mac@[i as int]);
            return false;
        }
        i = i + 1;
    }
    assert(tag@ =~= mac@);
    true
}

} // verus!
