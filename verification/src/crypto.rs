use vstd::prelude::*;

use hmac::{Hmac, Mac};
use sha2::{Digest, Sha256};

verus! {

/// The SHA-256 digest of `data`.
pub uninterp spec fn sha256_spec(data: Seq<u8>) -> Seq<u8>;

/// The HMAC-SHA-256 tag of `msg` under `key`.
pub uninterp spec fn hmac_sha256_spec(key: Seq<u8>, msg: Seq<u8>) -> Seq<u8>;

/// `sha2::Sha256::digest`.
///
/// Trusted: the contract claims only that the 32 bytes returned are a
/// function of the input alone, named `sha256_spec`.
#[verifier::external_body]
pub(crate) fn sha256(data: &[u8]) -> (d: [u8; 32])
    ensures
        d@ == sha256_spec(data@),
{
    let out = Sha256::digest(data);
    let mut d = [0u8; 32];
    d.copy_from_slice(&out);
    d
}

/// HMAC-SHA-256 from the `hmac` and `sha2` crates: a MAC keyed with `key`,
/// fed `msg`, finalized.
///
/// Trusted: the contract claims only that the 32 bytes returned are a
/// function of key and message alone, named `hmac_sha256_spec`. Keying never
/// fails: HMAC accepts keys of any length.
#[verifier::external_body]
pub(crate) fn hmac_sha256(key: &[u8], msg: &[u8]) -> (tag: [u8; 32])
    ensures
        tag@ == hmac_sha256_spec(key@, msg@),
{
    let mut mac = <Hmac<Sha256> as Mac>::new_from_slice(key).expect("HMAC accepts any key length");
    mac.update(msg);
    let out = mac.finalize().into_bytes();
    let mut tag = [0u8; 32];
    tag.copy_from_slice(&out);
    tag
}

} // verus!
