use vstd::prelude::*;

use crate::crypto::hmac_sha256_spec;
use crate::hexenc::{hex_decode, hex_decode_spec, hex_encode, law_hex_encode_decode};
use crate::key::{sign, verify, GroupId, GroupKey};
use crate::message::{Envelope, GroupMessage, ENVELOPE_VERSION, MAX_SKEW_MS};
use crate::text::hex_lower_spec;
use vstd::utf8::encode_utf8;

verus! {

/// Why an envelope is refused.
#[derive(Debug, Clone, PartialEq, Eq)]
pub enum EnvelopeError {
    Version,
    GroupId,
    Timestamp,
    Mac,
    Json(String),
}

/// Distance between two timestamps.
pub open spec fn skew(a: u64, b: u64) -> int {
    if a >= b {
        a - b
    } else {
        b - a
    }
}

/// What `open` decides for an envelope whose canonical form (the JSON of the
/// envelope with an empty `mac`) is `canonical`.
pub open spec fn open_spec(
    key: Seq<u8>,
    group_hex: Seq<char>,
    now_ms: u64,
    env: Envelope,
    canonical: Seq<u8>,
) -> Result<GroupMessage, EnvelopeError> {
    if env.version != ENVELOPE_VERSION {
        Err(EnvelopeError::Version)
    } else if env.group_id@ != group_hex {
        Err(EnvelopeError::GroupId)
    } else if skew(now_ms, env.ts_ms) > MAX_SKEW_MS {
        Err(EnvelopeError::Timestamp)
    } else {
        match hex_decode_spec(encode_utf8(env.mac@)) {
            None => Err(EnvelopeError::Mac),
            Some(tag) => if tag.len() != 32 || hmac_sha256_spec(key, canonical) != tag {
                Err(EnvelopeError::Mac)
            } else {
                Ok(env.body)
            },
        }
    }
}

/// Builds the signed envelope of a message. `canonical` is the JSON of this
/// envelope with an empty `mac` (version, group id, timestamp, body); the
/// MAC is the lower-case hex HMAC of it under the group key.
pub fn seal(key: &GroupKey, group_id: GroupId, ts_ms: u64, body: GroupMessage, canonical: &[u8]) -> (env: Envelope)
    ensures
        env.version == ENVELOPE_VERSION,
        env.group_id@ == hex_lower_spec(group_id.0@),
        env.ts_ms == ts_ms,
        env.body == body,
        env.mac@ == hex_lower_spec(hmac_sha256_spec(key.0@, canonical@)),
        hmac_sha256_spec(key.0@, canonical@).len() == 32,
{
    let tag = sign(key, canonical);
    Envelope {
        version: ENVELOPE_VERSION,
        group_id: group_id.to_hex(),
        ts_ms,
        body,
        mac: hex_encode(tag.as_slice()),
    }
}

/// The envelope before signing: version, group id, timestamp, message, and an
/// empty `mac`. Its JSON is the canonical form that `seal` signs.
pub fn unsigned(group_id: GroupId, ts_ms: u64, body: GroupMessage) -> (env: Envelope)
    ensures
        env.version == ENVELOPE_VERSION,
        env.group_id@ == hex_lower_spec(group_id.0@),
        env.ts_ms == ts_ms,
        env.body == body,
        env.mac@ == Seq::<char>::empty(),
{
    Envelope { version: ENVELOPE_VERSION, group_id: group_id.to_hex(), ts_ms, body, mac: String::new() }
}

/// Checks an envelope and gives back its message: the version must be
/// current, the group id must be ours, the timestamp within 30 s of `now_ms`,
/// and the MAC the HMAC of `canonical` (the JSON of the envelope with an
/// empty `mac`) under the group key.
pub fn open(key: &GroupKey, group_id: GroupId, now_ms: u64, env: &Envelope, canonical: &[u8]) -> (r: Result<
    GroupMessage,
    EnvelopeError,
>)
    ensures
        r == open_spec(key.0@, hex_lower_spec(group_id.0@), now_ms, *env, canonical@),
{
    if env.version != ENVELOPE_VERSION {
        return Err(EnvelopeError::Version);
    }
    let gid = group_id.to_hex();
    if env.group_id != gid {
        return Err(EnvelopeError::GroupId);
    }
    let d: u64 = if now_ms >= env.ts_ms { now_ms - env.ts_ms } else { env.ts_ms - now_ms };
    if d > MAX_SKEW_MS {
        return Err(EnvelopeError::Timestamp);
    }
    let mac_bytes = match hex_decode(env.mac.as_str()) {
        Ok(b) => b,
        Err(_) => return Err(EnvelopeError::Mac),
    };
    if mac_bytes.len() != 32 {
        return Err(EnvelopeError::Mac);
    }
    let mut mac = [0u8; 32];
    let mut i: usize = 0;
    while i < 32
        invariant
            i <= 32,
            mac_bytes@.len() == 32,
            mac@.len() == 32,
            forall|k: int| 0 <= k < i ==> mac@[k] == mac_bytes@[k],
        decreases 32 - i,
    {
        mac[i] = mac_bytes[i];
        i = i + 1;
    }
    assert(mac@ =~= mac_bytes@);
    if !verify(key, canonical, &mac) {
        return Err(EnvelopeError::Mac);
    }
    Ok(env.body.duplicate())
}

/// Law: an envelope opens to the message it was sealed with, given the same
/// key, group and canonical form, at any time within the allowed skew of its
/// timestamp.
pub proof fn law_seal_open(key: Seq<u8>, group: Seq<u8>, now_ms: u64, env: Envelope, canonical: Seq<u8>)
    requires
        env.version == ENVELOPE_VERSION,
        env.group_id@ == hex_lower_spec(group),
        env.mac@ == hex_lower_spec(hmac_sha256_spec(key, canonical)),
        hmac_sha256_spec(key, canonical).len() == 32,
        skew(now_ms, env.ts_ms) <= MAX_SKEW_MS,
    ensures
        open_spec(key, hex_lower_spec(group), now_ms, env, canonical) == Ok::<GroupMessage, EnvelopeError>(env.body),
{
    law_hex_encode_decode(hmac_sha256_spec(key, canonical));
}

} // verus!
