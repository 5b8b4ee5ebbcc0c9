use vstd::prelude::*;

use crate::text::str_eq;

verus! {

/// Whether the headphone's audio is connected to this host, as far as the
/// system shows it.
#[derive(Debug, Clone, Copy, PartialEq, Eq, Structural)]
pub enum AudioState {
    Unknown,
    Disconnected,
    Connecting,
    Connected,
}

/// The key the JSON interface uses for an audio state.
pub open spec fn audio_state_key(s: AudioState) -> Seq<char> {
    match s {
        AudioState::Unknown => "unknown"@,
        AudioState::Disconnected => "disconnected"@,
        AudioState::Connecting => "connecting"@,
        AudioState::Connected => "connected"@,
    }
}

/// The state a platform bridge reports as text: "connected", "connecting"
/// and "disconnected" name theirs, anything else is unknown.
pub open spec fn reported_state(text: Seq<char>) -> AudioState {
    if text == "connected"@ {
        AudioState::Connected
    } else if text == "connecting"@ {
        AudioState::Connecting
    } else if text == "disconnected"@ {
        AudioState::Disconnected
    } else {
        AudioState::Unknown
    }
}

/// The state the macOS bridge reports as text: connected only for
/// "connected", anything else disconnected.
pub open spec fn macos_reported_state(text: Seq<char>) -> AudioState {
    if text == "connected"@ {
        AudioState::Connected
    } else {
        AudioState::Disconnected
    }
}

impl AudioState {
    /// Reads the state a platform bridge reports as text.
    pub fn from_reported(text: &str) -> (r: AudioState)
        ensures
            r == reported_state(text@),
    {
        if str_eq(text, "connected") {
            AudioState::Connected
        } else if str_eq(text, "connecting") {
            AudioState::Connecting
        } else if str_eq(text, "disconnected") {
            AudioState::Disconnected
        } else {
            AudioState::Unknown
        }
    }

    /// Reads the state the macOS bridge reports as text.
    pub fn from_macos_reported(text: &str) -> (r: AudioState)
        ensures
            r == macos_reported_state(text@),
    {
        if str_eq(text, "connected") {
            AudioState::Connected
        } else {
            AudioState::Disconnected
        }
    }

    /// The key the JSON interface uses for the state.
    pub fn as_str(self) -> (s: &'static str)
        ensures
            s@ == audio_state_key(self),
    {
        match self {
            AudioState::Unknown => "unknown",
            AudioState::Disconnected => "disconnected",
            AudioState::Connecting => "connecting",
            AudioState::Connected => "connected",
        }
    }
}

/// Law: every state reads back from its own key.
pub proof fn law_state_key_roundtrip(s: AudioState)
    ensures
        reported_state(audio_state_key(s)) == s,
{
    reveal_strlit("connected");
    reveal_strlit("connecting");
    reveal_strlit("disconnected");
    reveal_strlit("unknown");
    assert("connecting"@[7] != "connected"@[7]);
    assert("unknown"@[0] != "connected"@[0]);
    assert("unknown"@[0] != "connecting"@[0]);
    assert("unknown"@[0] != "disconnected"@[0]);
    assert("disconnected"@[0] != "connected"@[0]);
    assert("disconnected"@[0] != "connecting"@[0]);
}

} // verus!
