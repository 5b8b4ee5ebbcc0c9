use vstd::prelude::*;

use crate::constants::{AMBIENT_VOLUME_OFFSET, MAX_BODY_LEN};
use crate::error::ProtocolError;
use crate::packet::{encode_tx, tx_frame_spec};
use vstd::utf8::encode_utf8;

verus! {

/// Active noise control mode.
#[derive(Debug, Clone, Copy, PartialEq, Eq, Structural)]
pub enum NoiseMode {
    Normal,
    Reduction,
    Ambient,
}

/// Equalizer preset.
#[derive(Debug, Clone, Copy, PartialEq, Eq, Structural)]
pub enum SoundEffect {
    Normal,
    Pop,
    Classical,
    Rock,
}

/// LDAC codec mode.
#[derive(Debug, Clone, Copy, PartialEq, Eq, Structural)]
pub enum LdacMode {
    Off,
    Rate48k,
    Rate96k,
}

/// Media key.
#[derive(Debug, Clone, Copy, PartialEq, Eq, Structural)]
pub enum Playback {
    Play,
    Pause,
    VolumeUp,
    VolumeDown,
    Next,
    Previous,
}

/// Which noise modes the headset's button cycles through.
#[derive(Debug, Clone, Copy, PartialEq, Eq, Structural)]
pub struct ControlSettings {
    pub normal: bool,
    pub reduction: bool,
    pub ambient: bool,
}

/// The bit mask of the enabled modes: normal 1, reduction 2, ambient 4.
pub open spec fn mask_spec(cs: ControlSettings) -> u8 {
    ((if cs.normal { 1u8 } else { 0u8 }) + (if cs.reduction { 2u8 } else { 0u8 }) + (if cs.ambient {
        4u8
    } else {
        0u8
    })) as u8
}

/// The modes whose bits are set in `v`; other bits are ignored.
pub open spec fn from_mask_spec(v: u8) -> ControlSettings {
    ControlSettings { normal: v % 2 == 1, reduction: (v / 2) % 2 == 1, ambient: (v / 4) % 2 == 1 }
}

impl ControlSettings {
    /// The bit mask of the enabled modes.
    pub fn mask(self) -> (v: u8)
        ensures
            v == mask_spec(self),
            v < 8,
    {
        let mut v = 0u8;
        if self.normal {
            v = v + 1;
        }
        if self.reduction {
            v = v + 2;
        }
        if self.ambient {
            v = v + 4;
        }
        v
    }

    /// The modes whose bits are set in `v`.
    pub fn from_mask(v: u8) -> (cs: Self)
        ensures
            cs == from_mask_spec(v),
    {
        assert((v & 1 != 0) == (v % 2 == 1)) by (bit_vector);
        assert((v & 2 != 0) == ((v / 2) % 2 == 1)) by (bit_vector);
        assert((v & 4 != 0) == ((v / 4) % 2 == 1)) by (bit_vector);
        Self { normal: v & 1 != 0, reduction: v & 2 != 0, ambient: v & 4 != 0 }
    }
}

/// Law: decoding the mask of some settings gives the settings back.
pub proof fn law_mask_roundtrip(cs: ControlSettings)
    ensures
        from_mask_spec(mask_spec(cs)) == cs,
{
}

/// Law: encoding decoded settings keeps exactly the three low bits of the mask.
pub proof fn law_mask_keeps_low_bits(v: u8)
    ensures
        mask_spec(from_mask_spec(v)) == v % 8,
{
}

/// A command from the host to the headset.
#[derive(Debug, Clone, PartialEq, Eq)]
pub enum Command {
    SetNoiseMode(NoiseMode),
    SetAmbientVolume(i8),
    SetSoundEffect(SoundEffect),
    SetControlSettings(ControlSettings),
    SetLdac(LdacMode),
    SetGameMode(bool),
    SetPromptVolume(u8),
    DisableShutdownTimer,
    SetShutdownTimer { minutes: u8 },
    PowerOff,
    DisconnectHost,
    RePair,
    FactoryReset,
    SetName(String),
    Playback(Playback),
    SetAutoPowerOff(bool),
    QueryBattery,
    QueryMac,
    QueryFirmware,
    QueryNoise,
    QueryName,
    QuerySoundEffect,
    QueryGameMode,
    QueryControlSettings,
    QueryLdac,
    QueryPromptVolume,
    QueryShutdownTimer,
    QueryAutoPowerOff,
    QueryFingerprint,
    QueryPlayback,
    Raw(Vec<u8>),
}

/// Commands that cut the headset off: power off, disconnect, re-pair, reset.
pub open spec fn is_destructive_spec(cmd: Command) -> bool {
    match cmd {
        Command::PowerOff | Command::DisconnectHost | Command::RePair | Command::FactoryReset => true,
        _ => false,
    }
}

/// Order in which exported settings are sent: higher goes later.
pub open spec fn export_priority_spec(cmd: Command) -> u8 {
    match cmd {
        Command::SetNoiseMode(_) | Command::SetAmbientVolume(_) | Command::DisableShutdownTimer
        | Command::SetShutdownTimer { .. } => 1,
        Command::SetLdac(_) => 2,
        _ => 0,
    }
}

/// The display label of a command.
pub open spec fn label_spec(cmd: Command) -> Seq<char> {
    match cmd {
        Command::SetNoiseMode(_) => "Noise Reduction"@,
        Command::SetAmbientVolume(_) => "Ambient Sound"@,
        Command::SetSoundEffect(_) => "Sound Effect"@,
        Command::SetControlSettings(_) => "Control Settings"@,
        Command::SetLdac(_) => "LDAC"@,
        Command::SetGameMode(_) => "Game Mode"@,
        Command::SetPromptVolume(_) => "Prompt Volume"@,
        Command::DisableShutdownTimer => "Shutdown Timer Enabled"@,
        Command::SetShutdownTimer { .. } => "Shutdown Timer"@,
        Command::PowerOff => "Power Off"@,
        Command::DisconnectHost => "Disconnect"@,
        Command::RePair => "Re-pair"@,
        Command::FactoryReset => "Reset"@,
        Command::SetName(_) => "Name"@,
        Command::Playback(_) => "Playback"@,
        Command::SetAutoPowerOff(_) => "Auto Poweroff"@,
        Command::QueryBattery => "Battery"@,
        Command::QueryMac => "MAC"@,
        Command::QueryFirmware => "Firmware"@,
        Command::QueryNoise => "Noise"@,
        Command::QueryName => "Name Query"@,
        Command::QuerySoundEffect => "Sound Effect Query"@,
        Command::QueryGameMode => "Game Mode Query"@,
        Command::QueryControlSettings => "Control Settings Query"@,
        Command::QueryLdac => "LDAC Query"@,
        Command::QueryPromptVolume => "Prompt Volume Query"@,
        Command::QueryShutdownTimer => "Shutdown Timer Query"@,
        Command::QueryAutoPowerOff => "Auto Poweroff Query"@,
        Command::QueryFingerprint => "Fingerprint"@,
        Command::QueryPlayback => "Playback Query"@,
        Command::Raw(_) => "Raw"@,
    }
}

/// Wire code of a noise mode.
pub open spec fn noise_code(m: NoiseMode) -> u8 {
    match m {
        NoiseMode::Normal => 0x01,
        NoiseMode::Reduction => 0x02,
        NoiseMode::Ambient => 0x03,
    }
}

/// Wire code of a sound effect.
pub open spec fn effect_code(fx: SoundEffect) -> u8 {
    match fx {
        SoundEffect::Normal => 0x00,
        SoundEffect::Pop => 0x01,
        SoundEffect::Classical => 0x02,
        SoundEffect::Rock => 0x03,
    }
}

/// Wire code of an LDAC mode.
pub open spec fn ldac_code(m: LdacMode) -> u8 {
    match m {
        LdacMode::Off => 0x00,
        LdacMode::Rate48k => 0x01,
        LdacMode::Rate96k => 0x02,
    }
}

/// Wire code of a media key.
pub open spec fn playback_code(p: Playback) -> u8 {
    match p {
        Playback::Play => 0x00,
        Playback::Pause => 0x01,
        Playback::VolumeUp => 0x02,
        Playback::VolumeDown => 0x03,
        Playback::Next => 0x04,
        Playback::Previous => 0x05,
    }
}

/// The body bytes of a command; an ambient volume outside -3..=3 is refused.
pub open spec fn body_spec(cmd: Command) -> Result<Seq<u8>, ProtocolError> {
    match cmd {
        Command::SetNoiseMode(m) => Ok(seq![0xC1u8, noise_code(m)]),
        Command::SetAmbientVolume(vol) => if vol < -3 || vol > 3 {
            Err(ProtocolError::AmbientVolumeRange)
        } else {
            Ok(seq![0xC1u8, 0x03u8, (AMBIENT_VOLUME_OFFSET + vol) as u8])
        },
        Command::SetSoundEffect(fx) => Ok(seq![0xC4u8, effect_code(fx)]),
        Command::SetControlSettings(cs) => Ok(seq![0xF1u8, 0x0Au8, mask_spec(cs)]),
        Command::SetLdac(m) => Ok(seq![0x49u8, ldac_code(m)]),
        Command::SetGameMode(on) => Ok(seq![0x09u8, if on { 0x01u8 } else { 0x00u8 }]),
        Command::SetPromptVolume(v) => Ok(seq![0x06u8, v]),
        Command::DisableShutdownTimer => Ok(seq![0xD2u8]),
        Command::SetShutdownTimer { minutes } => Ok(seq![0xD1u8, 0x00u8, minutes]),
        Command::PowerOff => Ok(seq![0xCEu8]),
        Command::DisconnectHost => Ok(seq![0xCDu8]),
        Command::RePair => Ok(seq![0xCFu8]),
        Command::FactoryReset => Ok(seq![0x07u8]),
        Command::SetName(name) => Ok(seq![0xCAu8] + encode_utf8(name@)),
        Command::Playback(p) => Ok(seq![0xC2u8, playback_code(p)]),
        Command::SetAutoPowerOff(on) => Ok(seq![0xD6u8, if on { 0x01u8 } else { 0x00u8 }]),
        Command::QueryBattery => Ok(seq![0xD0u8]),
        Command::QueryMac => Ok(seq![0xC8u8]),
        Command::QueryFirmware => Ok(seq![0xC6u8]),
        Command::QueryNoise => Ok(seq![0xCCu8]),
        Command::QueryName => Ok(seq![0xC9u8]),
        Command::QuerySoundEffect => Ok(seq![0xD5u8]),
        Command::QueryGameMode => Ok(seq![0x08u8]),
        Command::QueryControlSettings => Ok(seq![0xF0u8, 0x0Au8]),
        Command::QueryLdac => Ok(seq![0x48u8]),
        Command::QueryPromptVolume => Ok(seq![0x05u8]),
        Command::QueryShutdownTimer => Ok(seq![0xD3u8]),
        Command::QueryAutoPowerOff => Ok(seq![0xD7u8]),
        Command::QueryFingerprint => Ok(seq![0xD8u8]),
        Command::QueryPlayback => Ok(seq![0xC3u8]),
        Command::Raw(bytes) => Ok(bytes@),
    }
}

/// The host frame of a command: its body wrapped by `encode_tx`.
pub open spec fn frame_spec(cmd: Command) -> Result<Seq<u8>, ProtocolError> {
    match body_spec(cmd) {
        Err(e) => Err(e),
        Ok(b) => if b.len() > MAX_BODY_LEN {
            Err(ProtocolError::PayloadTooLong)
        } else {
            Ok(tx_frame_spec(b))
        },
    }
}

fn copy_bytes(bytes: &[u8]) -> (v: Vec<u8>)
    ensures
        v@ == bytes@,
{
    let mut v: Vec<u8> = Vec::with_capacity(bytes.len());
    let mut i: usize = 0;
    while i < bytes.len()
        invariant
            i <= bytes@.len(),
            v@ == bytes@.take(i as int),
        decreases bytes@.len() - i,
    {
        v.push(bytes[i]);
        i = i + 1;
        assert(v@ =~= bytes@.take(i as int));
    }
    assert(bytes@.take(i as int) =~= bytes@);
    v
}

impl Command {
    /// Power off, disconnect, re-pair and reset cut the headset off.
    pub fn is_destructive(&self) -> (r: bool)
        ensures
            r == is_destructive_spec(*self),
    {
        match self {
            Command::PowerOff | Command::DisconnectHost | Command::RePair | Command::FactoryReset => true,
            _ => false,
        }
    }

    /// Order in which exported settings are sent: higher goes later.
    pub fn export_priority(&self) -> (p: u8)
        ensures
            p == export_priority_spec(*self),
    {
        match self {
            Command::SetNoiseMode(_) | Command::SetAmbientVolume(_) | Command::DisableShutdownTimer
            | Command::SetShutdownTimer { .. } => 1,
            Command::SetLdac(_) => 2,
            _ => 0,
        }
    }

    /// The display label of the command.
    pub fn label(&self) -> (s: &'static str)
        ensures
            s@ == label_spec(*self),
    {
        match self {
            Command::SetNoiseMode(_) => "Noise Reduction",
            Command::SetAmbientVolume(_) => "Ambient Sound",
            Command::SetSoundEffect(_) => "Sound Effect",
            Command::SetControlSettings(_) => "Control Settings",
            Command::SetLdac(_) => "LDAC",
            Command::SetGameMode(_) => "Game Mode",
            Command::SetPromptVolume(_) => "Prompt Volume",
            Command::DisableShutdownTimer => "Shutdown Timer Enabled",
            Command::SetShutdownTimer { .. } => "Shutdown Timer",
            Command::PowerOff => "Power Off",
            Command::DisconnectHost => "Disconnect",
            Command::RePair => "Re-pair",
            Command::FactoryReset => "Reset",
            Command::SetName(_) => "Name",
            Command::Playback(_) => "Playback",
            Command::SetAutoPowerOff(_) => "Auto Poweroff",
            Command::QueryBattery => "Battery",
            Command::QueryMac => "MAC",
            Command::QueryFirmware => "Firmware",
            Command::QueryNoise => "Noise",
            Command::QueryName => "Name Query",
            Command::QuerySoundEffect => "Sound Effect Query",
            Command::QueryGameMode => "Game Mode Query",
            Command::QueryControlSettings => "Control Settings Query",
            Command::QueryLdac => "LDAC Query",
            Command::QueryPromptVolume => "Prompt Volume Query",
            Command::QueryShutdownTimer => "Shutdown Timer Query",
            Command::QueryAutoPowerOff => "Auto Poweroff Query",
            Command::QueryFingerprint => "Fingerprint",
            Command::QueryPlayback => "Playback Query",
            Command::Raw(_) => "Raw",
        }
    }

    /// The body bytes of the command.
    pub fn to_body(&self) -> (r: Result<Vec<u8>, ProtocolError>)
        ensures
            match r {
                Ok(v) => body_spec(*self) == Ok::<Seq<u8>, ProtocolError>(v@),
                Err(e) => body_spec(*self) == Err::<Seq<u8>, ProtocolError>(e),
            },
    {
        let body: Vec<u8> = match self {
            Command::SetNoiseMode(mode) => {
                let code: u8 = match mode {
                    NoiseMode::Normal => 0x01,
                    NoiseMode::Reduction => 0x02,
                    NoiseMode::Ambient => 0x03,
                };
                vec![0xC1, code]
            },
            Command::SetAmbientVolume(vol) => {
                if *vol < -3 || *vol > 3 {
                    return Err(ProtocolError::AmbientVolumeRange);
                }
                vec![0xC1, 0x03, (AMBIENT_VOLUME_OFFSET + *vol) as u8]
            },
            Command::SetSoundEffect(fx) => {
                let code: u8 = match fx {
                    SoundEffect::Normal => 0x00,
                    SoundEffect::Pop => 0x01,
                    SoundEffect::Classical => 0x02,
                    SoundEffect::Rock => 0x03,
                };
                vec![0xC4, code]
            },
            Command::SetControlSettings(cs) => vec![0xF1, 0x0A, cs.mask()],
            Command::SetLdac(mode) => {
                let code: u8 = match mode {
                    LdacMode::Off => 0x00,
                    LdacMode::Rate48k => 0x01,
                    LdacMode::Rate96k => 0x02,
                };
                vec![0x49, code]
            },
            Command::SetGameMode(on) => vec![0x09, if *on { 0x01 } else { 0x00 }],
            Command::SetPromptVolume(v) => vec![0x06, *v],
            Command::DisableShutdownTimer => vec![0xD2],
            Command::SetShutdownTimer { minutes } => vec![0xD1, 0x00, *minutes],
            Command::PowerOff => vec![0xCE],
            Command::DisconnectHost => vec![0xCD],
            Command::RePair => vec![0xCF],
            Command::FactoryReset => vec![0x07],
            Command::SetName(name) => {
                let mut body: Vec<u8> = vec![0xCA];
                let bytes = name.as_str().as_bytes();
                body.extend_from_slice(bytes);
                assert(body@ =~= seq![0xCAu8] + encode_utf8(name@));
                body
            },
            Command::Playback(p) => {
                let code: u8 = match p {
                    Playback::Play => 0x00,
                    Playback::Pause => 0x01,
                    Playback::VolumeUp => 0x02,
                    Playback::VolumeDown => 0x03,
                    Playback::Next => 0x04,
                    Playback::Previous => 0x05,
                };
                vec![0xC2, code]
            },
            Command::SetAutoPowerOff(on) => vec![0xD6, if *on { 0x01 } else { 0x00 }],
            Command::QueryBattery => vec![0xD0],
            Command::QueryMac => vec![0xC8],
            Command::QueryFirmware => vec![0xC6],
            Command::QueryNoise => vec![0xCC],
            Command::QueryName => vec![0xC9],
            Command::QuerySoundEffect => vec![0xD5],
            Command::QueryGameMode => vec![0x08],
            Command::QueryControlSettings => vec![0xF0, 0x0A],
            Command::QueryLdac => vec![0x48],
            Command::QueryPromptVolume => vec![0x05],
            Command::QueryShutdownTimer => vec![0xD3],
            Command::QueryAutoPowerOff => vec![0xD7],
            Command::QueryFingerprint => vec![0xD8],
            Command::QueryPlayback => vec![0xC3],
            Command::Raw(bytes) => copy_bytes(bytes.as_slice()),
        };
        assert(body@ =~= body_spec(*self)->Ok_0);
        Ok(body)
    }

    /// The host frame that carries the command.
    pub fn to_frame(&self) -> (r: Result<Vec<u8>, ProtocolError>)
        ensures
            match r {
                Ok(v) => frame_spec(*self) == Ok::<Seq<u8>, ProtocolError>(v@),
                Err(e) => frame_spec(*self) == Err::<Seq<u8>, ProtocolError>(e),
            },
    {
        let body = self.to_body()?;
        encode_tx(body.as_slice())
    }
}

/// The variant of a command, numbered in declaration order.
pub open spec fn command_kind(cmd: Command) -> nat {
    match cmd {
        Command::SetNoiseMode(_) => 0,
        Command::SetAmbientVolume(_) => 1,
        Command::SetSoundEffect(_) => 2,
        Command::SetControlSettings(_) => 3,
        Command::SetLdac(_) => 4,
        Command::SetGameMode(_) => 5,
        Command::SetPromptVolume(_) => 6,
        Command::DisableShutdownTimer => 7,
        Command::SetShutdownTimer { .. } => 8,
        Command::PowerOff => 9,
        Command::DisconnectHost => 10,
        Command::RePair => 11,
        Command::FactoryReset => 12,
        Command::SetName(_) => 13,
        Command::Playback(_) => 14,
        Command::SetAutoPowerOff(_) => 15,
        Command::QueryBattery => 16,
        Command::QueryMac => 17,
        Command::QueryFirmware => 18,
        Command::QueryNoise => 19,
        Command::QueryName => 20,
        Command::QuerySoundEffect => 21,
        Command::QueryGameMode => 22,
        Command::QueryControlSettings => 23,
        Command::QueryLdac => 24,
        Command::QueryPromptVolume => 25,
        Command::QueryShutdownTimer => 26,
        Command::QueryAutoPowerOff => 27,
        Command::QueryFingerprint => 28,
        Command::QueryPlayback => 29,
        Command::Raw(_) => 30,
    }
}

/// The variant whose label has this length and these first two characters
/// (every label differs from the others in one of them).
pub open spec fn label_key_kind(len: nat, a: char, b: char) -> nat {
    if len == 15 && a == 'N' && b == 'o' {
        0
    } else if len == 13 && a == 'A' && b == 'm' {
        1
    } else if len == 12 && a == 'S' && b == 'o' {
        2
    } else if len == 16 && a == 'C' && b == 'o' {
        3
    } else if len == 4 && a == 'L' && b == 'D' {
        4
    } else if len == 9 && a == 'G' && b == 'a' {
        5
    } else if len == 13 && a == 'P' && b == 'r' {
        6
    } else if len == 22 && a == 'S' && b == 'h' {
        7
    } else if len == 14 && a == 'S' && b == 'h' {
        8
    } else if len == 9 && a == 'P' && b == 'o' {
        9
    } else if len == 10 && a == 'D' && b == 'i' {
        10
    } else if len == 7 && a == 'R' && b == 'e' {
        11
    } else if len == 5 && a == 'R' && b == 'e' {
        12
    } else if len == 4 && a == 'N' && b == 'a' {
        13
    } else if len == 8 && a == 'P' && b == 'l' {
        14
    } else if len == 13 && a == 'A' && b == 'u' {
        15
    } else if len == 7 && a == 'B' && b == 'a' {
        16
    } else if len == 3 && a == 'M' && b == 'A' {
        17
    } else if len == 8 && a == 'F' && b == 'i' {
        18
    } else if len == 5 && a == 'N' && b == 'o' {
        19
    } else if len == 10 && a == 'N' && b == 'a' {
        20
    } else if len == 18 && a == 'S' && b == 'o' {
        21
    } else if len == 15 && a == 'G' && b == 'a' {
        22
    } else if len == 22 && a == 'C' && b == 'o' {
        23
    } else if len == 10 && a == 'L' && b == 'D' {
        24
    } else if len == 19 && a == 'P' && b == 'r' {
        25
    } else if len == 20 && a == 'S' && b == 'h' {
        26
    } else if len == 19 && a == 'A' && b == 'u' {
        27
    } else if len == 11 && a == 'F' && b == 'i' {
        28
    } else if len == 14 && a == 'P' && b == 'l' {
        29
    } else if len == 3 && a == 'R' && b == 'a' {
        30
    } else {
        31
    }
}

proof fn lemma_label_key(cmd: Command)
    ensures
        label_spec(cmd).len() >= 2,
        label_key_kind(label_spec(cmd).len(), label_spec(cmd)[0], label_spec(cmd)[1]) == command_kind(cmd),
{
    reveal_strlit("Noise Reduction");
    reveal_strlit("Ambient Sound");
    reveal_strlit("Sound Effect");
    reveal_strlit("Control Settings");
    reveal_strlit("LDAC");
    reveal_strlit("Game Mode");
    reveal_strlit("Prompt Volume");
    reveal_strlit("Shutdown Timer Enabled");
    reveal_strlit("Shutdown Timer");
    reveal_strlit("Power Off");
    reveal_strlit("Disconnect");
    reveal_strlit("Re-pair");
    reveal_strlit("Reset");
    reveal_strlit("Name");
    reveal_strlit("Playback");
    reveal_strlit("Auto Poweroff");
    reveal_strlit("Battery");
    reveal_strlit("MAC");
    reveal_strlit("Firmware");
    reveal_strlit("Noise");
    reveal_strlit("Name Query");
    reveal_strlit("Sound Effect Query");
    reveal_strlit("Game Mode Query");
    reveal_strlit("Control Settings Query");
    reveal_strlit("LDAC Query");
    reveal_strlit("Prompt Volume Query");
    reveal_strlit("Shutdown Timer Query");
    reveal_strlit("Auto Poweroff Query");
    reveal_strlit("Fingerprint");
    reveal_strlit("Playback Query");
    reveal_strlit("Raw");
}

/// Law: two commands share a label exactly when they are of the same
/// variant; the label names the variant, whatever its arguments.
pub proof fn law_label_identifies_variant(c1: Command, c2: Command)
    ensures
        (label_spec(c1) == label_spec(c2)) == (command_kind(c1) == command_kind(c2)),
{
    lemma_label_key(c1);
    lemma_label_key(c2);
}

/// Law: the documented wire codes. Media keys are sent as 0xC2 followed by
/// 0x00..0x05 for play, pause, volume up, volume down, next and previous;
/// LDAC is 0x49 followed by 0x00 (off), 0x01 (48 kHz) or 0x02 (96 kHz); noise
/// modes are 0xC1 followed by 0x01 (normal), 0x02 (reduction) or 0x03
/// (ambient); sound effects are 0xC4 followed by 0x00..0x03 for normal, pop,
/// classical and rock.
pub proof fn law_wire_codes()
    ensures
        body_spec(Command::Playback(Playback::Play)) == Ok::<Seq<u8>, ProtocolError>(seq![0xC2u8, 0x00u8]),
        body_spec(Command::Playback(Playback::Pause)) == Ok::<Seq<u8>, ProtocolError>(seq![0xC2u8, 0x01u8]),
        body_spec(Command::Playback(Playback::VolumeUp)) == Ok::<Seq<u8>, ProtocolError>(seq![0xC2u8, 0x02u8]),
        body_spec(Command::Playback(Playback::VolumeDown)) == Ok::<Seq<u8>, ProtocolError>(seq![0xC2u8, 0x03u8]),
        body_spec(Command::Playback(Playback::Next)) == Ok::<Seq<u8>, ProtocolError>(seq![0xC2u8, 0x04u8]),
        body_spec(Command::Playback(Playback::Previous)) == Ok::<Seq<u8>, ProtocolError>(seq![0xC2u8, 0x05u8]),
        body_spec(Command::SetLdac(LdacMode::Off)) == Ok::<Seq<u8>, ProtocolError>(seq![0x49u8, 0x00u8]),
        body_spec(Command::SetLdac(LdacMode::Rate48k)) == Ok::<Seq<u8>, ProtocolError>(seq![0x49u8, 0x01u8]),
        body_spec(Command::SetLdac(LdacMode::Rate96k)) == Ok::<Seq<u8>, ProtocolError>(seq![0x49u8, 0x02u8]),
        body_spec(Command::SetNoiseMode(NoiseMode::Normal)) == Ok::<Seq<u8>, ProtocolError>(seq![0xC1u8, 0x01u8]),
        body_spec(Command::SetNoiseMode(NoiseMode::Reduction)) == Ok::<Seq<u8>, ProtocolError>(seq![0xC1u8, 0x02u8]),
        body_spec(Command::SetNoiseMode(NoiseMode::Ambient)) == Ok::<Seq<u8>, ProtocolError>(seq![0xC1u8, 0x03u8]),
        body_spec(Command::SetSoundEffect(SoundEffect::Normal)) == Ok::<Seq<u8>, ProtocolError>(seq![0xC4u8, 0x00u8]),
        body_spec(Command::SetSoundEffect(SoundEffect::Pop)) == Ok::<Seq<u8>, ProtocolError>(seq![0xC4u8, 0x01u8]),
        body_spec(Command::SetSoundEffect(SoundEffect::Classical)) == Ok::<Seq<u8>, ProtocolError>(
            seq![0xC4u8, 0x02u8],
        ),
        body_spec(Command::SetSoundEffect(SoundEffect::Rock)) == Ok::<Seq<u8>, ProtocolError>(seq![0xC4u8, 0x03u8]),
{
}

/// Law: distinct media keys go out as distinct bodies, so no key is sent
/// as another.
pub proof fn law_playback_keys_distinct(p: Playback, q: Playback)
    ensures
        body_spec(Command::Playback(p)) == body_spec(Command::Playback(q)) <==> p == q,
{
    if body_spec(Command::Playback(p)) == body_spec(Command::Playback(q)) {
        assert(body_spec(Command::Playback(p))->Ok_0[1] == body_spec(Command::Playback(q))->Ok_0[1]);
    }
}

/// Law: settings are replayed in three groups: first everything else, then
/// noise mode, ambient volume and the shutdown timer (so an ambient volume
/// goes out after the noise mode that makes it audible), then LDAC last.
pub proof fn law_export_groups(m: NoiseMode, vol: i8, minutes: u8, l: LdacMode, c: Command)
    ensures
        export_priority_spec(Command::SetAmbientVolume(vol)) == export_priority_spec(Command::SetNoiseMode(m)),
        export_priority_spec(Command::SetShutdownTimer { minutes }) == export_priority_spec(Command::SetNoiseMode(m)),
        export_priority_spec(Command::DisableShutdownTimer) == export_priority_spec(Command::SetNoiseMode(m)),
        export_priority_spec(Command::SetNoiseMode(m)) == 1,
        export_priority_spec(Command::SetLdac(l)) == 2,
        !(c is SetNoiseMode || c is SetAmbientVolume || c is SetShutdownTimer || c is DisableShutdownTimer
            || c is SetLdac) ==> export_priority_spec(c) == 0,
{
}

} // verus!
