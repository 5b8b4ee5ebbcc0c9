use vstd::prelude::*;

use crate::command::{
    ControlSettings, Command, LdacMode, NoiseMode, Playback, SoundEffect, body_spec, frame_spec,
    is_destructive_spec, label_spec,
};
use crate::error::{protocol_message, ProtocolError};
use crate::packet::{encode_tx, law_hex_roundtrip, parse_hex, parse_hex_spec, to_hex};
use crate::text::{concat_str, hex_upper_spec, str_eq};

verus! {

/// A command as the JSON interface writes it (`op` names the variant).
#[derive(Debug, Clone, PartialEq, Eq)]
#[allow(inconsistent_fields)]
pub enum CommandJson {
    SetNoiseMode { mode: String },
    SetAmbientVolume { volume: i8 },
    SetSoundEffect { effect: String },
    SetControlSettings { normal: bool, reduction: bool, ambient: bool },
    SetLdac { mode: String },
    SetGameMode { on: bool },
    SetPromptVolume { volume: u8 },
    DisableShutdownTimer,
    SetShutdownTimer { minutes: u8 },
    PowerOff,
    DisconnectHost,
    RePair,
    FactoryReset,
    SetName { name: String },
    Playback { action: String },
    SetAutoPowerOff { on: bool },
    QueryBattery,
    QueryMac,
    QueryFirmware,
    QueryNoise,
    QueryName,
    QuerySoundEffect,
    QueryGameMode,
    QueryControlSettings,
    QueryLdac,
    QueryPromptVolume,
    QueryShutdownTimer,
    QueryAutoPowerOff,
    QueryFingerprint,
    QueryPlayback,
    Raw { hex: String },
}

/// The JSON key of a noise mode.
pub open spec fn noise_key(m: NoiseMode) -> Seq<char> {
    match m {
        NoiseMode::Normal => "normal"@,
        NoiseMode::Reduction => "reduction"@,
        NoiseMode::Ambient => "ambient"@,
    }
}

/// The noise mode a JSON key names.
pub open spec fn parse_noise_spec(s: Seq<char>) -> Option<NoiseMode> {
    if s == "normal"@ {
        Some(NoiseMode::Normal)
    } else if s == "reduction"@ {
        Some(NoiseMode::Reduction)
    } else if s == "ambient"@ {
        Some(NoiseMode::Ambient)
    } else {
        None
    }
}

/// The JSON key of a sound effect.
pub open spec fn effect_key(fx: SoundEffect) -> Seq<char> {
    match fx {
        SoundEffect::Normal => "normal"@,
        SoundEffect::Pop => "pop"@,
        SoundEffect::Classical => "classical"@,
        SoundEffect::Rock => "rock"@,
    }
}

/// The sound effect a JSON key names.
pub open spec fn parse_effect_spec(s: Seq<char>) -> Option<SoundEffect> {
    if s == "normal"@ {
        Some(SoundEffect::Normal)
    } else if s == "pop"@ {
        Some(SoundEffect::Pop)
    } else if s == "classical"@ {
        Some(SoundEffect::Classical)
    } else if s == "rock"@ {
        Some(SoundEffect::Rock)
    } else {
        None
    }
}

/// The JSON key of an LDAC mode.
pub open spec fn ldac_key(m: LdacMode) -> Seq<char> {
    match m {
        LdacMode::Off => "off"@,
        LdacMode::Rate48k => "rate48k"@,
        LdacMode::Rate96k => "rate96k"@,
    }
}

/// The LDAC mode a JSON key names; "48k" and "96k" are accepted too.
pub open spec fn parse_ldac_spec(s: Seq<char>) -> Option<LdacMode> {
    if s == "off"@ {
        Some(LdacMode::Off)
    } else if s == "rate48k"@ || s == "48k"@ {
        Some(LdacMode::Rate48k)
    } else if s == "rate96k"@ || s == "96k"@ {
        Some(LdacMode::Rate96k)
    } else {
        None
    }
}

/// The JSON key of a media key.
pub open spec fn playback_key(p: Playback) -> Seq<char> {
    match p {
        Playback::Play => "play"@,
        Playback::Pause => "pause"@,
        Playback::VolumeUp => "volume_up"@,
        Playback::VolumeDown => "volume_down"@,
        Playback::Next => "next"@,
        Playback::Previous => "previous"@,
    }
}

/// The media key a JSON key names.
pub open spec fn parse_playback_spec(s: Seq<char>) -> Option<Playback> {
    if s == "play"@ {
        Some(Playback::Play)
    } else if s == "pause"@ {
        Some(Playback::Pause)
    } else if s == "volume_up"@ {
        Some(Playback::VolumeUp)
    } else if s == "volume_down"@ {
        Some(Playback::VolumeDown)
    } else if s == "next"@ {
        Some(Playback::Next)
    } else if s == "previous"@ {
        Some(Playback::Previous)
    } else {
        None
    }
}

/// Whether `j` is the JSON that `from_command` writes for `c`.
pub open spec fn json_of(c: Command, j: CommandJson) -> bool {
    match (c, j) {
        (Command::SetNoiseMode(m), CommandJson::SetNoiseMode { mode }) => mode@ == noise_key(m),
        (Command::SetAmbientVolume(v), CommandJson::SetAmbientVolume { volume }) => volume == v,
        (Command::SetSoundEffect(fx), CommandJson::SetSoundEffect { effect }) => effect@ == effect_key(fx),
        (Command::SetControlSettings(cs), CommandJson::SetControlSettings { normal, reduction, ambient }) => normal
            == cs.normal && reduction == cs.reduction && ambient == cs.ambient,
        (Command::SetLdac(m), CommandJson::SetLdac { mode }) => mode@ == ldac_key(m),
        (Command::SetGameMode(v), CommandJson::SetGameMode { on }) => on == v,
        (Command::SetPromptVolume(v), CommandJson::SetPromptVolume { volume }) => volume == v,
        (Command::DisableShutdownTimer, CommandJson::DisableShutdownTimer) => true,
        (Command::SetShutdownTimer { minutes: a }, CommandJson::SetShutdownTimer { minutes: b }) => a == b,
        (Command::PowerOff, CommandJson::PowerOff) => true,
        (Command::DisconnectHost, CommandJson::DisconnectHost) => true,
        (Command::RePair, CommandJson::RePair) => true,
        (Command::FactoryReset, CommandJson::FactoryReset) => true,
        (Command::SetName(n), CommandJson::SetName { name }) => name@ == n@,
        (Command::Playback(p), CommandJson::Playback { action }) => action@ == playback_key(p),
        (Command::SetAutoPowerOff(v), CommandJson::SetAutoPowerOff { on }) => on == v,
        (Command::QueryBattery, CommandJson::QueryBattery) => true,
        (Command::QueryMac, CommandJson::QueryMac) => true,
        (Command::QueryFirmware, CommandJson::QueryFirmware) => true,
        (Command::QueryNoise, CommandJson::QueryNoise) => true,
        (Command::QueryName, CommandJson::QueryName) => true,
        (Command::QuerySoundEffect, CommandJson::QuerySoundEffect) => true,
        (Command::QueryGameMode, CommandJson::QueryGameMode) => true,
        (Command::QueryControlSettings, CommandJson::QueryControlSettings) => true,
        (Command::QueryLdac, CommandJson::QueryLdac) => true,
        (Command::QueryPromptVolume, CommandJson::QueryPromptVolume) => true,
        (Command::QueryShutdownTimer, CommandJson::QueryShutdownTimer) => true,
        (Command::QueryAutoPowerOff, CommandJson::QueryAutoPowerOff) => true,
        (Command::QueryFingerprint, CommandJson::QueryFingerprint) => true,
        (Command::QueryPlayback, CommandJson::QueryPlayback) => true,
        (Command::Raw(b), CommandJson::Raw { hex }) => hex@ == hex_upper_spec(b@),
        _ => false,
    }
}

/// The error message `to_command` gives for `j`, if it gives one.
pub open spec fn json_error(j: CommandJson) -> Option<Seq<char>> {
    match j {
        CommandJson::SetNoiseMode { mode } => if parse_noise_spec(mode@) is None {
            Some("未知降噪模式 "@ + mode@)
        } else {
            None
        },
        CommandJson::SetSoundEffect { effect } => if parse_effect_spec(effect@) is None {
            Some("未知音效 "@ + effect@)
        } else {
            None
        },
        CommandJson::SetLdac { mode } => if parse_ldac_spec(mode@) is None {
            Some("未知 LDAC 模式 "@ + mode@)
        } else {
            None
        },
        CommandJson::Playback { action } => if parse_playback_spec(action@) is None {
            Some("未知播放动作 "@ + action@)
        } else {
            None
        },
        CommandJson::Raw { hex } => match parse_hex_spec(hex@) {
            Err(e) => Some(protocol_message(e)),
            Ok(_) => None,
        },
        _ => None,
    }
}

/// Whether `c` is the command that the JSON `j` asks for.
pub open spec fn json_denotes(j: CommandJson, c: Command) -> bool {
    match (j, c) {
        (CommandJson::SetNoiseMode { mode }, Command::SetNoiseMode(m)) => parse_noise_spec(mode@) == Some(m),
        (CommandJson::SetAmbientVolume { volume }, Command::SetAmbientVolume(v)) => volume == v,
        (CommandJson::SetSoundEffect { effect }, Command::SetSoundEffect(fx)) => parse_effect_spec(effect@) == Some(
            fx,
        ),
        (CommandJson::SetControlSettings { normal, reduction, ambient }, Command::SetControlSettings(cs)) => normal
            == cs.normal && reduction == cs.reduction && ambient == cs.ambient,
        (CommandJson::SetLdac { mode }, Command::SetLdac(m)) => parse_ldac_spec(mode@) == Some(m),
        (CommandJson::SetGameMode { on }, Command::SetGameMode(v)) => on == v,
        (CommandJson::SetPromptVolume { volume }, Command::SetPromptVolume(v)) => volume == v,
        (CommandJson::DisableShutdownTimer, Command::DisableShutdownTimer) => true,
        (CommandJson::SetShutdownTimer { minutes: a }, Command::SetShutdownTimer { minutes: b }) => a == b,
        (CommandJson::PowerOff, Command::PowerOff) => true,
        (CommandJson::DisconnectHost, Command::DisconnectHost) => true,
        (CommandJson::RePair, Command::RePair) => true,
        (CommandJson::FactoryReset, Command::FactoryReset) => true,
        (CommandJson::SetName { name }, Command::SetName(n)) => name@ == n@,
        (CommandJson::Playback { action }, Command::Playback(p)) => parse_playback_spec(action@) == Some(p),
        (CommandJson::SetAutoPowerOff { on }, Command::SetAutoPowerOff(v)) => on == v,
        (CommandJson::QueryBattery, Command::QueryBattery) => true,
        (CommandJson::QueryMac, Command::QueryMac) => true,
        (CommandJson::QueryFirmware, Command::QueryFirmware) => true,
        (CommandJson::QueryNoise, Command::QueryNoise) => true,
        (CommandJson::QueryName, Command::QueryName) => true,
        (CommandJson::QuerySoundEffect, Command::QuerySoundEffect) => true,
        (CommandJson::QueryGameMode, Command::QueryGameMode) => true,
        (CommandJson::QueryControlSettings, Command::QueryControlSettings) => true,
        (CommandJson::QueryLdac, Command::QueryLdac) => true,
        (CommandJson::QueryPromptVolume, Command::QueryPromptVolume) => true,
        (CommandJson::QueryShutdownTimer, Command::QueryShutdownTimer) => true,
        (CommandJson::QueryAutoPowerOff, Command::QueryAutoPowerOff) => true,
        (CommandJson::QueryFingerprint, Command::QueryFingerprint) => true,
        (CommandJson::QueryPlayback, Command::QueryPlayback) => true,
        (CommandJson::Raw { hex }, Command::Raw(b)) => parse_hex_spec(hex@) == Ok::<Seq<u8>, ProtocolError>(b@),
        _ => false,
    }
}

fn noise_str(mode: NoiseMode) -> (s: &'static str)
    ensures
        s@ == noise_key(mode),
{
    match mode {
        NoiseMode::Normal => "normal",
        NoiseMode::Reduction => "reduction",
        NoiseMode::Ambient => "ambient",
    }
}

fn parse_noise(s: &str) -> (r: Result<NoiseMode, String>)
    ensures
        match r {
            Ok(m) => parse_noise_spec(s@) == Some(m),
            Err(e) => parse_noise_spec(s@) is None && e@ == "未知降噪模式 "@ + s@,
        },
{
    if str_eq(s, "normal") {
        Ok(NoiseMode::Normal)
    } else if str_eq(s, "reduction") {
        Ok(NoiseMode::Reduction)
    } else if str_eq(s, "ambient") {
        Ok(NoiseMode::Ambient)
    } else {
        Err(concat_str("未知降噪模式 ", s))
    }
}

fn effect_str(fx: SoundEffect) -> (s: &'static str)
    ensures
        s@ == effect_key(fx),
{
    match fx {
        SoundEffect::Normal => "normal",
        SoundEffect::Pop => "pop",
        SoundEffect::Classical => "classical",
        SoundEffect::Rock => "rock",
    }
}

fn parse_effect(s: &str) -> (r: Result<SoundEffect, String>)
    ensures
        match r {
            Ok(fx) => parse_effect_spec(s@) == Some(fx),
            Err(e) => parse_effect_spec(s@) is None && e@ == "未知音效 "@ + s@,
        },
{
    if str_eq(s, "normal") {
        Ok(SoundEffect::Normal)
    } else if str_eq(s, "pop") {
        Ok(SoundEffect::Pop)
    } else if str_eq(s, "classical") {
        Ok(SoundEffect::Classical)
    } else if str_eq(s, "rock") {
        Ok(SoundEffect::Rock)
    } else {
        Err(concat_str("未知音效 ", s))
    }
}

fn ldac_str(mode: LdacMode) -> (s: &'static str)
    ensures
        s@ == ldac_key(mode),
{
    match mode {
        LdacMode::Off => "off",
        LdacMode::Rate48k => "rate48k",
        LdacMode::Rate96k => "rate96k",
    }
}

fn parse_ldac(s: &str) -> (r: Result<LdacMode, String>)
    ensures
        match r {
            Ok(m) => parse_ldac_spec(s@) == Some(m),
            Err(e) => parse_ldac_spec(s@) is None && e@ == "未知 LDAC 模式 "@ + s@,
        },
{
    if str_eq(s, "off") {
        Ok(LdacMode::Off)
    } else if str_eq(s, "rate48k") || str_eq(s, "48k") {
        Ok(LdacMode::Rate48k)
    } else if str_eq(s, "rate96k") || str_eq(s, "96k") {
        Ok(LdacMode::Rate96k)
    } else {
        Err(concat_str("未知 LDAC 模式 ", s))
    }
}

fn playback_str(p: Playback) -> (s: &'static str)
    ensures
        s@ == playback_key(p),
{
    match p {
        Playback::Play => "play",
        Playback::Pause => "pause",
        Playback::VolumeUp => "volume_up",
        Playback::VolumeDown => "volume_down",
        Playback::Next => "next",
        Playback::Previous => "previous",
    }
}

fn parse_playback(s: &str) -> (r: Result<Playback, String>)
    ensures
        match r {
            Ok(p) => parse_playback_spec(s@) == Some(p),
            Err(e) => parse_playback_spec(s@) is None && e@ == "未知播放动作 "@ + s@,
        },
{
    if str_eq(s, "play") {
        Ok(Playback::Play)
    } else if str_eq(s, "pause") {
        Ok(Playback::Pause)
    } else if str_eq(s, "volume_up") {
        Ok(Playback::VolumeUp)
    } else if str_eq(s, "volume_down") {
        Ok(Playback::VolumeDown)
    } else if str_eq(s, "next") {
        Ok(Playback::Next)
    } else if str_eq(s, "previous") {
        Ok(Playback::Previous)
    } else {
        Err(concat_str("未知播放动作 ", s))
    }
}

impl CommandJson {
    /// The JSON form of a command (never fails).
    pub fn from_command(cmd: &Command) -> (r: Result<Self, ProtocolError>)
        ensures
            r matches Ok(j) && json_of(*cmd, j),
    {
        Ok(
            match cmd {
                Command::SetNoiseMode(mode) => CommandJson::SetNoiseMode { mode: noise_str(*mode).to_owned() },
                Command::SetAmbientVolume(v) => CommandJson::SetAmbientVolume { volume: *v },
                Command::SetSoundEffect(fx) => CommandJson::SetSoundEffect { effect: effect_str(*fx).to_owned() },
                Command::SetControlSettings(cs) => CommandJson::SetControlSettings {
                    normal: cs.normal,
                    reduction: cs.reduction,
                    ambient: cs.ambient,
                },
                Command::SetLdac(mode) => CommandJson::SetLdac { mode: ldac_str(*mode).to_owned() },
                Command::SetGameMode(on) => CommandJson::SetGameMode { on: *on },
                Command::SetPromptVolume(v) => CommandJson::SetPromptVolume { volume: *v },
                Command::DisableShutdownTimer => CommandJson::DisableShutdownTimer,
                Command::SetShutdownTimer { minutes } => CommandJson::SetShutdownTimer { minutes: *minutes },
                Command::PowerOff => CommandJson::PowerOff,
                Command::DisconnectHost => CommandJson::DisconnectHost,
                Command::RePair => CommandJson::RePair,
                Command::FactoryReset => CommandJson::FactoryReset,
                Command::SetName(name) => CommandJson::SetName { name: name.clone() },
                Command::Playback(p) => CommandJson::Playback { action: playback_str(*p).to_owned() },
                Command::SetAutoPowerOff(on) => CommandJson::SetAutoPowerOff { on: *on },
                Command::QueryBattery => CommandJson::QueryBattery,
                Command::QueryMac => CommandJson::QueryMac,
                Command::QueryFirmware => CommandJson::QueryFirmware,
                Command::QueryNoise => CommandJson::QueryNoise,
                Command::QueryName => CommandJson::QueryName,
                Command::QuerySoundEffect => CommandJson::QuerySoundEffect,
                Command::QueryGameMode => CommandJson::QueryGameMode,
                Command::QueryControlSettings => CommandJson::QueryControlSettings,
                Command::QueryLdac => CommandJson::QueryLdac,
                Command::QueryPromptVolume => CommandJson::QueryPromptVolume,
                Command::QueryShutdownTimer => CommandJson::QueryShutdownTimer,
                Command::QueryAutoPowerOff => CommandJson::QueryAutoPowerOff,
                Command::QueryFingerprint => CommandJson::QueryFingerprint,
                Command::QueryPlayback => CommandJson::QueryPlayback,
                Command::Raw(bytes) => CommandJson::Raw { hex: to_hex(bytes.as_slice()) },
            },
        )
    }

    /// The command the JSON asks for; an unknown mode, effect or media key,
    /// or raw hex that does not parse, is refused with a message.
    pub fn to_command(&self) -> (r: Result<Command, String>)
        ensures
            match r {
                Ok(c) => json_error(*self) is None && json_denotes(*self, c),
                Err(e) => json_error(*self) == Some(e@),
            },
    {
        Ok(
            match self {
                CommandJson::SetNoiseMode { mode } => Command::SetNoiseMode(parse_noise(mode.as_str())?),
                CommandJson::SetAmbientVolume { volume } => Command::SetAmbientVolume(*volume),
                CommandJson::SetSoundEffect { effect } => Command::SetSoundEffect(parse_effect(effect.as_str())?),
                CommandJson::SetControlSettings { normal, reduction, ambient } => Command::SetControlSettings(
                    ControlSettings { normal: *normal, reduction: *reduction, ambient: *ambient },
                ),
                CommandJson::SetLdac { mode } => Command::SetLdac(parse_ldac(mode.as_str())?),
                CommandJson::SetGameMode { on } => Command::SetGameMode(*on),
                CommandJson::SetPromptVolume { volume } => Command::SetPromptVolume(*volume),
                CommandJson::DisableShutdownTimer => Command::DisableShutdownTimer,
                CommandJson::SetShutdownTimer { minutes } => Command::SetShutdownTimer { minutes: *minutes },
                CommandJson::PowerOff => Command::PowerOff,
                CommandJson::DisconnectHost => Command::DisconnectHost,
                CommandJson::RePair => Command::RePair,
                CommandJson::FactoryReset => Command::FactoryReset,
                CommandJson::SetName { name } => Command::SetName(name.clone()),
                CommandJson::Playback { action } => Command::Playback(parse_playback(action.as_str())?),
                CommandJson::SetAutoPowerOff { on } => Command::SetAutoPowerOff(*on),
                CommandJson::QueryBattery => Command::QueryBattery,
                CommandJson::QueryMac => Command::QueryMac,
                CommandJson::QueryFirmware => Command::QueryFirmware,
                CommandJson::QueryNoise => Command::QueryNoise,
                CommandJson::QueryName => Command::QueryName,
                CommandJson::QuerySoundEffect => Command::QuerySoundEffect,
                CommandJson::QueryGameMode => Command::QueryGameMode,
                CommandJson::QueryControlSettings => Command::QueryControlSettings,
                CommandJson::QueryLdac => Command::QueryLdac,
                CommandJson::QueryPromptVolume => Command::QueryPromptVolume,
                CommandJson::QueryShutdownTimer => Command::QueryShutdownTimer,
                CommandJson::QueryAutoPowerOff => Command::QueryAutoPowerOff,
                CommandJson::QueryFingerprint => Command::QueryFingerprint,
                CommandJson::QueryPlayback => Command::QueryPlayback,
                CommandJson::Raw { hex } => match parse_hex(hex.as_str()) {
                    Ok(b) => Command::Raw(b),
                    Err(e) => return Err(e.message()),
                },
            },
        )
    }
}

/// Law: the JSON that `from_command` writes reads back as the same command.
pub proof fn law_command_json_roundtrip(c: Command, j: CommandJson)
    requires
        json_of(c, j),
    ensures
        json_error(j) is None,
        json_denotes(j, c),
{
    reveal_strlit("normal");
    reveal_strlit("reduction");
    reveal_strlit("ambient");
    reveal_strlit("pop");
    reveal_strlit("classical");
    reveal_strlit("rock");
    reveal_strlit("off");
    reveal_strlit("rate48k");
    reveal_strlit("48k");
    reveal_strlit("rate96k");
    reveal_strlit("96k");
    reveal_strlit("play");
    reveal_strlit("pause");
    reveal_strlit("volume_up");
    reveal_strlit("volume_down");
    reveal_strlit("next");
    reveal_strlit("previous");
    assert("rate96k"@[4] != "rate48k"@[4]);
    assert("off"@[0] != "48k"@[0]);
    assert("next"@[0] != "play"@[0]);
    assert("normal"@.len() != "reduction"@.len() && "normal"@.len() != "ambient"@.len());
    assert("pop"@.len() != "normal"@.len() && "classical"@.len() != "normal"@.len());
    assert("rock"@.len() != "normal"@.len() && "rock"@.len() != "pop"@.len());
    assert("classical"@.len() != "pop"@.len());
    assert("rate48k"@.len() != "off"@.len() && "rate96k"@.len() != "off"@.len());
    assert("rate96k"@.len() != "48k"@.len());
    assert("pause"@.len() != "play"@.len() && "volume_up"@.len() != "play"@.len());
    assert("volume_up"@.len() != "pause"@.len() && "volume_down"@.len() != "play"@.len());
    assert("volume_down"@.len() != "pause"@.len() && "volume_down"@.len() != "volume_up"@.len());
    assert("next"@.len() != "pause"@.len() && "next"@.len() != "volume_up"@.len());
    assert("next"@.len() != "volume_down"@.len() && "previous"@.len() != "play"@.len());
    assert("previous"@.len() != "pause"@.len() && "previous"@.len() != "volume_up"@.len());
    assert("previous"@.len() != "volume_down"@.len() && "previous"@.len() != "next"@.len());
    if let Command::Raw(b) = c {
        law_hex_roundtrip(b@);
    }
}

/// A command encoded for the JSON interface: frame and body as hex, whether
/// it cuts the headset off, its label, and the request it came from.
#[derive(Debug, Clone, PartialEq, Eq)]
pub struct EncodedCommand {
    pub hex: String,
    pub body: String,
    pub destructive: bool,
    pub label: String,
    pub op: CommandJson,
}

impl EncodedCommand {
    /// Encodes the command a JSON request asks for; any refusal comes back
    /// as its message.
    pub fn from_op(op: CommandJson) -> (r: Result<EncodedCommand, String>)
        ensures
            match r {
                Ok(e) => json_error(op) is None && e.op == op && exists|c: Command|
                    #![trigger json_denotes(op, c)]
                    json_denotes(op, c) && encoded_matches(c, e),
                Err(msg) => json_error(op) == Some(msg@) || exists|c: Command|
                    #![trigger json_denotes(op, c)]
                    json_error(op) is None && json_denotes(op, c) && match frame_spec(c) {
                        Err(pe) => msg@ == protocol_message(pe),
                        Ok(_) => false,
                    },
            },
    {
        let cmd = op.to_command()?;
        let body = match cmd.to_body() {
            Ok(b) => b,
            Err(e) => return Err(e.message()),
        };
        let frame = match encode_tx(body.as_slice()) {
            Ok(f) => f,
            Err(e) => return Err(e.message()),
        };
        let hex = to_hex(frame.as_slice());
        let body_hex = to_hex(body.as_slice());
        let destructive = cmd.is_destructive();
        let label = cmd.label().to_owned();
        Ok(EncodedCommand { hex, body: body_hex, destructive, label, op })
    }
}

/// Whether `e` encodes the command `c`: frame and body in upper-case hex,
/// destructiveness and label of `c`.
pub open spec fn encoded_matches(c: Command, e: EncodedCommand) -> bool {
    &&& body_spec(c) matches Ok(b) && e.body@ == hex_upper_spec(b)
    &&& frame_spec(c) matches Ok(f) && e.hex@ == hex_upper_spec(f)
    &&& e.destructive == is_destructive_spec(c)
    &&& e.label@ == label_spec(c)
}

/// Law: the media keys and LDAC modes a JSON request names go out with
/// their documented wire codes: "play", "pause", "volume_up", "volume_down",
/// "next" and "previous" as 0xC2 followed by 0x00..0x05, and "off",
/// "rate48k" (or "48k") and "rate96k" (or "96k") as 0x49 followed by 0x00,
/// 0x01 and 0x02.
pub proof fn law_json_names_wire_codes()
    ensures
        parse_playback_spec("play"@) matches Some(p) && body_spec(Command::Playback(p)) == Ok::<Seq<u8>, ProtocolError>(seq![0xC2u8, 0u8]),
        parse_playback_spec("pause"@) matches Some(p) && body_spec(Command::Playback(p)) == Ok::<Seq<u8>, ProtocolError>(seq![0xC2u8, 1u8]),
        parse_playback_spec("volume_up"@) matches Some(p) && body_spec(Command::Playback(p)) == Ok::<Seq<u8>, ProtocolError>(seq![0xC2u8, 2u8]),
        parse_playback_spec("volume_down"@) matches Some(p) && body_spec(Command::Playback(p)) == Ok::<Seq<u8>, ProtocolError>(seq![0xC2u8, 3u8]),
        parse_playback_spec("next"@) matches Some(p) && body_spec(Command::Playback(p)) == Ok::<Seq<u8>, ProtocolError>(seq![0xC2u8, 4u8]),
        parse_playback_spec("previous"@) matches Some(p) && body_spec(Command::Playback(p)) == Ok::<Seq<u8>, ProtocolError>(seq![0xC2u8, 5u8]),
        parse_ldac_spec("off"@) matches Some(l) && body_spec(Command::SetLdac(l)) == Ok::<Seq<u8>, ProtocolError>(seq![0x49u8, 0u8]),
        parse_ldac_spec("rate48k"@) matches Some(l) && body_spec(Command::SetLdac(l)) == Ok::<Seq<u8>, ProtocolError>(seq![0x49u8, 1u8]),
        parse_ldac_spec("48k"@) matches Some(l) && body_spec(Command::SetLdac(l)) == Ok::<Seq<u8>, ProtocolError>(seq![0x49u8, 1u8]),
        parse_ldac_spec("rate96k"@) matches Some(l) && body_spec(Command::SetLdac(l)) == Ok::<Seq<u8>, ProtocolError>(seq![0x49u8, 2u8]),
        parse_ldac_spec("96k"@) matches Some(l) && body_spec(Command::SetLdac(l)) == Ok::<Seq<u8>, ProtocolError>(seq![0x49u8, 2u8]),
{
    reveal_strlit("play");
    reveal_strlit("pause");
    reveal_strlit("volume_up");
    reveal_strlit("volume_down");
    reveal_strlit("next");
    reveal_strlit("previous");
    reveal_strlit("off");
    reveal_strlit("rate48k");
    reveal_strlit("48k");
    reveal_strlit("rate96k");
    reveal_strlit("96k");
    assert("pause"@[2] != "play"@[2]);
    assert("volume_up"@[0] != "play"@[0]);
    assert("volume_up"@[0] != "pause"@[0]);
    assert("volume_down"@[0] != "play"@[0]);
    assert("volume_down"@[0] != "pause"@[0]);
    assert("volume_down"@[7] != "volume_up"@[7]);
    assert("next"@[0] != "play"@[0]);
    assert("next"@[0] != "pause"@[0]);
    assert("next"@[0] != "volume_up"@[0]);
    assert("next"@[0] != "volume_down"@[0]);
    assert("previous"@[1] != "play"@[1]);
    assert("previous"@[1] != "pause"@[1]);
    assert("previous"@[0] != "volume_up"@[0]);
    assert("previous"@[0] != "volume_down"@[0]);
    assert("previous"@[0] != "next"@[0]);
    assert("rate48k"@[0] != "off"@[0]);
    assert("48k"@[0] != "off"@[0]);
    assert("rate96k"@[0] != "off"@[0]);
    assert("rate96k"@[5] != "rate48k"@[5]);
    assert("rate96k"@[0] != "48k"@[0]);
    assert("96k"@[0] != "off"@[0]);
    assert("96k"@[0] != "rate48k"@[0]);
    assert("96k"@[0] != "48k"@[0]);
}

} // verus!
