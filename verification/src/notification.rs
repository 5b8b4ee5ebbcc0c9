use vstd::prelude::*;

use crate::command::{
    body_spec, from_mask_spec, law_mask_roundtrip, mask_spec, Command, ControlSettings, LdacMode, NoiseMode,
    SoundEffect,
};
use crate::constants::{AMBIENT_VOLUME_OFFSET, RX_HEAD_BB, RX_HEAD_CC};
use crate::packet::{FrameView, IncomingFrame};
use vstd::utf8::{decode_utf8, valid_utf8};

verus! {

/// A decoded message from the headset.
#[derive(Debug, Clone, PartialEq, Eq)]
pub enum Notification {
    SoundEffect(SoundEffect),
    GameMode(bool),
    Battery(u8),
    Ldac(LdacMode),
    PromptVolume(u8),
    ShutdownTimerEnabled(bool),
    ShutdownTimer { minutes: u8 },
    AutoPowerOff(bool),
    Mac([u8; 6]),
    Firmware([u8; 3]),
    Noise { mode: NoiseMode, ambient_volume: i8 },
    Name(String),
    ControlSettings(ControlSettings),
    Ack { head: u8, body: Vec<u8> },
    Unknown { head: u8, body: Vec<u8> },
}

/// The mathematical value of a notification.
pub enum NotificationView {
    SoundEffect(SoundEffect),
    GameMode(bool),
    Battery(u8),
    Ldac(LdacMode),
    PromptVolume(u8),
    ShutdownTimerEnabled(bool),
    ShutdownTimer { minutes: u8 },
    AutoPowerOff(bool),
    Mac(Seq<u8>),
    Firmware(Seq<u8>),
    Noise { mode: NoiseMode, ambient_volume: i8 },
    Name(Seq<char>),
    ControlSettings(ControlSettings),
    Ack { head: u8, body: Seq<u8> },
    Unknown { head: u8, body: Seq<u8> },
}

impl View for Notification {
    type V = NotificationView;

    open spec fn view(&self) -> NotificationView {
        match *self {
            Notification::SoundEffect(fx) => NotificationView::SoundEffect(fx),
            Notification::GameMode(on) => NotificationView::GameMode(on),
            Notification::Battery(p) => NotificationView::Battery(p),
            Notification::Ldac(m) => NotificationView::Ldac(m),
            Notification::PromptVolume(v) => NotificationView::PromptVolume(v),
            Notification::ShutdownTimerEnabled(on) => NotificationView::ShutdownTimerEnabled(on),
            Notification::ShutdownTimer { minutes } => NotificationView::ShutdownTimer { minutes },
            Notification::AutoPowerOff(on) => NotificationView::AutoPowerOff(on),
            Notification::Mac(m) => NotificationView::Mac(m@),
            Notification::Firmware(fw) => NotificationView::Firmware(fw@),
            Notification::Noise { mode, ambient_volume } => NotificationView::Noise { mode, ambient_volume },
            Notification::Name(s) => NotificationView::Name(s@),
            Notification::ControlSettings(cs) => NotificationView::ControlSettings(cs),
            Notification::Ack { head, body } => NotificationView::Ack { head, body: body@ },
            Notification::Unknown { head, body } => NotificationView::Unknown { head, body: body@ },
        }
    }
}

/// The characters std's lossy UTF-8 decoding makes of `bytes`.
pub uninterp spec fn utf8_lossy(bytes: Seq<u8>) -> Seq<char>;

/// std `String::from_utf8_lossy`.
///
/// Trusted: the contract claims that the result is a function of the bytes
/// alone, and, as std documents, that valid UTF-8 is decoded unchanged.
/// What replaces invalid sequences is left unsaid.
#[verifier::external_body]
fn lossy_string(bytes: &[u8]) -> (s: String)
    ensures
        s@ == utf8_lossy(bytes@),
        valid_utf8(bytes@) ==> s@ == decode_utf8(bytes@),
{
    String::from_utf8_lossy(bytes).into_owned()
}

/// The noise mode of a wire code.
pub open spec fn noise_mode_spec(v: u8) -> Option<NoiseMode> {
    if v == 0x01 {
        Some(NoiseMode::Normal)
    } else if v == 0x02 {
        Some(NoiseMode::Reduction)
    } else if v == 0x03 {
        Some(NoiseMode::Ambient)
    } else {
        None
    }
}

/// The sound effect of a wire code.
pub open spec fn sound_effect_spec(v: u8) -> Option<SoundEffect> {
    if v == 0x00 {
        Some(SoundEffect::Normal)
    } else if v == 0x01 {
        Some(SoundEffect::Pop)
    } else if v == 0x02 {
        Some(SoundEffect::Classical)
    } else if v == 0x03 {
        Some(SoundEffect::Rock)
    } else {
        None
    }
}

/// The LDAC mode of a wire code.
pub open spec fn ldac_mode_spec(v: u8) -> Option<LdacMode> {
    if v == 0x00 {
        Some(LdacMode::Off)
    } else if v == 0x01 {
        Some(LdacMode::Rate48k)
    } else if v == 0x02 {
        Some(LdacMode::Rate96k)
    } else {
        None
    }
}

/// A noise report whose raw volume byte, read as signed, is too low to take
/// the offset off without leaving the `i8` range; parsing such a report
/// would overflow, so `parse_notification` does not accept it.
pub open spec fn noise_volume_overflows(f: FrameView) -> bool {
    &&& f.head == RX_HEAD_BB
    &&& f.body.len() == 3
    &&& f.body[0] == 0xCC
    &&& noise_mode_spec(f.body[1]) is Some
    &&& (f.body[2] as i8) < -122
}

/// What `parse_notification` makes of a frame.
pub open spec fn notification_spec(f: FrameView) -> NotificationView {
    let b = f.body;
    let unknown = NotificationView::Unknown { head: f.head, body: b };
    if b.len() == 0 {
        unknown
    } else if f.head == RX_HEAD_CC {
        NotificationView::Ack { head: f.head, body: b }
    } else if f.head != RX_HEAD_BB {
        unknown
    } else if b[0] == 0xD5 && b.len() == 2 {
        match sound_effect_spec(b[1]) {
            Some(fx) => NotificationView::SoundEffect(fx),
            None => unknown,
        }
    } else if b[0] == 0x08 && b.len() == 2 {
        NotificationView::GameMode(b[1] == 0x01)
    } else if b[0] == 0xD0 && b.len() == 2 {
        NotificationView::Battery(b[1])
    } else if b[0] == 0x48 && b.len() == 2 {
        match ldac_mode_spec(b[1]) {
            Some(m) => NotificationView::Ldac(m),
            None => unknown,
        }
    } else if b[0] == 0x05 && b.len() == 2 {
        NotificationView::PromptVolume(b[1])
    } else if b[0] == 0xD3 && b.len() == 2 {
        NotificationView::ShutdownTimerEnabled(b[1] != 0x00)
    } else if b[0] == 0xD3 && b.len() == 3 {
        NotificationView::ShutdownTimer { minutes: b[2] }
    } else if b[0] == 0xD7 && b.len() == 2 {
        NotificationView::AutoPowerOff(b[1] == 0x01)
    } else if b[0] == 0xC8 && b.len() == 7 {
        NotificationView::Mac(b.subrange(1, 7))
    } else if b[0] == 0xC6 && b.len() == 4 {
        NotificationView::Firmware(b.subrange(1, 4))
    } else if b[0] == 0xCC && b.len() == 3 {
        match noise_mode_spec(b[1]) {
            Some(mode) => NotificationView::Noise {
                mode,
                ambient_volume: ((b[2] as i8) - AMBIENT_VOLUME_OFFSET) as i8,
            },
            None => unknown,
        }
    } else if b[0] == 0xC9 {
        NotificationView::Name(utf8_lossy(b.skip(1)))
    } else if b[0] == 0xF0 && b.len() == 3 && b[1] == 0x0A {
        NotificationView::ControlSettings(from_mask_spec(b[2]))
    } else {
        unknown
    }
}

fn copy_body(body: &Vec<u8>) -> (v: Vec<u8>)
    ensures
        v@ == body@,
{
    let mut v: Vec<u8> = Vec::with_capacity(body.len());
    let mut i: usize = 0;
    while i < body.len()
        invariant
            i <= body@.len(),
            v@ == body@.take(i as int),
        decreases body@.len() - i,
    {
        v.push(body[i]);
        i = i + 1;
        assert(v@ =~= body@.take(i as int));
    }
    assert(body@.take(i as int) =~= body@);
    v
}

fn unknown(frame: &IncomingFrame) -> (n: Notification)
    ensures
        n@ == (NotificationView::Unknown { head: frame.head, body: frame.body@ }),
{
    Notification::Unknown { head: frame.head, body: copy_body(&frame.body) }
}

/// Decodes a frame from the headset into a notification; what is not
/// understood comes back as `Unknown` (or `Ack` for 0xCC frames).
pub fn parse_notification(frame: &IncomingFrame) -> (n: Notification)
    requires
        !noise_volume_overflows(frame@),
    ensures
        n@ == notification_spec(frame@),
        ({
            let b = frame@.body;
            (frame@.head == RX_HEAD_BB && b.len() > 0 && b[0] == 0xC9 && valid_utf8(b.skip(1))) ==> n@
                == NotificationView::Name(decode_utf8(b.skip(1)))
        }),
{
    let head = frame.head;
    let body = &frame.body;
    let len = body.len();
    if len == 0 {
        return unknown(frame);
    }
    if frame.is_ack() {
        return Notification::Ack { head, body: copy_body(body) };
    }
    if !frame.is_response() {
        return unknown(frame);
    }
    let cmd = body[0];
    if cmd == 0xD5 && len == 2 {
        let v = body[1];
        if v == 0x00 {
            Notification::SoundEffect(SoundEffect::Normal)
        } else if v == 0x01 {
            Notification::SoundEffect(SoundEffect::Pop)
        } else if v == 0x02 {
            Notification::SoundEffect(SoundEffect::Classical)
        } else if v == 0x03 {
            Notification::SoundEffect(SoundEffect::Rock)
        } else {
            unknown(frame)
        }
    } else if cmd == 0x08 && len == 2 {
        Notification::GameMode(body[1] == 0x01)
    } else if cmd == 0xD0 && len == 2 {
        Notification::Battery(body[1])
    } else if cmd == 0x48 && len == 2 {
        let v = body[1];
        if v == 0x00 {
            Notification::Ldac(LdacMode::Off)
        } else if v == 0x01 {
            Notification::Ldac(LdacMode::Rate48k)
        } else if v == 0x02 {
            Notification::Ldac(LdacMode::Rate96k)
        } else {
            unknown(frame)
        }
    } else if cmd == 0x05 && len == 2 {
        Notification::PromptVolume(body[1])
    } else if cmd == 0xD3 && len == 2 {
        Notification::ShutdownTimerEnabled(body[1] != 0x00)
    } else if cmd == 0xD3 && len == 3 {
        Notification::ShutdownTimer { minutes: body[2] }
    } else if cmd == 0xD7 && len == 2 {
        Notification::AutoPowerOff(body[1] == 0x01)
    } else if cmd == 0xC8 && len == 7 {
        let mac: [u8; 6] = [body[1], body[2], body[3], body[4], body[5], body[6]];
        assert(mac@ =~= body@.subrange(1, 7));
        Notification::Mac(mac)
    } else if cmd == 0xC6 && len == 4 {
        let fw: [u8; 3] = [body[1], body[2], body[3]];
        assert(fw@ =~= body@.subrange(1, 4));
        Notification::Firmware(fw)
    } else if cmd == 0xCC && len == 3 {
        let v = body[1];
        let mode = if v == 0x01 {
            NoiseMode::Normal
        } else if v == 0x02 {
            NoiseMode::Reduction
        } else if v == 0x03 {
            NoiseMode::Ambient
        } else {
            return unknown(frame);
        };
        let raw = body[2] as i8;
        Notification::Noise { mode, ambient_volume: raw - AMBIENT_VOLUME_OFFSET }
    } else if cmd == 0xC9 {
        let rest = vstd::slice::slice_subrange(body.as_slice(), 1, len);
        assert(rest@ =~= body@.skip(1));
        Notification::Name(lossy_string(rest))
    } else if cmd == 0xF0 && len == 3 && body[1] == 0x0A {
        Notification::ControlSettings(ControlSettings::from_mask(body[2]))
    } else {
        unknown(frame)
    }
}

/// The answer a headset gives to a query: the query's first byte followed
/// by the setting's bytes as the matching set command writes them.
pub open spec fn answer_frame(query: Command, set: Command) -> FrameView {
    FrameView { head: RX_HEAD_BB, body: seq![body_spec(query)->Ok_0[0]] + body_spec(set)->Ok_0.skip(1) }
}

/// Law: a setting reads back as it was written. The answer to a query that
/// carries the bytes the matching set command encodes decodes to that same
/// setting: LDAC mode, sound effect, game mode, auto power off, prompt
/// volume, shutdown timer and control settings; a noise mode (with a
/// neutral ambient level) and an ambient volume come back as the noise
/// report of that mode and level.
pub proof fn law_reports_match_settings(
    l: LdacMode,
    fx: SoundEffect,
    on: bool,
    v: u8,
    minutes: u8,
    cs: ControlSettings,
    m: NoiseMode,
    vol: i8,
)
    requires
        -3 <= vol <= 3,
    ensures
        notification_spec(answer_frame(Command::QueryLdac, Command::SetLdac(l))) == NotificationView::Ldac(l),
        notification_spec(answer_frame(Command::QuerySoundEffect, Command::SetSoundEffect(fx)))
            == NotificationView::SoundEffect(fx),
        notification_spec(answer_frame(Command::QueryGameMode, Command::SetGameMode(on)))
            == NotificationView::GameMode(on),
        notification_spec(answer_frame(Command::QueryAutoPowerOff, Command::SetAutoPowerOff(on)))
            == NotificationView::AutoPowerOff(on),
        notification_spec(answer_frame(Command::QueryPromptVolume, Command::SetPromptVolume(v)))
            == NotificationView::PromptVolume(v),
        notification_spec(answer_frame(Command::QueryShutdownTimer, Command::SetShutdownTimer { minutes }))
            == (NotificationView::ShutdownTimer { minutes }),
        notification_spec(answer_frame(Command::QueryControlSettings, Command::SetControlSettings(cs)))
            == NotificationView::ControlSettings(cs),
        ({
            let f = answer_frame(Command::QueryNoise, Command::SetNoiseMode(m));
            notification_spec((FrameView { head: f.head, body: f.body + seq![6u8] }))
                == (NotificationView::Noise { mode: m, ambient_volume: 0 })
        }),
        notification_spec(answer_frame(Command::QueryNoise, Command::SetAmbientVolume(vol)))
            == (NotificationView::Noise { mode: NoiseMode::Ambient, ambient_volume: vol }),
{
    law_mask_roundtrip(cs);
    assert(answer_frame(Command::QueryLdac, Command::SetLdac(l)).body.len() == 2);
    assert(answer_frame(Command::QuerySoundEffect, Command::SetSoundEffect(fx)).body.len() == 2);
    assert(answer_frame(Command::QueryGameMode, Command::SetGameMode(on)).body.len() == 2);
    assert(answer_frame(Command::QueryAutoPowerOff, Command::SetAutoPowerOff(on)).body.len() == 2);
    assert(answer_frame(Command::QueryPromptVolume, Command::SetPromptVolume(v)).body.len() == 2);
    assert(answer_frame(Command::QueryShutdownTimer, Command::SetShutdownTimer { minutes }).body =~= seq![
        0xD3u8,
        0x00u8,
        minutes,
    ]);
    assert(answer_frame(Command::QueryControlSettings, Command::SetControlSettings(cs)).body =~= seq![
        0xF0u8,
        0x0Au8,
        mask_spec(cs),
    ]);
    let nf = answer_frame(Command::QueryNoise, Command::SetNoiseMode(m));
    assert(nf.body + seq![6u8] =~= seq![0xCCu8, nf.body[1], 6u8]);
    let ab = body_spec(Command::SetAmbientVolume(vol))->Ok_0;
    assert(answer_frame(Command::QueryNoise, Command::SetAmbientVolume(vol)).body =~= seq![0xCCu8, 0x03u8, ab[2]]);
    assert(ab[2] == 6 + vol);
    assert(((ab[2] as i8) - AMBIENT_VOLUME_OFFSET) as i8 == vol);
}

} // verus!
