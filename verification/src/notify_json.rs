use vstd::prelude::*;

use crate::command::{ControlSettings, LdacMode, NoiseMode, SoundEffect};
use crate::command_json::{effect_key, ldac_key, noise_key};
use crate::constants::{RX_HEAD_BB, TX_HEAD};
use crate::error::{protocol_message, ProtocolError};
use crate::mac::{colon_hex_spec, hex_pair, MacAddr};
use crate::notification::{
    noise_volume_overflows, notification_spec, parse_notification, Notification, NotificationView,
};
use crate::packet::{
    decode_stream, frame_result_view, parse_hex, parse_hex_spec, to_hex, verify_checksum,
    verify_checksum_spec, FrameDecoder, FrameView, IncomingFrame,
};
use crate::text::{hex_upper_spec, push_char, push_hex_upper};

verus! {

/// A notification as the JSON interface writes it (`kind` names the variant).
#[derive(Debug, Clone, PartialEq, Eq)]
pub enum NotifyJson {
    SoundEffect { effect: String },
    GameMode { on: bool },
    Battery { percent: u8 },
    Ldac { mode: String },
    PromptVolume { volume: u8 },
    ShutdownTimerEnabled { on: bool },
    ShutdownTimer { minutes: u8 },
    AutoPowerOff { on: bool },
    Mac { address: String },
    Firmware { version: String },
    Noise { mode: String, ambient_volume: i8 },
    Name { name: String },
    ControlSettings { normal: bool, reduction: bool, ambient: bool },
    Ack { head: u8, body: String },
    Unknown { head: u8, body: String },
}

/// Firmware version as three upper-case hex pairs joined by '.'.
pub open spec fn firmware_text(fw: Seq<u8>) -> Seq<char> {
    hex_pair(fw[0]) + seq!['.'] + hex_pair(fw[1]) + seq!['.'] + hex_pair(fw[2])
}

/// Whether `j` is the JSON that `from_notification` writes for `n`.
pub open spec fn notify_of(n: NotificationView, j: NotifyJson) -> bool {
    match (n, j) {
        (NotificationView::SoundEffect(fx), NotifyJson::SoundEffect { effect }) => effect@ == effect_key(fx),
        (NotificationView::GameMode(a), NotifyJson::GameMode { on }) => on == a,
        (NotificationView::Battery(p), NotifyJson::Battery { percent }) => percent == p,
        (NotificationView::Ldac(m), NotifyJson::Ldac { mode }) => mode@ == ldac_key(m),
        (NotificationView::PromptVolume(v), NotifyJson::PromptVolume { volume }) => volume == v,
        (NotificationView::ShutdownTimerEnabled(a), NotifyJson::ShutdownTimerEnabled { on }) => on == a,
        (NotificationView::ShutdownTimer { minutes: a }, NotifyJson::ShutdownTimer { minutes: b }) => a == b,
        (NotificationView::AutoPowerOff(a), NotifyJson::AutoPowerOff { on }) => on == a,
        (NotificationView::Mac(m), NotifyJson::Mac { address }) => address@ == colon_hex_spec(m),
        (NotificationView::Firmware(fw), NotifyJson::Firmware { version }) => version@ == firmware_text(fw),
        (NotificationView::Noise { mode: m, ambient_volume: a }, NotifyJson::Noise { mode, ambient_volume }) => mode@
            == noise_key(m) && ambient_volume == a,
        (NotificationView::Name(s), NotifyJson::Name { name }) => name@ == s,
        (NotificationView::ControlSettings(cs), NotifyJson::ControlSettings { normal, reduction, ambient }) => normal
            == cs.normal && reduction == cs.reduction && ambient == cs.ambient,
        (NotificationView::Ack { head: h, body: b }, NotifyJson::Ack { head, body }) => head == h && body@
            == hex_upper_spec(b),
        (NotificationView::Unknown { head: h, body: b }, NotifyJson::Unknown { head, body }) => head == h && body@
            == hex_upper_spec(b),
        _ => false,
    }
}

fn noise_text(m: NoiseMode) -> (s: String)
    ensures
        s@ == noise_key(m),
{
    match m {
        NoiseMode::Normal => "normal".to_owned(),
        NoiseMode::Reduction => "reduction".to_owned(),
        NoiseMode::Ambient => "ambient".to_owned(),
    }
}

fn effect_text(fx: SoundEffect) -> (s: String)
    ensures
        s@ == effect_key(fx),
{
    match fx {
        SoundEffect::Normal => "normal".to_owned(),
        SoundEffect::Pop => "pop".to_owned(),
        SoundEffect::Classical => "classical".to_owned(),
        SoundEffect::Rock => "rock".to_owned(),
    }
}

fn ldac_text(m: LdacMode) -> (s: String)
    ensures
        s@ == ldac_key(m),
{
    match m {
        LdacMode::Off => "off".to_owned(),
        LdacMode::Rate48k => "rate48k".to_owned(),
        LdacMode::Rate96k => "rate96k".to_owned(),
    }
}

fn firmware_string(fw: &[u8; 3]) -> (s: String)
    ensures
        s@ == firmware_text(fw@),
{
    let mut s = String::new();
    push_hex_upper(&mut s, fw[0]);
    push_char(&mut s, '.');
    push_hex_upper(&mut s, fw[1]);
    push_char(&mut s, '.');
    push_hex_upper(&mut s, fw[2]);
    assert(s@ =~= firmware_text(fw@));
    s
}

impl NotifyJson {
    /// The JSON form of a notification.
    pub fn from_notification(n: &Notification) -> (j: Self)
        ensures
            notify_of(n@, j),
    {
        match n {
            Notification::SoundEffect(fx) => NotifyJson::SoundEffect { effect: effect_text(*fx) },
            Notification::GameMode(on) => NotifyJson::GameMode { on: *on },
            Notification::Battery(p) => NotifyJson::Battery { percent: *p },
            Notification::Ldac(mode) => NotifyJson::Ldac { mode: ldac_text(*mode) },
            Notification::PromptVolume(v) => NotifyJson::PromptVolume { volume: *v },
            Notification::ShutdownTimerEnabled(on) => NotifyJson::ShutdownTimerEnabled { on: *on },
            Notification::ShutdownTimer { minutes } => NotifyJson::ShutdownTimer { minutes: *minutes },
            Notification::AutoPowerOff(on) => NotifyJson::AutoPowerOff { on: *on },
            Notification::Mac(mac) => NotifyJson::Mac { address: MacAddr(*mac).to_colon_string() },
            Notification::Firmware(fw) => NotifyJson::Firmware { version: firmware_string(fw) },
            Notification::Noise { mode, ambient_volume } => NotifyJson::Noise {
                mode: noise_text(*mode),
                ambient_volume: *ambient_volume,
            },
            Notification::Name(name) => NotifyJson::Name { name: name.clone() },
            Notification::ControlSettings(cs) => NotifyJson::ControlSettings {
                normal: cs.normal,
                reduction: cs.reduction,
                ambient: cs.ambient,
            },
            Notification::Ack { head, body } => NotifyJson::Ack { head: *head, body: to_hex(body.as_slice()) },
            Notification::Unknown { head, body } => NotifyJson::Unknown {
                head: *head,
                body: to_hex(body.as_slice()),
            },
        }
    }
}

/// A frame decoded for the JSON interface: direction ("tx" or "rx"), head,
/// body as hex, and for received frames the notification.
#[derive(Debug, Clone, PartialEq, Eq)]
pub struct ParsedFrame {
    pub dir: &'static str,
    pub head: u8,
    pub body: String,
    pub notification: Option<NotifyJson>,
}

/// Whether `p` describes the received frame `f`.
pub open spec fn parsed_rx(f: FrameView, p: ParsedFrame) -> bool {
    &&& p.dir@ == "rx"@
    &&& p.head == f.head
    &&& p.body@ == hex_upper_spec(f.body)
    &&& p.notification matches Some(j) && notify_of(notification_spec(f), j)
}

/// Describes a received frame.
pub fn parsed_incoming(frame: &IncomingFrame) -> (p: ParsedFrame)
    requires
        !noise_volume_overflows(frame@),
    ensures
        parsed_rx(frame@, p),
{
    let note = parse_notification(frame);
    ParsedFrame {
        dir: "rx",
        head: frame.head,
        body: to_hex(frame.body.as_slice()),
        notification: Some(NotifyJson::from_notification(&note)),
    }
}

/// Message returned when the input holds no complete frame.
pub open spec fn incomplete_frame_message() -> Seq<char> {
    "帧不完整"@
}

/// Whether the first decoding result is a frame on which notification
/// parsing would abort (see `noise_volume_overflows`).
pub open spec fn first_frame_overflows(raw: Seq<u8>) -> bool {
    let rs = decode_stream(raw).0;
    rs.len() > 0 && (rs[0] matches Ok(f) && noise_volume_overflows(f))
}

/// What `parse_frame_hex` returns for a hex string, as: `Err` message, or
/// `Ok` with the direction, head, body hex and, for received frames, the
/// frame the notification is read from.
pub open spec fn parse_frame_outcome(input: Seq<char>, r: Result<ParsedFrame, String>) -> bool {
    match parse_hex_spec(input) {
        Err(e) => r matches Err(m) && m@ == protocol_message(e),
        Ok(raw) => if raw.len() > 0 && raw[0] == TX_HEAD {
            match verify_checksum_spec(raw) {
                Err(e) => r matches Err(m) && m@ == protocol_message(e),
                Ok(_) => r matches Ok(p) && p.dir@ == "tx"@ && p.head == TX_HEAD && p.notification is None
                    && p.body@ == (if raw.len() - 2 >= 2 {
                    hex_upper_spec(raw.subrange(2, raw.len() - 2))
                } else {
                    Seq::<char>::empty()
                }),
            }
        } else {
            let rs = decode_stream(raw).0;
            if rs.len() == 0 {
                r matches Err(m) && m@ == incomplete_frame_message()
            } else {
                match rs[0] {
                    Err(e) => r matches Err(m) && m@ == protocol_message(e),
                    Ok(f) => r matches Ok(p) && parsed_rx(f, p),
                }
            }
        },
    }
}

/// Decodes one frame written as hex: a host frame (head 0xAA) is checked and
/// its body shown; anything else goes through the frame decoder and the
/// first result is shown with its notification.
pub fn parse_frame_hex(frame_hex: &str) -> (r: Result<ParsedFrame, String>)
    requires
        parse_hex_spec(frame_hex@) matches Ok(raw) ==> !(raw.len() > 0 && raw[0] == TX_HEAD) ==> !first_frame_overflows(
            raw,
        ),
    ensures
        parse_frame_outcome(frame_hex@, r),
{
    let raw = match parse_hex(frame_hex) {
        Ok(b) => b,
        Err(e) => return Err(e.message()),
    };
    if raw.len() > 0 && raw[0] == TX_HEAD {
        if let Err(e) = verify_checksum(raw.as_slice()) {
            return Err(e.message());
        }
        let end = raw.len() - 2;
        let body = if end >= 2 {
            let inner = vstd::slice::slice_subrange(raw.as_slice(), 2, end);
            to_hex(inner)
        } else {
            String::new()
        };
        return Ok(ParsedFrame { dir: "tx", head: TX_HEAD, body, notification: None });
    }
    let mut dec = FrameDecoder::new();
    let frames = dec.push(raw.as_slice());
    assert(Seq::<u8>::empty() + raw@ =~= raw@);
    if frames.len() == 0 {
        return Err("帧不完整".to_owned());
    }
    let ghost first = frames@[0];
    assert(frame_result_view(first) == decode_stream(raw@).0[0]);
    match &frames[0] {
        Ok(frame) => Ok(parsed_incoming(frame)),
        Err(e) => Err(e.message()),
    }
}

/// Index of the first error among decoding results, if any.
pub open spec fn first_error(rs: Seq<Result<FrameView, ProtocolError>>) -> Option<int> {
    if exists|i: int| 0 <= i < rs.len() && rs[i] is Err {
        Some(choose|i: int| 0 <= i < rs.len() && rs[i] is Err && forall|k: int| 0 <= k < i ==> rs[k] is Ok)
    } else {
        None
    }
}

/// Frames decoded before the first error, on which notification parsing
/// would abort (see `noise_volume_overflows`).
pub open spec fn overflow_before_error(rs: Seq<Result<FrameView, ProtocolError>>) -> bool {
    exists|i: int|
        0 <= i < rs.len() && (forall|k: int| 0 <= k < i ==> rs[k] is Ok) && (#[trigger] rs[i] matches Ok(f)
            && noise_volume_overflows(f))
}

/// Feeds hex text to a decoder and describes every frame it completes; the
/// first decoding error, or hex that does not parse, is returned as its
/// message instead (the decoder keeps what it consumed).
pub fn decoder_push_hex(decoder: &mut FrameDecoder, hex: &str) -> (r: Result<Vec<ParsedFrame>, String>)
    requires
        parse_hex_spec(hex@) matches Ok(raw) ==> !overflow_before_error(decode_stream(old(decoder)@ + raw).0),
    ensures
        match parse_hex_spec(hex@) {
            Err(e) => final(decoder)@ == old(decoder)@ && (r matches Err(m) && m@ == protocol_message(e)),
            Ok(raw) => {
                let d = decode_stream(old(decoder)@ + raw);
                &&& final(decoder)@ == d.1
                &&& match first_error(d.0) {
                    Some(i) => (d.0[i] matches Err(e) && (r matches Err(m) && m@ == protocol_message(e))),
                    None => r matches Ok(v) && v@.len() == d.0.len() && forall|i: int|
                        0 <= i < v@.len() ==> (d.0[i] matches Ok(f) && parsed_rx(f, #[trigger] v@[i])),
                }
            },
        },
{
    let raw = match parse_hex(hex) {
        Ok(b) => b,
        Err(e) => return Err(e.message()),
    };
    let ghost d = decode_stream(old(decoder)@ + raw@);
    let items = decoder.push(raw.as_slice());
    assert(items@.len() == d.0.len() && forall|k: int|
        0 <= k < d.0.len() ==> frame_result_view(#[trigger] items@[k]) == d.0[k]) by {
        assert(items@.map_values(|r: Result<IncomingFrame, ProtocolError>| frame_result_view(r)).len()
            == items@.len());
        assert forall|k: int| 0 <= k < d.0.len() implies frame_result_view(#[trigger] items@[k]) == d.0[k] by {
            assert(items@.map_values(|r: Result<IncomingFrame, ProtocolError>| frame_result_view(r))[k]
                == frame_result_view(items@[k]));
        }
    }
    let mut out: Vec<ParsedFrame> = Vec::new();
    let mut i: usize = 0;
    while i < items.len()
        invariant
            i <= items@.len(),
            decoder@ == d.1,
            d == decode_stream(old(decoder)@ + raw@),
            parse_hex_spec(hex@) == Ok::<Seq<u8>, ProtocolError>(raw@),
            items@.len() == d.0.len(),
            forall|k: int| 0 <= k < d.0.len() ==> frame_result_view(#[trigger] items@[k]) == d.0[k],
            !overflow_before_error(d.0),
            out@.len() == i,
            forall|k: int| 0 <= k < i ==> d.0[k] is Ok,
            forall|k: int| 0 <= k < i ==> (d.0[k] matches Ok(f) && parsed_rx(f, #[trigger] out@[k])),
        decreases items@.len() - i,
    {
        assert(frame_result_view(items@[i as int]) == d.0[i as int]);
        match &items[i] {
            Ok(frame) => {
                let p = parsed_incoming(frame);
                out.push(p);
            },
            Err(e) => {
                assert(d.0[i as int] == Err::<FrameView, ProtocolError>(*e));
                assert(first_error(d.0) == Some(i as int)) by {
                    assert(0 <= i < d.0.len() && d.0[i as int] is Err && forall|k: int|
                        0 <= k < i ==> d.0[k] is Ok);
                    let j = choose|j: int|
                        0 <= j < d.0.len() && d.0[j] is Err && forall|k: int| 0 <= k < j ==> d.0[k] is Ok;
                    assert(d.0[i as int] is Err);
                    if j < i {
                        assert(d.0[j] is Ok);
                    } else if j > i {
                        assert(d.0[i as int] is Ok);
                    }
                }
                return Err(e.message());
            },
        }
        i = i + 1;
    }
    assert(first_error(d.0) is None);
    Ok(out)
}

/// Law: the JSON form of a notification carries its values unchanged: each
/// flag keeps its truth value, each number its value, and the control
/// settings their three switches.
pub proof fn law_notify_json_keeps_values(n: NotificationView, j: NotifyJson)
    requires
        notify_of(n, j),
    ensures
        n matches NotificationView::GameMode(b) ==> j == (NotifyJson::GameMode { on: b }),
        n matches NotificationView::AutoPowerOff(b) ==> j == (NotifyJson::AutoPowerOff { on: b }),
        n matches NotificationView::ShutdownTimerEnabled(b) ==> j == (NotifyJson::ShutdownTimerEnabled { on: b }),
        n matches NotificationView::Battery(p) ==> j == (NotifyJson::Battery { percent: p }),
        n matches NotificationView::PromptVolume(v) ==> j == (NotifyJson::PromptVolume { volume: v }),
        n matches NotificationView::ShutdownTimer { minutes: t } ==> j == (NotifyJson::ShutdownTimer { minutes: t }),
        n matches NotificationView::Noise { ambient_volume: v, .. } ==> (j matches NotifyJson::Noise {
            ambient_volume: a,
            ..
        } && a == v),
        n matches NotificationView::ControlSettings(cs) ==> j == (NotifyJson::ControlSettings {
            normal: cs.normal,
            reduction: cs.reduction,
            ambient: cs.ambient,
        }),
{
}

/// Law: a game-mode report reaches the JSON interface as "on" exactly when
/// its state byte is 0x01.
pub proof fn law_game_mode_report_json(state: u8, j: NotifyJson)
    requires
        notify_of(notification_spec((FrameView { head: RX_HEAD_BB, body: seq![0x08u8, state] })), j),
    ensures
        j == (NotifyJson::GameMode { on: state == 0x01 }),
{
}

} // verus!
