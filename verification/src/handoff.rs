use vstd::prelude::*;

use crate::constants::AUDIO_CONNECT_GAP_MS;
use crate::mac::{colon_hex_spec, law_mac_roundtrip, parse_mac_spec, MacAddr};
use crate::message::{
    law_nonce_roundtrip, nonce_to_hex, parse_nonce, parse_nonce_spec, GroupMessage, MessageView, Nonce,
};
use crate::text::hex_lower_spec;

verus! {

/// Time a holder gets to release the audio, in milliseconds.
pub const HANDOFF_DEADLINE_MS: u64 = 2000;

/// Where a host stands in a handoff.
#[derive(Debug, Clone, Copy, PartialEq, Eq)]
pub enum Phase {
    /// No handoff in progress.
    Idle,
    /// Requested the audio; waiting for the holder to release it.
    WaitingRelease { nonce: Nonce, headphone: MacAddr, deadline_ms: u64 },
    /// The holder did not answer; sent the headset a disconnect and waits
    /// before connecting.
    WaitingFallbackGap { nonce: Nonce, headphone: MacAddr, ready_ms: u64 },
    /// Connecting the audio to this host.
    ConnectingAudio { nonce: Nonce, headphone: MacAddr },
    /// Holding the audio and releasing it for a requester.
    Releasing { nonce: Nonce, headphone: MacAddr, deadline_ms: u64 },
}

/// What a handoff reports to the user.
#[derive(Debug, Clone, PartialEq, Eq)]
pub enum HandoffProgress {
    Requesting,
    WaitingPeer,
    Releasing,
    Connecting,
    FallbackCd,
    Done,
    Failed(String),
    Busy,
}

/// Work the host must do for the state machine.
#[derive(Debug, Clone, PartialEq, Eq)]
pub enum Action {
    Send(GroupMessage),
    ConnectAudio(MacAddr),
    DisconnectAudio(MacAddr),
    SuppressAutoreconnect { mac: MacAddr, suppress: bool },
    SendHeadsetDisconnect,
    Report(HandoffProgress),
}

/// The mathematical value of a phase: nonce and headphone as byte sequences.
pub enum PhaseView {
    Idle,
    WaitingRelease { nonce: Seq<u8>, headphone: Seq<u8>, deadline_ms: u64 },
    WaitingFallbackGap { nonce: Seq<u8>, headphone: Seq<u8>, ready_ms: u64 },
    ConnectingAudio { nonce: Seq<u8>, headphone: Seq<u8> },
    Releasing { nonce: Seq<u8>, headphone: Seq<u8>, deadline_ms: u64 },
}

impl View for Phase {
    type V = PhaseView;

    open spec fn view(&self) -> PhaseView {
        match *self {
            Phase::Idle => PhaseView::Idle,
            Phase::WaitingRelease { nonce, headphone, deadline_ms } => PhaseView::WaitingRelease {
                nonce: nonce@,
                headphone: headphone.0@,
                deadline_ms,
            },
            Phase::WaitingFallbackGap { nonce, headphone, ready_ms } => PhaseView::WaitingFallbackGap {
                nonce: nonce@,
                headphone: headphone.0@,
                ready_ms,
            },
            Phase::ConnectingAudio { nonce, headphone } => PhaseView::ConnectingAudio {
                nonce: nonce@,
                headphone: headphone.0@,
            },
            Phase::Releasing { nonce, headphone, deadline_ms } => PhaseView::Releasing {
                nonce: nonce@,
                headphone: headphone.0@,
                deadline_ms,
            },
        }
    }
}

/// The mathematical value of a progress report.
pub enum ProgressView {
    Requesting,
    WaitingPeer,
    Releasing,
    Connecting,
    FallbackCd,
    Done,
    Failed(Seq<char>),
    Busy,
}

impl View for HandoffProgress {
    type V = ProgressView;

    open spec fn view(&self) -> ProgressView {
        match *self {
            HandoffProgress::Requesting => ProgressView::Requesting,
            HandoffProgress::WaitingPeer => ProgressView::WaitingPeer,
            HandoffProgress::Releasing => ProgressView::Releasing,
            HandoffProgress::Connecting => ProgressView::Connecting,
            HandoffProgress::FallbackCd => ProgressView::FallbackCd,
            HandoffProgress::Done => ProgressView::Done,
            HandoffProgress::Failed(r) => ProgressView::Failed(r@),
            HandoffProgress::Busy => ProgressView::Busy,
        }
    }
}

/// The mathematical value of an action.
pub enum ActionView {
    Send(MessageView),
    ConnectAudio(Seq<u8>),
    DisconnectAudio(Seq<u8>),
    SuppressAutoreconnect { mac: Seq<u8>, suppress: bool },
    SendHeadsetDisconnect,
    Report(ProgressView),
}

impl View for Action {
    type V = ActionView;

    open spec fn view(&self) -> ActionView {
        match *self {
            Action::Send(m) => ActionView::Send(m@),
            Action::ConnectAudio(mac) => ActionView::ConnectAudio(mac.0@),
            Action::DisconnectAudio(mac) => ActionView::DisconnectAudio(mac.0@),
            Action::SuppressAutoreconnect { mac, suppress } => ActionView::SuppressAutoreconnect {
                mac: mac.0@,
                suppress,
            },
            Action::SendHeadsetDisconnect => ActionView::SendHeadsetDisconnect,
            Action::Report(p) => ActionView::Report(p@),
        }
    }
}

/// The values of a list of actions.
pub open spec fn actions_view(actions: Seq<Action>) -> Seq<ActionView> {
    actions.map_values(|a: Action| a@)
}

/// The audio handoff state machine of one host.
#[derive(Debug, Clone)]
pub struct HandoffMachine {
    pub local_id: String,
    /// This host currently plays the headphone's audio.
    pub has_audio: bool,
    /// This host can send commands to the headset (needed for the fallback).
    pub can_control_headset: bool,
    phase: Phase,
}

/// The mathematical value of a handoff machine.
pub struct MachineView {
    pub local_id: Seq<char>,
    pub has_audio: bool,
    pub can_control_headset: bool,
    pub phase: PhaseView,
}

impl View for HandoffMachine {
    type V = MachineView;

    closed spec fn view(&self) -> MachineView {
        MachineView {
            local_id: self.local_id@,
            has_audio: self.has_audio,
            can_control_headset: self.can_control_headset,
            phase: self.phase@,
        }
    }
}

/// The nonce of the handoff in progress, if any.
pub open spec fn phase_nonce(p: PhaseView) -> Option<Seq<u8>> {
    match p {
        PhaseView::Idle => None,
        PhaseView::WaitingRelease { nonce, .. } => Some(nonce),
        PhaseView::WaitingFallbackGap { nonce, .. } => Some(nonce),
        PhaseView::ConnectingAudio { nonce, .. } => Some(nonce),
        PhaseView::Releasing { nonce, .. } => Some(nonce),
    }
}

/// The headphone of the handoff in progress, if any.
pub open spec fn phase_headphone(p: PhaseView) -> Option<Seq<u8>> {
    match p {
        PhaseView::Idle => None,
        PhaseView::WaitingRelease { headphone, .. } => Some(headphone),
        PhaseView::WaitingFallbackGap { headphone, .. } => Some(headphone),
        PhaseView::ConnectingAudio { headphone, .. } => Some(headphone),
        PhaseView::Releasing { headphone, .. } => Some(headphone),
    }
}

/// A message belongs to the handoff in progress: its nonce text reads as
/// the current nonce.
pub open spec fn nonce_matches_spec(p: PhaseView, nonce_hex: Seq<char>) -> bool {
    match phase_nonce(p) {
        None => false,
        Some(n) => parse_nonce_spec(nonce_hex) == Some(n),
    }
}

/// The machine with another phase.
pub open spec fn with_phase(m: MachineView, p: PhaseView) -> MachineView {
    MachineView { phase: p, ..m }
}

/// Step result: the next machine and the actions to perform.
pub type Step = (MachineView, Seq<ActionView>);

/// `claim`: start requesting the audio of `headphone` with `nonce`.
pub open spec fn claim_spec(m: MachineView, headphone: Seq<u8>, nonce: Seq<u8>, now_ms: u64) -> Step {
    if m.phase !is Idle {
        (m, seq![ActionView::Report(ProgressView::Busy)])
    } else {
        let deadline_ms = (now_ms + HANDOFF_DEADLINE_MS) as u64;
        (
            with_phase(m, PhaseView::WaitingRelease { nonce, headphone, deadline_ms }),
            seq![
                ActionView::Report(ProgressView::Requesting),
                ActionView::Send(
                    MessageView::HandoffRequest {
                        headphone: colon_hex_spec(headphone),
                        nonce: hex_lower_spec(nonce),
                        deadline_ms,
                    },
                ),
            ],
        )
    }
}

/// A request from a peer for the audio this host may hold.
pub open spec fn on_request_spec(
    m: MachineView,
    headphone: Seq<char>,
    nonce_hex: Seq<char>,
    deadline_ms: u64,
    now_ms: u64,
) -> Step {
    match parse_mac_spec(headphone) {
        None => (m, Seq::empty()),
        Some(mac) => match parse_nonce_spec(nonce_hex) {
            None => (m, Seq::empty()),
            Some(nonce) => if m.phase !is Idle {
                (m, seq![ActionView::Send(MessageView::HandoffBusy { nonce: nonce_hex })])
            } else if !m.has_audio {
                (m, seq![ActionView::Send(MessageView::HandoffNoAudio { nonce: nonce_hex })])
            } else {
                let until = (now_ms + HANDOFF_DEADLINE_MS) as u64;
                let d = if deadline_ms >= until { deadline_ms } else { until };
                (
                    with_phase(m, PhaseView::Releasing { nonce, headphone: mac, deadline_ms: d }),
                    seq![
                        ActionView::Send(MessageView::HandoffHasAudio { nonce: nonce_hex }),
                        ActionView::Report(ProgressView::Releasing),
                        ActionView::SuppressAutoreconnect { mac, suppress: true },
                        ActionView::DisconnectAudio(mac),
                    ],
                )
            },
        },
    }
}

/// Switch to connecting the audio of the handoff in progress.
pub open spec fn connect_now(m: MachineView, nonce: Seq<u8>, headphone: Seq<u8>) -> Step {
    (
        with_phase(m, PhaseView::ConnectingAudio { nonce, headphone }),
        seq![ActionView::Report(ProgressView::Connecting), ActionView::ConnectAudio(headphone)],
    )
}

/// `on_message`: react to a message from a peer.
pub open spec fn on_message_spec(m: MachineView, msg: MessageView, now_ms: u64) -> Step {
    let nothing = (m, Seq::<ActionView>::empty());
    match msg {
        MessageView::HandoffRequest { headphone, nonce, deadline_ms } => on_request_spec(
            m,
            headphone,
            nonce,
            deadline_ms,
            now_ms,
        ),
        MessageView::HandoffHasAudio { nonce } => if !nonce_matches_spec(m.phase, nonce) {
            nothing
        } else if m.phase is WaitingRelease {
            (m, seq![ActionView::Report(ProgressView::WaitingPeer)])
        } else {
            nothing
        },
        MessageView::HandoffNoAudio { nonce } | MessageView::HandoffReleased { nonce } => if !nonce_matches_spec(
            m.phase,
            nonce,
        ) {
            nothing
        } else {
            match m.phase {
                PhaseView::WaitingRelease { nonce, headphone, .. } => connect_now(m, nonce, headphone),
                _ => nothing,
            }
        },
        MessageView::HandoffTaken { nonce } => if !nonce_matches_spec(m.phase, nonce) {
            nothing
        } else if m.phase is Releasing {
            (
                MachineView { phase: PhaseView::Idle, has_audio: false, ..m },
                seq![ActionView::Report(ProgressView::Done)],
            )
        } else {
            nothing
        },
        MessageView::HandoffAbort { nonce, reason } => if !nonce_matches_spec(m.phase, nonce) {
            nothing
        } else {
            let report = seq![ActionView::Report(ProgressView::Failed(reason))];
            (
                with_phase(m, PhaseView::Idle),
                match phase_headphone(m.phase) {
                    Some(h) => report.push(ActionView::SuppressAutoreconnect { mac: h, suppress: false }),
                    None => report,
                },
            )
        },
        MessageView::HandoffBusy { nonce } => if !nonce_matches_spec(m.phase, nonce) {
            nothing
        } else {
            (with_phase(m, PhaseView::Idle), seq![ActionView::Report(ProgressView::Busy)])
        },
        MessageView::Announce { .. } => nothing,
    }
}

/// `on_audio_disconnected`: the local audio link went down.
pub open spec fn on_audio_disconnected_spec(m: MachineView) -> Step {
    match m.phase {
        PhaseView::Releasing { nonce, .. } => (
            MachineView { has_audio: false, ..m },
            seq![ActionView::Send(MessageView::HandoffReleased { nonce: hex_lower_spec(nonce) })],
        ),
        _ => (m, Seq::empty()),
    }
}

/// `on_audio_connected`: the local audio link came up.
pub open spec fn on_audio_connected_spec(m: MachineView) -> Step {
    match m.phase {
        PhaseView::ConnectingAudio { nonce, .. } => (
            MachineView { phase: PhaseView::Idle, has_audio: true, ..m },
            seq![
                ActionView::Send(MessageView::HandoffTaken { nonce: hex_lower_spec(nonce) }),
                ActionView::Report(ProgressView::Done),
            ],
        ),
        _ => (m, Seq::empty()),
    }
}

/// `on_audio_failed`: connecting or waiting for the audio failed.
pub open spec fn on_audio_failed_spec(m: MachineView, reason: Seq<char>) -> Step {
    match m.phase {
        PhaseView::ConnectingAudio { nonce, headphone }
        | PhaseView::WaitingFallbackGap { nonce, headphone, .. }
        | PhaseView::WaitingRelease { nonce, headphone, .. } => (
            with_phase(m, PhaseView::Idle),
            seq![
                ActionView::Send(MessageView::HandoffAbort { nonce: hex_lower_spec(nonce), reason }),
                ActionView::SuppressAutoreconnect { mac: headphone, suppress: false },
                ActionView::Report(ProgressView::Failed(reason)),
            ],
        ),
        _ => (m, Seq::empty()),
    }
}

/// Reason reported when the holder did not release and this host cannot
/// fall back.
pub open spec fn no_fallback_reason() -> Seq<char> {
    "对端未释放且本机无法控制耳机"@
}

/// Reason reported when releasing the audio took too long.
pub open spec fn release_timeout_reason() -> Seq<char> {
    "释放音频超时"@
}

/// `tick`: let deadlines that have passed take effect.
pub open spec fn tick_spec(m: MachineView, now_ms: u64) -> Step {
    match m.phase {
        PhaseView::WaitingRelease { nonce, headphone, deadline_ms } if now_ms >= deadline_ms => if m.can_control_headset {
            (
                with_phase(
                    m,
                    PhaseView::WaitingFallbackGap {
                        nonce,
                        headphone,
                        ready_ms: (now_ms + AUDIO_CONNECT_GAP_MS) as u64,
                    },
                ),
                seq![ActionView::Report(ProgressView::FallbackCd), ActionView::SendHeadsetDisconnect],
            )
        } else {
            (with_phase(m, PhaseView::Idle), seq![ActionView::Report(ProgressView::Failed(no_fallback_reason()))])
        },
        PhaseView::WaitingFallbackGap { nonce, headphone, ready_ms } if now_ms >= ready_ms => connect_now(
            m,
            nonce,
            headphone,
        ),
        PhaseView::Releasing { headphone, deadline_ms, .. } if now_ms >= deadline_ms => (
            with_phase(m, PhaseView::Idle),
            seq![
                ActionView::SuppressAutoreconnect { mac: headphone, suppress: false },
                ActionView::Report(ProgressView::Failed(release_timeout_reason())),
            ],
        ),
        _ => (m, Seq::empty()),
    }
}

/// A claim computes its deadline as `now_ms` plus the handoff deadline in
/// `u64`; these are the inputs on which that sum would overflow.
pub open spec fn claim_overflows(m: MachineView, now_ms: u64) -> bool {
    m.phase is Idle && now_ms + HANDOFF_DEADLINE_MS > u64::MAX
}

/// See `claim_overflows`, for a peer's request.
pub open spec fn message_overflows(m: MachineView, msg: MessageView, now_ms: u64) -> bool {
    match msg {
        MessageView::HandoffRequest { headphone, nonce, .. } => parse_mac_spec(headphone) is Some
            && parse_nonce_spec(nonce) is Some && m.phase is Idle && m.has_audio && now_ms
            + HANDOFF_DEADLINE_MS > u64::MAX,
        _ => false,
    }
}

/// See `claim_overflows`, for the fallback gap.
pub open spec fn tick_overflows(m: MachineView, now_ms: u64) -> bool {
    match m.phase {
        PhaseView::WaitingRelease { deadline_ms, .. } => now_ms >= deadline_ms && m.can_control_headset
            && now_ms + AUDIO_CONNECT_GAP_MS > u64::MAX,
        _ => false,
    }
}

fn vec1(a: Action) -> (v: Vec<Action>)
    ensures
        actions_view(v@) == seq![a@],
{
    let mut v: Vec<Action> = Vec::new();
    v.push(a);
    assert(actions_view(v@) =~= seq![a@]);
    v
}

fn vec2(a: Action, b: Action) -> (v: Vec<Action>)
    ensures
        actions_view(v@) == seq![a@, b@],
{
    let mut v: Vec<Action> = Vec::new();
    v.push(a);
    v.push(b);
    assert(actions_view(v@) =~= seq![a@, b@]);
    v
}

fn vec3(a: Action, b: Action, c: Action) -> (v: Vec<Action>)
    ensures
        actions_view(v@) == seq![a@, b@, c@],
{
    let mut v: Vec<Action> = Vec::new();
    v.push(a);
    v.push(b);
    v.push(c);
    assert(actions_view(v@) =~= seq![a@, b@, c@]);
    v
}

fn vec4(a: Action, b: Action, c: Action, d: Action) -> (v: Vec<Action>)
    ensures
        actions_view(v@) == seq![a@, b@, c@, d@],
{
    let mut v: Vec<Action> = Vec::new();
    v.push(a);
    v.push(b);
    v.push(c);
    v.push(d);
    assert(actions_view(v@) =~= seq![a@, b@, c@, d@]);
    v
}

fn no_actions() -> (v: Vec<Action>)
    ensures
        actions_view(v@) == Seq::<ActionView>::empty(),
{
    let v: Vec<Action> = Vec::new();
    assert(actions_view(v@) =~= Seq::<ActionView>::empty());
    v
}

impl HandoffMachine {
    /// A machine for the host `local_id`: idle, holding no audio, unable to
    /// control the headset.
    pub fn new(local_id: &str) -> (m: Self)
        ensures
            m@ == (MachineView {
                local_id: local_id@,
                has_audio: false,
                can_control_headset: false,
                phase: PhaseView::Idle,
            }),
    {
        HandoffMachine { local_id: local_id.to_owned(), has_audio: false, can_control_headset: false, phase: Phase::Idle }
    }

    /// The id of this host.
    pub fn local_id(&self) -> (id: &str)
        ensures
            id@ == self@.local_id,
    {
        self.local_id.as_str()
    }

    /// Whether this host plays the headphone's audio.
    pub fn has_audio(&self) -> (r: bool)
        ensures
            r == self@.has_audio,
    {
        self.has_audio
    }

    /// Whether this host can send commands to the headset.
    pub fn can_control_headset(&self) -> (r: bool)
        ensures
            r == self@.can_control_headset,
    {
        self.can_control_headset
    }

    /// Records whether this host plays the headphone's audio.
    pub fn set_has_audio(&mut self, has_audio: bool)
        ensures
            final(self)@ == (MachineView { has_audio, ..old(self)@ }),
    {
        self.has_audio = has_audio;
    }

    /// Records whether this host can send commands to the headset.
    pub fn set_can_control_headset(&mut self, can_control_headset: bool)
        ensures
            final(self)@ == (MachineView { can_control_headset, ..old(self)@ }),
    {
        self.can_control_headset = can_control_headset;
    }

    /// The current phase.
    pub fn phase(&self) -> (p: Phase)
        ensures
            p@ == self@.phase,
    {
        self.phase
    }

    /// Starts requesting the audio of `headphone`; a host already in a
    /// handoff only reports `Busy`.
    pub fn claim(&mut self, headphone: MacAddr, nonce: Nonce, now_ms: u64) -> (actions: Vec<Action>)
        requires
            !claim_overflows(old(self)@, now_ms),
        ensures
            (final(self)@, actions_view(actions@)) == claim_spec(old(self)@, headphone.0@, nonce@, now_ms),
    {
        if !matches!(self.phase, Phase::Idle) {
            return vec1(Action::Report(HandoffProgress::Busy));
        }
        let deadline_ms = now_ms + HANDOFF_DEADLINE_MS;
        self.phase = Phase::WaitingRelease { nonce, headphone, deadline_ms };
        vec2(
            Action::Report(HandoffProgress::Requesting),
            Action::Send(
                GroupMessage::HandoffRequest {
                    headphone: headphone.to_colon_string(),
                    nonce: nonce_to_hex(nonce),
                    deadline_ms,
                },
            ),
        )
    }

    /// Reacts to a message from a peer.
    pub fn on_message(&mut self, msg: &GroupMessage, now_ms: u64) -> (actions: Vec<Action>)
        requires
            !message_overflows(old(self)@, msg@, now_ms),
        ensures
            (final(self)@, actions_view(actions@)) == on_message_spec(old(self)@, msg@, now_ms),
    {
        match msg {
            GroupMessage::HandoffRequest { headphone, nonce, deadline_ms } => self.on_request(
                headphone.as_str(),
                nonce.as_str(),
                *deadline_ms,
                now_ms,
            ),
            GroupMessage::HandoffHasAudio { nonce } => self.on_peer_has_audio(nonce.as_str()),
            GroupMessage::HandoffReleased { nonce } => self.on_released(nonce.as_str()),
            GroupMessage::HandoffTaken { nonce } => self.on_taken(nonce.as_str()),
            GroupMessage::HandoffAbort { nonce, reason } => self.on_abort(nonce.as_str(), reason.as_str()),
            GroupMessage::HandoffBusy { nonce } => self.on_busy(nonce.as_str()),
            GroupMessage::HandoffNoAudio { nonce } => self.on_no_audio(nonce.as_str()),
            GroupMessage::Announce { .. } => no_actions(),
        }
    }

    /// The local audio went down: a releasing host tells the requester.
    pub fn on_audio_disconnected(&mut self) -> (actions: Vec<Action>)
        ensures
            (final(self)@, actions_view(actions@)) == on_audio_disconnected_spec(old(self)@),
    {
        match self.phase {
            Phase::Releasing { nonce, .. } => {
                self.has_audio = false;
                vec1(Action::Send(GroupMessage::HandoffReleased { nonce: nonce_to_hex(nonce) }))
            },
            _ => no_actions(),
        }
    }

    /// The local audio came up: a connecting host has taken the audio.
    pub fn on_audio_connected(&mut self) -> (actions: Vec<Action>)
        ensures
            (final(self)@, actions_view(actions@)) == on_audio_connected_spec(old(self)@),
    {
        match self.phase {
            Phase::ConnectingAudio { nonce, headphone } => {
                self.phase = Phase::Idle;
                self.has_audio = true;
                vec2(
                    Action::Send(GroupMessage::HandoffTaken { nonce: nonce_to_hex(nonce) }),
                    Action::Report(HandoffProgress::Done),
                )
            },
            _ => no_actions(),
        }
    }

    /// Getting the audio failed: abort the handoff.
    pub fn on_audio_failed(&mut self, reason: &str) -> (actions: Vec<Action>)
        ensures
            (final(self)@, actions_view(actions@)) == on_audio_failed_spec(old(self)@, reason@),
    {
        match self.phase {
            Phase::ConnectingAudio { nonce, headphone }
            | Phase::WaitingFallbackGap { nonce, headphone, .. }
            | Phase::WaitingRelease { nonce, headphone, .. } => {
                self.phase = Phase::Idle;
                vec3(
                    Action::Send(
                        GroupMessage::HandoffAbort { nonce: nonce_to_hex(nonce), reason: reason.to_owned() },
                    ),
                    Action::SuppressAutoreconnect { mac: headphone, suppress: false },
                    Action::Report(HandoffProgress::Failed(reason.to_owned())),
                )
            },
            _ => no_actions(),
        }
    }

    /// Lets deadlines that have passed take effect.
    pub fn tick(&mut self, now_ms: u64) -> (actions: Vec<Action>)
        requires
            !tick_overflows(old(self)@, now_ms),
        ensures
            (final(self)@, actions_view(actions@)) == tick_spec(old(self)@, now_ms),
    {
        match self.phase {
            Phase::WaitingRelease { nonce, headphone, deadline_ms } => {
                if now_ms >= deadline_ms {
                    self.fallback_or_fail(nonce, headphone, now_ms)
                } else {
                    no_actions()
                }
            },
            Phase::WaitingFallbackGap { nonce, headphone, ready_ms } => {
                if now_ms >= ready_ms {
                    self.phase = Phase::ConnectingAudio { nonce, headphone };
                    vec2(Action::Report(HandoffProgress::Connecting), Action::ConnectAudio(headphone))
                } else {
                    no_actions()
                }
            },
            Phase::Releasing { headphone, deadline_ms, .. } => {
                if now_ms >= deadline_ms {
                    self.phase = Phase::Idle;
                    vec2(
                        Action::SuppressAutoreconnect { mac: headphone, suppress: false },
                        Action::Report(HandoffProgress::Failed("释放音频超时".to_owned())),
                    )
                } else {
                    no_actions()
                }
            },
            _ => no_actions(),
        }
    }

    fn on_request(&mut self, headphone: &str, nonce_hex: &str, deadline_ms: u64, now_ms: u64) -> (actions: Vec<
        Action,
    >)
        requires
            !message_overflows(
                old(self)@,
                MessageView::HandoffRequest { headphone: headphone@, nonce: nonce_hex@, deadline_ms },
                now_ms,
            ),
        ensures
            (final(self)@, actions_view(actions@)) == on_request_spec(
                old(self)@,
                headphone@,
                nonce_hex@,
                deadline_ms,
                now_ms,
            ),
    {
        let mac = match MacAddr::parse(headphone) {
            Ok(m) => m,
            Err(_) => return no_actions(),
        };
        let nonce = match parse_nonce(nonce_hex) {
            Some(n) => n,
            None => return no_actions(),
        };
        if !matches!(self.phase, Phase::Idle) {
            return vec1(Action::Send(GroupMessage::HandoffBusy { nonce: nonce_hex.to_owned() }));
        }
        if !self.has_audio {
            return vec1(Action::Send(GroupMessage::HandoffNoAudio { nonce: nonce_hex.to_owned() }));
        }
        let until = now_ms + HANDOFF_DEADLINE_MS;
        let d = if deadline_ms >= until { deadline_ms } else { until };
        self.phase = Phase::Releasing { nonce, headphone: mac, deadline_ms: d };
        vec4(
            Action::Send(GroupMessage::HandoffHasAudio { nonce: nonce_hex.to_owned() }),
            Action::Report(HandoffProgress::Releasing),
            Action::SuppressAutoreconnect { mac, suppress: true },
            Action::DisconnectAudio(mac),
        )
    }

    fn on_peer_has_audio(&mut self, nonce_hex: &str) -> (actions: Vec<Action>)
        ensures
            (final(self)@, actions_view(actions@)) == on_message_spec(
                old(self)@,
                MessageView::HandoffHasAudio { nonce: nonce_hex@ },
                0,
            ),
    {
        if !self.nonce_matches(nonce_hex) {
            return no_actions();
        }
        if matches!(self.phase, Phase::WaitingRelease { .. }) {
            vec1(Action::Report(HandoffProgress::WaitingPeer))
        } else {
            no_actions()
        }
    }

    fn on_no_audio(&mut self, nonce_hex: &str) -> (actions: Vec<Action>)
        ensures
            (final(self)@, actions_view(actions@)) == on_message_spec(
                old(self)@,
                MessageView::HandoffNoAudio { nonce: nonce_hex@ },
                0,
            ),
    {
        if !self.nonce_matches(nonce_hex) {
            return no_actions();
        }
        match self.phase {
            Phase::WaitingRelease { nonce, headphone, .. } => self.fallback_or_connect(nonce, headphone),
            _ => no_actions(),
        }
    }

    fn on_released(&mut self, nonce_hex: &str) -> (actions: Vec<Action>)
        ensures
            (final(self)@, actions_view(actions@)) == on_message_spec(
                old(self)@,
                MessageView::HandoffReleased { nonce: nonce_hex@ },
                0,
            ),
    {
        if !self.nonce_matches(nonce_hex) {
            return no_actions();
        }
        match self.phase {
            Phase::WaitingRelease { nonce, headphone, .. } => {
                self.phase = Phase::ConnectingAudio { nonce, headphone };
                vec2(Action::Report(HandoffProgress::Connecting), Action::ConnectAudio(headphone))
            },
            _ => no_actions(),
        }
    }

    fn on_taken(&mut self, nonce_hex: &str) -> (actions: Vec<Action>)
        ensures
            (final(self)@, actions_view(actions@)) == on_message_spec(
                old(self)@,
                MessageView::HandoffTaken { nonce: nonce_hex@ },
                0,
            ),
    {
        if !self.nonce_matches(nonce_hex) {
            return no_actions();
        }
        if matches!(self.phase, Phase::Releasing { .. }) {
            self.phase = Phase::Idle;
            self.has_audio = false;
            vec1(Action::Report(HandoffProgress::Done))
        } else {
            no_actions()
        }
    }

    fn on_abort(&mut self, nonce_hex: &str, reason: &str) -> (actions: Vec<Action>)
        ensures
            (final(self)@, actions_view(actions@)) == on_message_spec(
                old(self)@,
                MessageView::HandoffAbort { nonce: nonce_hex@, reason: reason@ },
                0,
            ),
    {
        if !self.nonce_matches(nonce_hex) {
            return no_actions();
        }
        let mac: Option<MacAddr> = match self.phase {
            Phase::Releasing { headphone, .. }
            | Phase::WaitingRelease { headphone, .. }
            | Phase::ConnectingAudio { headphone, .. }
            | Phase::WaitingFallbackGap { headphone, .. } => Some(headphone),
            Phase::Idle => None,
        };
        self.phase = Phase::Idle;
        let mut actions = vec1(Action::Report(HandoffProgress::Failed(reason.to_owned())));
        if let Some(mac) = mac {
            let ghost before = actions_view(actions@);
            actions.push(Action::SuppressAutoreconnect { mac, suppress: false });
            assert(actions_view(actions@) =~= before.push(
                ActionView::SuppressAutoreconnect { mac: mac.0@, suppress: false },
            ));
        }
        actions
    }

    fn on_busy(&mut self, nonce_hex: &str) -> (actions: Vec<Action>)
        ensures
            (final(self)@, actions_view(actions@)) == on_message_spec(
                old(self)@,
                MessageView::HandoffBusy { nonce: nonce_hex@ },
                0,
            ),
    {
        if !self.nonce_matches(nonce_hex) {
            return no_actions();
        }
        self.phase = Phase::Idle;
        vec1(Action::Report(HandoffProgress::Busy))
    }

    fn fallback_or_fail(&mut self, nonce: Nonce, headphone: MacAddr, now_ms: u64) -> (actions: Vec<Action>)
        requires
            old(self).can_control_headset ==> now_ms + AUDIO_CONNECT_GAP_MS <= u64::MAX,
        ensures
            final(self).local_id == old(self).local_id,
            final(self).has_audio == old(self).has_audio,
            final(self).can_control_headset == old(self).can_control_headset,
            old(self).can_control_headset ==> final(self).phase@ == (PhaseView::WaitingFallbackGap {
                nonce: nonce@,
                headphone: headphone.0@,
                ready_ms: (now_ms + AUDIO_CONNECT_GAP_MS) as u64,
            }) && actions_view(actions@) == seq![
                ActionView::Report(ProgressView::FallbackCd),
                ActionView::SendHeadsetDisconnect,
            ],
            !old(self).can_control_headset ==> final(self).phase@ == PhaseView::Idle && actions_view(actions@)
                == seq![ActionView::Report(ProgressView::Failed(no_fallback_reason()))],
    {
        if self.can_control_headset {
            self.phase = Phase::WaitingFallbackGap { nonce, headphone, ready_ms: now_ms + AUDIO_CONNECT_GAP_MS };
            vec2(Action::Report(HandoffProgress::FallbackCd), Action::SendHeadsetDisconnect)
        } else {
            self.phase = Phase::Idle;
            vec1(Action::Report(HandoffProgress::Failed("对端未释放且本机无法控制耳机".to_owned())))
        }
    }

    fn fallback_or_connect(&mut self, nonce: Nonce, headphone: MacAddr) -> (actions: Vec<Action>)
        ensures
            final(self).local_id == old(self).local_id,
            final(self).has_audio == old(self).has_audio,
            final(self).can_control_headset == old(self).can_control_headset,
            final(self).phase@ == (PhaseView::ConnectingAudio { nonce: nonce@, headphone: headphone.0@ }),
            actions_view(actions@) == seq![
                ActionView::Report(ProgressView::Connecting),
                ActionView::ConnectAudio(headphone.0@),
            ],
    {
        self.phase = Phase::ConnectingAudio { nonce, headphone };
        vec2(Action::Report(HandoffProgress::Connecting), Action::ConnectAudio(headphone))
    }

    fn nonce_matches(&self, nonce_hex: &str) -> (r: bool)
        ensures
            r == nonce_matches_spec(self.phase@, nonce_hex@),
    {
        let current: Nonce = match self.phase {
            Phase::Idle => return false,
            Phase::WaitingRelease { nonce, .. }
            | Phase::WaitingFallbackGap { nonce, .. }
            | Phase::ConnectingAudio { nonce, .. }
            | Phase::Releasing { nonce, .. } => nonce,
        };
        match parse_nonce(nonce_hex) {
            Some(n) => {
                let mut i: usize = 0;
                while i < 16
                    invariant
                        i <= 16,
                        n@.len() == 16,
                        current@.len() == 16,
                        parse_nonce_spec(nonce_hex@) == Some(n@),
                        phase_nonce(self.phase@) == Some(current@),
                        forall|k: int| 0 <= k < i ==> n@[k] == current@[k],
                    decreases 16 - i,
                {
                    if n[i] != current[i] {
                        assert(n@[i as int] != current@[i as int]);
                        return false;
                    }
                    i = i + 1;
                }
                assert(n@ =~= current@);
                true
            },
            None => false,
        }
    }
}

/// Law: the handoff between two hosts. A requester claims the headphone; the
/// holder, on the request it sends, starts releasing and drops the audio; the
/// release notice moves the requester to connecting; once its audio is up it
/// holds the audio and sends the taken notice, which leaves the holder idle
/// without audio.
pub proof fn law_handoff_happy_path(
    requester: MachineView,
    holder: MachineView,
    headphone: Seq<u8>,
    nonce: Seq<u8>,
    t_claim: u64,
    t_request: u64,
    t_released: u64,
    t_taken: u64,
)
    requires
        headphone.len() == 6,
        nonce.len() == 16,
        requester.phase is Idle,
        holder.phase is Idle,
        holder.has_audio,
        t_claim + HANDOFF_DEADLINE_MS <= u64::MAX,
        t_request + HANDOFF_DEADLINE_MS <= u64::MAX,
    ensures
        ({
            let deadline = (t_claim + HANDOFF_DEADLINE_MS) as u64;
            let request = MessageView::HandoffRequest {
                headphone: colon_hex_spec(headphone),
                nonce: hex_lower_spec(nonce),
                deadline_ms: deadline,
            };
            let released = MessageView::HandoffReleased { nonce: hex_lower_spec(nonce) };
            let taken = MessageView::HandoffTaken { nonce: hex_lower_spec(nonce) };
            let (r1, a1) = claim_spec(requester, headphone, nonce, t_claim);
            let (h1, b1) = on_message_spec(holder, request, t_request);
            let (h2, b2) = on_audio_disconnected_spec(h1);
            let (r2, a2) = on_message_spec(r1, released, t_released);
            let (r3, a3) = on_audio_connected_spec(r2);
            let (h3, b3) = on_message_spec(h2, taken, t_taken);
            &&& a1[1] == ActionView::Send(request)
            &&& h1.phase matches PhaseView::Releasing { nonce: n, headphone: h, .. } && n == nonce && h == headphone
            &&& b1.contains(ActionView::DisconnectAudio(headphone))
            &&& b2 == seq![ActionView::Send(released)]
            &&& !h2.has_audio
            &&& r2.phase == PhaseView::ConnectingAudio { nonce, headphone }
            &&& a2 == seq![ActionView::Report(ProgressView::Connecting), ActionView::ConnectAudio(headphone)]
            &&& r3.phase is Idle && r3.has_audio
            &&& a3 == seq![ActionView::Send(taken), ActionView::Report(ProgressView::Done)]
            &&& h3.phase is Idle && !h3.has_audio
            &&& b3 == seq![ActionView::Report(ProgressView::Done)]
        }),
{
    law_mac_roundtrip(headphone);
    law_nonce_roundtrip(nonce);
    let (h1, b1) = on_message_spec(
        holder,
        MessageView::HandoffRequest {
            headphone: colon_hex_spec(headphone),
            nonce: hex_lower_spec(nonce),
            deadline_ms: (t_claim + HANDOFF_DEADLINE_MS) as u64,
        },
        t_request,
    );
    assert(b1[3] == ActionView::DisconnectAudio(headphone));
}

/// The nonce text a message carries, for messages that belong to a handoff
/// in progress.
pub open spec fn reply_nonce(msg: MessageView) -> Option<Seq<char>> {
    match msg {
        MessageView::HandoffHasAudio { nonce } => Some(nonce),
        MessageView::HandoffNoAudio { nonce } => Some(nonce),
        MessageView::HandoffReleased { nonce } => Some(nonce),
        MessageView::HandoffTaken { nonce } => Some(nonce),
        MessageView::HandoffAbort { nonce, .. } => Some(nonce),
        MessageView::HandoffBusy { nonce } => Some(nonce),
        _ => None,
    }
}

/// Law: a reply whose nonce is not that of the handoff in progress (every
/// reply, when the host is idle) changes nothing and asks for nothing.
pub proof fn law_foreign_reply_ignored(m: MachineView, msg: MessageView, now_ms: u64)
    requires
        reply_nonce(msg) matches Some(n) && !nonce_matches_spec(m.phase, n),
    ensures
        on_message_spec(m, msg, now_ms) == (m, Seq::<ActionView>::empty()),
{
}

/// The time at which `tick` acts on a phase, if it ever does.
pub open spec fn phase_due(p: PhaseView) -> Option<u64> {
    match p {
        PhaseView::WaitingRelease { deadline_ms, .. } => Some(deadline_ms),
        PhaseView::WaitingFallbackGap { ready_ms, .. } => Some(ready_ms),
        PhaseView::Releasing { deadline_ms, .. } => Some(deadline_ms),
        _ => None,
    }
}

/// Law: ticking before the phase's deadline (or in a phase without one)
/// changes nothing; ticking at or after it always leaves the phase.
pub proof fn law_tick_only_at_deadline(m: MachineView, now_ms: u64)
    ensures
        (phase_due(m.phase) matches Some(d) && now_ms >= d) ==> tick_spec(m, now_ms).0.phase != m.phase,
        !(phase_due(m.phase) matches Some(d) && now_ms >= d) ==> tick_spec(m, now_ms) == (
            m,
            Seq::<ActionView>::empty(),
        ),
{
}

/// Law: no message and no tick ever gives this host the audio; only a local
/// audio connection during a handoff does.
pub proof fn law_audio_only_by_connecting(m: MachineView, msg: MessageView, now_ms: u64, reason: Seq<char>)
    requires
        !m.has_audio,
    ensures
        !on_message_spec(m, msg, now_ms).0.has_audio,
        !tick_spec(m, now_ms).0.has_audio,
        !on_audio_failed_spec(m, reason).0.has_audio,
        !on_audio_disconnected_spec(m).0.has_audio,
        on_audio_connected_spec(m).0.has_audio <==> m.phase is ConnectingAudio,
{
}

/// Law: a host already in a handoff is not pulled into another one: neither
/// its own claim nor a peer's request changes its phase.
pub proof fn law_one_handoff_at_a_time(
    m: MachineView,
    headphone: Seq<u8>,
    nonce: Seq<u8>,
    msg: MessageView,
    now_ms: u64,
)
    requires
        m.phase !is Idle,
        msg is HandoffRequest,
    ensures
        claim_spec(m, headphone, nonce, now_ms).0 == m,
        on_message_spec(m, msg, now_ms).0 == m,
{
}

/// Law: how a host answers a well-formed request for the audio. A host in a
/// handoff of its own answers busy; an idle host that does not hold the
/// audio answers that it has none; either way the request's nonce text comes
/// back unchanged and the host itself does not change. Only an idle host
/// that holds the audio starts releasing it.
pub proof fn law_request_answers(
    m: MachineView,
    headphone: Seq<char>,
    nonce_hex: Seq<char>,
    deadline_ms: u64,
    now_ms: u64,
)
    requires
        parse_mac_spec(headphone) is Some,
        parse_nonce_spec(nonce_hex) is Some,
    ensures
        ({
            let (m2, out) = on_message_spec(
                m,
                MessageView::HandoffRequest { headphone, nonce: nonce_hex, deadline_ms },
                now_ms,
            );
            &&& m.phase !is Idle ==> m2 == m && out == seq![
                ActionView::Send(MessageView::HandoffBusy { nonce: nonce_hex }),
            ]
            &&& (m.phase is Idle && !m.has_audio) ==> m2 == m && out == seq![
                ActionView::Send(MessageView::HandoffNoAudio { nonce: nonce_hex }),
            ]
            &&& (m.phase is Idle && m.has_audio) ==> m2.phase is Releasing && out.len() == 4
                && out[0] == ActionView::Send(MessageView::HandoffHasAudio { nonce: nonce_hex })
        }),
{
}

/// Law: a handoff with a peer that does not hold the audio. The peer
/// answers the request that `claim` sends with "no audio" for the same nonce,
/// stays as it is, and on that answer the requester connects the headphone
/// at once.
pub proof fn law_no_audio_handoff(
    requester: MachineView,
    peer: MachineView,
    headphone: Seq<u8>,
    nonce: Seq<u8>,
    t_claim: u64,
    t_request: u64,
    t_reply: u64,
)
    requires
        headphone.len() == 6,
        nonce.len() == 16,
        requester.phase is Idle,
        peer.phase is Idle,
        !peer.has_audio,
        t_claim + HANDOFF_DEADLINE_MS <= u64::MAX,
    ensures
        ({
            let deadline = (t_claim + HANDOFF_DEADLINE_MS) as u64;
            let request = MessageView::HandoffRequest {
                headphone: colon_hex_spec(headphone),
                nonce: hex_lower_spec(nonce),
                deadline_ms: deadline,
            };
            let answer = MessageView::HandoffNoAudio { nonce: hex_lower_spec(nonce) };
            let (r1, a1) = claim_spec(requester, headphone, nonce, t_claim);
            let (p1, b1) = on_message_spec(peer, request, t_request);
            let (r2, a2) = on_message_spec(r1, answer, t_reply);
            &&& a1[1] == ActionView::Send(request)
            &&& p1 == peer
            &&& b1 == seq![ActionView::Send(answer)]
            &&& r2.phase == PhaseView::ConnectingAudio { nonce, headphone }
            &&& a2 == seq![ActionView::Report(ProgressView::Connecting), ActionView::ConnectAudio(headphone)]
        }),
{
    law_mac_roundtrip(headphone);
    law_nonce_roundtrip(nonce);
}

} // verus!
