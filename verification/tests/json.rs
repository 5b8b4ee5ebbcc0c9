use edifier::action_json::{actions_json_items, parse_mac, ActionJson, ProgressJson};
use edifier::audio::AudioState;
use edifier::command::{Command, NoiseMode, Playback};
use edifier::command_json::{CommandJson, EncodedCommand};
use edifier::event_json::{event_json, link_str, parse_kind, scan_json, EventJson, LinkKind, RuntimeEvent, ScanResult};
use edifier::handoff::{Action, HandoffMachine, HandoffProgress};
use edifier::mac::MacAddr;
use edifier::message::GroupMessage;
use edifier::notification::Notification;
use edifier::notify_json::{decoder_push_hex, parse_frame_hex, NotifyJson};
use edifier::packet::FrameDecoder;
use edifier::profile::{DeviceProfile, ProfileId};
use edifier::profiles_json::{plan_commands, profile_list, PlannedCommand, ProfileJson, SettingsView};
use edifier::settings::{SettingsCommand, SettingsFile};

#[test]
fn encode_noise_normal() {
    let op = CommandJson::SetNoiseMode { mode: "normal".to_string() };
    let out = EncodedCommand::from_op(op.clone()).unwrap();
    assert_eq!(out.hex, "AA02C1012187");
    assert_eq!(out.body, "C101");
    assert!(!out.destructive);
    assert_eq!(out.op, op);
}

#[test]
fn encode_refusals() {
    let bad_mode = CommandJson::SetNoiseMode { mode: "loud".to_string() };
    assert!(EncodedCommand::from_op(bad_mode).is_err());
    let bad_volume = CommandJson::SetAmbientVolume { volume: 9 };
    assert_eq!(EncodedCommand::from_op(bad_volume).unwrap_err(), "环境声音量超出 -3..=3");
    let power = EncodedCommand::from_op(CommandJson::PowerOff).unwrap();
    assert!(power.destructive);
}

#[test]
fn command_json_roundtrip_example() {
    for cmd in [
        Command::SetNoiseMode(NoiseMode::Ambient),
        Command::SetAmbientVolume(-2),
        Command::Playback(Playback::Next),
        Command::SetName("W820NB".to_string()),
        Command::Raw(vec![0xD0, 0x01]),
        Command::QueryFingerprint,
    ] {
        let j = CommandJson::from_command(&cmd).unwrap();
        assert_eq!(j.to_command().unwrap(), cmd);
    }
}

#[test]
fn parse_battery_frame() {
    let out = parse_frame_hex("BB02D04D21F3").unwrap();
    assert_eq!(out.dir, "rx");
    assert_eq!(out.head, 0xBB);
    assert_eq!(out.body, "D04D");
    assert_eq!(out.notification, Some(NotifyJson::Battery { percent: 77 }));
}

#[test]
fn parse_tx_frame_and_errors() {
    let out = parse_frame_hex("AA02C1012187").unwrap();
    assert_eq!(out.dir, "tx");
    assert_eq!(out.body, "C101");
    assert_eq!(out.notification, None);
    assert!(parse_frame_hex("AA02C1012188").unwrap_err().starts_with("校验和错误"));
    assert_eq!(parse_frame_hex("BB02D0").unwrap_err(), "帧不完整");
    assert_eq!(parse_frame_hex("B").unwrap_err(), "hex 长度必须是偶数");
    assert_eq!(parse_frame_hex("01BB").unwrap_err(), "意外的帧头 0x01");
}

#[test]
fn decoder_split_push() {
    let mut dec = FrameDecoder::new();
    let first = decoder_push_hex(&mut dec, "BB02D0").unwrap();
    assert!(first.is_empty());
    let second = decoder_push_hex(&mut dec, "4D21F3").unwrap();
    assert_eq!(second.len(), 1);
    assert_eq!(second[0].notification, Some(NotifyJson::Battery { percent: 77 }));
}

#[test]
fn notification_json_forms() {
    assert_eq!(
        NotifyJson::from_notification(&Notification::Mac([0x11, 0x22, 0x33, 0x44, 0x55, 0xAB])),
        NotifyJson::Mac { address: "11:22:33:44:55:AB".to_string() }
    );
    assert_eq!(
        NotifyJson::from_notification(&Notification::Firmware([0x03, 0x00, 0x0C])),
        NotifyJson::Firmware { version: "03.00.0C".to_string() }
    );
    assert_eq!(
        NotifyJson::from_notification(&Notification::Noise { mode: NoiseMode::Reduction, ambient_volume: -1 }),
        NotifyJson::Noise { mode: "reduction".to_string(), ambient_volume: -1 }
    );
    assert_eq!(
        NotifyJson::from_notification(&Notification::Unknown { head: 0xBB, body: vec![0x01, 0xFE] }),
        NotifyJson::Unknown { head: 0xBB, body: "01FE".to_string() }
    );
}

#[test]
fn profiles_include_w820nb() {
    let list = profile_list();
    assert!(list.iter().any(|p| p.id == "w820nb"));
    assert!(list.iter().any(|p| p.features.contains(&"noise")));
}

#[test]
fn profile_json_lists_supported_features() {
    let p = ProfileJson::from_profile(&DeviceProfile::by_id(ProfileId::W200BtPlus));
    assert_eq!(p.id, "w200btplus");
    assert_eq!(p.display_name, "W200BT Plus");
    assert_eq!(p.max_name_len, 24);
    assert_eq!(p.unique_service_uuid.as_deref(), Some("48092801-1a48-11e9-ab14-d663bd873d93"));
    assert_eq!(
        p.features,
        vec!["sound_effect", "auto_power_off", "prompt_volume", "shutdown_timer", "name", "playback"]
    );
    let g = ProfileJson::from_profile(&DeviceProfile::by_id(ProfileId::Generic));
    assert_eq!(g.unique_service_uuid, None);
    assert_eq!(g.features.len(), 11);
}

#[test]
fn settings_view_in_send_order() {
    let file = SettingsFile {
        version: 1,
        name: "w820nb".to_string(),
        commands: vec![
            SettingsCommand { cmd: "c101".to_string(), name: None, priority: 1 },
            SettingsCommand { cmd: "0901".to_string(), name: None, priority: 0 },
        ],
    };
    let view = SettingsView::from_file(file).unwrap();
    assert_eq!(view.version, 1);
    assert_eq!(view.name, "w820nb");
    assert_eq!(view.bodies, vec!["0901".to_string(), "C101".to_string()]);
    let bad = SettingsFile {
        version: 1,
        name: "x".to_string(),
        commands: vec![SettingsCommand { cmd: "0g".to_string(), name: None, priority: 0 }],
    };
    assert_eq!(SettingsView::from_file(bad).unwrap_err(), "非法 hex 字符");
}

#[test]
fn handoff_claim_emits_request() {
    let mut machine = HandoffMachine::new("host-b");
    let mac = parse_mac("11:22:33:44:55:66").unwrap();
    let actions = machine.claim(mac, [7u8; 16], 0);
    let items = actions_json_items(actions);
    assert_eq!(items[0], ActionJson::Report { progress: ProgressJson::Requesting });
    match &items[1] {
        ActionJson::Send { message: GroupMessage::HandoffRequest { headphone, nonce, deadline_ms } } => {
            assert_eq!(headphone, "11:22:33:44:55:66");
            assert_eq!(nonce, "07070707070707070707070707070707");
            assert_eq!(*deadline_ms, 2000);
        }
        other => panic!("{other:?}"),
    }
}

#[test]
fn action_json_forms() {
    let mac = MacAddr([0xAA, 0xBB, 0xCC, 0x01, 0x02, 0x03]);
    assert_eq!(
        ActionJson::from_action(Action::SuppressAutoreconnect { mac, suppress: true }),
        ActionJson::SuppressAutoreconnect { mac: "AA:BB:CC:01:02:03".to_string(), suppress: true }
    );
    assert_eq!(
        ActionJson::from_action(Action::Report(HandoffProgress::Failed("x".to_string()))),
        ActionJson::Report { progress: ProgressJson::Failed { reason: "x".to_string() } }
    );
    assert_eq!(parse_mac("nope").unwrap_err(), "MAC 地址格式无效");
}

#[test]
fn event_json_forms() {
    let ev = RuntimeEvent::BtState { connected: true, kind: Some(LinkKind::Ble), address: Some("AA".to_string()) };
    assert_eq!(
        event_json(&ev),
        EventJson::BtState { connected: true, link: Some("ble"), address: Some("AA".to_string()) }
    );
    assert_eq!(event_json(&RuntimeEvent::Audio(AudioState::Connecting)), EventJson::Audio { state: "connecting" });
    assert_eq!(
        event_json(&RuntimeEvent::Handoff(HandoffProgress::Busy)),
        EventJson::Handoff { progress: ProgressJson::Busy }
    );
    assert_eq!(
        event_json(&RuntimeEvent::Headset(Notification::Battery(5))),
        EventJson::Headset { notification: NotifyJson::Battery { percent: 5 } }
    );
    assert_eq!(link_str(LinkKind::Rfcomm), "rfcomm");
}

#[test]
fn scan_json_forms() {
    let list = vec![ScanResult {
        address: "11:22:33:44:55:66".to_string(),
        name: "W820NB".to_string(),
        kind: LinkKind::Rfcomm,
        service_uuid: None,
    }];
    let out = scan_json(&list);
    assert_eq!(out.len(), 1);
    assert_eq!(out[0].kind, "rfcomm");
    assert_eq!(out[0].name, "W820NB");
}

#[test]
fn link_kind_names() {
    assert_eq!(parse_kind("rfcomm"), Ok(LinkKind::Rfcomm));
    assert_eq!(parse_kind("ble"), Ok(LinkKind::Ble));
    assert_eq!(parse_kind("usb"), Err("kind 只能是 rfcomm 或 ble".to_string()));
}

#[test]
fn planned_commands() {
    let p = PlannedCommand::from_command(&Command::QueryBattery).unwrap();
    assert_eq!(p.label, "Battery");
    assert_eq!(p.body, "D0");
    assert_eq!(p.hex, "AA01D02194");
    assert_eq!(p.op, CommandJson::QueryBattery);
    assert_eq!(
        PlannedCommand::from_command(&Command::SetAmbientVolume(7)).unwrap_err(),
        "环境声音量超出 -3..=3"
    );
    assert_eq!(PlannedCommand::from_command(&Command::Raw(vec![0; 256])).unwrap_err(), "载荷超过 255 字节");
    let plan = plan_commands(&[Command::QueryBattery, Command::QueryNoise]).unwrap();
    assert_eq!(plan.len(), 2);
    assert!(plan_commands(&[Command::QueryBattery, Command::SetAmbientVolume(9)]).is_err());
}
