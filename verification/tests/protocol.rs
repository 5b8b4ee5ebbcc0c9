use edifier::command::{Command, ControlSettings, LdacMode, NoiseMode};
use edifier::constants::{RX_HEAD_BB, TX_HEAD};
use edifier::error::ProtocolError;
use edifier::notification::{parse_notification, Notification};
use edifier::packet::{
    append_checksum, checksum, encode_tx, parse_hex, split_ble_chunks, to_hex, tx_frame_body, verify_checksum,
    FrameDecoder,
};
use edifier::profile::{DeviceProfile, Feature, ProfileId};
use edifier::settings::{SettingsFile, SettingsShape, SETTINGS_FORMAT_VERSION};

fn frame_hex(cmd: Command) -> String {
    to_hex(&cmd.to_frame().unwrap())
}

fn decode_one(hex: &str) -> Notification {
    let raw = parse_hex(hex).unwrap();
    let mut dec = FrameDecoder::new();
    let frame = dec.push(&raw).remove(0).unwrap();
    parse_notification(&frame)
}

#[test]
fn captures_match_known_commands() {
    assert_eq!(frame_hex(Command::SetNoiseMode(NoiseMode::Normal)), "AA02C1012187");
    assert_eq!(frame_hex(Command::SetAmbientVolume(-3)), "AA03C10303218D");
    assert_eq!(frame_hex(Command::SetGameMode(true)), "AA02090120CF");
    assert_eq!(frame_hex(Command::SetLdac(LdacMode::Rate96k)), "AA0249022110");
    assert_eq!(frame_hex(Command::PowerOff), "AA01CE2192");
    assert_eq!(frame_hex(Command::FactoryReset), "AA010720CB");
    assert_eq!(frame_hex(Command::SetShutdownTimer { minutes: 60 }), "AA03D1003C21D3");
    assert_eq!(
        frame_hex(Command::SetControlSettings(ControlSettings { normal: true, reduction: true, ambient: true })),
        "AA03F10A0721C8"
    );
    assert_eq!(frame_hex(Command::QueryBattery), "AA01D02194");
    assert_eq!(frame_hex(Command::QueryControlSettings), "AA02F00A21BF");
}

#[test]
fn parse_battery() {
    assert_eq!(decode_one("BB02D04D21F3"), Notification::Battery(77));
}

#[test]
fn parse_game_mode_off() {
    assert_eq!(decode_one("BB02080020DE"), Notification::GameMode(false));
}

#[test]
fn parse_noise_and_ambient() {
    assert_eq!(
        decode_one("BB03CC010621AA"),
        Notification::Noise { mode: NoiseMode::Normal, ambient_volume: 0 }
    );
}

#[test]
fn parse_firmware() {
    assert_eq!(decode_one("BB04C603000221A3"), Notification::Firmware([0x03, 0x00, 0x02]));
}

#[test]
fn parse_shutdown_timer_minutes() {
    assert_eq!(decode_one("BB03D3000521AF"), Notification::ShutdownTimer { minutes: 5 });
}

#[test]
fn parse_ack_cc() {
    match decode_one("CC02CA0121B2") {
        Notification::Ack { head, body } => {
            assert_eq!(head, 0xCC);
            assert_eq!(body, vec![0xCA, 0x01]);
        }
        other => panic!("{other:?}"),
    }
}

#[test]
fn encode_noise_normal_matches_capture() {
    let frame = encode_tx(&[0xC1, 0x01]).unwrap();
    assert_eq!(to_hex(&frame), "AA02C1012187");
}

#[test]
fn encode_disconnect_matches_capture() {
    let frame = encode_tx(&[0xCD]).unwrap();
    assert_eq!(to_hex(&frame), "AA01CD2191");
}

#[test]
fn encode_name_utf8_matches_capture() {
    let mut body = vec![0xCA];
    body.extend_from_slice("中文测试".as_bytes());
    let frame = encode_tx(&body).unwrap();
    assert_eq!(to_hex(&frame), "AA0DCAE4B8ADE69687E6B58BE8AF952A38");
}

#[test]
fn decode_battery_response() {
    let raw = parse_hex("BB02D04D21F3").unwrap();
    let mut dec = FrameDecoder::new();
    let frames = dec.push(&raw);
    assert_eq!(frames.len(), 1);
    let frame = frames[0].as_ref().unwrap();
    assert_eq!(frame.head, RX_HEAD_BB);
    assert_eq!(frame.body, vec![0xD0, 0x4D]);
}

#[test]
fn decode_split_across_pushes() {
    let raw = parse_hex("BB02D04D21F3").unwrap();
    let mut dec = FrameDecoder::new();
    assert!(dec.push(&raw[..3]).is_empty());
    let frames = dec.push(&raw[3..]);
    assert_eq!(frames[0].as_ref().unwrap().body, vec![0xD0, 0x4D]);
}

#[test]
fn skip_unexpected_head() {
    let mut dec = FrameDecoder::new();
    let mut data = vec![0x00];
    data.extend(parse_hex("BB02D04D21F3").unwrap());
    let frames = dec.push(&data);
    assert!(matches!(frames[0], Err(ProtocolError::UnexpectedHead(0x00))));
    assert_eq!(frames[1].as_ref().unwrap().body, vec![0xD0, 0x4D]);
}

#[test]
fn ble_chunks_split_at_20() {
    let frame = vec![0u8; 25];
    let chunks = split_ble_chunks(&frame);
    assert_eq!(chunks.len(), 2);
    assert_eq!(chunks[0].len(), 20);
    assert_eq!(chunks[1].len(), 5);
}

#[test]
fn w820nb_hides_eq() {
    let p = DeviceProfile::by_id(ProfileId::W820Nb);
    assert!(!p.supports(Feature::SoundEffect));
    assert!(p.supports(Feature::Noise));
}

#[test]
fn identify_by_uuid() {
    let p = DeviceProfile::by_service_uuid("{48097901-1A48-11E9-AB14-D663BD873D93}").unwrap();
    assert_eq!(p.id, ProfileId::W820NbDoubleGold);
}

#[test]
fn export_roundtrip_priority() {
    let file = SettingsFile::from_commands(
        "w820nb",
        &[Command::SetNoiseMode(NoiseMode::Reduction), Command::SetLdac(LdacMode::Rate96k), Command::SetGameMode(true)],
    )
    .unwrap();
    let bodies = file.command_bodies().unwrap();
    assert_eq!(bodies[0], vec![0x09, 0x01]);
    assert_eq!(bodies[1], vec![0xC1, 0x02]);
    assert_eq!(bodies[2], vec![0x49, 0x02]);
}

// Checks of the library's own.

#[test]
fn checksum_starts_at_init_and_wraps() {
    assert_eq!(checksum(&[]), 8217);
    assert_eq!(checksum(&[0xAA, 0x01, 0xCD]), 0x2191);
    let big = vec![0xFFu8; 300];
    assert_eq!(checksum(&big), (8217u32 + 300 * 255) as u16);
}

#[test]
fn appended_checksum_verifies() {
    let mut frame = vec![TX_HEAD, 0x01, 0xD0];
    append_checksum(&mut frame);
    assert_eq!(frame, vec![0xAA, 0x01, 0xD0, 0x21, 0x94]);
    assert_eq!(verify_checksum(&frame), Ok(()));
}

#[test]
fn checksum_errors() {
    assert_eq!(verify_checksum(&[0x01]), Err(ProtocolError::Checksum { expected: 0, actual: 0 }));
    assert_eq!(
        verify_checksum(&[0xAA, 0x01, 0xD0, 0x21, 0x95]),
        Err(ProtocolError::Checksum { expected: 0x2194, actual: 0x2195 })
    );
}

#[test]
fn encode_rejects_long_body() {
    assert_eq!(encode_tx(&vec![0u8; 256]), Err(ProtocolError::PayloadTooLong));
    assert_eq!(encode_tx(&vec![0u8; 255]).unwrap().len(), 259);
}

#[test]
fn hex_errors_and_separators() {
    assert_eq!(parse_hex("a"), Err(ProtocolError::OddHexLength));
    assert_eq!(parse_hex("zz"), Err(ProtocolError::InvalidHex));
    assert_eq!(parse_hex("aa:bb-CC dd"), Ok(vec![0xAA, 0xBB, 0xCC, 0xDD]));
    assert_eq!(to_hex(&[0x00, 0xAB, 0x5F]), "00AB5F");
}

#[test]
fn hex_roundtrip_law_example() {
    let bytes = vec![0x00, 0x7F, 0x80, 0xFF, 0x12];
    assert_eq!(parse_hex(&to_hex(&bytes)).unwrap(), bytes);
}

#[test]
fn decoder_keeps_partial_and_clears() {
    let mut dec = FrameDecoder::new();
    assert!(dec.push(&[0xBB, 0x02]).is_empty());
    dec.clear();
    let frames = dec.push(&parse_hex("BB02D04D21F3").unwrap());
    assert_eq!(frames.len(), 1);
    assert!(frames[0].as_ref().unwrap().is_response());
}

#[test]
fn decoder_reports_bad_checksum() {
    let mut dec = FrameDecoder::new();
    let frames = dec.push(&parse_hex("BB02D04D21F4").unwrap());
    assert_eq!(frames.len(), 1);
    assert_eq!(frames[0], Err(ProtocolError::Checksum { expected: 0x21F3, actual: 0x21F4 }));
}

#[test]
fn name_notification_is_lossy_utf8() {
    let mut body = vec![0xC9];
    body.extend_from_slice("W820".as_bytes());
    body.push(0xFF);
    let mut rx = vec![0xBB, body.len() as u8];
    rx.extend_from_slice(&body);
    append_checksum(&mut rx);
    let mut dec = FrameDecoder::new();
    let f = dec.push(&rx).remove(0).unwrap();
    assert_eq!(parse_notification(&f), Notification::Name("W820\u{FFFD}".to_string()));
}

#[test]
fn ambient_volume_out_of_range() {
    assert_eq!(Command::SetAmbientVolume(4).to_body(), Err(ProtocolError::AmbientVolumeRange));
    assert_eq!(Command::SetAmbientVolume(3).to_body().unwrap(), vec![0xC1, 0x03, 0x09]);
}

#[test]
fn control_settings_mask_roundtrip() {
    for v in 0u8..8 {
        assert_eq!(ControlSettings::from_mask(v).mask(), v);
    }
    assert_eq!(ControlSettings::from_mask(0x0F).mask(), 0x07);
}

#[test]
fn profiles_lookup() {
    assert_eq!(DeviceProfile::by_key("generic").unwrap().id, ProfileId::Generic);
    assert_eq!(DeviceProfile::by_key("w200btplus").unwrap().display_name, "W200BT Plus");
    assert!(DeviceProfile::by_key("w999").is_none());
    assert_eq!(ProfileId::parse(ProfileId::W820NbDoubleGold.as_str()), Some(ProfileId::W820NbDoubleGold));
    assert_eq!(DeviceProfile::all().len(), 4);
    assert!(DeviceProfile::by_service_uuid("{00000000-0000-0000-0000-000000000000}").is_none());
    assert!(DeviceProfile::looks_like_edifier_ble_service("48090001-1A48-11E9-AB14-D663BD873D93"));
    assert!(DeviceProfile::looks_like_edifier_ble_service("00001000-0000-1000-8991-00805F9B34FB"));
    assert!(!DeviceProfile::looks_like_edifier_ble_service("0000110b-0000-1000-8000-00805f9b34fb"));
}

#[test]
fn check_name_limit() {
    let p = DeviceProfile::by_id(ProfileId::W820Nb);
    assert_eq!(p.check_name("abcdefghijklmnopqrstuvwx"), Ok(()));
    assert_eq!(p.check_name("abcdefghijklmnopqrstuvwxy"), Err(ProtocolError::NameTooLong(24)));
    // the limit counts bytes: eight three-byte characters fill it
    assert_eq!(p.check_name("中文测试中文测试"), Ok(()));
    assert_eq!(p.check_name("中文测试中文测试中"), Err(ProtocolError::NameTooLong(24)));
}

#[test]
fn error_messages() {
    assert_eq!(ProtocolError::NameTooLong(24).message(), "名称超过机型上限 24 字节");
    assert_eq!(ProtocolError::UnexpectedHead(0x0A).message(), "意外的帧头 0x0A");
}

#[test]
fn import_medifier_file_without_version() {
    let shape = SettingsShape { is_object: true, version: None, has_commands_array: true, has_name: true };
    let upgrade = SettingsFile::plan_migration(&shape).unwrap();
    assert_eq!(upgrade.version, SETTINGS_FORMAT_VERSION);
    assert_eq!(upgrade.default_name, None);
    let file = SettingsFile {
        version: upgrade.version,
        name: "w820nbdoublegold".to_string(),
        commands: vec![
            edifier::settings::SettingsCommand {
                cmd: "c101".to_string(),
                name: Some("Noise Reduction".to_string()),
                priority: 1,
            },
            edifier::settings::SettingsCommand { cmd: "4902".to_string(), name: Some("LDAC".to_string()), priority: 2 },
            edifier::settings::SettingsCommand { cmd: "0901".to_string(), name: None, priority: 0 },
        ],
    };
    assert_eq!(file.version, SETTINGS_FORMAT_VERSION);
    let bodies = file.command_bodies().unwrap();
    assert_eq!(bodies[0], vec![0x09, 0x01]);
    assert_eq!(bodies[1], vec![0xC1, 0x01]);
    assert_eq!(bodies[2], vec![0x49, 0x02]);
}

#[test]
fn migration_errors() {
    let not_object = SettingsShape { is_object: false, version: None, has_commands_array: true, has_name: true };
    assert_eq!(SettingsFile::plan_migration(&not_object).err(), Some(ProtocolError::SettingsNotObject));
    let newer = SettingsShape { is_object: true, version: Some(2), has_commands_array: true, has_name: true };
    assert_eq!(SettingsFile::plan_migration(&newer).err(), Some(ProtocolError::SettingsVersion(2)));
    let no_commands = SettingsShape { is_object: true, version: Some(1), has_commands_array: false, has_name: true };
    assert_eq!(SettingsFile::plan_migration(&no_commands).err(), Some(ProtocolError::SettingsMissingCommands));
    let no_name = SettingsShape { is_object: true, version: None, has_commands_array: true, has_name: false };
    assert_eq!(SettingsFile::plan_migration(&no_name).unwrap().default_name, Some("basedevice"));
}

#[test]
fn command_bodies_skip_empty_and_fail_on_bad_hex() {
    let file = SettingsFile {
        version: 1,
        name: "basedevice".to_string(),
        commands: vec![
            edifier::settings::SettingsCommand { cmd: String::new(), name: None, priority: 0 },
            edifier::settings::SettingsCommand { cmd: "D0".to_string(), name: None, priority: 9 },
        ],
    };
    assert_eq!(file.command_bodies().unwrap(), vec![vec![0xD0]]);
    let bad = SettingsFile {
        version: 1,
        name: "basedevice".to_string(),
        commands: vec![edifier::settings::SettingsCommand { cmd: "D".to_string(), name: None, priority: 0 }],
    };
    assert_eq!(bad.command_bodies(), Err(ProtocolError::OddHexLength));
}

#[test]
fn tx_body_of_host_frames() {
    assert_eq!(tx_frame_body(&parse_hex("AA02C1012187").unwrap()), Ok(vec![0xC1, 0x01]));
    assert_eq!(tx_frame_body(&[0x20, 0x19]), Ok(vec![]));
    assert_eq!(tx_frame_body(&[0x01]), Err(ProtocolError::Checksum { expected: 0, actual: 0 }));
}

#[test]
fn name_notification_valid_utf8() {
    let mut rx = vec![0xBB, 0x02, 0xC9, 0x41];
    append_checksum(&mut rx);
    let mut dec = FrameDecoder::new();
    let f = dec.push(&rx).remove(0).unwrap();
    assert_eq!(parse_notification(&f), Notification::Name("A".to_string()));
}

#[test]
fn hex_lower_roundtrip_example() {
    let bytes = vec![0xAB, 0xCD, 0x0F];
    assert_eq!(parse_hex(&to_hex(&bytes).to_ascii_lowercase()).unwrap(), bytes);
}
