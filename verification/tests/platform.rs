use std::cell::RefCell;

use edifier::addr::{format_addr, from_u64, parse_addr, parse_u64};
use edifier::audio::AudioState;
use edifier::ble::{choose_characteristics, choose_service, is_rx, is_tx, link_service, scan_service_uuid};
use edifier::bluez::{
    already_settled, device_paths, observe, request_method, request_result, BusObject, CallOutcome, DeviceProps,
    TransportProps,
};
use edifier::endpoint_audio::{self, add_container, classify_endpoint, system_audio_state, Endpoint, EndpointState};
use edifier::services::{last_failure, release_result, AudioService, ServiceControl, ServiceState};
use edifier::transport_audio::{self, Transport, A2DP_SINK, A2DP_SOURCE};

#[test]
fn roundtrip() {
    let s = "11:22:33:44:55:66";
    assert_eq!(from_u64(parse_u64(s).unwrap()), s);
}

#[test]
fn addr_packing() {
    assert_eq!(parse_addr("11:22:33:44:55:66"), Ok(0x1122_3344_5566));
    assert_eq!(format_addr(0xAABB_CCDD_EEFF), "AA:BB:CC:DD:EE:FF");
    assert_eq!(from_u64(0xFFFF_0000_0000_0001), "00:00:00:00:00:01");
    assert_eq!(parse_u64("bad"), Err("MAC 地址格式无效".to_string()));
}

#[test]
fn missing_or_unplugged_endpoints_cannot_confirm_release() {
    assert_eq!(endpoint_audio::audio_state(&[]), AudioState::Unknown);
    assert_eq!(endpoint_audio::audio_state(&[EndpointState::Unknown]), AudioState::Unknown);
    assert_eq!(endpoint_audio::audio_state(&[EndpointState::Disconnected]), AudioState::Unknown);
    assert_eq!(endpoint_audio::audio_state(&[EndpointState::Disconnected, EndpointState::Unknown]), AudioState::Unknown);
}

#[test]
fn any_active_endpoint_keeps_audio_connected() {
    assert_eq!(endpoint_audio::audio_state(&[EndpointState::Disconnected, EndpointState::Active]), AudioState::Connected);
}

#[test]
fn all_a2dp_transport_states_mean_connected() {
    for uuid in [A2DP_SINK, A2DP_SOURCE] {
        for state in ["idle", "pending", "active"] {
            assert_eq!(
                transport_audio::audio_state(&[Transport { uuid: Some(uuid), state: Some(state) }], false),
                AudioState::Connected
            );
        }
    }
}

#[test]
fn missing_and_unrecognized_properties_are_unknown() {
    for (uuid, state) in [(None, Some("active")), (Some(A2DP_SINK), None), (Some(A2DP_SINK), Some("unexpected"))] {
        assert_eq!(transport_audio::audio_state(&[Transport { uuid, state }], false), AudioState::Unknown);
    }
}

#[test]
fn no_a2dp_transport_requires_acl_disconnection_to_confirm_release() {
    assert_eq!(transport_audio::audio_state(&[], true), AudioState::Disconnected);
    assert_eq!(transport_audio::audio_state(&[], false), AudioState::Unknown);
    assert_eq!(
        transport_audio::audio_state(
            &[Transport { uuid: Some("0000111e-0000-1000-8000-00805f9b34fb"), state: Some("active") }],
            false
        ),
        AudioState::Unknown
    );
}

#[test]
fn a2dp_uuid_ignores_case() {
    let upper = "0000110B-0000-1000-8000-00805F9B34FB";
    assert_eq!(transport_audio::audio_state(&[Transport { uuid: Some(upper), state: Some("idle") }], false), AudioState::Connected);
    assert_eq!(transport_audio::audio_state(&[Transport { uuid: Some(upper), state: Some("IDLE") }], true), AudioState::Disconnected);
}

#[derive(Default)]
struct Backend {
    enabled: RefCell<Vec<AudioService>>,
    fail: RefCell<Option<(AudioService, bool)>>,
}

impl ServiceControl for Backend {
    fn enabled(&self, _address: &str) -> Result<Vec<AudioService>, String> {
        Ok(self.enabled.borrow().clone())
    }

    fn set(&self, _address: &str, service: AudioService, enable: bool) -> Result<(), String> {
        if *self.fail.borrow() == Some((service, enable)) {
            return Err("模拟服务失败".into());
        }
        let mut enabled = self.enabled.borrow_mut();
        enabled.retain(|value| *value != service);
        if enable {
            enabled.push(service);
        }
        Ok(())
    }
}

#[test]
fn initial_connect_does_not_enable_handsfree() {
    let backend = Backend::default();
    ServiceState::default().restore(&backend, "a", true).unwrap();
    assert_eq!(*backend.enabled.borrow(), vec![AudioService::A2dp]);
}

#[test]
fn repeated_disconnect_preserves_original_services_for_leave() {
    let backend = Backend::default();
    *backend.enabled.borrow_mut() = vec![AudioService::A2dp, AudioService::Handsfree];
    let mut state = ServiceState::default();
    state.disconnect(&backend, "a").unwrap();
    state.disconnect(&backend, "a").unwrap();
    assert!(backend.enabled.borrow().is_empty());
    state.restore(&backend, "a", false).unwrap();
    assert_eq!(*backend.enabled.borrow(), vec![AudioService::A2dp, AudioService::Handsfree]);
    assert!(state.is_empty());
}

#[test]
fn partial_disable_and_restore_errors_keep_retryable_snapshot() {
    let backend = Backend::default();
    *backend.enabled.borrow_mut() = vec![AudioService::A2dp, AudioService::Headset];
    *backend.fail.borrow_mut() = Some((AudioService::Headset, false));
    let mut state = ServiceState::default();
    assert!(state.disconnect(&backend, "a").is_err());
    assert_eq!(*backend.enabled.borrow(), vec![AudioService::Headset]);
    *backend.fail.borrow_mut() = Some((AudioService::A2dp, true));
    assert!(state.restore(&backend, "a", false).is_err());
    assert!(state.snapshot("a").is_some());
    *backend.fail.borrow_mut() = None;
    state.restore(&backend, "a", false).unwrap();
    assert_eq!(*backend.enabled.borrow(), vec![AudioService::A2dp, AudioService::Headset]);
}

#[test]
fn empty_snapshot_and_unrelated_address_do_not_enable_services() {
    let backend = Backend::default();
    let mut state = ServiceState::default();
    state.disconnect(&backend, "a").unwrap();
    state.restore(&backend, "other", false).unwrap();
    state.restore(&backend, "a", false).unwrap();
    assert!(backend.enabled.borrow().is_empty());
}

#[test]
fn record_keeps_first_snapshot() {
    let mut state = ServiceState::new();
    state.record("a", &[AudioService::Handsfree, AudioService::A2dp]);
    state.record("a", &[AudioService::A2dp, AudioService::Headset]);
    state.record("b", &[]);
    assert_eq!(
        state.snapshot("a"),
        Some(vec![AudioService::Handsfree, AudioService::A2dp, AudioService::Headset])
    );
    assert_eq!(state.snapshot("b"), Some(vec![]));
    assert_eq!(state.restore_targets("c", true), Some(vec![AudioService::A2dp]));
    assert_eq!(state.restore_targets("c", false), None);
    state.forget("a");
    assert_eq!(state.snapshot("a"), None);
    assert!(!state.is_empty());
}

fn device_object(path: &str, address: &str, connected: bool) -> BusObject {
    BusObject {
        path: path.to_string(),
        device: Some(DeviceProps { address: Some(address.to_string()), connected: Some(connected) }),
        transport: None,
    }
}

fn transport_object(path: &str, device: &str, state: &str) -> BusObject {
    BusObject {
        path: path.to_string(),
        device: None,
        transport: Some(TransportProps {
            device: Some(device.to_string()),
            uuid: Some(A2DP_SINK.to_string()),
            state: Some(state.to_string()),
        }),
    }
}

#[test]
fn acl_alone_does_not_prove_audio_and_other_devices_do_not_count() {
    let device = "/org/bluez/hci0/dev_11_22_33_44_55_66";
    let other = "/org/bluez/hci0/dev_AA_BB_CC_DD_EE_FF";
    let mut objects = vec![
        device_object(device, "11:22:33:44:55:66", true),
        transport_object(&format!("{other}/fd0"), other, "active"),
    ];
    let paths = device_paths(&objects, "11:22:33:44:55:66").unwrap();
    assert_eq!(observe(&objects, &paths), AudioState::Unknown);
    objects[0].device.as_mut().unwrap().connected = Some(false);
    assert_eq!(observe(&objects, &paths), AudioState::Disconnected);
    assert!(device_paths(&objects, "00:00:00:00:00:00").is_err());
    objects.push(transport_object(&format!("{device}/fd0"), device, "idle"));
    assert_eq!(observe(&objects, &paths), AudioState::Connected);
}

#[test]
fn device_paths_sorted_and_case_blind() {
    let objects = vec![
        device_object("/org/bluez/hci1/dev_11_22_33_44_55_66", "11:22:33:44:55:66", true),
        device_object("/org/bluez/hci0/dev_11_22_33_44_55_66", "11:22:33:44:55:66", true),
        device_object("/org/bluez/hci0/dev_AA_BB_CC_DD_EE_FF", "AA:BB:CC:DD:EE:FF", true),
    ];
    assert_eq!(
        device_paths(&objects, "11:22:33:44:55:66").unwrap(),
        vec!["/org/bluez/hci0/dev_11_22_33_44_55_66".to_string(), "/org/bluez/hci1/dev_11_22_33_44_55_66".to_string()]
    );
    assert_eq!(
        device_paths(&objects, "aa:bb:cc:dd:ee:ff").unwrap(),
        vec!["/org/bluez/hci0/dev_AA_BB_CC_DD_EE_FF".to_string()]
    );
    assert_eq!(device_paths(&objects, "00:11:22:33:44:55"), Err("BlueZ 没有设备 00:11:22:33:44:55".to_string()));
}

#[test]
fn transport_without_device_property_is_not_a2dp() {
    let device = "/org/bluez/hci0/dev_11_22_33_44_55_66";
    let objects = vec![
        device_object(device, "11:22:33:44:55:66", true),
        BusObject {
            path: format!("{device}/fd1"),
            device: None,
            transport: Some(TransportProps {
                device: None,
                uuid: Some(A2DP_SINK.to_string()),
                state: Some("active".to_string()),
            }),
        },
    ];
    let paths = device_paths(&objects, "11:22:33:44:55:66").unwrap();
    assert_eq!(observe(&objects, &paths), AudioState::Unknown);
}

#[test]
fn set_connected_decisions() {
    assert!(already_settled(AudioState::Connected, true));
    assert!(already_settled(AudioState::Disconnected, false));
    assert!(!already_settled(AudioState::Unknown, true));
    assert!(!already_settled(AudioState::Connected, false));
    assert_eq!(request_method(true), "ConnectProfile");
    assert_eq!(request_method(false), "Disconnect");
    let fail = |nc: bool, m: &str| CallOutcome::Failed { not_connected: nc, message: m.to_string() };
    assert_eq!(request_result(true, &[fail(false, "x"), CallOutcome::Done]), Ok(()));
    assert_eq!(request_result(true, &[fail(false, "x"), fail(true, "y")]), Err("y".to_string()));
    assert_eq!(request_result(false, &[fail(true, "x"), CallOutcome::Done]), Ok(()));
    assert_eq!(request_result(false, &[fail(false, "x"), CallOutcome::Done, fail(true, "z")]), Err("x".to_string()));
    assert_eq!(request_result(true, &[]), Ok(()));
}

#[test]
fn endpoint_states_and_system_state() {
    assert_eq!(classify_endpoint(1), EndpointState::Active);
    assert_eq!(classify_endpoint(2), EndpointState::Unknown);
    assert_eq!(classify_endpoint(4), EndpointState::Disconnected);
    assert_eq!(classify_endpoint(8), EndpointState::Disconnected);
    let ours = 0x1234u128;
    let endpoints = [
        Endpoint { container: Some(0x9999), state: 1 },
        Endpoint { container: Some(ours), state: 8 },
    ];
    assert_eq!(system_audio_state(false, &[ours], &endpoints), AudioState::Disconnected);
    assert_eq!(system_audio_state(true, &[ours], &endpoints), AudioState::Unknown);
    assert_eq!(system_audio_state(true, &[], &[]), AudioState::Unknown);
    let active = [Endpoint { container: Some(ours), state: 1 }];
    assert_eq!(system_audio_state(true, &[ours], &active), AudioState::Connected);
    let unreadable = [Endpoint { container: None, state: 1 }];
    assert_eq!(system_audio_state(true, &[ours], &unreadable), AudioState::Unknown);
}

#[test]
fn containers_skip_empty_and_repeated_ids() {
    let mut c = Vec::new();
    add_container(&mut c, 0);
    add_container(&mut c, 5);
    add_container(&mut c, 7);
    add_container(&mut c, 5);
    assert_eq!(c, vec![5, 7]);
}

#[test]
fn ble_characteristics_and_service() {
    assert!(is_tx("48090003-1a48-11e9-ab14-d663bd873d93"));
    assert!(is_tx("00001000-0000-1000-8993-00805f9b34fb"));
    assert!(is_rx("48090002-1a48-11e9-ab14-d663bd873d93"));
    assert!(is_rx("00001000-0000-1000-8992-00805f9b34fb"));
    assert!(!is_tx("0000110b-0000-1000-8000-00805f9b34fb"));
    let services = vec![
        "00001800-0000-1000-8000-00805F9B34FB".to_string(),
        "{48093801-1A48-11E9-AB14-D663BD873D93}".to_string(),
    ];
    assert_eq!(choose_service(&services), Some(1));
    assert_eq!(link_service("AA", &services), Ok(1));
    assert_eq!(
        scan_service_uuid(&services),
        Some("48093801-1a48-11e9-ab14-d663bd873d93".to_string())
    );
    assert_eq!(
        link_service("AA", &services[..1]),
        Err("设备 AA 没有漫步者 BLE 服务, Windows 随机 MAC 时请改用 RFCOMM".to_string())
    );
    let chars = vec![
        "48093802-1A48-11E9-AB14-D663BD873D93".to_string(),
        "48093803-1A48-11E9-AB14-D663BD873D93".to_string(),
        "00002A05-0000-1000-8000-00805F9B34FB".to_string(),
    ];
    assert_eq!(choose_characteristics(&chars), Ok((1, 0)));
    assert_eq!(choose_characteristics(&chars[..1]), Err("未找到 BLE 写特征".to_string()));
    assert_eq!(choose_characteristics(&chars[1..]), Err("未找到 BLE 通知特征".to_string()));
}

#[test]
fn reported_audio_states() {
    assert_eq!(AudioState::from_reported("connected"), AudioState::Connected);
    assert_eq!(AudioState::from_reported("connecting"), AudioState::Connecting);
    assert_eq!(AudioState::from_reported("disconnected"), AudioState::Disconnected);
    assert_eq!(AudioState::from_reported("CONNECTED"), AudioState::Unknown);
    assert_eq!(AudioState::from_macos_reported("connected"), AudioState::Connected);
    assert_eq!(AudioState::from_macos_reported("unknown"), AudioState::Disconnected);
    for s in [AudioState::Unknown, AudioState::Disconnected, AudioState::Connecting, AudioState::Connected] {
        assert_eq!(AudioState::from_reported(s.as_str()), s);
    }
}

#[test]
fn release_errors_combine() {
    assert_eq!(release_result(Ok(()), Ok(())), Ok(()));
    assert_eq!(release_result(Err("a".into()), Ok(())), Err("a".to_string()));
    assert_eq!(release_result(Ok(()), Err("b".into())), Err("b".to_string()));
    assert_eq!(
        release_result(Err("a".into()), Err("b".into())),
        Err("关闭音频服务失败: a; 断开 ACL 失败: b".to_string())
    );
}

#[test]
fn last_failure_folds_outcomes() {
    assert_eq!(last_failure(&[]), Ok(()));
    assert_eq!(last_failure(&[Ok(()), Ok(())]), Ok(()));
    assert_eq!(last_failure(&[Err("a".into()), Ok(()), Err("b".into()), Ok(())]), Err("b".to_string()));
}

#[test]
fn restore_tries_every_service_and_keeps_last_error() {
    let backend = Backend::default();
    *backend.enabled.borrow_mut() = vec![AudioService::A2dp, AudioService::Handsfree, AudioService::Headset];
    let mut state = ServiceState::default();
    state.disconnect(&backend, "a").unwrap();
    *backend.fail.borrow_mut() = Some((AudioService::A2dp, true));
    assert_eq!(state.restore(&backend, "a", false), Err("模拟服务失败".to_string()));
    assert_eq!(*backend.enabled.borrow(), vec![AudioService::Handsfree, AudioService::Headset]);
    assert!(state.snapshot("a").is_some());
}
